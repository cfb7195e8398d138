//! Comparison of commands and modes with the value of a register.
use vstd::prelude::*;

use crate::command::Command;
use crate::Mode;

verus! {

impl PartialEq<u32> for Command {
    fn eq(&self, other: &u32) -> (r: bool) {
        self.matches_register(*other)
    }
}

impl vstd::std_specs::cmp::PartialEqSpecImpl<u32> for Command {
    open spec fn obeys_eq_spec() -> bool {
        true
    }

    open spec fn eq_spec(&self, other: &u32) -> bool {
        self.spec_code() == *other
    }
}

impl PartialEq<u32> for Mode {
    fn eq(&self, other: &u32) -> (r: bool) {
        self.matches_register(*other)
    }
}

impl vstd::std_specs::cmp::PartialEqSpecImpl<u32> for Mode {
    open spec fn obeys_eq_spec() -> bool {
        true
    }

    open spec fn eq_spec(&self, other: &u32) -> bool {
        self.spec_code() == *other
    }
}

} // verus!
