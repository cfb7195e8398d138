//! Interrupt events: the flags of a port, the snapshot that is published
//! for all ports, and the switch that masks ports.
use vstd::prelude::*;

use crate::error::{PdError, PortId, MAX_SUPPORTED_PORTS};

verus! {

/// Address of the interrupt event register
pub const REG_INT_EVENT_BUS1: u8 = 0x14;

/// Address of the interrupt clear register
pub const REG_INT_CLEAR_BUS1: u8 = 0x18;

/// Length of the interrupt event and clear registers in bytes
pub const INT_EVENT_LEN: usize = 11;

/// Position of the flag that says that the command in the first command
/// register has completed
pub const CMD1_COMPLETED_BIT: usize = 30;

/// Whether bit `k` of a byte is set.
pub open spec fn byte_bit(b: u8, k: nat) -> bool {
    (b >> (k as u8)) & 1 == 1
}

/// The interrupt events of one port, one bit each, as the interrupt event
/// register holds them: event `i` is bit `i % 8` of byte `i / 8`.
#[derive(Debug, Clone, Copy, PartialEq, Eq)]
pub struct IntEventFlags {
    pub bits: [u8; 11],
}

impl View for IntEventFlags {
    type V = Seq<u8>;

    open spec fn view(&self) -> Seq<u8> {
        self.bits@
    }
}

/// The bytes of two sets of events taken together: every event that is in
/// one of them.
pub open spec fn spec_union(a: Seq<u8>, b: Seq<u8>) -> Seq<u8>
    recommends
        a.len() == b.len(),
{
    Seq::new(a.len(), |i: int| a[i] | b[i])
}

/// The bytes of the events of `a` that are not in `b`.
pub open spec fn spec_without(a: Seq<u8>, b: Seq<u8>) -> Seq<u8>
    recommends
        a.len() == b.len(),
{
    Seq::new(a.len(), |i: int| a[i] & !b[i])
}

/// The bytes of no event at all.
pub open spec fn spec_zero() -> Seq<u8> {
    Seq::new(INT_EVENT_LEN as nat, |i: int| 0u8)
}

impl IntEventFlags {
    /// Whether event `i` is set.
    pub open spec fn has(self, i: nat) -> bool {
        i < 8 * INT_EVENT_LEN && byte_bit(self@[(i / 8) as int], i % 8)
    }

    /// Whether no event is set.
    pub open spec fn spec_is_zero(self) -> bool {
        self@ == spec_zero()
    }

    /// No event.
    pub fn new_zero() -> (r: Self)
        ensures
            r@ == spec_zero(),
    {
        let r = IntEventFlags { bits: [0u8; 11] };
        assert(r@ =~= spec_zero());
        r
    }

    /// Whether no event is set.
    pub fn is_zero(&self) -> (r: bool)
        ensures
            r == self.spec_is_zero(),
    {
        let mut i: usize = 0;
        while i < INT_EVENT_LEN
            invariant
                i <= INT_EVENT_LEN,
                forall|j: int| 0 <= j < i ==> self.bits@[j] == 0,
            decreases INT_EVENT_LEN - i,
        {
            if self.bits[i] != 0 {
                assert(spec_zero()[i as int] == 0);
                return false;
            }
            i = i + 1;
        }
        assert(self@ =~= spec_zero());
        true
    }

    /// The events that are in `self` or in `other`.
    pub fn union(&self, other: &IntEventFlags) -> (r: IntEventFlags)
        ensures
            r@ == spec_union(self@, other@),
    {
        let mut bits: [u8; 11] = [0u8; 11];
        let mut i: usize = 0;
        while i < INT_EVENT_LEN
            invariant
                i <= INT_EVENT_LEN,
                forall|j: int| 0 <= j < i ==> bits@[j] == self.bits@[j] | other.bits@[j],
            decreases INT_EVENT_LEN - i,
        {
            bits[i] = self.bits[i] | other.bits[i];
            i = i + 1;
        }
        let r = IntEventFlags { bits };
        assert(r@ =~= spec_union(self@, other@));
        r
    }

    /// Whether event `index` is set. Events beyond the register are never
    /// set.
    pub fn bit(&self, index: usize) -> (r: bool)
        ensures
            r == self.has(index as nat),
    {
        if index >= 8 * INT_EVENT_LEN {
            return false;
        }
        let shift: u8 = (index % 8) as u8;
        (self.bits[index / 8] >> shift) & 1 == 1
    }

    /// Whether the command in the first command register has completed.
    pub fn cmd_1_completed(&self) -> (r: bool)
        ensures
            r == self.has(CMD1_COMPLETED_BIT as nat),
    {
        self.bit(CMD1_COMPLETED_BIT)
    }

    /// The events that the bytes read from the interrupt event register
    /// say: the first eleven bytes. Fewer bytes are refused.
    pub fn from_register(bytes: &[u8]) -> (r: Result<IntEventFlags, PdError>)
        ensures
            r is Ok <==> bytes@.len() >= INT_EVENT_LEN,
            r is Err ==> r == Err::<IntEventFlags, PdError>(PdError::InvalidParams),
            r matches Ok(f) ==> f@ == bytes@.subrange(0, INT_EVENT_LEN as int),
    {
        if bytes.len() < INT_EVENT_LEN {
            return Err(PdError::InvalidParams);
        }
        let mut bits: [u8; 11] = [0u8; 11];
        let mut i: usize = 0;
        while i < INT_EVENT_LEN
            invariant
                i <= INT_EVENT_LEN,
                bytes@.len() >= INT_EVENT_LEN,
                forall|j: int| 0 <= j < i ==> bits@[j] == bytes@[j],
            decreases INT_EVENT_LEN - i,
        {
            bits[i] = bytes[i];
            i = i + 1;
        }
        let r = IntEventFlags { bits };
        assert(r@ =~= bytes@.subrange(0, INT_EVENT_LEN as int));
        Ok(r)
    }

    /// What has to be written to the interrupt clear register once these
    /// events were read: the same events, to clear them, and nothing where
    /// there is no event.
    pub open spec fn spec_clear_write(self) -> Option<IntEventFlags> {
        if self.spec_is_zero() {
            None
        } else {
            Some(self)
        }
    }

    /// Says what has to be written to the interrupt clear register once
    /// these events were read.
    pub fn clear_write(&self) -> (r: Option<IntEventFlags>)
        ensures
            r == self.spec_clear_write(),
    {
        if self.is_zero() {
            None
        } else {
            Some(*self)
        }
    }
}

/// An event is in the union of two sets exactly when it is in one of them.
pub proof fn lemma_union_has(a: IntEventFlags, b: IntEventFlags, r: IntEventFlags, i: nat)
    requires
        r@ == spec_union(a@, b@),
    ensures
        r.has(i) <==> a.has(i) || b.has(i),
{
    if i < 8 * INT_EVENT_LEN {
        let x = a@[(i / 8) as int];
        let y = b@[(i / 8) as int];
        let k = (i % 8) as u8;
        assert(r@[(i / 8) as int] == x | y);
        assert(((x | y) >> k) & 1 == 1 <==> ((x >> k) & 1 == 1 || (y >> k) & 1 == 1))
            by (bit_vector);
    }
}

/// What the interrupt event register of a port holds after a write to its
/// interrupt clear register: the events that were pending and were not
/// written.
pub open spec fn spec_after_clear(pending: Seq<u8>, written: Option<IntEventFlags>) -> Seq<u8> {
    match written {
        Some(w) => spec_without(pending, w@),
        None => pending,
    }
}

/// Clearing is complete: once the events that were read have been written
/// back as `clear_write` says, none is pending, so that a second read with
/// no new event in between finds no event and asks for no write.
pub proof fn lemma_clear_is_idempotent(pending: IntEventFlags, second: IntEventFlags)
    requires
        second@ == spec_after_clear(pending@, pending.spec_clear_write()),
    ensures
        second.spec_is_zero(),
        second.spec_clear_write() is None,
{
    assert forall|i: int| 0 <= i < INT_EVENT_LEN implies second@[i] == 0u8 by {
        let x = pending@[i];
        assert(x & !x == 0u8) by (bit_vector);
    }
    assert(second@ =~= spec_zero());
}

/// Which ports take part in interrupt processing.
#[derive(Debug, Clone, Copy, PartialEq, Eq)]
pub struct InterruptEnableState {
    pub enabled: [bool; 2],
}

impl InterruptEnableState {
    /// Every port takes part.
    pub fn new() -> (r: Self)
        ensures
            r.enabled@ == seq![true, true],
    {
        let r = InterruptEnableState { enabled: [true, true] };
        assert(r.enabled@ =~= seq![true, true]);
        r
    }

    /// Enable or disable interrupts for the given ports
    pub fn enable_interrupts(&mut self, enabled: [bool; 2])
        ensures
            final(self).enabled == enabled,
    {
        self.enabled = enabled;
    }

    /// Returns current interrupt state
    pub fn interrupts_enabled(&self) -> (r: [bool; 2])
        ensures
            r == self.enabled,
    {
        self.enabled
    }
}

/// Remembers which ports took part in interrupt processing when it was
/// made, so that this can be restored.
#[derive(Debug, PartialEq, Eq)]
pub struct InterruptGuard {
    pub target_state: [bool; 2],
}

impl InterruptGuard {
    /// Records the current state and applies `enabled`.
    pub fn new(state: &mut InterruptEnableState, enabled: [bool; 2]) -> (r: Self)
        ensures
            r.target_state == old(state).enabled,
            final(state).enabled == enabled,
    {
        let target_state = state.interrupts_enabled();
        state.enable_interrupts(enabled);
        InterruptGuard { target_state }
    }

    /// Records the current state and masks every port.
    pub fn disable_all(state: &mut InterruptEnableState) -> (r: Self)
        ensures
            r.target_state == old(state).enabled,
            final(state).enabled@ == seq![false, false],
    {
        let r = Self::new(state, [false, false]);
        assert(state.enabled@ =~= seq![false, false]);
        r
    }

    /// Puts back the state that was recorded.
    pub fn release(&self, state: &mut InterruptEnableState)
        ensures
            final(state).enabled == self.target_state,
    {
        state.enable_interrupts(self.target_state);
    }
}

/// Whether the snapshot satisfies `f` on some port.
pub open spec fn spec_snapshot_matches<F: Fn(PortId, IntEventFlags) -> bool>(
    flags: [IntEventFlags; 2],
    f: F,
) -> bool {
    exists|p: int|
        0 <= p < MAX_SUPPORTED_PORTS && call_ensures(f, (PortId(p as u8), #[trigger] flags[p]), true)
}

/// Decides whether a published snapshot ends a wait: it does when `f` holds
/// of the events of at least one port, and then the waiter gets the whole
/// snapshot, every port's events as they were published.
pub fn check_snapshot<F: Fn(PortId, IntEventFlags) -> bool>(flags: [IntEventFlags; 2], f: F) -> (r:
    Option<[IntEventFlags; 2]>)
    requires
        forall|p: PortId, e: IntEventFlags| call_requires(f, (p, e)),
    ensures
        r matches Some(snapshot) ==> snapshot == flags && spec_snapshot_matches(flags, f),
        r is None ==> forall|p: int|
            0 <= p < MAX_SUPPORTED_PORTS ==> call_ensures(
                f,
                (PortId(p as u8), #[trigger] flags[p]),
                false,
            ),
{
    let mut port: usize = 0;
    while port < MAX_SUPPORTED_PORTS
        invariant
            port <= MAX_SUPPORTED_PORTS,
            forall|p: PortId, e: IntEventFlags| call_requires(f, (p, e)),
            forall|p: int|
                0 <= p < port ==> call_ensures(f, (PortId(p as u8), #[trigger] flags[p]), false),
        decreases MAX_SUPPORTED_PORTS - port,
    {
        if f(PortId(port as u8), flags[port]) {
            return Some(flags);
        }
        port = port + 1;
    }
    None
}

/// Whether the snapshot shows that the command on `port` has completed.
pub fn command_completed(flags: &[IntEventFlags; 2], port: PortId) -> (r: bool)
    ensures
        r == (port.0 < MAX_SUPPORTED_PORTS && flags[port.0 as int].has(CMD1_COMPLETED_BIT as nat)),
{
    let index: usize = port.0 as usize;
    if index >= MAX_SUPPORTED_PORTS {
        return false;
    }
    flags[index].cmd_1_completed()
}

} // verus!
