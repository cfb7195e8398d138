//! Driver core for the TPS6699x family of USB Power-Delivery controllers.
//!
//! The crate holds the parts of the driver that decide and compute: register
//! framing, the command protocol, interrupt distribution, command execution
//! and the firmware update sequence. None of it touches a bus; callers
//! perform the transfers that the state machines ask for and hand the
//! outcomes back.
use vstd::prelude::*;
use vstd::string::StringSliceAdditionalSpecFns;

pub mod bytes;
pub mod command;
pub mod distributor;
pub mod engine;
pub mod error;
pub mod fw_image;
pub mod fw_update;
pub mod interrupt;
pub mod protocol;
mod register_eq;
pub mod registers;
pub mod transport;

use crate::bytes::{le_u32, u32_le, u32_to_le_bytes, read_u32_le};
use crate::command::fourcc;
use crate::error::PdError;

verus! {

/// I2C address set 0
pub const ADDR0: [u8; 2] = [0x20, 0x24];

/// I2C address set 1
pub const ADDR1: [u8; 2] = [0x21, 0x25];

/// Packs a name of four bytes into a register value, first byte lowest.
/// A name of four ASCII characters packs into `fourcc` of its characters.
pub fn u32_from_str(value: &str) -> (r: u32)
    requires
        value.spec_bytes().len() == 4,
    ensures
        r == le_u32(value.spec_bytes()),
        value.is_ascii() ==> r == fourcc(
            value@[0] as u8,
            value@[1] as u8,
            value@[2] as u8,
            value@[3] as u8,
        ),
{
    broadcast use vstd::string::is_ascii_spec_bytes;

    let bytes = value.as_bytes();
    assert(bytes@.subrange(0, 4) =~= bytes@);
    proof {
        if value.is_ascii() {
            assert(bytes@ =~= seq![
                value@[0] as u8,
                value@[1] as u8,
                value@[2] as u8,
                value@[3] as u8,
            ]);
        }
    }
    read_u32_le(bytes, 0)
}

/// Operating mode that the controller reports in its mode register.
#[derive(Debug, Clone, Copy, PartialEq, Eq, Structural)]
pub enum Mode {
    /// Boot mode
    Boot,
    /// Firmware corrupt on both banks
    F211,
    /// Before app config
    App0,
    /// After app config
    App1,
    /// App FW waiting for power
    Wtpr,
}

impl Mode {
    /// The register value of the mode: its four-character name, packed.
    pub open spec fn spec_code(self) -> u32 {
        match self {
            Mode::Boot => fourcc(0x42, 0x4F, 0x4F, 0x54),
            Mode::F211 => fourcc(0x46, 0x32, 0x31, 0x31),
            Mode::App0 => fourcc(0x41, 0x50, 0x50, 0x30),
            Mode::App1 => fourcc(0x41, 0x50, 0x50, 0x31),
            Mode::Wtpr => fourcc(0x57, 0x54, 0x50, 0x52),
        }
    }

    /// The mode that a register value stands for, if it stands for one.
    pub open spec fn from_code(value: u32) -> Option<Mode> {
        if value == Mode::Boot.spec_code() {
            Some(Mode::Boot)
        } else if value == Mode::F211.spec_code() {
            Some(Mode::F211)
        } else if value == Mode::App0.spec_code() {
            Some(Mode::App0)
        } else if value == Mode::App1.spec_code() {
            Some(Mode::App1)
        } else if value == Mode::Wtpr.spec_code() {
            Some(Mode::Wtpr)
        } else {
            None
        }
    }

    /// The four bytes of the mode register in this mode: the register
    /// value, low byte first.
    pub open spec fn spec_register(self) -> [u8; 4] {
        let c = self.spec_code();
        [(c % 256) as u8, ((c / 256) % 256) as u8, ((c / 65536) % 256) as u8, (c / 16777216) as u8]
    }

    /// The register value of the mode.
    pub fn code(self) -> (r: u32)
        ensures
            r == self.spec_code(),
    {
        match self {
            Mode::Boot => 0x544F_4F42,
            Mode::F211 => 0x3131_3246,
            Mode::App0 => 0x3050_5041,
            Mode::App1 => 0x3150_5041,
            Mode::Wtpr => 0x5250_5457,
        }
    }

    /// Whether the mode register holds this mode.
    pub fn matches_register(self, value: u32) -> (r: bool)
        ensures
            r == (self.spec_code() == value),
    {
        self.code() == value
    }

    /// The four bytes of the mode register in this mode.
    pub fn to_le_bytes(self) -> (r: [u8; 4])
        ensures
            r@ == u32_le(self.spec_code()),
    {
        u32_to_le_bytes(self.code())
    }

    /// Decodes the content of the mode register. Fewer than four bytes, or a
    /// value that names no mode, are refused.
    pub fn from_register(bytes: &[u8]) -> (r: Result<Mode, PdError>)
        ensures
            r == (if bytes@.len() >= 4 {
                match Mode::from_code(le_u32(bytes@.subrange(0, 4))) {
                    Some(m) => Ok::<Mode, PdError>(m),
                    None => Err::<Mode, PdError>(PdError::InvalidParams),
                }
            } else {
                Err::<Mode, PdError>(PdError::InvalidParams)
            }),
    {
        if bytes.len() < 4 {
            return Err(PdError::InvalidParams);
        }
        Mode::try_from(read_u32_le(bytes, 0))
    }
}

/// A mode decodes from its own register value, and from no other.
pub proof fn lemma_mode_codes(value: u32, m: Mode)
    ensures
        Mode::from_code(m.spec_code()) == Some(m),
        Mode::from_code(value) == Some(m) <==> m.spec_code() == value,
{
}

impl TryFrom<u32> for Mode {
    type Error = PdError;

    fn try_from(value: u32) -> (r: Result<Self, Self::Error>) {
        if Mode::Boot.matches_register(value) {
            Ok(Mode::Boot)
        } else if Mode::F211.matches_register(value) {
            Ok(Mode::F211)
        } else if Mode::App0.matches_register(value) {
            Ok(Mode::App0)
        } else if Mode::App1.matches_register(value) {
            Ok(Mode::App1)
        } else if Mode::Wtpr.matches_register(value) {
            Ok(Mode::Wtpr)
        } else {
            Err(PdError::InvalidParams)
        }
    }
}

impl vstd::std_specs::convert::TryFromSpecImpl<u32> for Mode {
    open spec fn obeys_try_from_spec() -> bool {
        true
    }

    open spec fn try_from_spec(value: u32) -> Result<Self, Self::Error> {
        match Mode::from_code(value) {
            Some(m) => Ok(m),
            None => Err(PdError::InvalidParams),
        }
    }
}

impl From<Mode> for [u8; 4] {
    fn from(value: Mode) -> (r: Self) {
        let r = value.to_le_bytes();
        assert(r =~= Mode::spec_register(value));
        r
    }
}

impl vstd::std_specs::convert::FromSpecImpl<Mode> for [u8; 4] {
    open spec fn obeys_from_spec() -> bool {
        true
    }

    open spec fn from_spec(value: Mode) -> Self {
        Mode::spec_register(value)
    }
}

} // verus!
