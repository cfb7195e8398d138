//! The 4CC commands of the controller, their return codes and the argument
//! records of the firmware update commands.
use vstd::prelude::*;

use crate::bytes::{le_u16, le_u32, read_u16_le, read_u32_le, u16_le, write_u16_le};
use crate::bytes::{lemma_le_u16_round_trip, lemma_u16_le_of_le_u16};
use crate::error::PdError;

verus! {

/// Address of the first command register
pub const REG_CMD1: u8 = 0x08;

/// Length of the command register in bytes
pub const CMD_LEN: usize = 4;

/// Address of the first data register
pub const REG_DATA1: u8 = 0x09;

/// Length of the data register in bytes
pub const REG_DATA1_LEN: usize = 64;

/// Delay after reset before the controller can be assumed ready
pub const RESET_DELAY_MS: u32 = 2000;

pub const RESET_TIMEOUT_MS: u32 = RESET_DELAY_MS + 100;

pub const TFUS_DELAY_MS: u32 = 500;

pub const TFUS_TIMEOUT_MS: u32 = TFUS_DELAY_MS + 100;

pub const TFUE_TIMEOUT_MS: u32 = 250;

/// The value that four ASCII characters pack into, first character in the
/// lowest byte.
pub open spec fn fourcc(a: u8, b: u8, c: u8, d: u8) -> u32 {
    le_u32(seq![a, b, c, d])
}

/// A command code as it stands in the command register, or one of the two
/// values the controller leaves there when it is done with a command.
#[derive(Debug, Clone, Copy, PartialEq, Eq, Structural)]
pub enum Command {
    /// Previous command succeeded
    Success,
    /// Invalid Command
    Invalid,
    /// Cold-reset
    Gaid,
    /// Tomcat firmware update mode enter
    Tfus,
    /// Tomcat firmware update mode init
    Tfui,
    /// Tomcat firmware update mode query
    Tfuq,
    /// Tomcat firmware update mode exit
    Tfue,
    /// Tomcat firmware update data
    Tfud,
    /// Tomcat firmware update complete
    Tfuc,
}

impl Command {
    /// The register value of the command: zero for `Success`, the packed
    /// characters `!CMD` for `Invalid`, the packed command name otherwise.
    pub open spec fn spec_code(self) -> u32 {
        match self {
            Command::Success => 0,
            Command::Invalid => fourcc(0x21, 0x43, 0x4D, 0x44),
            Command::Gaid => fourcc(0x47, 0x41, 0x49, 0x44),
            Command::Tfus => fourcc(0x54, 0x46, 0x55, 0x73),
            Command::Tfui => fourcc(0x54, 0x46, 0x55, 0x69),
            Command::Tfuq => fourcc(0x54, 0x46, 0x55, 0x71),
            Command::Tfue => fourcc(0x54, 0x46, 0x55, 0x65),
            Command::Tfud => fourcc(0x54, 0x46, 0x55, 0x64),
            Command::Tfuc => fourcc(0x54, 0x46, 0x55, 0x63),
        }
    }

    /// The register value of the command.
    pub fn code(self) -> (r: u32)
        ensures
            r == self.spec_code(),
    {
        match self {
            Command::Success => 0,
            Command::Invalid => 0x444D_4321,
            Command::Gaid => 0x4449_4147,
            Command::Tfus => 0x7355_4654,
            Command::Tfui => 0x6955_4654,
            Command::Tfuq => 0x7155_4654,
            Command::Tfue => 0x6555_4654,
            Command::Tfud => 0x6455_4654,
            Command::Tfuc => 0x6355_4654,
        }
    }

    /// Whether the command register holds this command.
    pub fn matches_register(self, value: u32) -> (r: bool)
        ensures
            r == (self.spec_code() == value),
    {
        self.code() == value
    }
}

/// No two commands share a register value.
pub proof fn lemma_command_codes_distinct(a: Command, b: Command)
    ensures
        a.spec_code() == b.spec_code() <==> a == b,
{
}

/// Result code that the controller leaves in the first byte of the data
/// register when a command has completed.
#[derive(Debug, Clone, Copy, PartialEq, Eq, Structural)]
pub enum ReturnValue {
    /// Success
    Success,
    /// Timed-out or aborted with ABRT command
    Abort,
    /// Rejected
    Rejected,
    /// RX buffer locked
    RxLocked,
    /// Task specific result
    Task0,
    /// Task specific result
    Task1,
    /// Task specific result
    Task2,
    /// Task specific result
    Task3,
    /// Task specific result
    Task4,
    /// Task specific result
    Task5,
    /// Task specific result
    Task6,
    /// Task specific result
    Task7,
    /// Task specific result
    Task8,
    /// Task specific result
    Task9,
    /// Task specific result
    Task10,
}

impl ReturnValue {
    /// The byte that stands for this result.
    pub open spec fn spec_code(self) -> u8 {
        match self {
            ReturnValue::Success => 0x00,
            ReturnValue::Abort => 0x01,
            ReturnValue::Rejected => 0x03,
            ReturnValue::RxLocked => 0x04,
            ReturnValue::Task0 => 0x05,
            ReturnValue::Task1 => 0x06,
            ReturnValue::Task2 => 0x07,
            ReturnValue::Task3 => 0x08,
            ReturnValue::Task4 => 0x09,
            ReturnValue::Task5 => 0x0A,
            ReturnValue::Task6 => 0x0B,
            ReturnValue::Task7 => 0x0C,
            ReturnValue::Task8 => 0x0D,
            ReturnValue::Task9 => 0x0E,
            ReturnValue::Task10 => 0x0F,
        }
    }

    /// The result that a byte stands for: the one whose code it is, if there
    /// is one.
    pub open spec fn from_code(value: u8) -> Option<ReturnValue> {
        if exists|r: ReturnValue| r.spec_code() == value {
            Some(choose|r: ReturnValue| r.spec_code() == value)
        } else {
            None
        }
    }

    /// The byte that stands for this result.
    pub fn code(self) -> (r: u8)
        ensures
            r == self.spec_code(),
    {
        match self {
            ReturnValue::Success => 0x00,
            ReturnValue::Abort => 0x01,
            ReturnValue::Rejected => 0x03,
            ReturnValue::RxLocked => 0x04,
            ReturnValue::Task0 => 0x05,
            ReturnValue::Task1 => 0x06,
            ReturnValue::Task2 => 0x07,
            ReturnValue::Task3 => 0x08,
            ReturnValue::Task4 => 0x09,
            ReturnValue::Task5 => 0x0A,
            ReturnValue::Task6 => 0x0B,
            ReturnValue::Task7 => 0x0C,
            ReturnValue::Task8 => 0x0D,
            ReturnValue::Task9 => 0x0E,
            ReturnValue::Task10 => 0x0F,
        }
    }
}

/// A byte decodes to a result exactly when it is that result's code: the
/// bytes 0x00, 0x01 and 0x03 to 0x0F decode, no other does.
pub proof fn lemma_return_value_codes(value: u8, r: ReturnValue)
    ensures
        ReturnValue::from_code(r.spec_code()) == Some(r),
        ReturnValue::from_code(value) == Some(r) <==> r.spec_code() == value,
        ReturnValue::from_code(value) is Some <==> value == 0 || value == 1 || 3 <= value <= 0x0F,
{
    let w = choose|x: ReturnValue| x.spec_code() == r.spec_code();
    assert(w == r);
    if value == 0 {
        assert(ReturnValue::Success.spec_code() == value);
    } else if value == 1 {
        assert(ReturnValue::Abort.spec_code() == value);
    } else if value == 3 {
        assert(ReturnValue::Rejected.spec_code() == value);
    } else if value == 4 {
        assert(ReturnValue::RxLocked.spec_code() == value);
    } else if value == 5 {
        assert(ReturnValue::Task0.spec_code() == value);
    } else if value == 6 {
        assert(ReturnValue::Task1.spec_code() == value);
    } else if value == 7 {
        assert(ReturnValue::Task2.spec_code() == value);
    } else if value == 8 {
        assert(ReturnValue::Task3.spec_code() == value);
    } else if value == 9 {
        assert(ReturnValue::Task4.spec_code() == value);
    } else if value == 10 {
        assert(ReturnValue::Task5.spec_code() == value);
    } else if value == 11 {
        assert(ReturnValue::Task6.spec_code() == value);
    } else if value == 12 {
        assert(ReturnValue::Task7.spec_code() == value);
    } else if value == 13 {
        assert(ReturnValue::Task8.spec_code() == value);
    } else if value == 14 {
        assert(ReturnValue::Task9.spec_code() == value);
    } else if value == 15 {
        assert(ReturnValue::Task10.spec_code() == value);
    }
    if ReturnValue::from_code(value) is Some {
        let x = choose|x: ReturnValue| x.spec_code() == value;
        if x.spec_code() == r.spec_code() {
            assert(x == r);
        }
    }
}

impl TryFrom<u8> for ReturnValue {
    type Error = PdError;

    fn try_from(value: u8) -> (r: Result<Self, Self::Error>) {
        let decoded = match value {
            0x00 => Ok(ReturnValue::Success),
            0x01 => Ok(ReturnValue::Abort),
            0x03 => Ok(ReturnValue::Rejected),
            0x04 => Ok(ReturnValue::RxLocked),
            0x05 => Ok(ReturnValue::Task0),
            0x06 => Ok(ReturnValue::Task1),
            0x07 => Ok(ReturnValue::Task2),
            0x08 => Ok(ReturnValue::Task3),
            0x09 => Ok(ReturnValue::Task4),
            0x0A => Ok(ReturnValue::Task5),
            0x0B => Ok(ReturnValue::Task6),
            0x0C => Ok(ReturnValue::Task7),
            0x0D => Ok(ReturnValue::Task8),
            0x0E => Ok(ReturnValue::Task9),
            0x0F => Ok(ReturnValue::Task10),
            _ => Err(PdError::InvalidParams),
        };
        proof {
            match decoded {
                Ok(x) => lemma_return_value_codes(value, x),
                Err(_) => lemma_return_value_codes(value, ReturnValue::Success),
            }
        }
        decoded
    }
}

impl vstd::std_specs::convert::TryFromSpecImpl<u8> for ReturnValue {
    open spec fn obeys_try_from_spec() -> bool {
        true
    }

    open spec fn try_from_spec(value: u8) -> Result<Self, Self::Error> {
        match ReturnValue::from_code(value) {
            Some(r) => Ok(r),
            None => Err(PdError::InvalidParams),
        }
    }
}

pub const PD_FW_HEADER_BLOCK_INDEX: usize = 0;

pub const PD_FW_DATA_BLOCK_START_INDEX: usize = 1;

pub const PD_FW_APP_CONFIG_BLOCK_INDEX: usize = 12;

pub const PD_FW_IMAGE_ID_LENGTH: usize = 4;

pub const PD_FW_HEADER_METADATA_OFFSET: usize = PD_FW_IMAGE_ID_LENGTH;

pub const PD_FW_HEADER_METADATA_LENGTH: usize = 8;

pub const PD_FW_APP_IMAGE_SIZE_OFFSET: usize = 0x4F8;

pub const PD_FW_HEADER_BLOCK_OFFSET: usize = PD_FW_HEADER_METADATA_OFFSET
    + PD_FW_HEADER_METADATA_LENGTH;

pub const PD_FW_HEADER_BLOCK_LENGTH: usize = 0x800;

pub const TFUI_BURST_WRITE_DELAY_MS: u64 = 250;

pub const TFUD_BURST_WRITE_DELAY_MS: u64 = 150;

pub const BURST_WRITE_SIZE: usize = 256;

pub const PD_FW_DATA_BLOCK_SIZE: usize = 0x4000;

pub const PD_FW_DATA_BLOCK_METADATA_SIZE: usize = 8;

pub const PD_FW_APP_CONFIG_SIZE: usize = 0x800;

pub const PD_FW_APP_CONFIG_METADATA_SIZE: usize = 0x8;

pub const PD_FW_CUSTOMER_USE_OFFSET: usize = 0x2A0AE;

pub const PD_FW_CUSTOMER_USE_LENGTH: usize = 8;

/// Length of the encoded arguments of the update init command
pub const TFUI_ARGS_LEN: usize = 8;

/// Arguments of the firmware update init command.
#[derive(Debug, Clone, Copy, PartialEq, Eq, Structural)]
pub struct TfuiArgs {
    pub num_data_blocks_tx: u16,
    pub data_len: u16,
    pub timeout_secs: u16,
    pub broadcast_u16_address: u16,
}

impl TfuiArgs {
    /// The eight bytes of the record: its four fields in order, each low
    /// byte first.
    pub open spec fn spec_encode(self) -> Seq<u8> {
        u16_le(self.num_data_blocks_tx) + u16_le(self.data_len) + u16_le(self.timeout_secs)
            + u16_le(self.broadcast_u16_address)
    }

    /// The record that the first eight bytes of `buf` hold.
    pub open spec fn spec_decode(buf: Seq<u8>) -> TfuiArgs
        recommends
            buf.len() >= 8,
    {
        TfuiArgs {
            num_data_blocks_tx: le_u16(buf.subrange(0, 2)),
            data_len: le_u16(buf.subrange(2, 4)),
            timeout_secs: le_u16(buf.subrange(4, 6)),
            broadcast_u16_address: le_u16(buf.subrange(6, 8)),
        }
    }

    /// Writes the record into the first eight bytes of `buf` and leaves the
    /// rest alone. A shorter buffer is refused and left unchanged.
    pub fn encode_into_slice(&self, buf: &mut [u8]) -> (r: Result<(), PdError>)
        ensures
            r == (if old(buf)@.len() >= 8 {
                Ok::<(), PdError>(())
            } else {
                Err::<(), PdError>(PdError::InvalidParams)
            }),
            r is Err ==> final(buf)@ == old(buf)@,
            r is Ok ==> final(buf)@ == self.spec_encode() + old(buf)@.subrange(
                8,
                old(buf)@.len() as int,
            ),
    {
        if buf.len() < TFUI_ARGS_LEN {
            return Err(PdError::InvalidParams);
        }
        write_u16_le(buf, 0, self.num_data_blocks_tx);
        write_u16_le(buf, 2, self.data_len);
        write_u16_le(buf, 4, self.timeout_secs);
        write_u16_le(buf, 6, self.broadcast_u16_address);
        assert(buf@ =~= self.spec_encode() + old(buf)@.subrange(8, old(buf)@.len() as int));
        Ok(())
    }

    /// Reads a record from the first eight bytes of `buf`. A shorter buffer
    /// is refused.
    pub fn decode_from_slice(buf: &[u8]) -> (r: Result<Self, PdError>)
        ensures
            r == (if buf@.len() >= 8 {
                Ok::<TfuiArgs, PdError>(Self::spec_decode(buf@))
            } else {
                Err::<TfuiArgs, PdError>(PdError::InvalidParams)
            }),
    {
        if buf.len() < TFUI_ARGS_LEN {
            return Err(PdError::InvalidParams);
        }
        let number_data_blocks_tx = read_u16_le(buf, 0);
        let tfu_block_size = read_u16_le(buf, 2);
        let timeout_secs = read_u16_le(buf, 4);
        let broadcast_u16_address = read_u16_le(buf, 6);
        Ok(
            Self {
                num_data_blocks_tx: number_data_blocks_tx,
                data_len: tfu_block_size,
                timeout_secs,
                broadcast_u16_address,
            },
        )
    }
}

/// Encoding what was decoded gives the bytes back: a record that is read
/// from eight bytes is written as the same eight bytes.
pub proof fn lemma_tfui_args_bytes_round_trip(buf: Seq<u8>)
    requires
        buf.len() == 8,
    ensures
        TfuiArgs::spec_decode(buf).spec_encode() == buf,
{
    lemma_u16_le_of_le_u16(buf.subrange(0, 2));
    lemma_u16_le_of_le_u16(buf.subrange(2, 4));
    lemma_u16_le_of_le_u16(buf.subrange(4, 6));
    lemma_u16_le_of_le_u16(buf.subrange(6, 8));
    assert(TfuiArgs::spec_decode(buf).spec_encode() =~= buf.subrange(0, 2) + buf.subrange(2, 4)
        + buf.subrange(4, 6) + buf.subrange(6, 8));
    assert(buf =~= buf.subrange(0, 2) + buf.subrange(2, 4) + buf.subrange(4, 6) + buf.subrange(
        6,
        8,
    ));
}

/// Decoding what was encoded gives the record back, for every record and
/// whatever follows it in the buffer.
pub proof fn lemma_tfui_args_round_trip(args: TfuiArgs, rest: Seq<u8>)
    ensures
        args.spec_encode().len() == 8,
        TfuiArgs::spec_decode(args.spec_encode() + rest) == args,
{
    let b = args.spec_encode() + rest;
    assert(b.subrange(0, 2) =~= u16_le(args.num_data_blocks_tx));
    assert(b.subrange(2, 4) =~= u16_le(args.data_len));
    assert(b.subrange(4, 6) =~= u16_le(args.timeout_secs));
    assert(b.subrange(6, 8) =~= u16_le(args.broadcast_u16_address));
    lemma_le_u16_round_trip(args.num_data_blocks_tx, Seq::empty());
    lemma_le_u16_round_trip(args.data_len, Seq::empty());
    lemma_le_u16_round_trip(args.timeout_secs, Seq::empty());
    lemma_le_u16_round_trip(args.broadcast_u16_address, Seq::empty());
}

/// What the update query command is asked to do.
#[derive(Debug, Clone, Copy, PartialEq, Eq, Structural)]
pub enum TfuqCommandType {
    QueryTfuStatus,
}

impl TfuqCommandType {
    pub open spec fn spec_code(self) -> u8 {
        0x00
    }

    /// The byte that stands for this request.
    pub fn code(self) -> (r: u8)
        ensures
            r == self.spec_code(),
    {
        0x00
    }
}

/// Which status the update query command reports.
#[derive(Debug, Clone, Copy, PartialEq, Eq, Structural)]
pub enum TfuqStatusQuery {
    StatusDefault,
    StatusInProgress,
    StatusBank0,
    StatusBank1,
}

impl TfuqStatusQuery {
    pub open spec fn spec_code(self) -> u8 {
        match self {
            TfuqStatusQuery::StatusDefault => 0x00,
            TfuqStatusQuery::StatusInProgress => 0x01,
            TfuqStatusQuery::StatusBank0 => 0x02,
            TfuqStatusQuery::StatusBank1 => 0x03,
        }
    }

    /// The byte that stands for this query.
    pub fn code(self) -> (r: u8)
        ensures
            r == self.spec_code(),
    {
        match self {
            TfuqStatusQuery::StatusDefault => 0x00,
            TfuqStatusQuery::StatusInProgress => 0x01,
            TfuqStatusQuery::StatusBank0 => 0x02,
            TfuqStatusQuery::StatusBank1 => 0x03,
        }
    }
}

/// State of one block of the image as the controller reports it.
#[derive(Debug, Clone, Copy, PartialEq, Eq, Structural)]
pub enum TfuqBlockStatus {
    Success,
    InvalidTfuState,
    InvalidHeaderSize,
    InvalidDataBlock,
    InvalidDataSize,
    InvalidSlaveAddress,
    InvalidTimeout,
    MaxAppConfigUpdate,
    HeaderRxInProgress,
    HeaderValidAndAuthentic,
    HeaderNotValid,
    HeaderKeyNotValid,
    HeaderRootAuthFailure,
    HeaderFwheaderAuthFailure,
    DataRxInProgress,
    DataValidAndAuthentic,
    DataValidButRepeated,
    DataNotValid,
    DataInvalidId,
    DataAuthFailure,
    F911IdNotValid,
    F911DataNotValid,
    F911AuthFailure,
    ImageDownloadTimeout,
    BlockDownloadTimeout,
    BlockWriteFailed,
    SpecialCmdFailed,
}

impl TfuqBlockStatus {
    /// The byte that stands for this status: its position in the list of
    /// statuses.
    pub open spec fn spec_code(self) -> u8 {
        match self {
            TfuqBlockStatus::Success => 0x0,
            TfuqBlockStatus::InvalidTfuState => 0x1,
            TfuqBlockStatus::InvalidHeaderSize => 0x2,
            TfuqBlockStatus::InvalidDataBlock => 0x3,
            TfuqBlockStatus::InvalidDataSize => 0x4,
            TfuqBlockStatus::InvalidSlaveAddress => 0x5,
            TfuqBlockStatus::InvalidTimeout => 0x6,
            TfuqBlockStatus::MaxAppConfigUpdate => 0x7,
            TfuqBlockStatus::HeaderRxInProgress => 0x8,
            TfuqBlockStatus::HeaderValidAndAuthentic => 0x9,
            TfuqBlockStatus::HeaderNotValid => 0xa,
            TfuqBlockStatus::HeaderKeyNotValid => 0xb,
            TfuqBlockStatus::HeaderRootAuthFailure => 0xc,
            TfuqBlockStatus::HeaderFwheaderAuthFailure => 0xd,
            TfuqBlockStatus::DataRxInProgress => 0xe,
            TfuqBlockStatus::DataValidAndAuthentic => 0xf,
            TfuqBlockStatus::DataValidButRepeated => 0x10,
            TfuqBlockStatus::DataNotValid => 0x11,
            TfuqBlockStatus::DataInvalidId => 0x12,
            TfuqBlockStatus::DataAuthFailure => 0x13,
            TfuqBlockStatus::F911IdNotValid => 0x14,
            TfuqBlockStatus::F911DataNotValid => 0x15,
            TfuqBlockStatus::F911AuthFailure => 0x16,
            TfuqBlockStatus::ImageDownloadTimeout => 0x17,
            TfuqBlockStatus::BlockDownloadTimeout => 0x18,
            TfuqBlockStatus::BlockWriteFailed => 0x19,
            TfuqBlockStatus::SpecialCmdFailed => 0x1a,
        }
    }

    /// The status that a byte stands for, if it stands for one.
    pub open spec fn from_code(value: u8) -> Option<TfuqBlockStatus> {
        match value {
            0x0 => Some(TfuqBlockStatus::Success),
            0x1 => Some(TfuqBlockStatus::InvalidTfuState),
            0x2 => Some(TfuqBlockStatus::InvalidHeaderSize),
            0x3 => Some(TfuqBlockStatus::InvalidDataBlock),
            0x4 => Some(TfuqBlockStatus::InvalidDataSize),
            0x5 => Some(TfuqBlockStatus::InvalidSlaveAddress),
            0x6 => Some(TfuqBlockStatus::InvalidTimeout),
            0x7 => Some(TfuqBlockStatus::MaxAppConfigUpdate),
            0x8 => Some(TfuqBlockStatus::HeaderRxInProgress),
            0x9 => Some(TfuqBlockStatus::HeaderValidAndAuthentic),
            0xa => Some(TfuqBlockStatus::HeaderNotValid),
            0xb => Some(TfuqBlockStatus::HeaderKeyNotValid),
            0xc => Some(TfuqBlockStatus::HeaderRootAuthFailure),
            0xd => Some(TfuqBlockStatus::HeaderFwheaderAuthFailure),
            0xe => Some(TfuqBlockStatus::DataRxInProgress),
            0xf => Some(TfuqBlockStatus::DataValidAndAuthentic),
            0x10 => Some(TfuqBlockStatus::DataValidButRepeated),
            0x11 => Some(TfuqBlockStatus::DataNotValid),
            0x12 => Some(TfuqBlockStatus::DataInvalidId),
            0x13 => Some(TfuqBlockStatus::DataAuthFailure),
            0x14 => Some(TfuqBlockStatus::F911IdNotValid),
            0x15 => Some(TfuqBlockStatus::F911DataNotValid),
            0x16 => Some(TfuqBlockStatus::F911AuthFailure),
            0x17 => Some(TfuqBlockStatus::ImageDownloadTimeout),
            0x18 => Some(TfuqBlockStatus::BlockDownloadTimeout),
            0x19 => Some(TfuqBlockStatus::BlockWriteFailed),
            0x1a => Some(TfuqBlockStatus::SpecialCmdFailed),
            _ => None,
        }
    }
}

/// The bytes 0x00 to 0x1A decode, each to the status whose code it is, and
/// no other byte does.
pub proof fn lemma_block_status_codes(value: u8, s: TfuqBlockStatus)
    ensures
        TfuqBlockStatus::from_code(s.spec_code()) == Some(s),
        TfuqBlockStatus::from_code(value) == Some(s) <==> s.spec_code() == value,
        TfuqBlockStatus::from_code(value) is Some <==> value <= 0x1A,
{
}

impl TryFrom<u8> for TfuqBlockStatus {
    type Error = PdError;

    fn try_from(value: u8) -> (r: Result<Self, Self::Error>) {
        match value {
            0x0 => Ok(TfuqBlockStatus::Success),
            0x1 => Ok(TfuqBlockStatus::InvalidTfuState),
            0x2 => Ok(TfuqBlockStatus::InvalidHeaderSize),
            0x3 => Ok(TfuqBlockStatus::InvalidDataBlock),
            0x4 => Ok(TfuqBlockStatus::InvalidDataSize),
            0x5 => Ok(TfuqBlockStatus::InvalidSlaveAddress),
            0x6 => Ok(TfuqBlockStatus::InvalidTimeout),
            0x7 => Ok(TfuqBlockStatus::MaxAppConfigUpdate),
            0x8 => Ok(TfuqBlockStatus::HeaderRxInProgress),
            0x9 => Ok(TfuqBlockStatus::HeaderValidAndAuthentic),
            0xa => Ok(TfuqBlockStatus::HeaderNotValid),
            0xb => Ok(TfuqBlockStatus::HeaderKeyNotValid),
            0xc => Ok(TfuqBlockStatus::HeaderRootAuthFailure),
            0xd => Ok(TfuqBlockStatus::HeaderFwheaderAuthFailure),
            0xe => Ok(TfuqBlockStatus::DataRxInProgress),
            0xf => Ok(TfuqBlockStatus::DataValidAndAuthentic),
            0x10 => Ok(TfuqBlockStatus::DataValidButRepeated),
            0x11 => Ok(TfuqBlockStatus::DataNotValid),
            0x12 => Ok(TfuqBlockStatus::DataInvalidId),
            0x13 => Ok(TfuqBlockStatus::DataAuthFailure),
            0x14 => Ok(TfuqBlockStatus::F911IdNotValid),
            0x15 => Ok(TfuqBlockStatus::F911DataNotValid),
            0x16 => Ok(TfuqBlockStatus::F911AuthFailure),
            0x17 => Ok(TfuqBlockStatus::ImageDownloadTimeout),
            0x18 => Ok(TfuqBlockStatus::BlockDownloadTimeout),
            0x19 => Ok(TfuqBlockStatus::BlockWriteFailed),
            0x1a => Ok(TfuqBlockStatus::SpecialCmdFailed),
            _ => Err(PdError::InvalidParams),
        }
    }
}

impl vstd::std_specs::convert::TryFromSpecImpl<u8> for TfuqBlockStatus {
    open spec fn obeys_try_from_spec() -> bool {
        true
    }

    open spec fn try_from_spec(value: u8) -> Result<Self, Self::Error> {
        match TfuqBlockStatus::from_code(value) {
            Some(s) => Ok(s),
            None => Err(PdError::InvalidParams),
        }
    }
}

/// Length of the encoded arguments of the update query command
pub const TFUQ_ARGS_LEN: usize = 2;

/// Arguments of the firmware update query command.
#[derive(Debug, Clone, Copy, PartialEq, Eq, Structural)]
pub struct TfuqArgs {
    pub status_query: TfuqStatusQuery,
    pub command: TfuqCommandType,
}

impl TfuqArgs {
    /// The two bytes of the record: the query, then the request.
    pub open spec fn spec_encode(self) -> Seq<u8> {
        seq![self.status_query.spec_code(), self.command.spec_code()]
    }

    /// Writes the record into the first two bytes of `buf` and leaves the
    /// rest alone. A shorter buffer is refused and left unchanged.
    pub fn encode_into_slice(&self, buf: &mut [u8]) -> (r: Result<(), PdError>)
        ensures
            r == (if old(buf)@.len() >= 2 {
                Ok::<(), PdError>(())
            } else {
                Err::<(), PdError>(PdError::InvalidParams)
            }),
            r is Err ==> final(buf)@ == old(buf)@,
            r is Ok ==> final(buf)@ == self.spec_encode() + old(buf)@.subrange(
                2,
                old(buf)@.len() as int,
            ),
    {
        if buf.len() < TFUQ_ARGS_LEN {
            return Err(PdError::InvalidParams);
        }
        buf[0] = self.status_query.code();
        buf[1] = self.command.code();
        assert(buf@ =~= self.spec_encode() + old(buf)@.subrange(2, old(buf)@.len() as int));
        Ok(())
    }
}

/// Number of bytes that the update query command returns
pub const TFUQ_RETURN_LEN: usize = 40;

/// Number of per-block status bytes in the answer to the update query
pub const TFUQ_BLOCK_STATUS_LEN: usize = 13;

/// Answer of the controller to the firmware update query command.
#[derive(Debug, Clone, Copy, PartialEq, Eq)]
pub struct TfuqReturnValue {
    pub active_host: u8,
    pub current_state: u8,
    pub image_write_status: u8,
    pub blocks_written_bitfield: u16,
    pub block_status: [u8; 13],
    pub num_of_header_bytes_received: u32,
    pub num_of_data_bytes_received: u32,
    pub num_of_app_config_updates: u16,
}

impl TfuqReturnValue {
    /// Whether this is the answer that the first forty bytes of `buf` hold:
    /// every field read from its fixed place, multi-byte fields low byte
    /// first, the status of block `i` at byte `7 + i`.
    pub open spec fn decodes(self, buf: Seq<u8>) -> bool
        recommends
            buf.len() >= 40,
    {
        &&& self.active_host == buf[0]
        &&& self.current_state == buf[1]
        &&& self.image_write_status == buf[4]
        &&& self.blocks_written_bitfield == le_u16(buf.subrange(5, 7))
        &&& self.block_status@ == buf.subrange(7, 20)
        &&& self.num_of_header_bytes_received == le_u32(buf.subrange(20, 24))
        &&& self.num_of_data_bytes_received == le_u32(buf.subrange(26, 30))
        &&& self.num_of_app_config_updates == le_u16(buf.subrange(30, 32))
    }

    /// Reads the answer from the first forty bytes of `buf`. A shorter buffer
    /// is refused.
    pub fn decode_from_slice(buf: &[u8]) -> (r: Result<Self, PdError>)
        ensures
            r is Ok <==> buf@.len() >= 40,
            r is Err ==> r == Err::<TfuqReturnValue, PdError>(PdError::InvalidParams),
            r matches Ok(v) ==> v.decodes(buf@),
    {
        if buf.len() < TFUQ_RETURN_LEN {
            return Err(PdError::InvalidParams);
        }
        let active_host = buf[0];
        let current_state = buf[1];
        let image_write_status = buf[4];
        let blocks_written_bitfield = read_u16_le(buf, 5);
        let mut data_block_status: [u8; 13] = [0u8; 13];
        let mut i: usize = 0;
        while i < 13
            invariant
                i <= 13,
                buf@.len() >= 40,
                forall|j: int| 0 <= j < i ==> data_block_status@[j] == buf@[7 + j],
            decreases 13 - i,
        {
            data_block_status[i] = buf[7 + i];
            i = i + 1;
        }
        assert(data_block_status@ =~= buf@.subrange(7, 20));
        let num_of_header_bytes_received = read_u32_le(buf, 20);
        let num_of_data_bytes_received = read_u32_le(buf, 26);
        let num_of_app_config_updates = read_u16_le(buf, 30);
        Ok(
            Self {
                active_host,
                current_state,
                image_write_status,
                blocks_written_bitfield,
                block_status: data_block_status,
                num_of_header_bytes_received,
                num_of_data_bytes_received,
                num_of_app_config_updates,
            },
        )
    }
}

/// Length of the encoded arguments of the update data command
pub const TFUD_ARGS_LEN: usize = 8;

/// Arguments of the firmware update data command, which also stand in the
/// image in front of each block.
#[derive(Debug, Clone, Copy, PartialEq, Eq, Structural)]
pub struct TfudArgs {
    pub block_number: u16,
    pub data_len: u16,
    pub timeout_secs: u16,
    pub broadcast_u16_address: u16,
}

impl TfudArgs {
    /// The eight bytes of the record: its four fields in order, each low
    /// byte first.
    pub open spec fn spec_encode(self) -> Seq<u8> {
        u16_le(self.block_number) + u16_le(self.data_len) + u16_le(self.timeout_secs) + u16_le(
            self.broadcast_u16_address,
        )
    }

    /// The record that the first eight bytes of `buf` hold.
    pub open spec fn spec_decode(buf: Seq<u8>) -> TfudArgs
        recommends
            buf.len() >= 8,
    {
        TfudArgs {
            block_number: le_u16(buf.subrange(0, 2)),
            data_len: le_u16(buf.subrange(2, 4)),
            timeout_secs: le_u16(buf.subrange(4, 6)),
            broadcast_u16_address: le_u16(buf.subrange(6, 8)),
        }
    }

    /// Writes the record into the first eight bytes of `buf` and leaves the
    /// rest alone. A shorter buffer is refused and left unchanged.
    pub fn encode_into_slice(&self, buf: &mut [u8]) -> (r: Result<(), PdError>)
        ensures
            r == (if old(buf)@.len() >= 8 {
                Ok::<(), PdError>(())
            } else {
                Err::<(), PdError>(PdError::InvalidParams)
            }),
            r is Err ==> final(buf)@ == old(buf)@,
            r is Ok ==> final(buf)@ == self.spec_encode() + old(buf)@.subrange(
                8,
                old(buf)@.len() as int,
            ),
    {
        if buf.len() < TFUD_ARGS_LEN {
            return Err(PdError::InvalidParams);
        }
        write_u16_le(buf, 0, self.block_number);
        write_u16_le(buf, 2, self.data_len);
        write_u16_le(buf, 4, self.timeout_secs);
        write_u16_le(buf, 6, self.broadcast_u16_address);
        assert(buf@ =~= self.spec_encode() + old(buf)@.subrange(8, old(buf)@.len() as int));
        Ok(())
    }

    /// Reads a record from the first eight bytes of `buf`. A shorter buffer
    /// is refused.
    pub fn decode_from_slice(buf: &[u8]) -> (r: Result<Self, PdError>)
        ensures
            r == (if buf@.len() >= 8 {
                Ok::<TfudArgs, PdError>(Self::spec_decode(buf@))
            } else {
                Err::<TfudArgs, PdError>(PdError::InvalidParams)
            }),
    {
        if buf.len() < TFUD_ARGS_LEN {
            return Err(PdError::InvalidParams);
        }
        let block_number = read_u16_le(buf, 0);
        let header_size = read_u16_le(buf, 2);
        let timeout_secs = read_u16_le(buf, 4);
        let broadcast_u16_address = read_u16_le(buf, 6);
        Ok(Self { block_number, data_len: header_size, timeout_secs, broadcast_u16_address })
    }
}

/// Encoding what was decoded gives the bytes back: a record that is read
/// from eight bytes is written as the same eight bytes.
pub proof fn lemma_tfud_args_bytes_round_trip(buf: Seq<u8>)
    requires
        buf.len() == 8,
    ensures
        TfudArgs::spec_decode(buf).spec_encode() == buf,
{
    lemma_u16_le_of_le_u16(buf.subrange(0, 2));
    lemma_u16_le_of_le_u16(buf.subrange(2, 4));
    lemma_u16_le_of_le_u16(buf.subrange(4, 6));
    lemma_u16_le_of_le_u16(buf.subrange(6, 8));
    assert(TfudArgs::spec_decode(buf).spec_encode() =~= buf.subrange(0, 2) + buf.subrange(2, 4)
        + buf.subrange(4, 6) + buf.subrange(6, 8));
    assert(buf =~= buf.subrange(0, 2) + buf.subrange(2, 4) + buf.subrange(4, 6) + buf.subrange(
        6,
        8,
    ));
}

/// Decoding what was encoded gives the record back, for every record and
/// whatever follows it in the buffer.
pub proof fn lemma_tfud_args_round_trip(args: TfudArgs, rest: Seq<u8>)
    ensures
        args.spec_encode().len() == 8,
        TfudArgs::spec_decode(args.spec_encode() + rest) == args,
{
    let b = args.spec_encode() + rest;
    assert(b.subrange(0, 2) =~= u16_le(args.block_number));
    assert(b.subrange(2, 4) =~= u16_le(args.data_len));
    assert(b.subrange(4, 6) =~= u16_le(args.timeout_secs));
    assert(b.subrange(6, 8) =~= u16_le(args.broadcast_u16_address));
    lemma_le_u16_round_trip(args.block_number, Seq::empty());
    lemma_le_u16_round_trip(args.data_len, Seq::empty());
    lemma_le_u16_round_trip(args.timeout_secs, Seq::empty());
    lemma_le_u16_round_trip(args.broadcast_u16_address, Seq::empty());
}

/// Length of the encoded arguments of the reset and update complete commands
pub const RESET_ARGS_LEN: usize = 2;

/// Arguments of the reset and of the update complete command.
#[derive(Debug, Clone, Copy, PartialEq, Eq, Structural)]
pub struct ResetArgs {
    pub switch_banks: u8,
    pub copy_bank: u8,
}

/// Value of a `ResetArgs` field that switches the feature on
pub const RESET_FEATURE_ENABLE: u8 = 0xAC;

impl ResetArgs {
    /// The two bytes of the record, in field order.
    pub open spec fn spec_encode(self) -> Seq<u8> {
        seq![self.switch_banks, self.copy_bank]
    }

    /// The record that the first two bytes of `buf` hold.
    pub open spec fn spec_decode(buf: Seq<u8>) -> ResetArgs
        recommends
            buf.len() >= 2,
    {
        ResetArgs { switch_banks: buf[0], copy_bank: buf[1] }
    }

    /// Writes the record into the first two bytes of `buf` and leaves the
    /// rest alone. A shorter buffer is refused and left unchanged.
    pub fn encode_into_slice(&self, buf: &mut [u8]) -> (r: Result<(), PdError>)
        ensures
            r == (if old(buf)@.len() >= 2 {
                Ok::<(), PdError>(())
            } else {
                Err::<(), PdError>(PdError::InvalidParams)
            }),
            r is Err ==> final(buf)@ == old(buf)@,
            r is Ok ==> final(buf)@ == self.spec_encode() + old(buf)@.subrange(
                2,
                old(buf)@.len() as int,
            ),
    {
        if buf.len() < RESET_ARGS_LEN {
            return Err(PdError::InvalidParams);
        }
        buf[0] = self.switch_banks;
        buf[1] = self.copy_bank;
        assert(buf@ =~= self.spec_encode() + old(buf)@.subrange(2, old(buf)@.len() as int));
        Ok(())
    }

    /// Reads a record from the first two bytes of `buf`. A shorter buffer is
    /// refused.
    pub fn decode_from_slice(buf: &[u8]) -> (r: Result<Self, PdError>)
        ensures
            r == (if buf@.len() >= 2 {
                Ok::<ResetArgs, PdError>(Self::spec_decode(buf@))
            } else {
                Err::<ResetArgs, PdError>(PdError::InvalidParams)
            }),
    {
        if buf.len() < RESET_ARGS_LEN {
            return Err(PdError::InvalidParams);
        }
        Ok(Self { switch_banks: buf[0], copy_bank: buf[1] })
    }
}

/// Decoding what was encoded gives the record back, for every record and
/// whatever follows it in the buffer.
pub proof fn lemma_reset_args_round_trip(args: ResetArgs, rest: Seq<u8>)
    ensures
        args.spec_encode().len() == 2,
        ResetArgs::spec_decode(args.spec_encode() + rest) == args,
{
}

} // verus!
