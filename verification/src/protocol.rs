//! The command protocol: how a command is handed to the controller through
//! the command and data registers, and how its result is taken back.
use vstd::prelude::*;

use crate::bytes::{copy_to_vec, le_u32, read_u32_le, u32_le, u32_to_le_bytes};
use crate::command::{Command, ReturnValue, CMD_LEN, REG_CMD1, REG_DATA1, REG_DATA1_LEN};
use crate::error::PdError;

verus! {

/// One register write: the register's address and the bytes to put there.
#[derive(Debug, Clone, PartialEq, Eq)]
pub struct RegisterWrite {
    pub reg: u8,
    pub data: Vec<u8>,
}

impl View for RegisterWrite {
    type V = (u8, Seq<u8>);

    open spec fn view(&self) -> (u8, Seq<u8>) {
        (self.reg, self.data@)
    }
}

/// The register writes that send a command, in the order in which they are
/// made: the input data to the data register, where there is any, and then
/// the command's code to the command register. Input data that does not fit
/// the data register is refused.
pub open spec fn spec_send_command(cmd: Command, indata: Option<Seq<u8>>) -> Result<
    Seq<(u8, Seq<u8>)>,
    PdError,
> {
    match indata {
        Some(d) => if d.len() > REG_DATA1_LEN {
            Err(PdError::InvalidParams)
        } else {
            Ok(seq![(REG_DATA1, d), (REG_CMD1, u32_le(cmd.spec_code()))])
        },
        None => Ok(seq![(REG_CMD1, u32_le(cmd.spec_code()))]),
    }
}

/// The view of an optional slice.
pub open spec fn opt_view(data: Option<&[u8]>) -> Option<Seq<u8>> {
    match data {
        Some(d) => Some(d@),
        None => None,
    }
}

/// Lays out the register writes that send `cmd` with `indata`.
pub fn send_command(cmd: Command, indata: Option<&[u8]>) -> (r: Result<
    Vec<RegisterWrite>,
    PdError,
>)
    ensures
        match spec_send_command(cmd, opt_view(indata)) {
            Ok(writes) => r matches Ok(w) && w@.len() == writes.len() && forall|i: int|
                0 <= i < writes.len() ==> (#[trigger] w@[i])@ == writes[i],
            Err(e) => r == Err::<Vec<RegisterWrite>, PdError>(e),
        },
{
    let mut writes: Vec<RegisterWrite> = Vec::new();
    match indata {
        Some(d) => {
            if d.len() > REG_DATA1_LEN {
                return Err(PdError::InvalidParams);
            }
            writes.push(RegisterWrite { reg: REG_DATA1, data: copy_to_vec(d) });
        },
        None => {},
    }
    let code = u32_to_le_bytes(cmd.code());
    writes.push(RegisterWrite { reg: REG_CMD1, data: copy_to_vec(code.as_slice()) });
    Ok(writes)
}

/// What the command register says about the command that was last written
/// to it.
#[derive(Debug, Clone, Copy, PartialEq, Eq, Structural)]
pub enum CommandStatus {
    /// The controller has completed the command
    Complete,
    /// The controller did not recognize the command
    Unrecognized,
    /// The register still holds a command: the controller has not processed it
    Pending,
}

/// The status that a value of the command register stands for: zero says
/// complete, the packed characters `!CMD` say unrecognized, anything else is
/// a command that still waits.
pub open spec fn spec_command_status(register: u32) -> CommandStatus {
    if register == Command::Success.spec_code() {
        CommandStatus::Complete
    } else if register == Command::Invalid.spec_code() {
        CommandStatus::Unrecognized
    } else {
        CommandStatus::Pending
    }
}

/// Reads the status out of a value of the command register.
pub fn command_status(register: u32) -> (r: CommandStatus)
    ensures
        r == spec_command_status(register),
{
    if Command::Success.matches_register(register) {
        CommandStatus::Complete
    } else if Command::Invalid.matches_register(register) {
        CommandStatus::Unrecognized
    } else {
        CommandStatus::Pending
    }
}

/// The value of the command register, from the bytes read from it. Fewer
/// than four bytes are refused.
pub fn decode_command_register(bytes: &[u8]) -> (r: Result<u32, PdError>)
    ensures
        r == (if bytes@.len() >= 4 {
            Ok::<u32, PdError>(le_u32(bytes@.subrange(0, 4)))
        } else {
            Err::<u32, PdError>(PdError::InvalidParams)
        }),
{
    if bytes.len() < CMD_LEN {
        return Err(PdError::InvalidParams);
    }
    Ok(read_u32_le(bytes, 0))
}

/// Whether the command register shows that the controller has completed the
/// command.
pub fn check_command_complete(register: u32) -> (r: bool)
    ensures
        r == (spec_command_status(register) == CommandStatus::Complete),
{
    Command::Success.matches_register(register)
}

/// Judges the command register right after a command was written: the
/// command was taken unless the controller answered that it does not know
/// it.
pub fn check_command_accepted(register: u32) -> (r: Result<(), PdError>)
    ensures
        r == (if spec_command_status(register) == CommandStatus::Unrecognized {
            Err::<(), PdError>(PdError::UnrecognizedCommand)
        } else {
            Ok::<(), PdError>(())
        }),
{
    if Command::Invalid.matches_register(register) {
        return Err(PdError::UnrecognizedCommand);
    }
    Ok(())
}

/// What the command register means to someone who wants the result of a
/// command: the result can be fetched once the command is complete, the
/// command failed if it was not recognized, and the controller is busy while
/// the command waits.
pub open spec fn spec_completion(register: u32) -> Result<(), PdError> {
    match spec_command_status(register) {
        CommandStatus::Complete => Ok(()),
        CommandStatus::Unrecognized => Err(PdError::UnrecognizedCommand),
        CommandStatus::Pending => Err(PdError::Busy),
    }
}

/// Confirms from the command register that the result of a command can be
/// fetched.
pub fn check_completion(register: u32) -> (r: Result<(), PdError>)
    ensures
        r == spec_completion(register),
{
    match command_status(register) {
        CommandStatus::Complete => Ok(()),
        CommandStatus::Unrecognized => Err(PdError::UnrecognizedCommand),
        CommandStatus::Pending => Err(PdError::Busy),
    }
}

/// The result of a completed command, from the content of the data register:
/// the first byte is the return code, the `out_len` bytes after it are the
/// output. An output longer than the data register has room for after the
/// return code, a register content too short to hold it, and an unknown
/// return code are refused.
pub open spec fn spec_command_result(data: Seq<u8>, out_len: nat) -> Result<
    (ReturnValue, Seq<u8>),
    PdError,
> {
    if out_len > REG_DATA1_LEN - 1 || data.len() < out_len + 1 {
        Err(PdError::InvalidParams)
    } else {
        match ReturnValue::from_code(data[0]) {
            Some(ret) => Ok((ret, data.subrange(1, 1 + out_len as int))),
            None => Err(PdError::InvalidParams),
        }
    }
}

/// Splits the content of the data register into the return code and the
/// output, which is stored in `outdata`; the length of `outdata` says how
/// much output is wanted. When the content is refused, `outdata` is left as
/// it was.
pub fn decode_command_result(data: &[u8], outdata: &mut [u8]) -> (r: Result<ReturnValue, PdError>)
    ensures
        match spec_command_result(data@, old(outdata)@.len()) {
            Ok((ret, bytes)) => r == Ok::<ReturnValue, PdError>(ret) && final(outdata)@ == bytes,
            Err(e) => r == Err::<ReturnValue, PdError>(e) && final(outdata)@ == old(outdata)@,
        },
{
    let out_len = outdata.len();
    if out_len > REG_DATA1_LEN - 1 || data.len() < out_len + 1 {
        return Err(PdError::InvalidParams);
    }
    let ret = match ReturnValue::try_from(data[0]) {
        Ok(ret) => ret,
        Err(e) => {
            return Err(e);
        },
    };
    let mut i: usize = 0;
    while i < out_len
        invariant
            i <= out_len,
            out_len == outdata@.len(),
            out_len < data@.len(),
            forall|j: int| 0 <= j < i ==> outdata@[j] == data@[1 + j],
        decreases out_len - i,
    {
        outdata[i] = data[i + 1];
        i = i + 1;
    }
    assert(outdata@ =~= data@.subrange(1, 1 + out_len));
    Ok(ret)
}

/// Reads only the return code out of the content of the data register.
pub fn decode_return_value(data: &[u8]) -> (r: Result<ReturnValue, PdError>)
    ensures
        r == match spec_command_result(data@, 0) {
            Ok((ret, _)) => Ok::<ReturnValue, PdError>(ret),
            Err(e) => Err::<ReturnValue, PdError>(e),
        },
{
    if data.len() < 1 {
        return Err(PdError::InvalidParams);
    }
    ReturnValue::try_from(data[0])
}

/// The result of a command whose completion is confirmed from the two
/// registers together: the command register must say complete before the
/// data register counts for anything.
pub open spec fn spec_read_command_result(register: u32, data: Seq<u8>, out_len: nat) -> Result<
    (ReturnValue, Seq<u8>),
    PdError,
> {
    match spec_completion(register) {
        Ok(_) => spec_command_result(data, out_len),
        Err(e) => Err(e),
    }
}

/// Takes the result of a command from the content of the command register
/// and of the data register. Nothing is taken from the data register, and
/// `outdata` is left as it was, unless the command register says that the
/// command is complete.
pub fn read_command_result(register: u32, data: &[u8], outdata: &mut [u8]) -> (r: Result<
    ReturnValue,
    PdError,
>)
    ensures
        match spec_read_command_result(register, data@, old(outdata)@.len()) {
            Ok((ret, bytes)) => r == Ok::<ReturnValue, PdError>(ret) && final(outdata)@ == bytes,
            Err(e) => r == Err::<ReturnValue, PdError>(e) && final(outdata)@ == old(outdata)@,
        },
{
    match check_completion(register) {
        Ok(_) => decode_command_result(data, outdata),
        Err(e) => Err(e),
    }
}

} // verus!
