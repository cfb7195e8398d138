//! Execution of commands, as state machines that never touch the bus.
//!
//! A machine says what has to happen next on the bus or on the clock; its
//! caller makes it happen and reports how it went. The machine decides what
//! follows. The caller owns the bus and the clock, and may let go of the bus
//! between two requests.
use vstd::prelude::*;

use crate::bytes::le_u32;
use crate::command::{
    Command, ResetArgs, ReturnValue, RESET_ARGS_LEN, RESET_DELAY_MS, RESET_FEATURE_ENABLE,
    TFUS_DELAY_MS,
};
use crate::error::{Error, PdError, PortId};
use crate::protocol::{
    check_command_complete, check_completion, decode_command_register, decode_command_result,
    decode_return_value, spec_command_result, spec_command_status, spec_completion, CommandStatus,
};
use crate::Mode;

verus! {

/// Address of the mode register
pub const REG_MODE: u8 = 0x03;

/// Length of the mode register in bytes
pub const REG_MODE_LEN: usize = 4;

/// What a machine asks its caller to do next.
#[derive(Debug, Clone, Copy, PartialEq, Eq, Structural)]
pub enum Request {
    /// Write the input data of the command to the data register
    WriteInput,
    /// Write this value, low byte first, to the command register
    WriteCommand { code: u32 },
    /// Read the command register
    ReadCommand,
    /// Read the data register, all of it
    ReadData,
    /// Read the mode register
    ReadMode,
    /// Suspend until the interrupt path shows that the command on the
    /// machine's port has completed, for `timeout_ms` at most; where
    /// `clear_current` is set, first discard what was published before
    WaitCompletion { clear_current: bool, timeout_ms: u32 },
    /// Let this much time pass
    Delay { ms: u32 },
}

/// What the caller reports back.
#[derive(Debug, Clone, Copy, PartialEq, Eq)]
pub enum Event<'a, BE> {
    /// The write was made
    Written,
    /// The read was made and gave these bytes
    Data(&'a [u8]),
    /// The interrupt path showed completion in time
    Completed,
    /// The wait ran out
    TimedOut,
    /// The delay has passed
    Elapsed,
    /// The transfer failed
    Failed(Error<BE>),
}

/// What a machine answers: the next request, or its result.
#[derive(Debug, PartialEq, Eq)]
pub enum Step<T, BE> {
    Request(Request),
    Done(Result<T, Error<BE>>),
}

/// Where the execution of a command stands.
#[derive(Debug, Clone, Copy, PartialEq, Eq, Structural)]
pub enum ExecState {
    /// The input data is being written
    SendingData,
    /// The command code is being written
    SendingCommand,
    /// The command is with the controller
    Waiting,
    /// The command register is being read
    ReadingStatus { timed_out: bool },
    /// Completion is confirmed and the data register is being read
    ReadingData { timed_out: bool },
    /// The result was handed out
    Finished,
}

/// What a command that ran out of time ends in, given what a last look at
/// its result found: a rejection is reported as such, a transport failure is
/// passed on, and everything else is a timeout.
pub open spec fn spec_timeout_outcome<BE>(found: Result<ReturnValue, Error<BE>>) -> Error<BE> {
    match found {
        Ok(ReturnValue::Rejected) => Error::Pd(PdError::Rejected),
        Err(Error::Bus(e)) => Error::Bus(e),
        _ => Error::Pd(PdError::Timeout),
    }
}

/// Decides the error of a command that ran out of time from what a last look
/// at its result found.
pub fn timeout_outcome<BE>(found: Result<ReturnValue, Error<BE>>) -> (r: Error<BE>)
    ensures
        r == spec_timeout_outcome(found),
{
    match found {
        Ok(ReturnValue::Rejected) => Error::Pd(PdError::Rejected),
        Err(Error::Bus(e)) => Error::Bus(e),
        _ => Error::Pd(PdError::Timeout),
    }
}

/// The value of the command register in the bytes read from it, judged for
/// completion.
pub open spec fn spec_register_completion(bytes: Seq<u8>) -> Result<(), PdError> {
    if bytes.len() >= 4 {
        spec_completion(le_u32(bytes.subrange(0, 4)))
    } else {
        Err(PdError::InvalidParams)
    }
}

/// One command on its way through the controller: sent, awaited, and its
/// result fetched.
#[derive(Debug, Clone, Copy, PartialEq, Eq)]
pub struct CommandExecution {
    pub port: PortId,
    pub cmd: Command,
    pub timeout_ms: u32,
    pub state: ExecState,
}

impl CommandExecution {
    /// The state and first step of a new execution: the input data is
    /// written first where there is any, else the command code. Input data
    /// that does not fit the data register ends the execution at once.
    pub open spec fn spec_start<BE>(cmd: Command, input_len: Option<nat>) -> (
        ExecState,
        Step<ReturnValue, BE>,
    ) {
        match input_len {
            Some(n) => if n > crate::command::REG_DATA1_LEN {
                (ExecState::Finished, Step::Done(Err(Error::Pd(PdError::InvalidParams))))
            } else {
                (ExecState::SendingData, Step::Request(Request::WriteInput))
            },
            None => (
                ExecState::SendingCommand,
                Step::Request(Request::WriteCommand { code: cmd.spec_code() }),
            ),
        }
    }

    /// Begins the execution of `cmd` on `port`, with input data of the given
    /// length if there is any, and a wait for completion of `timeout_ms` at
    /// most.
    pub fn start<BE>(port: PortId, cmd: Command, input_len: Option<usize>, timeout_ms: u32) -> (r:
        (Self, Step<ReturnValue, BE>))
        ensures
            r.0.port == port,
            r.0.cmd == cmd,
            r.0.timeout_ms == timeout_ms,
            (r.0.state, r.1) == Self::spec_start::<BE>(
                cmd,
                match input_len {
                    Some(n) => Some(n as nat),
                    None => None,
                },
            ),
    {
        let (state, step) = match input_len {
            Some(n) => {
                if n > crate::command::REG_DATA1_LEN {
                    (ExecState::Finished, Step::Done(Err(Error::Pd(PdError::InvalidParams))))
                } else {
                    (ExecState::SendingData, Step::Request(Request::WriteInput))
                }
            },
            None => (
                ExecState::SendingCommand,
                Step::Request(Request::WriteCommand { code: cmd.code() }),
            ),
        };
        (CommandExecution { port, cmd, timeout_ms, state }, step)
    }

    /// Whether the wait for completion has run out.
    pub open spec fn timed_out(self) -> bool {
        match self.state {
            ExecState::ReadingStatus { timed_out } => timed_out,
            ExecState::ReadingData { timed_out } => timed_out,
            _ => false,
        }
    }

    /// How the execution ends when a transfer fails: with that failure,
    /// unless the wait had run out before; then with what a timeout makes of
    /// it.
    pub open spec fn spec_failure<BE>(self, e: Error<BE>) -> Error<BE> {
        if self.timed_out() {
            spec_timeout_outcome(Err::<ReturnValue, Error<BE>>(e))
        } else {
            e
        }
    }

    /// The state after an event, the step that answers it, and the content
    /// of the output buffer afterwards.
    ///
    /// Writes follow each other, then the one wait. Whether it ends in time
    /// or not, the command register is read next, and the data register only
    /// if the command register says that the command is complete. In time,
    /// the data register gives the result and the output; after a timeout it
    /// can only turn the timeout into a rejection. An event that does not
    /// answer the last request ends the execution with `Failed`.
    pub open spec fn spec_resume<BE>(self, event: Event<BE>, out: Seq<u8>) -> (
        ExecState,
        Step<ReturnValue, BE>,
        Seq<u8>,
    ) {
        let misuse = (ExecState::Finished, Step::Done(Err(Error::Pd(PdError::Failed))), out);
        match self.state {
            ExecState::Finished => misuse,
            ExecState::SendingData => match event {
                Event::Written => (
                    ExecState::SendingCommand,
                    Step::Request(Request::WriteCommand { code: self.cmd.spec_code() }),
                    out,
                ),
                Event::Failed(e) => (ExecState::Finished, Step::Done(Err(e)), out),
                _ => misuse,
            },
            ExecState::SendingCommand => match event {
                Event::Written => (
                    ExecState::Waiting,
                    Step::Request(
                        Request::WaitCompletion {
                            clear_current: true,
                            timeout_ms: self.timeout_ms,
                        },
                    ),
                    out,
                ),
                Event::Failed(e) => (ExecState::Finished, Step::Done(Err(e)), out),
                _ => misuse,
            },
            ExecState::Waiting => match event {
                Event::Completed => (
                    ExecState::ReadingStatus { timed_out: false },
                    Step::Request(Request::ReadCommand),
                    out,
                ),
                Event::TimedOut => (
                    ExecState::ReadingStatus { timed_out: true },
                    Step::Request(Request::ReadCommand),
                    out,
                ),
                Event::Failed(e) => (ExecState::Finished, Step::Done(Err(e)), out),
                _ => misuse,
            },
            ExecState::ReadingStatus { timed_out } => match event {
                Event::Data(bytes) => match spec_register_completion(bytes@) {
                    Ok(_) => (
                        ExecState::ReadingData { timed_out },
                        Step::Request(Request::ReadData),
                        out,
                    ),
                    Err(e) => (
                        ExecState::Finished,
                        Step::Done(Err(self.spec_failure(Error::Pd(e)))),
                        out,
                    ),
                },
                Event::Failed(e) => (
                    ExecState::Finished,
                    Step::Done(Err(self.spec_failure(e))),
                    out,
                ),
                _ => misuse,
            },
            ExecState::ReadingData { timed_out } => match event {
                Event::Data(bytes) => if timed_out {
                    (
                        ExecState::Finished,
                        Step::Done(
                            Err(
                                spec_timeout_outcome(
                                    match spec_command_result(bytes@, 0) {
                                        Ok((ret, _)) => Ok(ret),
                                        Err(e) => Err(Error::Pd(e)),
                                    },
                                ),
                            ),
                        ),
                        out,
                    )
                } else {
                    match spec_command_result(bytes@, out.len()) {
                        Ok((ret, output)) => (ExecState::Finished, Step::Done(Ok(ret)), output),
                        Err(e) => (ExecState::Finished, Step::Done(Err(Error::Pd(e))), out),
                    }
                },
                Event::Failed(e) => (
                    ExecState::Finished,
                    Step::Done(Err(self.spec_failure(e))),
                    out,
                ),
                _ => misuse,
            },
        }
    }

    /// Takes the execution one event further. The output of the command is
    /// stored in `outdata`, whose length says how much output is wanted; it
    /// is written only when the execution ends well.
    pub fn resume<BE>(&mut self, event: Event<'_, BE>, outdata: &mut [u8]) -> (step: Step<
        ReturnValue,
        BE,
    >)
        ensures
            final(self).port == old(self).port,
            final(self).cmd == old(self).cmd,
            final(self).timeout_ms == old(self).timeout_ms,
            (final(self).state, step, final(outdata)@) == old(self).spec_resume(
                event,
                old(outdata)@,
            ),
    {
        let state = self.state;
        self.state = ExecState::Finished;
        match state {
            ExecState::Finished => Step::Done(Err(Error::Pd(PdError::Failed))),
            ExecState::SendingData => match event {
                Event::Written => {
                    self.state = ExecState::SendingCommand;
                    Step::Request(Request::WriteCommand { code: self.cmd.code() })
                },
                Event::Failed(e) => Step::Done(Err(e)),
                _ => Step::Done(Err(Error::Pd(PdError::Failed))),
            },
            ExecState::SendingCommand => match event {
                Event::Written => {
                    self.state = ExecState::Waiting;
                    Step::Request(
                        Request::WaitCompletion {
                            clear_current: true,
                            timeout_ms: self.timeout_ms,
                        },
                    )
                },
                Event::Failed(e) => Step::Done(Err(e)),
                _ => Step::Done(Err(Error::Pd(PdError::Failed))),
            },
            ExecState::Waiting => match event {
                Event::Completed => {
                    self.state = ExecState::ReadingStatus { timed_out: false };
                    Step::Request(Request::ReadCommand)
                },
                Event::TimedOut => {
                    self.state = ExecState::ReadingStatus { timed_out: true };
                    Step::Request(Request::ReadCommand)
                },
                Event::Failed(e) => Step::Done(Err(e)),
                _ => Step::Done(Err(Error::Pd(PdError::Failed))),
            },
            ExecState::ReadingStatus { timed_out } => {
                let checked: Result<(), Error<BE>> = match event {
                    Event::Data(bytes) => match decode_command_register(bytes) {
                        Ok(register) => match check_completion(register) {
                            Ok(_) => Ok(()),
                            Err(e) => Err(Error::Pd(e)),
                        },
                        Err(e) => Err(Error::Pd(e)),
                    },
                    Event::Failed(e) => Err(e),
                    _ => {
                        return Step::Done(Err(Error::Pd(PdError::Failed)));
                    },
                };
                match checked {
                    Ok(_) => {
                        self.state = ExecState::ReadingData { timed_out };
                        Step::Request(Request::ReadData)
                    },
                    Err(e) => if timed_out {
                        Step::Done(Err(timeout_outcome(Err(e))))
                    } else {
                        Step::Done(Err(e))
                    },
                }
            },
            ExecState::ReadingData { timed_out } => match event {
                Event::Data(bytes) => {
                    if timed_out {
                        let found: Result<ReturnValue, Error<BE>> = match decode_return_value(
                            bytes,
                        ) {
                            Ok(ret) => Ok(ret),
                            Err(e) => Err(Error::Pd(e)),
                        };
                        Step::Done(Err(timeout_outcome(found)))
                    } else {
                        match decode_command_result(bytes, outdata) {
                            Ok(ret) => Step::Done(Ok(ret)),
                            Err(e) => Step::Done(Err(Error::Pd(e))),
                        }
                    }
                },
                Event::Failed(e) => if timed_out {
                    Step::Done(Err(timeout_outcome(Err(e))))
                } else {
                    Step::Done(Err(e))
                },
                _ => Step::Done(Err(Error::Pd(PdError::Failed))),
            },
        }
    }
}

/// An execution sends its command as the command protocol lays it out: it
/// ends at once exactly when the protocol refuses the input data, and
/// otherwise asks for the protocol's writes, one after the other, the input
/// data to the data register if there is any, and then the command's code,
/// low byte first, to the command register.
pub proof fn lemma_execution_sends_command<BE>(
    m: CommandExecution,
    indata: Option<Seq<u8>>,
    out: Seq<u8>,
)
    ensures
        ({
            let len = match indata {
                Some(d) => Some(d.len()),
                None => None,
            };
            let (state, first) = CommandExecution::spec_start::<BE>(m.cmd, len);
            let started = CommandExecution { state, ..m };
            match crate::protocol::spec_send_command(m.cmd, indata) {
                Err(e) => first == Step::<ReturnValue, BE>::Done(Err(Error::Pd(e))),
                Ok(writes) => {
                    &&& writes.last() == (
                        crate::command::REG_CMD1,
                        crate::bytes::u32_le(m.cmd.spec_code()),
                    )
                    &&& writes.len() == 1 ==> first == Step::<ReturnValue, BE>::Request(
                        Request::WriteCommand { code: m.cmd.spec_code() },
                    )
                    &&& writes.len() != 1 ==> writes.len() == 2 && writes[0] == (
                        crate::command::REG_DATA1,
                        indata->Some_0,
                    ) && first == Step::<ReturnValue, BE>::Request(Request::WriteInput)
                        && started.spec_resume::<BE>(Event::Written, out).1 == Step::<
                        ReturnValue,
                        BE,
                    >::Request(Request::WriteCommand { code: m.cmd.spec_code() })
                },
            }
        }),
{
}

/// The number of events that an execution in this state can still take
/// before it has ended.
pub open spec fn events_left(state: ExecState) -> nat {
    match state {
        ExecState::SendingData => 5,
        ExecState::SendingCommand => 4,
        ExecState::Waiting => 3,
        ExecState::ReadingStatus { .. } => 2,
        ExecState::ReadingData { .. } => 1,
        ExecState::Finished => 0,
    }
}

/// Every event takes an execution closer to its end, and the execution has
/// ended exactly when it hands out a result. So no execution takes more than
/// five events, whatever they are.
pub proof fn lemma_execution_ends<BE>(m: CommandExecution, event: Event<BE>, out: Seq<u8>)
    requires
        m.state != ExecState::Finished,
    ensures
        events_left(m.spec_resume(event, out).0) < events_left(m.state),
        m.spec_resume(event, out).1 is Done <==> m.spec_resume(event, out).0
            == ExecState::Finished,
{
}

/// An execution suspends once only, when the command has been written, and
/// then for no longer than its caller allowed. It never asks for a delay, and
/// once the wait has run out it asks for nothing but at most two reads.
pub proof fn lemma_execution_waits_once<BE>(m: CommandExecution, event: Event<BE>, out: Seq<u8>)
    ensures
        m.spec_resume(event, out).1 matches Step::Request(
            Request::WaitCompletion { clear_current, timeout_ms },
        ) ==> m.state == ExecState::SendingCommand && timeout_ms == m.timeout_ms && clear_current,
        !(m.spec_resume(event, out).1 matches Step::Request(Request::Delay { .. })),
        m.spec_resume(event, out).0 == ExecState::Waiting ==> m.state
            == ExecState::SendingCommand,
        m.timed_out() ==> m.spec_resume(event, out).0.timed_out_or_finished() && (m.spec_resume(
            event,
            out,
        ).1 matches Step::Request(r) ==> r == Request::ReadData),
{
}

impl ExecState {
    /// Whether the wait has run out or the execution has ended.
    pub open spec fn timed_out_or_finished(self) -> bool {
        match self {
            ExecState::ReadingStatus { timed_out } => timed_out,
            ExecState::ReadingData { timed_out } => timed_out,
            ExecState::Finished => true,
            _ => false,
        }
    }
}

/// No result without completion: an execution hands out a return value only
/// in answer to the content of the data register, it reads the data register
/// only after the command register said that the command is complete, and
/// it does so only if the wait ended in time. After a timeout every outcome
/// is an error.
pub proof fn lemma_result_follows_completion<BE>(
    m: CommandExecution,
    event: Event<BE>,
    out: Seq<u8>,
)
    ensures
        m.spec_resume(event, out).1 matches Step::Done(Ok(ret)) ==> m.state
            == (ExecState::ReadingData { timed_out: false }) && event is Data,
        m.spec_resume(event, out).0 matches ExecState::ReadingData { timed_out } ==> m.state
            == (ExecState::ReadingStatus { timed_out }) && (event matches Event::Data(bytes)
            && bytes@.len() >= 4 && spec_command_status(le_u32(bytes@.subrange(0, 4)))
            == CommandStatus::Complete),
        m.spec_resume(event, out).1 matches Step::Done(Err(_)) ==> m.spec_resume(event, out).2
            == out,
        m.spec_resume(event, out).0 == (ExecState::ReadingStatus { timed_out: false }) ==> m.state
            == ExecState::Waiting && event is Completed,
{
}

impl CommandExecution {
    /// The execution after the events `events`.
    pub open spec fn spec_after<BE>(self, events: Seq<Event<BE>>, out: Seq<u8>) -> CommandExecution
        decreases events.len(),
    {
        if events.len() == 0 {
            self
        } else {
            let before = self.spec_after(events.drop_last(), out);
            CommandExecution { state: before.spec_resume(events.last(), out).0, ..before }
        }
    }

    /// The step that answers the last of the events `events`.
    pub open spec fn spec_last_step<BE>(self, events: Seq<Event<BE>>, out: Seq<u8>) -> Step<
        ReturnValue,
        BE,
    >
        recommends
            events.len() > 0,
    {
        self.spec_after(events.drop_last(), out).spec_resume(events.last(), out).1
    }
}

/// An execution never hands out a return value before the controller has
/// reported completion. Whenever an execution ends with a return value, the
/// last three events were these: the interrupt path showed completion in
/// time, the command register was read and said that the command is
/// complete, and the data register was read.
pub proof fn lemma_result_needs_reported_completion<BE>(
    port: PortId,
    cmd: Command,
    input_len: Option<nat>,
    timeout_ms: u32,
    events: Seq<Event<BE>>,
    out: Seq<u8>,
)
    requires
        events.len() > 0,
        (CommandExecution {
            port,
            cmd,
            timeout_ms,
            state: CommandExecution::spec_start::<BE>(cmd, input_len).0,
        }).spec_last_step(events, out) matches Step::Done(Ok(_)),
    ensures
        events.len() >= 4,
        events[events.len() - 3] is Completed,
        events[events.len() - 2] matches Event::Data(bytes) && bytes@.len() >= 4
            && spec_command_status(le_u32(bytes@.subrange(0, 4))) == CommandStatus::Complete,
        events[events.len() - 1] is Data,
{
    let start = CommandExecution {
        port,
        cmd,
        timeout_ms,
        state: CommandExecution::spec_start::<BE>(cmd, input_len).0,
    };
    let n = events.len() as int;
    let e1 = events.drop_last();
    let m1 = start.spec_after(e1, out);
    lemma_result_follows_completion(m1, events.last(), out);
    assert(e1.len() > 0);
    let e2 = e1.drop_last();
    let m2 = start.spec_after(e2, out);
    lemma_result_follows_completion(m2, e1.last(), out);
    assert(e1.last() == events[n - 2]);
    assert(e2.len() > 0);
    let e3 = e2.drop_last();
    let m3 = start.spec_after(e3, out);
    lemma_result_follows_completion(m3, e2.last(), out);
    assert(e2.last() == events[n - 3]);
    assert(e3.len() > 0);
}

/// An execution is over after five events at most, and after two at most
/// once its wait has run out: the number of events that it can still take
/// goes down with every event.
pub proof fn lemma_execution_is_bounded<BE>(
    start: CommandExecution,
    events: Seq<Event<BE>>,
    out: Seq<u8>,
)
    ensures
        events_left(start.spec_after(events, out).state) + events.len() <= events_left(start.state)
            || start.spec_after(events, out).state == ExecState::Finished,
        start.timed_out() && events.len() >= 2 ==> start.spec_after(events, out).state
            == ExecState::Finished,
        events.len() >= 5 ==> start.spec_after(events, out).state == ExecState::Finished,
    decreases events.len(),
{
    if events.len() > 0 {
        lemma_execution_is_bounded(start, events.drop_last(), out);
        let before = start.spec_after(events.drop_last(), out);
        if before.state != ExecState::Finished {
            lemma_execution_ends(before, events.last(), out);
        }
    }
}

/// A command that the controller answers without raising an interrupt: it
/// is written, left to settle, and judged by a register.
#[derive(Debug, Clone, Copy, PartialEq, Eq, Structural)]
pub enum DirectKind {
    /// Cold reset of the controller
    Reset,
    /// Entry into firmware update mode
    EnterUpdateMode,
    /// Completion of a firmware update
    CompleteUpdate,
}

impl DirectKind {
    /// The command that is written.
    pub open spec fn spec_command(self) -> Command {
        match self {
            DirectKind::Reset => Command::Gaid,
            DirectKind::EnterUpdateMode => Command::Tfus,
            DirectKind::CompleteUpdate => Command::Tfuc,
        }
    }

    /// The time the controller is given before it is judged.
    pub open spec fn spec_settle_ms(self) -> u32 {
        match self {
            DirectKind::Reset => RESET_DELAY_MS,
            DirectKind::EnterUpdateMode => TFUS_DELAY_MS,
            DirectKind::CompleteUpdate => RESET_DELAY_MS,
        }
    }

    /// The input data of the command: none, but for the completion of an
    /// update, which asks the controller to copy the bank and not to switch.
    pub open spec fn spec_input(self) -> Option<Seq<u8>> {
        match self {
            DirectKind::CompleteUpdate => Some(
                (ResetArgs { switch_banks: 0, copy_bank: RESET_FEATURE_ENABLE }).spec_encode(),
            ),
            _ => None,
        }
    }

    /// The register that the command is judged by.
    pub open spec fn spec_check(self) -> Request {
        match self {
            DirectKind::Reset => Request::ReadCommand,
            _ => Request::ReadMode,
        }
    }

    /// The verdict on the command, from the bytes of the register it is
    /// judged by. A reset is done when the command register says complete,
    /// and the controller is busy otherwise. Update mode is entered when the
    /// mode register names the update mode, and an update is completed when
    /// it names one of the two application modes; any other mode is the wrong
    /// one. Bytes that give no register value or no mode are refused.
    pub open spec fn spec_verdict(self, bytes: Seq<u8>) -> Result<(), PdError> {
        if bytes.len() < 4 {
            Err(PdError::InvalidParams)
        } else {
            let value = le_u32(bytes.subrange(0, 4));
            match self {
                DirectKind::Reset => if spec_command_status(value) == CommandStatus::Complete {
                    Ok(())
                } else {
                    Err(PdError::Busy)
                },
                DirectKind::EnterUpdateMode => match Mode::from_code(value) {
                    Some(Mode::F211) => Ok(()),
                    Some(_) => Err(PdError::InvalidMode),
                    None => Err(PdError::InvalidParams),
                },
                DirectKind::CompleteUpdate => match Mode::from_code(value) {
                    Some(Mode::App0) => Ok(()),
                    Some(Mode::App1) => Ok(()),
                    Some(_) => Err(PdError::InvalidMode),
                    None => Err(PdError::InvalidParams),
                },
            }
        }
    }

    /// The command that is written.
    pub fn command(self) -> (r: Command)
        ensures
            r == self.spec_command(),
    {
        match self {
            DirectKind::Reset => Command::Gaid,
            DirectKind::EnterUpdateMode => Command::Tfus,
            DirectKind::CompleteUpdate => Command::Tfuc,
        }
    }

    /// The time the controller is given before it is judged.
    pub fn settle_ms(self) -> (r: u32)
        ensures
            r == self.spec_settle_ms(),
    {
        match self {
            DirectKind::Reset => RESET_DELAY_MS,
            DirectKind::EnterUpdateMode => TFUS_DELAY_MS,
            DirectKind::CompleteUpdate => RESET_DELAY_MS,
        }
    }

    /// The input data of the command, if it has any.
    pub fn input(self) -> (r: Option<[u8; 2]>)
        ensures
            match self.spec_input() {
                Some(bytes) => r matches Some(a) && a@ == bytes,
                None => r is None,
            },
    {
        match self {
            DirectKind::CompleteUpdate => {
                let args = ResetArgs { switch_banks: 0, copy_bank: RESET_FEATURE_ENABLE };
                let mut arg_bytes: [u8; 2] = [0u8; RESET_ARGS_LEN];
                let encoded = args.encode_into_slice(&mut arg_bytes);
                assert(encoded is Ok);
                assert(arg_bytes@ =~= args.spec_encode());
                Some(arg_bytes)
            },
            _ => None,
        }
    }

    /// Judges the command by the bytes read from its register.
    pub fn verdict(self, bytes: &[u8]) -> (r: Result<(), PdError>)
        ensures
            r == self.spec_verdict(bytes@),
    {
        match self {
            DirectKind::Reset => match decode_command_register(bytes) {
                Ok(value) => if check_command_complete(value) {
                    Ok(())
                } else {
                    Err(PdError::Busy)
                },
                Err(e) => Err(e),
            },
            DirectKind::EnterUpdateMode => match Mode::from_register(bytes) {
                Ok(Mode::F211) => Ok(()),
                Ok(_) => Err(PdError::InvalidMode),
                Err(e) => Err(e),
            },
            DirectKind::CompleteUpdate => match Mode::from_register(bytes) {
                Ok(Mode::App0) => Ok(()),
                Ok(Mode::App1) => Ok(()),
                Ok(_) => Err(PdError::InvalidMode),
                Err(e) => Err(e),
            },
        }
    }
}

/// Where a direct command stands.
#[derive(Debug, Clone, Copy, PartialEq, Eq, Structural)]
pub enum DirectState {
    /// The input data is being written
    SendingData,
    /// The command code is being written
    SendingCommand,
    /// The controller is given time
    Settling,
    /// The register that judges the command is being read
    Checking,
    /// The result was handed out
    Finished,
}

/// A direct command on its way: written, settled, judged.
#[derive(Debug, Clone, Copy, PartialEq, Eq)]
pub struct DirectCommand {
    pub kind: DirectKind,
    pub state: DirectState,
}

impl DirectCommand {
    /// The state and first request of a new direct command: its input data
    /// is written first where it has any, else its code.
    pub open spec fn spec_start(kind: DirectKind) -> (DirectState, Request) {
        if kind.spec_input() is Some {
            (DirectState::SendingData, Request::WriteInput)
        } else {
            (
                DirectState::SendingCommand,
                Request::WriteCommand { code: kind.spec_command().spec_code() },
            )
        }
    }

    /// Begins a direct command. Where the first request is `WriteInput`, the
    /// input is what `kind.input()` gives.
    pub fn start(kind: DirectKind) -> (r: (Self, Request))
        ensures
            r.0.kind == kind,
            (r.0.state, r.1) == Self::spec_start(kind),
    {
        match kind {
            DirectKind::CompleteUpdate => (
                DirectCommand { kind, state: DirectState::SendingData },
                Request::WriteInput,
            ),
            _ => (
                DirectCommand { kind, state: DirectState::SendingCommand },
                Request::WriteCommand { code: kind.command().code() },
            ),
        }
    }

    /// The state after an event and the step that answers it: the writes
    /// follow each other, then the delay, then the one read whose bytes
    /// decide. A failed transfer ends the command with that failure; an event
    /// that does not answer the last request ends it with `Failed`.
    pub open spec fn spec_resume<BE>(self, event: Event<BE>) -> (DirectState, Step<(), BE>) {
        let misuse = (DirectState::Finished, Step::Done(Err(Error::Pd(PdError::Failed))));
        if self.state == DirectState::Finished {
            misuse
        } else if event is Failed {
            (DirectState::Finished, Step::Done(Err(event->Failed_0)))
        } else {
            match self.state {
                DirectState::SendingData => if event is Written {
                    (
                        DirectState::SendingCommand,
                        Step::Request(
                            Request::WriteCommand { code: self.kind.spec_command().spec_code() },
                        ),
                    )
                } else {
                    misuse
                },
                DirectState::SendingCommand => if event is Written {
                    (
                        DirectState::Settling,
                        Step::Request(Request::Delay { ms: self.kind.spec_settle_ms() }),
                    )
                } else {
                    misuse
                },
                DirectState::Settling => if event is Elapsed {
                    (DirectState::Checking, Step::Request(self.kind.spec_check()))
                } else {
                    misuse
                },
                DirectState::Checking => match event {
                    Event::Data(bytes) => (
                        DirectState::Finished,
                        Step::Done(
                            match self.kind.spec_verdict(bytes@) {
                                Ok(_) => Ok(()),
                                Err(e) => Err(Error::Pd(e)),
                            },
                        ),
                    ),
                    _ => misuse,
                },
                DirectState::Finished => misuse,
            }
        }
    }

    /// Takes the command one event further.
    pub fn resume<BE>(&mut self, event: Event<'_, BE>) -> (step: Step<(), BE>)
        ensures
            final(self).kind == old(self).kind,
            (final(self).state, step) == old(self).spec_resume(event),
    {
        let state = self.state;
        self.state = DirectState::Finished;
        if let DirectState::Finished = state {
            return Step::Done(Err(Error::Pd(PdError::Failed)));
        }
        match event {
            Event::Failed(e) => Step::Done(Err(e)),
            Event::Written => match state {
                DirectState::SendingData => {
                    self.state = DirectState::SendingCommand;
                    Step::Request(Request::WriteCommand { code: self.kind.command().code() })
                },
                DirectState::SendingCommand => {
                    self.state = DirectState::Settling;
                    Step::Request(Request::Delay { ms: self.kind.settle_ms() })
                },
                _ => Step::Done(Err(Error::Pd(PdError::Failed))),
            },
            Event::Elapsed => match state {
                DirectState::Settling => {
                    self.state = DirectState::Checking;
                    match self.kind {
                        DirectKind::Reset => Step::Request(Request::ReadCommand),
                        _ => Step::Request(Request::ReadMode),
                    }
                },
                _ => Step::Done(Err(Error::Pd(PdError::Failed))),
            },
            Event::Data(bytes) => match state {
                DirectState::Checking => match self.kind.verdict(bytes) {
                    Ok(_) => Step::Done(Ok(())),
                    Err(e) => Step::Done(Err(Error::Pd(e))),
                },
                _ => Step::Done(Err(Error::Pd(PdError::Failed))),
            },
            _ => Step::Done(Err(Error::Pd(PdError::Failed))),
        }
    }
}

/// A reset that the controller acknowledges succeeds, and one that it has
/// not acknowledged when the delay is over reports that the controller is
/// busy: with the command register at zero the verdict is `Ok`, with any
/// other value in it, the code of the reset command among them, `Busy`.
pub proof fn lemma_reset_verdict(bytes: Seq<u8>)
    requires
        bytes.len() >= 4,
    ensures
        le_u32(bytes.subrange(0, 4)) == 0 ==> DirectKind::Reset.spec_verdict(bytes) == Ok::<
            (),
            PdError,
        >(()),
        le_u32(bytes.subrange(0, 4)) != 0 ==> DirectKind::Reset.spec_verdict(bytes) == Err::<
            (),
            PdError,
        >(PdError::Busy),
        le_u32(bytes.subrange(0, 4)) == Command::Gaid.spec_code() ==> DirectKind::Reset.spec_verdict(
            bytes,
        ) == Err::<(), PdError>(PdError::Busy),
{
}

} // verus!
