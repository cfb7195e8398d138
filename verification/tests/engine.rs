use tps6699x::command::{Command, ReturnValue, REG_DATA1_LEN, RESET_DELAY_MS, TFUS_DELAY_MS};
use tps6699x::engine::{
    timeout_outcome, CommandExecution, DirectCommand, DirectKind, DirectState, Event, ExecState,
    Request, Step,
};
use tps6699x::error::{Error, PdError, PortId};

type Bus = u16;

fn done<T>(step: Step<T, Bus>) -> Result<T, Error<Bus>> {
    match step {
        Step::Done(r) => r,
        Step::Request(r) => panic!("unexpected request {:?}", r),
    }
}

fn data_register(ret: u8, output: &[u8]) -> [u8; REG_DATA1_LEN] {
    let mut data = [0u8; REG_DATA1_LEN];
    data[0] = ret;
    data[1..1 + output.len()].copy_from_slice(output);
    data
}

#[test]
fn command_with_input_runs_to_result() {
    let (mut exec, step) =
        CommandExecution::start::<Bus>(PortId(1), Command::Tfuq, Some(2), 250);
    assert_eq!(exec.port, PortId(1));
    assert_eq!(step, Step::Request(Request::WriteInput));
    let mut out = [0u8; 3];
    assert_eq!(
        exec.resume::<Bus>(Event::Written, &mut out),
        Step::Request(Request::WriteCommand { code: u32::from_le_bytes(*b"TFUq") })
    );
    assert_eq!(
        exec.resume::<Bus>(Event::Written, &mut out),
        Step::Request(Request::WaitCompletion { clear_current: true, timeout_ms: 250 })
    );
    assert_eq!(exec.resume::<Bus>(Event::Completed, &mut out), Step::Request(Request::ReadCommand));
    assert_eq!(
        exec.resume::<Bus>(Event::Data(&[0, 0, 0, 0]), &mut out),
        Step::Request(Request::ReadData)
    );
    assert_eq!(out, [0, 0, 0]);
    let data = data_register(0x00, &[0xA, 0xB, 0xC, 0xD]);
    assert_eq!(exec.resume::<Bus>(Event::Data(&data), &mut out), Step::Done(Ok(ReturnValue::Success)));
    assert_eq!(out, [0xA, 0xB, 0xC]);
    assert_eq!(exec.state, ExecState::Finished);
    // a finished execution takes no more events
    assert_eq!(
        exec.resume::<Bus>(Event::Written, &mut out),
        Step::Done(Err(Error::Pd(PdError::Failed)))
    );
}

#[test]
fn command_without_input_starts_with_its_code() {
    let (exec, step) = CommandExecution::start::<Bus>(PortId(0), Command::Tfue, None, 100);
    assert_eq!(step, Step::Request(Request::WriteCommand { code: u32::from_le_bytes(*b"TFUe") }));
    assert_eq!(exec.state, ExecState::SendingCommand);
}

#[test]
fn long_input_is_refused_at_once() {
    let (exec, step) =
        CommandExecution::start::<Bus>(PortId(0), Command::Tfud, Some(REG_DATA1_LEN + 1), 100);
    assert_eq!(done(step), Err(Error::Pd(PdError::InvalidParams)));
    assert_eq!(exec.state, ExecState::Finished);
    let (_, step) =
        CommandExecution::start::<Bus>(PortId(0), Command::Tfud, Some(REG_DATA1_LEN), 100);
    assert_eq!(step, Step::Request(Request::WriteInput));
}

#[test]
fn non_success_return_value_is_a_value() {
    let (mut exec, _) = CommandExecution::start::<Bus>(PortId(0), Command::Tfui, None, 100);
    let mut out: [u8; 0] = [];
    exec.resume::<Bus>(Event::Written, &mut out);
    exec.resume::<Bus>(Event::Completed, &mut out);
    exec.resume::<Bus>(Event::Data(&[0, 0, 0, 0]), &mut out);
    let data = data_register(0x03, &[]);
    assert_eq!(
        exec.resume::<Bus>(Event::Data(&data), &mut out),
        Step::Done(Ok(ReturnValue::Rejected))
    );
}

fn timed_out_execution() -> CommandExecution {
    let (mut exec, _) = CommandExecution::start::<Bus>(PortId(0), Command::Tfui, None, 100);
    let mut out: [u8; 0] = [];
    assert_eq!(
        exec.resume::<Bus>(Event::Written, &mut out),
        Step::Request(Request::WaitCompletion { clear_current: true, timeout_ms: 100 })
    );
    assert_eq!(exec.resume::<Bus>(Event::TimedOut, &mut out), Step::Request(Request::ReadCommand));
    assert_eq!(exec.state, ExecState::ReadingStatus { timed_out: true });
    exec
}

#[test]
fn timeout_with_rejection_reports_rejection() {
    let mut exec = timed_out_execution();
    let mut out = [0x77u8; 2];
    assert_eq!(
        exec.resume::<Bus>(Event::Data(&[0, 0, 0, 0]), &mut out),
        Step::Request(Request::ReadData)
    );
    let data = data_register(0x03, &[1, 2]);
    assert_eq!(
        exec.resume::<Bus>(Event::Data(&data), &mut out),
        Step::Done(Err(Error::Pd(PdError::Rejected)))
    );
    assert_eq!(out, [0x77, 0x77]);
}

#[test]
fn timeout_with_success_is_still_a_timeout() {
    let mut exec = timed_out_execution();
    let mut out = [0x77u8; 2];
    exec.resume::<Bus>(Event::Data(&[0, 0, 0, 0]), &mut out);
    let data = data_register(0x00, &[1, 2]);
    assert_eq!(
        exec.resume::<Bus>(Event::Data(&data), &mut out),
        Step::Done(Err(Error::Pd(PdError::Timeout)))
    );
    assert_eq!(out, [0x77, 0x77]);
}

#[test]
fn timeout_with_pending_command_is_a_timeout() {
    let mut exec = timed_out_execution();
    let mut out: [u8; 0] = [];
    assert_eq!(
        exec.resume::<Bus>(Event::Data(b"TFUi"), &mut out),
        Step::Done(Err(Error::Pd(PdError::Timeout)))
    );
}

#[test]
fn timeout_passes_bus_failure_on() {
    let mut exec = timed_out_execution();
    let mut out: [u8; 0] = [];
    assert_eq!(
        exec.resume::<Bus>(Event::Failed(Error::Bus(42)), &mut out),
        Step::Done(Err(Error::Bus(42)))
    );
    let mut exec = timed_out_execution();
    assert_eq!(
        exec.resume::<Bus>(Event::Failed(Error::Pd(PdError::InvalidParams)), &mut out),
        Step::Done(Err(Error::Pd(PdError::Timeout)))
    );
}

#[test]
fn timeout_outcome_table() {
    assert_eq!(timeout_outcome::<Bus>(Ok(ReturnValue::Rejected)), Error::Pd(PdError::Rejected));
    assert_eq!(timeout_outcome::<Bus>(Ok(ReturnValue::Success)), Error::Pd(PdError::Timeout));
    assert_eq!(timeout_outcome::<Bus>(Ok(ReturnValue::Abort)), Error::Pd(PdError::Timeout));
    assert_eq!(timeout_outcome::<Bus>(Err(Error::Bus(7))), Error::Bus(7));
    assert_eq!(
        timeout_outcome::<Bus>(Err(Error::Pd(PdError::Busy))),
        Error::Pd(PdError::Timeout)
    );
}

#[test]
fn in_time_errors_pass_through() {
    let mut out: [u8; 0] = [];
    // the write fails
    let (mut exec, _) = CommandExecution::start::<Bus>(PortId(0), Command::Tfui, Some(8), 100);
    assert_eq!(
        exec.resume::<Bus>(Event::Failed(Error::Bus(3)), &mut out),
        Step::Done(Err(Error::Bus(3)))
    );
    // the command is not complete although the interrupt said so
    let (mut exec, _) = CommandExecution::start::<Bus>(PortId(0), Command::Tfui, None, 100);
    exec.resume::<Bus>(Event::Written, &mut out);
    exec.resume::<Bus>(Event::Completed, &mut out);
    assert_eq!(
        exec.resume::<Bus>(Event::Data(b"TFUi"), &mut out),
        Step::Done(Err(Error::Pd(PdError::Busy)))
    );
    // the controller does not know the command
    let (mut exec, _) = CommandExecution::start::<Bus>(PortId(0), Command::Tfui, None, 100);
    exec.resume::<Bus>(Event::Written, &mut out);
    exec.resume::<Bus>(Event::Completed, &mut out);
    assert_eq!(
        exec.resume::<Bus>(Event::Data(b"!CMD"), &mut out),
        Step::Done(Err(Error::Pd(PdError::UnrecognizedCommand)))
    );
    // an event that answers nothing
    let (mut exec, _) = CommandExecution::start::<Bus>(PortId(0), Command::Tfui, None, 100);
    assert_eq!(
        exec.resume::<Bus>(Event::Elapsed, &mut out),
        Step::Done(Err(Error::Pd(PdError::Failed)))
    );
}

fn run_reset(register_after_delay: &[u8]) -> Result<(), Error<Bus>> {
    let (mut reset, request) = DirectCommand::start(DirectKind::Reset);
    assert_eq!(DirectKind::Reset.input(), None);
    assert_eq!(request, Request::WriteCommand { code: u32::from_le_bytes(*b"GAID") });
    assert_eq!(
        reset.resume::<Bus>(Event::Written),
        Step::Request(Request::Delay { ms: RESET_DELAY_MS })
    );
    assert_eq!(RESET_DELAY_MS, 2000);
    assert_eq!(reset.resume::<Bus>(Event::Elapsed), Step::Request(Request::ReadCommand));
    let result = done(reset.resume::<Bus>(Event::Data(register_after_delay)));
    assert_eq!(reset.state, DirectState::Finished);
    result
}

#[test]
fn reset_acknowledged_after_delay() {
    assert_eq!(run_reset(&[0, 0, 0, 0]), Ok(()));
}

#[test]
fn reset_not_acknowledged_is_busy() {
    assert_eq!(run_reset(b"GAID"), Err(Error::Pd(PdError::Busy)));
    assert_eq!(run_reset(b"!CMD"), Err(Error::Pd(PdError::Busy)));
    assert_eq!(run_reset(&[0, 0, 0]), Err(Error::Pd(PdError::InvalidParams)));
}

#[test]
fn enter_update_mode_checks_mode() {
    let run = |mode: &[u8]| {
        let (mut cmd, request) = DirectCommand::start(DirectKind::EnterUpdateMode);
        assert_eq!(request, Request::WriteCommand { code: u32::from_le_bytes(*b"TFUs") });
        assert_eq!(
            cmd.resume::<Bus>(Event::Written),
            Step::Request(Request::Delay { ms: TFUS_DELAY_MS })
        );
        assert_eq!(cmd.resume::<Bus>(Event::Elapsed), Step::Request(Request::ReadMode));
        done(cmd.resume::<Bus>(Event::Data(mode)))
    };
    assert_eq!(run(b"F211"), Ok(()));
    assert_eq!(run(b"APP0"), Err(Error::Pd(PdError::InvalidMode)));
    assert_eq!(run(b"BOOT"), Err(Error::Pd(PdError::InvalidMode)));
    assert_eq!(run(b"junk"), Err(Error::Pd(PdError::InvalidParams)));
}

#[test]
fn complete_update_sends_arguments_and_checks_mode() {
    let run = |mode: &[u8]| {
        let (mut cmd, request) = DirectCommand::start(DirectKind::CompleteUpdate);
        assert_eq!(request, Request::WriteInput);
        assert_eq!(DirectKind::CompleteUpdate.input(), Some([0x00, 0xAC]));
        assert_eq!(
            cmd.resume::<Bus>(Event::Written),
            Step::Request(Request::WriteCommand { code: u32::from_le_bytes(*b"TFUc") })
        );
        assert_eq!(
            cmd.resume::<Bus>(Event::Written),
            Step::Request(Request::Delay { ms: RESET_DELAY_MS })
        );
        assert_eq!(cmd.resume::<Bus>(Event::Elapsed), Step::Request(Request::ReadMode));
        done(cmd.resume::<Bus>(Event::Data(mode)))
    };
    assert_eq!(run(b"APP0"), Ok(()));
    assert_eq!(run(b"APP1"), Ok(()));
    assert_eq!(run(b"F211"), Err(Error::Pd(PdError::InvalidMode)));
    assert_eq!(run(b"WTPR"), Err(Error::Pd(PdError::InvalidMode)));
}

#[test]
fn direct_command_failures() {
    let (mut cmd, _) = DirectCommand::start(DirectKind::Reset);
    assert_eq!(cmd.resume::<Bus>(Event::Failed(Error::Bus(9))), Step::Done(Err(Error::Bus(9))));
    assert_eq!(cmd.resume::<Bus>(Event::Written), Step::Done(Err(Error::Pd(PdError::Failed))));
    let (mut cmd, _) = DirectCommand::start(DirectKind::Reset);
    assert_eq!(cmd.resume::<Bus>(Event::Elapsed), Step::Done(Err(Error::Pd(PdError::Failed))));
    let (mut cmd, _) = DirectCommand::start(DirectKind::Reset);
    cmd.resume::<Bus>(Event::Written);
    assert_eq!(
        cmd.resume::<Bus>(Event::Data(&[0, 0, 0, 0])),
        Step::Done(Err(Error::Pd(PdError::Failed)))
    );
}
