use tps6699x::distributor::{IntEvent, IntRequest, IntStep, InterruptPass, PassPhase};
use tps6699x::error::{port_addr, Error, PdError, PortId};
use tps6699x::interrupt::{
    check_snapshot, command_completed, IntEventFlags, InterruptEnableState, InterruptGuard,
    CMD1_COMPLETED_BIT, INT_EVENT_LEN, REG_INT_CLEAR_BUS1, REG_INT_EVENT_BUS1,
};
use tps6699x::transport::{parse_read_response, write_frame};
use tps6699x::{ADDR0, ADDR1};

type Bus = u8;

const PORT0: PortId = PortId(0);
const PORT1: PortId = PortId(1);

fn flags_with(bits: &[usize]) -> IntEventFlags {
    let mut bytes = [0u8; INT_EVENT_LEN];
    for bit in bits {
        bytes[bit / 8] |= 1 << (bit % 8);
    }
    IntEventFlags { bits: bytes }
}

fn check_clear_interrupt(addr: [u8; 2], port: PortId, expected_addr: u8) {
    assert_eq!(port_addr(&addr, 2, port), Ok(expected_addr));
    // a fully asserted interrupt register
    let int = IntEventFlags { bits: [0xFF; INT_EVENT_LEN] };
    let mut response = vec![INT_EVENT_LEN as u8];
    response.extend_from_slice(&int.bits);
    let mut data = [0u8; INT_EVENT_LEN];
    assert_eq!(parse_read_response(&response, &mut data), Ok(()));
    let flags = IntEventFlags::from_register(&data).unwrap();
    assert_eq!(flags, int);
    // what is read is written to the interrupt clear register
    let write = flags.clear_write().unwrap();
    assert_eq!(write, int);
    let mut expected = vec![0x18, INT_EVENT_LEN as u8];
    expected.extend_from_slice(&int.bits);
    assert_eq!(write_frame(REG_INT_CLEAR_BUS1, &write.bits), Ok(expected));
    assert_eq!(REG_INT_EVENT_BUS1, 0x14);
}

#[test]
fn asynchronous_test_clear_interrupt_0() {
    check_clear_interrupt(ADDR0, PORT0, 0x20);
    check_clear_interrupt(ADDR0, PORT1, 0x24);
}

#[test]
fn asynchronous_test_clear_interrupt_1() {
    check_clear_interrupt(ADDR1, PORT0, 0x21);
    check_clear_interrupt(ADDR1, PORT1, 0x25);
}

#[test]
fn mod_test_clear_interrupt_0() {
    check_clear_interrupt(ADDR0, PORT0, 0x20);
    check_clear_interrupt(ADDR0, PORT1, 0x24);
}

#[test]
fn mod_test_clear_interrupt_1() {
    check_clear_interrupt(ADDR1, PORT0, 0x21);
    check_clear_interrupt(ADDR1, PORT1, 0x25);
}

#[test]
fn flags_bits() {
    let zero = IntEventFlags::new_zero();
    assert!(zero.is_zero());
    assert_eq!(zero.bits, [0u8; INT_EVENT_LEN]);
    assert_eq!(zero.clear_write(), None);
    let done = flags_with(&[CMD1_COMPLETED_BIT]);
    assert_eq!(done.bits[3], 0x40);
    assert!(done.cmd_1_completed());
    assert!(done.bit(30));
    assert!(!done.bit(29));
    assert!(!done.bit(31));
    assert!(!done.is_zero());
    let top = flags_with(&[87]);
    assert!(top.bit(87));
    assert!(!top.bit(88));
    assert!(!top.bit(usize::MAX));
    assert!(!top.cmd_1_completed());
    let both = done.union(&top);
    assert_eq!(both, flags_with(&[30, 87]));
    assert_eq!(both.union(&both), both);
    assert_eq!(zero.union(&done), done);
    assert_eq!(IntEventFlags::from_register(&[0u8; 10]), Err(PdError::InvalidParams));
    let long = [1u8; 12];
    assert_eq!(IntEventFlags::from_register(&long).unwrap().bits, [1u8; 11]);
}

/// A port whose pending events are cleared by writing them back.
struct Port {
    pending: [u8; INT_EVENT_LEN],
}

impl Port {
    fn clear_interrupt(&mut self) -> IntEventFlags {
        let flags = IntEventFlags::from_register(&self.pending).unwrap();
        if let Some(write) = flags.clear_write() {
            for (p, w) in self.pending.iter_mut().zip(write.bits.iter()) {
                *p &= !*w;
            }
        }
        flags
    }
}

#[test]
fn clearing_twice_finds_nothing() {
    for pending in [[0u8; INT_EVENT_LEN], [0xFF; INT_EVENT_LEN], flags_with(&[0, 30, 84]).bits] {
        let mut port = Port { pending };
        let first = port.clear_interrupt();
        assert_eq!(first.bits, pending);
        let second = port.clear_interrupt();
        assert!(second.is_zero());
        assert_eq!(second.clear_write(), None);
    }
}

#[test]
fn guard_restores_prior_state() {
    let mut state = InterruptEnableState::new();
    assert_eq!(state.interrupts_enabled(), [true, true]);
    state.enable_interrupts([true, false]);
    let outer = InterruptGuard::new(&mut state, [false, true]);
    assert_eq!(state.interrupts_enabled(), [false, true]);
    let inner = InterruptGuard::disable_all(&mut state);
    assert_eq!(state.interrupts_enabled(), [false, false]);
    inner.release(&mut state);
    assert_eq!(state.interrupts_enabled(), [false, true]);
    outer.release(&mut state);
    assert_eq!(state.interrupts_enabled(), [true, false]);
}

fn read_answer(flags: &IntEventFlags) -> Vec<u8> {
    flags.bits.to_vec()
}

#[test]
fn pass_gathers_both_ports() {
    let p0 = flags_with(&[CMD1_COMPLETED_BIT, 3]);
    let p1 = flags_with(&[CMD1_COMPLETED_BIT]);
    let (mut pass, step) = InterruptPass::start::<Bus>(None, [true, true], 2);
    assert_eq!(step, IntStep::Request(IntRequest::CheckLine));
    assert_eq!(
        pass.resume::<Bus>(IntEvent::LineAsserted),
        IntStep::Request(IntRequest::ReadEvents { port: PORT0 })
    );
    assert_eq!(
        pass.resume::<Bus>(IntEvent::Data(&read_answer(&p0))),
        IntStep::Request(IntRequest::ClearEvents { port: PORT0, flags: p0 })
    );
    assert_eq!(pass.resume::<Bus>(IntEvent::Written), IntStep::Request(IntRequest::CheckLine));
    assert_eq!(
        pass.resume::<Bus>(IntEvent::LineAsserted),
        IntStep::Request(IntRequest::ReadEvents { port: PORT1 })
    );
    assert_eq!(
        pass.resume::<Bus>(IntEvent::Data(&read_answer(&p1))),
        IntStep::Request(IntRequest::ClearEvents { port: PORT1, flags: p1 })
    );
    let step = pass.resume::<Bus>(IntEvent::Written);
    assert_eq!(step, IntStep::Publish([p0, p1]));
    assert_eq!(pass.phase, PassPhase::Finished);

    // one snapshot shows both; a waiter for port 0 gets port 1's events too
    let snapshot = [p0, p1];
    let seen = check_snapshot(snapshot, |p, flags| p == PORT0 && flags.cmd_1_completed());
    assert_eq!(seen, Some([p0, p1]));
    let seen = seen.unwrap();
    assert!(seen[1].cmd_1_completed());
    assert!(command_completed(&seen, PORT0));
    assert!(command_completed(&seen, PORT1));
    assert!(!command_completed(&seen, PortId(2)));
}

#[test]
fn snapshot_that_matches_nowhere_keeps_waiting() {
    let quiet = [flags_with(&[3]), IntEventFlags::new_zero()];
    assert_eq!(check_snapshot(quiet, |_, flags| flags.cmd_1_completed()), None);
    let other_port = [IntEventFlags::new_zero(), flags_with(&[CMD1_COMPLETED_BIT])];
    assert_eq!(
        check_snapshot(other_port, |p, flags| p == PORT0 && flags.cmd_1_completed()),
        None
    );
    assert_eq!(
        check_snapshot(other_port, |p, flags| p == PORT1 && flags.cmd_1_completed()),
        Some(other_port)
    );
    assert!(!command_completed(&other_port, PORT0));
}

#[test]
fn pass_adds_to_what_was_pending() {
    let before = [flags_with(&[1]), flags_with(&[2])];
    let (mut pass, _) = InterruptPass::start::<Bus>(Some(before), [true, true], 2);
    pass.resume::<Bus>(IntEvent::LineAsserted);
    pass.resume::<Bus>(IntEvent::Data(&read_answer(&flags_with(&[30]))));
    pass.resume::<Bus>(IntEvent::Written);
    pass.resume::<Bus>(IntEvent::LineAsserted);
    // nothing new on port 1: nothing is written
    let step = pass.resume::<Bus>(IntEvent::Data(&[0u8; INT_EVENT_LEN]));
    assert_eq!(step, IntStep::Publish([flags_with(&[1, 30]), flags_with(&[2])]));
}

#[test]
fn pass_skips_masked_ports() {
    let (mut pass, step) = InterruptPass::start::<Bus>(None, [false, true], 2);
    assert_eq!(step, IntStep::Request(IntRequest::CheckLine));
    assert_eq!(pass.port, 1);
    assert_eq!(
        pass.resume::<Bus>(IntEvent::LineAsserted),
        IntStep::Request(IntRequest::ReadEvents { port: PORT1 })
    );
    let (_, step) = InterruptPass::start::<Bus>(None, [false, false], 2);
    assert_eq!(step, IntStep::Publish([IntEventFlags::new_zero(); 2]));
    let kept = [flags_with(&[5]), flags_with(&[6])];
    let (_, step) = InterruptPass::start::<Bus>(Some(kept), [false, false], 2);
    assert_eq!(step, IntStep::Publish(kept));
    // a controller with one port
    let (mut pass, _) = InterruptPass::start::<Bus>(None, [true, true], 1);
    pass.resume::<Bus>(IntEvent::LineAsserted);
    let step = pass.resume::<Bus>(IntEvent::Data(&[0u8; INT_EVENT_LEN]));
    assert_eq!(step, IntStep::Publish([IntEventFlags::new_zero(); 2]));
    let (_, step) = InterruptPass::start::<Bus>(None, [true, true], 0);
    assert_eq!(step, IntStep::Publish([IntEventFlags::new_zero(); 2]));
}

#[test]
fn pass_skips_port_when_line_is_released() {
    let (mut pass, _) = InterruptPass::start::<Bus>(None, [true, true], 2);
    assert_eq!(pass.resume::<Bus>(IntEvent::LineReleased), IntStep::Request(IntRequest::CheckLine));
    assert_eq!(pass.port, 1);
    assert_eq!(
        pass.resume::<Bus>(IntEvent::LineReleased),
        IntStep::Publish([IntEventFlags::new_zero(); 2])
    );
}

#[test]
fn busy_port_adds_nothing_and_pass_goes_on() {
    let (mut pass, _) = InterruptPass::start::<Bus>(None, [true, true], 2);
    pass.resume::<Bus>(IntEvent::LineAsserted);
    assert_eq!(
        pass.resume::<Bus>(IntEvent::Failed(Error::Pd(PdError::Busy))),
        IntStep::Request(IntRequest::CheckLine)
    );
    assert_eq!(pass.port, 1);
    pass.resume::<Bus>(IntEvent::LineAsserted);
    let p1 = flags_with(&[30]);
    pass.resume::<Bus>(IntEvent::Data(&read_answer(&p1)));
    assert_eq!(
        pass.resume::<Bus>(IntEvent::Written),
        IntStep::Publish([IntEventFlags::new_zero(), p1])
    );
}

#[test]
fn pass_failures() {
    let (mut pass, _) = InterruptPass::start::<Bus>(None, [true, true], 2);
    assert_eq!(
        pass.resume::<Bus>(IntEvent::LineFailed),
        IntStep::Failed(Error::Pd(PdError::Failed))
    );
    assert_eq!(
        pass.resume::<Bus>(IntEvent::LineAsserted),
        IntStep::Failed(Error::Pd(PdError::Failed))
    );
    let (mut pass, _) = InterruptPass::start::<Bus>(None, [true, true], 2);
    pass.resume::<Bus>(IntEvent::LineAsserted);
    assert_eq!(
        pass.resume::<Bus>(IntEvent::Failed(Error::Bus(5))),
        IntStep::Failed(Error::Bus(5))
    );
    let (mut pass, _) = InterruptPass::start::<Bus>(None, [true, true], 2);
    pass.resume::<Bus>(IntEvent::LineAsserted);
    assert_eq!(
        pass.resume::<Bus>(IntEvent::Data(&[0u8; 4])),
        IntStep::Failed(Error::Pd(PdError::InvalidParams))
    );
    let (mut pass, _) = InterruptPass::start::<Bus>(None, [true, true], 2);
    pass.resume::<Bus>(IntEvent::LineAsserted);
    pass.resume::<Bus>(IntEvent::Data(&[1u8; INT_EVENT_LEN]));
    assert_eq!(
        pass.resume::<Bus>(IntEvent::Failed(Error::Pd(PdError::Timeout))),
        IntStep::Failed(Error::Pd(PdError::Timeout))
    );
}
