//! The interrupt distributor: one pass over the ports of a controller when
//! the interrupt line is asserted, as a state machine that never touches the
//! bus.
//!
//! A pass starts from the snapshot that was published before and not yet
//! taken, or from no events. It visits the ports that are not masked, reads
//! and clears the events of each, and adds them to the snapshot. When every
//! port was visited, the snapshot is handed out to be published.
use vstd::prelude::*;

use crate::error::{Error, PdError, PortId, MAX_SUPPORTED_PORTS};
use crate::interrupt::{spec_union, spec_zero, IntEventFlags, INT_EVENT_LEN};

verus! {

/// What a pass asks its caller to do next.
#[derive(Debug, Clone, Copy, PartialEq, Eq)]
pub enum IntRequest {
    /// Look at the interrupt line
    CheckLine,
    /// Read the interrupt event register of the port
    ReadEvents { port: PortId },
    /// Write these events to the interrupt clear register of the port
    ClearEvents { port: PortId, flags: IntEventFlags },
}

/// What the caller reports back.
#[derive(Debug, Clone, Copy, PartialEq, Eq)]
pub enum IntEvent<'a, BE> {
    /// The interrupt line is asserted
    LineAsserted,
    /// The interrupt line is no longer asserted
    LineReleased,
    /// The interrupt line could not be read
    LineFailed,
    /// The read was made and gave these bytes
    Data(&'a [u8]),
    /// The write was made
    Written,
    /// The transfer failed
    Failed(Error<BE>),
}

/// What a pass answers: the next request, the snapshot to publish, or the
/// failure that ended it.
#[derive(Debug, Clone, Copy, PartialEq, Eq)]
pub enum IntStep<BE> {
    Request(IntRequest),
    Publish([IntEventFlags; 2]),
    Failed(Error<BE>),
}

/// Where a pass stands with the port it is at.
#[derive(Debug, Clone, Copy, PartialEq, Eq, Structural)]
pub enum PassPhase {
    /// The interrupt line is being looked at
    Line,
    /// The events of the port are being read
    Reading,
    /// The events of the port are being cleared
    Clearing,
    /// The pass is over
    Finished,
}

/// The first port from `from` on that exists and is not masked, or `limit`
/// if there is none.
pub open spec fn spec_next_port(enabled: Seq<bool>, limit: int, from: int) -> int
    decreases limit - from,
{
    if from >= limit {
        limit
    } else if enabled[from] {
        from
    } else {
        spec_next_port(enabled, limit, from + 1)
    }
}

/// What `spec_next_port` finds is a port from `from` on that is not masked,
/// and every port before it, from `from` on, is masked.
pub proof fn lemma_next_port_is_enabled(enabled: Seq<bool>, limit: int, from: int)
    requires
        0 <= from,
    ensures
        from <= spec_next_port(enabled, limit, from) || from > limit,
        spec_next_port(enabled, limit, from) <= limit || from > limit,
        spec_next_port(enabled, limit, from) < limit ==> enabled[spec_next_port(
            enabled,
            limit,
            from,
        )],
        forall|p: int| from <= p < spec_next_port(enabled, limit, from) ==> !enabled[p],
    decreases limit - from,
{
    if from < limit && !enabled[from] {
        lemma_next_port_is_enabled(enabled, limit, from + 1);
    }
}

/// The number of ports that a pass looks at: those of the controller, as far
/// as this driver supports them.
pub open spec fn spec_port_limit(num_ports: usize) -> int {
    if num_ports < MAX_SUPPORTED_PORTS {
        num_ports as int
    } else {
        MAX_SUPPORTED_PORTS as int
    }
}

/// One pass over the ports.
#[derive(Debug, Clone, Copy, PartialEq, Eq)]
pub struct InterruptPass {
    /// The snapshot as far as it is gathered
    pub flags: [IntEventFlags; 2],
    /// Which ports take part
    pub enabled: [bool; 2],
    /// The number of ports of the controller
    pub num_ports: usize,
    /// The port that the pass is at
    pub port: usize,
    pub phase: PassPhase,
    /// The events read from the port, while they are being cleared
    pub read: IntEventFlags,
}

impl InterruptPass {
    /// The number of ports that the pass looks at.
    pub open spec fn limit(self) -> int {
        spec_port_limit(self.num_ports)
    }

    /// A pass that is not over is at a port that exists and is not masked.
    pub open spec fn wf(self) -> bool {
        self.phase != PassPhase::Finished ==> 0 <= self.port < self.limit()
            && self.enabled[self.port as int]
    }

    /// Whether `post` and `step` are what the pass moves on to from `pre`
    /// when it has gathered `flags`: the line is looked at again for the
    /// next port that is not masked, and when there is none, the pass is over
    /// and hands out the snapshot.
    pub open spec fn moves_on<BE>(
        pre: InterruptPass,
        flags: Seq<Seq<u8>>,
        post: InterruptPass,
        step: IntStep<BE>,
    ) -> bool {
        let next = spec_next_port(pre.enabled@, pre.limit(), pre.port + 1);
        &&& post.flags[0]@ == flags[0]
        &&& post.flags[1]@ == flags[1]
        &&& if next < pre.limit() {
            post.phase == PassPhase::Line && post.port == next && step == IntStep::<BE>::Request(
                IntRequest::CheckLine,
            )
        } else {
            post.phase == PassPhase::Finished && step == IntStep::<BE>::Publish(post.flags)
        }
    }

    /// Whether `post` and `step` are the end of the pass with failure `e`.
    pub open spec fn fails<BE>(
        pre: InterruptPass,
        e: Error<BE>,
        post: InterruptPass,
        step: IntStep<BE>,
    ) -> bool {
        post.phase == PassPhase::Finished && post.flags == pre.flags && step == IntStep::Failed(e)
    }

    /// The snapshot gathered so far, as bytes.
    pub open spec fn gathered(self) -> Seq<Seq<u8>> {
        seq![self.flags[0]@, self.flags[1]@]
    }

    /// Whether `post` and `step` follow from `pre` on `event`.
    ///
    /// With the line asserted, the events of the port are read; with the
    /// line released, the port is skipped. Events that were read are written
    /// back to be cleared, and once that is done they are added to what the
    /// snapshot holds for the port; where no event was read, nothing is
    /// written. A port that answers that it is busy is skipped: it adds
    /// nothing in this pass. Any other failure ends the pass, and so does a
    /// line that cannot be read. An event that does not answer the last
    /// request ends the pass with `Failed`.
    pub open spec fn transition<BE>(
        pre: InterruptPass,
        event: IntEvent<BE>,
        post: InterruptPass,
        step: IntStep<BE>,
    ) -> bool {
        let misuse = Self::fails(pre, Error::<BE>::Pd(PdError::Failed), post, step);
        let skip = Self::moves_on(pre, pre.gathered(), post, step);
        &&& post.enabled == pre.enabled
        &&& post.num_ports == pre.num_ports
        &&& if pre.phase == PassPhase::Finished || pre.port >= MAX_SUPPORTED_PORTS {
            misuse
        } else {
            match pre.phase {
                PassPhase::Line => match event {
                    IntEvent::LineAsserted => post.phase == PassPhase::Reading && post.port
                        == pre.port && post.flags == pre.flags && step == IntStep::<BE>::Request(
                        IntRequest::ReadEvents { port: PortId(pre.port as u8) },
                    ),
                    IntEvent::LineReleased => skip,
                    _ => misuse,
                },
                PassPhase::Reading => match event {
                    IntEvent::Data(bytes) => if bytes@.len() < INT_EVENT_LEN {
                        Self::fails(pre, Error::<BE>::Pd(PdError::InvalidParams), post, step)
                    } else if bytes@.subrange(0, INT_EVENT_LEN as int) == spec_zero() {
                        skip
                    } else {
                        &&& post.phase == PassPhase::Clearing
                        &&& post.port == pre.port
                        &&& post.flags == pre.flags
                        &&& post.read@ == bytes@.subrange(0, INT_EVENT_LEN as int)
                        &&& step == IntStep::<BE>::Request(
                            IntRequest::ClearEvents {
                                port: PortId(pre.port as u8),
                                flags: post.read,
                            },
                        )
                    },
                    IntEvent::Failed(e) => if e == Error::<BE>::Pd(PdError::Busy) {
                        skip
                    } else {
                        Self::fails(pre, e, post, step)
                    },
                    _ => misuse,
                },
                PassPhase::Clearing => match event {
                    IntEvent::Written => Self::moves_on(
                        pre,
                        pre.gathered().update(
                            pre.port as int,
                            spec_union(pre.flags[pre.port as int]@, pre.read@),
                        ),
                        post,
                        step,
                    ),
                    IntEvent::Failed(e) => if e == Error::<BE>::Pd(PdError::Busy) {
                        skip
                    } else {
                        Self::fails(pre, e, post, step)
                    },
                    _ => misuse,
                },
                PassPhase::Finished => misuse,
            }
        }
    }

    /// Finds the first port from `from` on that exists and is not masked.
    fn next_port(&self, from: usize) -> (r: usize)
        requires
            from <= MAX_SUPPORTED_PORTS,
        ensures
            r == spec_next_port(self.enabled@, self.limit(), from as int) || (from > self.limit()
                && r == from),
            from <= self.limit() ==> r <= self.limit(),
        decreases MAX_SUPPORTED_PORTS - from,
    {
        let limit: usize = if self.num_ports < MAX_SUPPORTED_PORTS {
            self.num_ports
        } else {
            MAX_SUPPORTED_PORTS
        };
        if from >= limit {
            if from == limit {
                limit
            } else {
                from
            }
        } else if self.enabled[from] {
            from
        } else {
            self.next_port(from + 1)
        }
    }

    /// Moves on to the next port that is not masked, or ends the pass.
    fn move_on<BE>(&mut self) -> (step: IntStep<BE>)
        requires
            old(self).port < MAX_SUPPORTED_PORTS,
        ensures
            final(self).enabled == old(self).enabled,
            final(self).num_ports == old(self).num_ports,
            final(self).read == old(self).read,
            final(self).flags == old(self).flags,
            Self::moves_on(*old(self), old(self).gathered(), *final(self), step),
    {
        let next = self.next_port(self.port + 1);
        let limit: usize = if self.num_ports < MAX_SUPPORTED_PORTS {
            self.num_ports
        } else {
            MAX_SUPPORTED_PORTS
        };
        if next < limit {
            self.phase = PassPhase::Line;
            self.port = next;
            IntStep::Request(IntRequest::CheckLine)
        } else {
            self.phase = PassPhase::Finished;
            IntStep::Publish(self.flags)
        }
    }

    /// Leaves the port after a failed transfer: a busy port is skipped, any
    /// other failure ends the pass.
    fn give_up_port<BE>(&mut self, e: Error<BE>) -> (step: IntStep<BE>)
        requires
            old(self).port < MAX_SUPPORTED_PORTS,
        ensures
            final(self).enabled == old(self).enabled,
            final(self).num_ports == old(self).num_ports,
            if e == Error::<BE>::Pd(PdError::Busy) {
                Self::moves_on(*old(self), old(self).gathered(), *final(self), step)
            } else {
                Self::fails(*old(self), e, *final(self), step)
            },
    {
        match e {
            Error::Pd(PdError::Busy) => self.move_on(),
            other => {
                self.phase = PassPhase::Finished;
                IntStep::Failed(other)
            },
        }
    }

    /// Begins a pass. `previous` is the snapshot that was published and not
    /// yet taken, if there is one; `enabled` says which ports take part, and
    /// `num_ports` how many ports the controller has. The pass starts at the
    /// first port that takes part; with no such port it is over at once and
    /// hands `previous` out again, or no events.
    pub fn start<BE>(previous: Option<[IntEventFlags; 2]>, enabled: [bool; 2], num_ports: usize)
        -> (r: (Self, IntStep<BE>))
        ensures
            r.0.wf(),
            r.0.enabled == enabled,
            r.0.num_ports == num_ports,
            match previous {
                Some(p) => r.0.flags == p,
                None => r.0.flags[0]@ == spec_zero() && r.0.flags[1]@ == spec_zero(),
            },
            ({
                let first = spec_next_port(enabled@, spec_port_limit(num_ports), 0);
                if first < spec_port_limit(num_ports) {
                    r.0.phase == PassPhase::Line && r.0.port == first && r.1 == IntStep::<
                        BE,
                    >::Request(IntRequest::CheckLine)
                } else {
                    r.0.phase == PassPhase::Finished && r.1 == IntStep::<BE>::Publish(r.0.flags)
                }
            }),
    {
        let flags = match previous {
            Some(p) => p,
            None => [IntEventFlags::new_zero(), IntEventFlags::new_zero()],
        };
        let mut pass = InterruptPass {
            flags,
            enabled,
            num_ports,
            port: 0,
            phase: PassPhase::Finished,
            read: IntEventFlags::new_zero(),
        };
        let first = pass.next_port(0);
        let limit: usize = if num_ports < MAX_SUPPORTED_PORTS {
            num_ports
        } else {
            MAX_SUPPORTED_PORTS
        };
        proof {
            lemma_next_port_is_enabled(enabled@, limit as int, 0);
        }
        if first < limit {
            pass.phase = PassPhase::Line;
            pass.port = first;
            (pass, IntStep::Request(IntRequest::CheckLine))
        } else {
            let snapshot = pass.flags;
            (pass, IntStep::Publish(snapshot))
        }
    }

    /// Takes the pass one event further.
    pub fn resume<BE>(&mut self, event: IntEvent<'_, BE>) -> (step: IntStep<BE>)
        ensures
            Self::transition(*old(self), event, *final(self), step),
    {
        let phase = self.phase;
        let limit: usize = if self.num_ports < MAX_SUPPORTED_PORTS {
            self.num_ports
        } else {
            MAX_SUPPORTED_PORTS
        };
        if self.port >= MAX_SUPPORTED_PORTS {
            self.phase = PassPhase::Finished;
            return IntStep::Failed(Error::Pd(PdError::Failed));
        }
        match phase {
            PassPhase::Finished => IntStep::Failed(Error::Pd(PdError::Failed)),
            PassPhase::Line => match event {
                IntEvent::LineAsserted => {
                    self.phase = PassPhase::Reading;
                    IntStep::Request(IntRequest::ReadEvents { port: PortId(self.port as u8) })
                },
                IntEvent::LineReleased => self.move_on(),
                _ => {
                    self.phase = PassPhase::Finished;
                    IntStep::Failed(Error::Pd(PdError::Failed))
                },
            },
            PassPhase::Reading => match event {
                IntEvent::Data(bytes) => match IntEventFlags::from_register(bytes) {
                    Ok(flags) => match flags.clear_write() {
                        Some(write) => {
                            self.phase = PassPhase::Clearing;
                            self.read = flags;
                            IntStep::Request(
                                IntRequest::ClearEvents {
                                    port: PortId(self.port as u8),
                                    flags: write,
                                },
                            )
                        },
                        None => self.move_on(),
                    },
                    Err(e) => {
                        self.phase = PassPhase::Finished;
                        IntStep::Failed(Error::Pd(e))
                    },
                },
                IntEvent::Failed(e) => self.give_up_port(e),
                _ => {
                    self.phase = PassPhase::Finished;
                    IntStep::Failed(Error::Pd(PdError::Failed))
                },
            },
            PassPhase::Clearing => match event {
                IntEvent::Written => {
                    let gathered = self.flags[self.port].union(&self.read);
                    self.flags[self.port] = gathered;
                    self.move_on()
                },
                IntEvent::Failed(e) => self.give_up_port(e),
                _ => {
                    self.phase = PassPhase::Finished;
                    IntStep::Failed(Error::Pd(PdError::Failed))
                },
            },
        }
    }
}

/// A pass stays at ports that exist and are not masked: what holds when it
/// starts holds after every event.
pub proof fn lemma_pass_stays_wf<BE>(
    pre: InterruptPass,
    event: IntEvent<BE>,
    post: InterruptPass,
    step: IntStep<BE>,
)
    requires
        pre.wf(),
        InterruptPass::transition(pre, event, post, step),
    ensures
        post.wf(),
{
    lemma_next_port_is_enabled(pre.enabled@, pre.limit(), pre.port + 1);
}

/// A masked port is left alone: every transfer that a pass asks for is with
/// a port of the controller that is not masked.
pub proof fn lemma_pass_skips_masked_ports<BE>(
    pre: InterruptPass,
    event: IntEvent<BE>,
    post: InterruptPass,
    step: IntStep<BE>,
)
    requires
        pre.wf(),
        InterruptPass::transition(pre, event, post, step),
    ensures
        step matches IntStep::Request(IntRequest::ReadEvents { port }) ==> port.0 < pre.num_ports
            && pre.enabled[port.0 as int],
        step matches IntStep::Request(IntRequest::ClearEvents { port, flags }) ==> port.0
            < pre.num_ports && pre.enabled[port.0 as int] && !flags.spec_is_zero(),
{
}

/// Events accumulate: an event that the snapshot holds is never lost during
/// a pass, the ports that the pass is not at keep exactly what they had, and
/// the port that the pass is at gains the events that were read from it, and
/// no other, once they have been cleared.
pub proof fn lemma_pass_accumulates<BE>(
    pre: InterruptPass,
    event: IntEvent<BE>,
    post: InterruptPass,
    step: IntStep<BE>,
    q: int,
    i: nat,
)
    requires
        0 <= q < MAX_SUPPORTED_PORTS,
        InterruptPass::transition(pre, event, post, step),
    ensures
        pre.flags[q].has(i) ==> post.flags[q].has(i),
        q != pre.port ==> post.flags[q]@ == pre.flags[q]@,
        post.flags[q].has(i) && !pre.flags[q].has(i) ==> pre.phase == PassPhase::Clearing
            && event is Written && pre.read.has(i),
        step matches IntStep::Publish(snapshot) ==> snapshot == post.flags && post.phase
            == PassPhase::Finished,
{
    if pre.phase == PassPhase::Clearing && event is Written && pre.port < MAX_SUPPORTED_PORTS {
        if q == pre.port {
            crate::interrupt::lemma_union_has(pre.flags[q], pre.read, post.flags[q], i);
        }
    }
}

/// Whether `states` are the states that a pass goes through on the events
/// `events`, the first of them before the first event, and `steps` the
/// steps that answer the events.
pub open spec fn spec_is_pass<BE>(
    states: Seq<InterruptPass>,
    events: Seq<IntEvent<BE>>,
    steps: Seq<IntStep<BE>>,
) -> bool {
    &&& states.len() == events.len() + 1
    &&& steps.len() == events.len()
    &&& forall|i: int|
        0 <= i < events.len() ==> InterruptPass::transition(
            #[trigger] states[i],
            events[i],
            states[i + 1],
            steps[i],
        )
}

/// Nothing is lost in a pass: whatever the events are, every event that
/// was pending for a port when the pass began is still held for that port
/// at every later point, and so is in the snapshot that the pass hands out
/// at its end.
pub proof fn lemma_pass_never_loses_events<BE>(
    states: Seq<InterruptPass>,
    events: Seq<IntEvent<BE>>,
    steps: Seq<IntStep<BE>>,
    j: int,
    q: int,
    i: nat,
)
    requires
        spec_is_pass(states, events, steps),
        0 <= j <= events.len(),
        0 <= q < MAX_SUPPORTED_PORTS,
        states[0].flags[q].has(i),
    ensures
        states[j].flags[q].has(i),
        j > 0 ==> (steps[j - 1] matches IntStep::Publish(snapshot) ==> snapshot[q].has(i)),
    decreases j,
{
    if j > 0 {
        lemma_pass_never_loses_events(states, events, steps, j - 1, q, i);
        assert(InterruptPass::transition(states[j - 1], events[j - 1], states[j], steps[j - 1]));
        lemma_pass_accumulates(states[j - 1], events[j - 1], states[j], steps[j - 1], q, i);
    }
}

} // verus!
