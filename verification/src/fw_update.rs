//! The firmware update, as a state machine that never touches the bus.
//!
//! An update takes every controller on the bus into update mode, announces
//! the image to each, and then sends the image block by block: the header
//! block, the data blocks in order, and the application configuration
//! block. The bytes of a block are written once, to the address that all
//! controllers listen to, after each controller was told that the block is
//! coming; when they are written each controller is asked whether it got a
//! good block. At the end each controller is told to complete the update.
//!
//! Whatever goes wrong on the way, no controller is left in update mode:
//! each is told to leave it, and one that does not do so is reset. The
//! failure that stopped the update is what the update ends with.
use vstd::prelude::*;

use crate::command::{
    Command, ReturnValue, TfudArgs, TfuiArgs, TfuqArgs, TfuqCommandType, TfuqStatusQuery,
    BURST_WRITE_SIZE, PD_FW_HEADER_BLOCK_LENGTH, PD_FW_HEADER_BLOCK_OFFSET, TFUD_ARGS_LEN,
    TFUD_BURST_WRITE_DELAY_MS, TFUE_TIMEOUT_MS, TFUI_ARGS_LEN, TFUI_BURST_WRITE_DELAY_MS,
    TFUQ_ARGS_LEN, TFUQ_RETURN_LEN,
};
use crate::error::{Error, PdError};
use crate::fw_image::{
    block_place, has_header_block, header_args, spec_block_place, spec_header_args, FwBlock,
};

verus! {

/// A command of the update, with its arguments.
#[derive(Debug, Clone, Copy, PartialEq, Eq, Structural)]
pub enum FwCommand {
    /// Announce the image
    Init(TfuiArgs),
    /// Announce a block
    Stream(TfudArgs),
    /// Ask for the state of the update
    Query(TfuqArgs),
    /// Leave update mode
    Exit,
}

impl FwCommand {
    /// The command that is written to the controller.
    pub open spec fn spec_command(self) -> Command {
        match self {
            FwCommand::Init(_) => Command::Tfui,
            FwCommand::Stream(_) => Command::Tfud,
            FwCommand::Query(_) => Command::Tfuq,
            FwCommand::Exit => Command::Tfue,
        }
    }

    /// The input data of the command: its arguments, encoded.
    pub open spec fn spec_input(self) -> Option<Seq<u8>> {
        match self {
            FwCommand::Init(args) => Some(args.spec_encode()),
            FwCommand::Stream(args) => Some(args.spec_encode()),
            FwCommand::Query(args) => Some(args.spec_encode()),
            FwCommand::Exit => None,
        }
    }

    /// The number of bytes of output that the command gives: the answer to
    /// a query, and nothing for every other command.
    pub open spec fn spec_out_len(self) -> usize {
        match self {
            FwCommand::Query(_) => TFUQ_RETURN_LEN,
            _ => 0,
        }
    }

    /// The command that is written to the controller.
    pub fn command(&self) -> (r: Command)
        ensures
            r == self.spec_command(),
    {
        match self {
            FwCommand::Init(_) => Command::Tfui,
            FwCommand::Stream(_) => Command::Tfud,
            FwCommand::Query(_) => Command::Tfuq,
            FwCommand::Exit => Command::Tfue,
        }
    }

    /// The number of bytes of output that the command gives.
    pub fn out_len(&self) -> (r: usize)
        ensures
            r == self.spec_out_len(),
    {
        match self {
            FwCommand::Query(_) => TFUQ_RETURN_LEN,
            _ => 0,
        }
    }

    /// Writes the input data of the command to the start of `buf` and says
    /// how long it is; zero where the command has none. A buffer of fewer
    /// than eight bytes is refused and left as it was.
    pub fn encode_input(&self, buf: &mut [u8]) -> (r: Result<usize, PdError>)
        ensures
            r is Ok <==> old(buf)@.len() >= 8,
            r is Err ==> r == Err::<usize, PdError>(PdError::InvalidParams) && final(buf)@ == old(
                buf,
            )@,
            r matches Ok(n) ==> match self.spec_input() {
                Some(bytes) => n == bytes.len() && final(buf)@ == bytes + old(buf)@.subrange(
                    n as int,
                    old(buf)@.len() as int,
                ),
                None => n == 0 && final(buf)@ == old(buf)@,
            },
    {
        if buf.len() < 8 {
            return Err(PdError::InvalidParams);
        }
        match self {
            FwCommand::Init(args) => {
                let _ = args.encode_into_slice(buf);
                Ok(TFUI_ARGS_LEN)
            },
            FwCommand::Stream(args) => {
                let _ = args.encode_into_slice(buf);
                Ok(TFUD_ARGS_LEN)
            },
            FwCommand::Query(args) => {
                let _ = args.encode_into_slice(buf);
                Ok(TFUQ_ARGS_LEN)
            },
            FwCommand::Exit => Ok(0),
        }
    }
}

/// What an update asks its caller to do next. A controller is named by its
/// position among the controllers that are updated together.
#[derive(Debug, Clone, Copy, PartialEq, Eq, Structural)]
pub enum FwRequest {
    /// Take the controller into update mode
    EnterMode { controller: usize },
    /// Execute the command on the controller and wait for its completion
    /// for `timeout_ms` at most
    Execute { controller: usize, command: FwCommand, timeout_ms: u32 },
    /// Write the bytes of the image from `start` up to `end` to the bus
    /// address `address`, in one transfer
    BurstWrite { address: u8, start: usize, end: usize },
    /// Let this much time pass
    Delay { ms: u64 },
    /// Tell the controller to complete the update
    Complete { controller: usize },
    /// Reset the controller
    Reset { controller: usize },
}

/// What the caller reports back.
#[derive(Debug, PartialEq, Eq)]
pub enum FwEvent<'a, BE> {
    /// How a request other than the execution of a command or a delay ended
    Finished(Result<(), Error<BE>>),
    /// How the execution of a command ended, and the output of the command
    CommandResult(Result<ReturnValue, Error<BE>>, &'a [u8]),
    /// The delay has passed
    Elapsed,
}

/// What an update answers: the next request, or how it ended.
#[derive(Debug, PartialEq, Eq)]
pub enum FwStep<BE> {
    Request(FwRequest),
    Done(Result<(), Error<BE>>),
}

/// What the update is doing.
#[derive(Debug, Clone, Copy, PartialEq, Eq, Structural)]
pub enum FwPhase {
    /// A controller is being taken into update mode
    EnteringMode,
    /// The image is being announced to a controller
    Initializing,
    /// A block is being announced to a controller
    Streaming,
    /// The bytes of a block are being written
    Bursting,
    /// The controllers are given time to take the block in
    Settling,
    /// A controller is being asked about the block
    Validating,
    /// A controller is being told to complete the update
    Completing,
    /// A controller is being told to leave update mode
    Exiting,
    /// A controller that did not leave update mode is being reset
    Resetting,
    /// The update has ended
    Finished,
}

/// An update of `num_controllers` controllers.
#[derive(Debug, PartialEq, Eq)]
pub struct FwUpdate<BE> {
    /// The number of controllers that are updated together
    pub num_controllers: usize,
    /// How long a command of the update may take
    pub command_timeout_ms: u32,
    pub phase: FwPhase,
    /// The controller that the update is at
    pub controller: usize,
    /// The block that the update is at
    pub block: FwBlock,
    /// The number of data blocks that the image announced
    pub num_data_blocks: u16,
    /// The bus address that the bytes of the block go to
    pub broadcast: u8,
    /// Up to where the bytes of the block are written, or being written
    pub burst_at: usize,
    /// Where the block ends
    pub burst_end: usize,
    /// What the update will end with
    pub outcome: Result<(), Error<BE>>,
    /// Whether the update got as far as telling controllers to complete
    pub completing: bool,
}

/// What a command that ended means for the update: it must have ended, and
/// with success. A rejection is kept apart as such; any other return value
/// is a failure.
pub open spec fn spec_command_ok<BE>(result: Result<ReturnValue, Error<BE>>) -> Result<
    (),
    Error<BE>,
> {
    match result {
        Ok(ReturnValue::Success) => Ok(()),
        Ok(ReturnValue::Rejected) => Err(Error::Pd(PdError::Rejected)),
        Ok(_) => Err(Error::Pd(PdError::Failed)),
        Err(e) => Err(e),
    }
}

/// Judges a command that ended.
pub fn command_ok<BE>(result: Result<ReturnValue, Error<BE>>) -> (r: Result<(), Error<BE>>)
    ensures
        r == spec_command_ok(result),
{
    match result {
        Ok(ReturnValue::Success) => Ok(()),
        Ok(ReturnValue::Rejected) => Err(Error::Pd(PdError::Rejected)),
        Ok(_) => Err(Error::Pd(PdError::Failed)),
        Err(e) => Err(e),
    }
}

/// What the answer to a query means for the block that was written: the
/// query must have succeeded, and its answer must hold a status for the
/// block that lets the update go on.
pub open spec fn spec_validation<BE>(
    block: FwBlock,
    result: Result<ReturnValue, Error<BE>>,
    answer: Seq<u8>,
) -> Result<(), Error<BE>> {
    match spec_command_ok(result) {
        Ok(_) => match block.spec_verdict(answer) {
            Ok(_) => Ok(()),
            Err(e) => Err(Error::Pd(e)),
        },
        Err(e) => Err(e),
    }
}

/// The arguments of the query that asks about the block that was written.
pub open spec fn spec_query() -> FwCommand {
    FwCommand::Query(
        TfuqArgs {
            status_query: TfuqStatusQuery::StatusInProgress,
            command: TfuqCommandType::QueryTfuStatus,
        },
    )
}

/// The bus address in the arguments of a command: their low byte.
pub open spec fn spec_bus_address(address: u16) -> u8 {
    (address % 256) as u8
}

impl<BE> FwUpdate<BE> {
    /// How the request that is outstanding ended, as the event tells it. An
    /// event that does not answer the request counts as its failure.
    pub open spec fn spec_answer(self, event: FwEvent<BE>) -> Result<(), Error<BE>> {
        let misuse = Err(Error::Pd(PdError::Failed));
        match self.phase {
            FwPhase::EnteringMode | FwPhase::Bursting | FwPhase::Completing
            | FwPhase::Resetting => match event {
                FwEvent::Finished(r) => r,
                _ => misuse,
            },
            FwPhase::Initializing | FwPhase::Streaming | FwPhase::Exiting => match event {
                FwEvent::CommandResult(r, _) => spec_command_ok(r),
                _ => misuse,
            },
            FwPhase::Validating => match event {
                FwEvent::CommandResult(r, answer) => spec_validation(self.block, r, answer@),
                _ => misuse,
            },
            FwPhase::Settling => match event {
                FwEvent::Elapsed => Ok(()),
                _ => misuse,
            },
            FwPhase::Finished => misuse,
        }
    }

    /// Whether there is a controller behind the one that the update is at.
    pub open spec fn spec_more(self) -> bool {
        self.controller + 1 < self.num_controllers
    }

    /// The controller behind the one that the update is at; where there is
    /// none, the number of controllers.
    pub open spec fn spec_next_controller(self) -> usize {
        if self.spec_more() {
            (self.controller + 1) as usize
        } else {
            self.num_controllers
        }
    }

    /// The request that tells a controller to leave update mode.
    pub open spec fn spec_exit(controller: usize) -> FwRequest {
        FwRequest::Execute { controller, command: FwCommand::Exit, timeout_ms: TFUE_TIMEOUT_MS }
    }

    /// The update gives up with failure `e`: every controller is told to
    /// leave update mode, the first one first.
    pub open spec fn spec_abort(self, e: Error<BE>) -> (FwUpdate<BE>, FwStep<BE>) {
        (
            FwUpdate {
                phase: FwPhase::Exiting,
                controller: 0,
                outcome: Err(e),
                completing: false,
                ..self
            },
            FwStep::Request(Self::spec_exit(0)),
        )
    }

    /// The update ends with what was found on the way.
    pub open spec fn spec_finish(self) -> (FwUpdate<BE>, FwStep<BE>) {
        (FwUpdate { phase: FwPhase::Finished, outcome: Ok(()), ..self }, FwStep::Done(self.outcome))
    }

    /// Controller `c` is told to complete the update; when there is no such
    /// controller the update ends.
    pub open spec fn spec_complete(self, c: usize) -> (FwUpdate<BE>, FwStep<BE>) {
        if c < self.num_controllers {
            (
                FwUpdate { phase: FwPhase::Completing, controller: c, completing: true, ..self },
                FwStep::Request(FwRequest::Complete { controller: c }),
            )
        } else {
            self.spec_finish()
        }
    }

    /// The controller that the update is at has left update mode or was
    /// reset. An update that gave up goes on to tell the next controller to
    /// leave update mode and ends behind the last one; an update that was
    /// completing goes on completing.
    pub open spec fn spec_recovered(self) -> (FwUpdate<BE>, FwStep<BE>) {
        if self.completing {
            self.spec_complete(self.spec_next_controller())
        } else if self.spec_more() {
            (
                FwUpdate {
                    phase: FwPhase::Exiting,
                    controller: self.spec_next_controller(),
                    ..self
                },
                FwStep::Request(Self::spec_exit(self.spec_next_controller())),
            )
        } else {
            self.spec_finish()
        }
    }

    /// The image is announced to controller `c`, with the arguments that
    /// the image holds for it. An image that does not hold them makes the
    /// update give up.
    pub open spec fn spec_init(self, image: Seq<u8>, c: usize) -> (FwUpdate<BE>, FwStep<BE>) {
        match spec_header_args(image) {
            Ok(args) => (
                FwUpdate {
                    phase: FwPhase::Initializing,
                    controller: c,
                    block: FwBlock::Header,
                    num_data_blocks: args.num_data_blocks_tx,
                    broadcast: spec_bus_address(args.broadcast_u16_address),
                    ..self
                },
                FwStep::Request(
                    FwRequest::Execute {
                        controller: c,
                        command: FwCommand::Init(args),
                        timeout_ms: self.command_timeout_ms,
                    },
                ),
            ),
            Err(e) => self.spec_abort(Error::Pd(e)),
        }
    }

    /// Block `block` is announced to controller `c`, with the arguments
    /// that the image holds for it. An image that does not hold the block in
    /// full makes the update give up.
    pub open spec fn spec_stream(self, image: Seq<u8>, block: FwBlock, c: usize) -> (
        FwUpdate<BE>,
        FwStep<BE>,
    ) {
        match spec_block_place(image, block, self.num_data_blocks as int) {
            Ok(place) => (
                FwUpdate {
                    phase: FwPhase::Streaming,
                    controller: c,
                    block,
                    broadcast: spec_bus_address(place.args.broadcast_u16_address),
                    burst_at: place.start,
                    burst_end: place.end,
                    ..self
                },
                FwStep::Request(
                    FwRequest::Execute {
                        controller: c,
                        command: FwCommand::Stream(place.args),
                        timeout_ms: self.command_timeout_ms,
                    },
                ),
            ),
            Err(e) => self.spec_abort(Error::Pd(e)),
        }
    }

    /// The time that the controllers are given after the bytes of the block
    /// that the update is at.
    pub open spec fn spec_settle_ms(self) -> u64 {
        match self.block {
            FwBlock::Header => TFUI_BURST_WRITE_DELAY_MS,
            _ => TFUD_BURST_WRITE_DELAY_MS,
        }
    }

    /// The bytes of the block are written from `at` on: the next chunk of
    /// at most `BURST_WRITE_SIZE` bytes goes out, and when nothing is left the
    /// controllers are given time.
    pub open spec fn spec_burst(self, at: usize) -> (FwUpdate<BE>, FwStep<BE>) {
        if at >= self.burst_end {
            (
                FwUpdate { phase: FwPhase::Settling, burst_at: at, ..self },
                FwStep::Request(FwRequest::Delay { ms: self.spec_settle_ms() }),
            )
        } else {
            let end = if self.burst_end - at > BURST_WRITE_SIZE {
                (at + BURST_WRITE_SIZE) as usize
            } else {
                self.burst_end
            };
            (
                FwUpdate { phase: FwPhase::Bursting, burst_at: end, ..self },
                FwStep::Request(
                    FwRequest::BurstWrite { address: self.broadcast, start: at, end },
                ),
            )
        }
    }

    /// Controller `c` is asked about the block that was written.
    pub open spec fn spec_validate(self, c: usize) -> (FwUpdate<BE>, FwStep<BE>) {
        (
            FwUpdate { phase: FwPhase::Validating, controller: c, ..self },
            FwStep::Request(
                FwRequest::Execute {
                    controller: c,
                    command: spec_query(),
                    timeout_ms: self.command_timeout_ms,
                },
            ),
        )
    }

    /// The state and the step that follow when the request that was
    /// outstanding ended as `answer` says.
    ///
    /// While the image is transferred, a failure makes the update give up.
    /// A success takes the same step to the next controller, and behind the
    /// last controller takes the next step: from update mode to the
    /// announcement of the image, from there to the bytes of the header
    /// block, from the bytes of a block to the delay and to the questions
    /// about the block, and from a good block to the next block, or behind
    /// the last block to completion. A controller that fails to complete is
    /// told to leave update mode, and completion goes on with the next. A
    /// controller that fails to leave update mode is reset, and how the
    /// reset ends changes nothing.
    pub open spec fn spec_advance(self, image: Seq<u8>, answer: Result<(), Error<BE>>) -> (
        FwUpdate<BE>,
        FwStep<BE>,
    ) {
        let next = self.spec_next_controller();
        let more = self.spec_more();
        match self.phase {
            FwPhase::Finished => (self, FwStep::Done(Err(Error::Pd(PdError::Failed)))),
            FwPhase::Resetting => self.spec_recovered(),
            FwPhase::Exiting => match answer {
                Ok(_) => self.spec_recovered(),
                Err(_) => (
                    FwUpdate { phase: FwPhase::Resetting, ..self },
                    FwStep::Request(FwRequest::Reset { controller: self.controller }),
                ),
            },
            FwPhase::Completing => match answer {
                Ok(_) => self.spec_complete(next),
                Err(e) => (
                    FwUpdate {
                        phase: FwPhase::Exiting,
                        outcome: if self.outcome is Ok {
                            Err(e)
                        } else {
                            self.outcome
                        },
                        ..self
                    },
                    FwStep::Request(Self::spec_exit(self.controller)),
                ),
            },
            _ => match answer {
                Err(e) => self.spec_abort(e),
                Ok(_) => match self.phase {
                    FwPhase::EnteringMode => if more {
                        (
                            FwUpdate { controller: next, ..self },
                            FwStep::Request(FwRequest::EnterMode { controller: next }),
                        )
                    } else {
                        self.spec_init(image, 0)
                    },
                    FwPhase::Initializing => if more {
                        self.spec_init(image, next)
                    } else if image.len() < PD_FW_HEADER_BLOCK_OFFSET + PD_FW_HEADER_BLOCK_LENGTH {
                        self.spec_abort(Error::Pd(PdError::InvalidParams))
                    } else {
                        (FwUpdate {
                            burst_end: (PD_FW_HEADER_BLOCK_OFFSET
                                + PD_FW_HEADER_BLOCK_LENGTH) as usize,
                            ..self
                        }).spec_burst(PD_FW_HEADER_BLOCK_OFFSET)
                    },
                    FwPhase::Streaming => if more {
                        self.spec_stream(image, self.block, next)
                    } else {
                        self.spec_burst(self.burst_at)
                    },
                    FwPhase::Bursting => self.spec_burst(self.burst_at),
                    FwPhase::Settling => self.spec_validate(0),
                    FwPhase::Validating => if more {
                        self.spec_validate(next)
                    } else {
                        match self.block.spec_next(self.num_data_blocks as int) {
                            Some(block) => self.spec_stream(image, block, 0),
                            None => self.spec_complete(0),
                        }
                    },
                    _ => self.spec_abort(Error::Pd(PdError::Failed)),
                },
            },
        }
    }

    /// The state after an event and the step that answers it.
    pub open spec fn spec_resume(self, image: Seq<u8>, event: FwEvent<BE>) -> (
        FwUpdate<BE>,
        FwStep<BE>,
    ) {
        self.spec_advance(image, self.spec_answer(event))
    }

    /// The state and first step of an update of `num_controllers`
    /// controllers: the first controller is taken into update mode. An
    /// update of no controller ends at once, refused.
    pub open spec fn spec_start(num_controllers: usize, command_timeout_ms: u32) -> (
        FwUpdate<BE>,
        FwStep<BE>,
    ) {
        let fresh = FwUpdate {
            num_controllers,
            command_timeout_ms,
            phase: FwPhase::EnteringMode,
            controller: 0,
            block: FwBlock::Header,
            num_data_blocks: 0,
            broadcast: 0,
            burst_at: 0,
            burst_end: 0,
            outcome: Ok(()),
            completing: false,
        };
        if num_controllers == 0 {
            (
                FwUpdate { phase: FwPhase::Finished, ..fresh },
                FwStep::Done(Err(Error::Pd(PdError::InvalidParams))),
            )
        } else {
            (fresh, FwStep::Request(FwRequest::EnterMode { controller: 0 }))
        }
    }
}

impl<BE> FwUpdate<BE> {
    /// Begins an update of `num_controllers` controllers whose commands may
    /// take `command_timeout_ms` each.
    pub fn start(num_controllers: usize, command_timeout_ms: u32) -> (r: (Self, FwStep<BE>))
        ensures
            r == Self::spec_start(num_controllers, command_timeout_ms),
    {
        let mut fresh = FwUpdate {
            num_controllers,
            command_timeout_ms,
            phase: FwPhase::EnteringMode,
            controller: 0,
            block: FwBlock::Header,
            num_data_blocks: 0,
            broadcast: 0,
            burst_at: 0,
            burst_end: 0,
            outcome: Ok(()),
            completing: false,
        };
        if num_controllers == 0 {
            fresh.phase = FwPhase::Finished;
            (fresh, FwStep::Done(Err(Error::Pd(PdError::InvalidParams))))
        } else {
            (fresh, FwStep::Request(FwRequest::EnterMode { controller: 0 }))
        }
    }

    /// Tells how the outstanding request ended.
    fn answer(&self, event: FwEvent<'_, BE>) -> (r: Result<(), Error<BE>>)
        ensures
            r == self.spec_answer(event),
    {
        match self.phase {
            FwPhase::EnteringMode | FwPhase::Bursting | FwPhase::Completing
            | FwPhase::Resetting => match event {
                FwEvent::Finished(r) => r,
                _ => Err(Error::Pd(PdError::Failed)),
            },
            FwPhase::Initializing | FwPhase::Streaming | FwPhase::Exiting => match event {
                FwEvent::CommandResult(r, _) => command_ok(r),
                _ => Err(Error::Pd(PdError::Failed)),
            },
            FwPhase::Validating => match event {
                FwEvent::CommandResult(r, answer) => match command_ok(r) {
                    Ok(_) => match self.block.verdict(answer) {
                        Ok(_) => Ok(()),
                        Err(e) => Err(Error::Pd(e)),
                    },
                    Err(e) => Err(e),
                },
                _ => Err(Error::Pd(PdError::Failed)),
            },
            FwPhase::Settling => match event {
                FwEvent::Elapsed => Ok(()),
                _ => Err(Error::Pd(PdError::Failed)),
            },
            FwPhase::Finished => Err(Error::Pd(PdError::Failed)),
        }
    }

    fn abort(&mut self, e: Error<BE>) -> (step: FwStep<BE>)
        ensures
            (*final(self), step) == old(self).spec_abort(e),
    {
        self.phase = FwPhase::Exiting;
        self.controller = 0;
        self.outcome = Err(e);
        self.completing = false;
        FwStep::Request(
            FwRequest::Execute {
                controller: 0,
                command: FwCommand::Exit,
                timeout_ms: TFUE_TIMEOUT_MS,
            },
        )
    }

    fn finish(&mut self) -> (step: FwStep<BE>)
        ensures
            (*final(self), step) == old(self).spec_finish(),
    {
        self.phase = FwPhase::Finished;
        let mut outcome: Result<(), Error<BE>> = Ok(());
        core::mem::swap(&mut self.outcome, &mut outcome);
        FwStep::Done(outcome)
    }

    fn complete(&mut self, c: usize) -> (step: FwStep<BE>)
        ensures
            (*final(self), step) == old(self).spec_complete(c),
    {
        if c < self.num_controllers {
            self.phase = FwPhase::Completing;
            self.controller = c;
            self.completing = true;
            FwStep::Request(FwRequest::Complete { controller: c })
        } else {
            self.finish()
        }
    }

    /// The controller behind the one that the update is at.
    fn next_controller(&self) -> (r: usize)
        ensures
            r == self.spec_next_controller(),
            self.spec_more() <==> r < self.num_controllers,
    {
        if self.controller < self.num_controllers && self.controller + 1 < self.num_controllers {
            self.controller + 1
        } else {
            self.num_controllers
        }
    }

    fn recovered(&mut self) -> (step: FwStep<BE>)
        ensures
            (*final(self), step) == old(self).spec_recovered(),
    {
        let next = self.next_controller();
        if self.completing {
            self.complete(next)
        } else if next < self.num_controllers {
            self.phase = FwPhase::Exiting;
            self.controller = next;
            FwStep::Request(
                FwRequest::Execute {
                    controller: next,
                    command: FwCommand::Exit,
                    timeout_ms: TFUE_TIMEOUT_MS,
                },
            )
        } else {
            self.finish()
        }
    }

    fn init(&mut self, image: &[u8], c: usize) -> (step: FwStep<BE>)
        ensures
            (*final(self), step) == old(self).spec_init(image@, c),
    {
        match header_args(image) {
            Ok(args) => {
                self.phase = FwPhase::Initializing;
                self.controller = c;
                self.block = FwBlock::Header;
                self.num_data_blocks = args.num_data_blocks_tx;
                self.broadcast = (args.broadcast_u16_address % 256) as u8;
                FwStep::Request(
                    FwRequest::Execute {
                        controller: c,
                        command: FwCommand::Init(args),
                        timeout_ms: self.command_timeout_ms,
                    },
                )
            },
            Err(e) => self.abort(Error::Pd(e)),
        }
    }

    fn stream(&mut self, image: &[u8], block: FwBlock, c: usize) -> (step: FwStep<BE>)
        ensures
            (*final(self), step) == old(self).spec_stream(image@, block, c),
    {
        match block_place(image, block, self.num_data_blocks) {
            Ok(place) => {
                self.phase = FwPhase::Streaming;
                self.controller = c;
                self.block = block;
                self.broadcast = (place.args.broadcast_u16_address % 256) as u8;
                self.burst_at = place.start;
                self.burst_end = place.end;
                FwStep::Request(
                    FwRequest::Execute {
                        controller: c,
                        command: FwCommand::Stream(place.args),
                        timeout_ms: self.command_timeout_ms,
                    },
                )
            },
            Err(e) => self.abort(Error::Pd(e)),
        }
    }

    fn burst(&mut self, at: usize) -> (step: FwStep<BE>)
        ensures
            (*final(self), step) == old(self).spec_burst(at),
    {
        if at >= self.burst_end {
            self.phase = FwPhase::Settling;
            self.burst_at = at;
            let ms = match self.block {
                FwBlock::Header => TFUI_BURST_WRITE_DELAY_MS,
                _ => TFUD_BURST_WRITE_DELAY_MS,
            };
            FwStep::Request(FwRequest::Delay { ms })
        } else {
            let end = if self.burst_end - at > BURST_WRITE_SIZE {
                at + BURST_WRITE_SIZE
            } else {
                self.burst_end
            };
            self.phase = FwPhase::Bursting;
            self.burst_at = end;
            FwStep::Request(FwRequest::BurstWrite { address: self.broadcast, start: at, end })
        }
    }

    fn validate(&mut self, c: usize) -> (step: FwStep<BE>)
        ensures
            (*final(self), step) == old(self).spec_validate(c),
    {
        self.phase = FwPhase::Validating;
        self.controller = c;
        FwStep::Request(
            FwRequest::Execute {
                controller: c,
                command: FwCommand::Query(
                    TfuqArgs {
                        status_query: TfuqStatusQuery::StatusInProgress,
                        command: TfuqCommandType::QueryTfuStatus,
                    },
                ),
                timeout_ms: self.command_timeout_ms,
            },
        )
    }

    /// Takes the update one event further. `image` is the image that is
    /// being written, the same at every call.
    pub fn resume(&mut self, image: &[u8], event: FwEvent<'_, BE>) -> (step: FwStep<BE>)
        ensures
            (*final(self), step) == old(self).spec_resume(image@, event),
    {
        let answer = self.answer(event);
        let next = self.next_controller();
        let more = next < self.num_controllers;
        match self.phase {
            FwPhase::Finished => FwStep::Done(Err(Error::Pd(PdError::Failed))),
            FwPhase::Resetting => self.recovered(),
            FwPhase::Exiting => match answer {
                Ok(_) => self.recovered(),
                Err(_) => {
                    self.phase = FwPhase::Resetting;
                    FwStep::Request(FwRequest::Reset { controller: self.controller })
                },
            },
            FwPhase::Completing => match answer {
                Ok(_) => self.complete(next),
                Err(e) => {
                    self.phase = FwPhase::Exiting;
                    if self.outcome.is_ok() {
                        self.outcome = Err(e);
                    }
                    FwStep::Request(
                        FwRequest::Execute {
                            controller: self.controller,
                            command: FwCommand::Exit,
                            timeout_ms: TFUE_TIMEOUT_MS,
                        },
                    )
                },
            },
            phase => match answer {
                Err(e) => self.abort(e),
                Ok(_) => match phase {
                    FwPhase::EnteringMode => if more {
                        self.controller = next;
                        FwStep::Request(FwRequest::EnterMode { controller: next })
                    } else {
                        self.init(image, 0)
                    },
                    FwPhase::Initializing => if more {
                        self.init(image, next)
                    } else if !has_header_block(image) {
                        self.abort(Error::Pd(PdError::InvalidParams))
                    } else {
                        self.burst_end = PD_FW_HEADER_BLOCK_OFFSET + PD_FW_HEADER_BLOCK_LENGTH;
                        self.burst(PD_FW_HEADER_BLOCK_OFFSET)
                    },
                    FwPhase::Streaming => if more {
                        self.stream(image, self.block, next)
                    } else {
                        self.burst(self.burst_at)
                    },
                    FwPhase::Bursting => self.burst(self.burst_at),
                    FwPhase::Settling => self.validate(0),
                    FwPhase::Validating => if more {
                        self.validate(next)
                    } else {
                        match self.block.next(self.num_data_blocks) {
                            Some(block) => self.stream(image, block, 0),
                            None => self.complete(0),
                        }
                    },
                    _ => self.abort(Error::Pd(PdError::Failed)),
                },
            },
        }
    }
}

impl<BE> FwUpdate<BE> {
    /// Whether the update has given up and is taking the controllers out of
    /// update mode.
    pub open spec fn aborting(self) -> bool {
        (self.phase == FwPhase::Exiting || self.phase == FwPhase::Resetting) && !self.completing
    }

    /// Whether the update is still transferring the image.
    pub open spec fn transferring(self) -> bool {
        self.phase == FwPhase::EnteringMode || self.phase == FwPhase::Initializing || self.phase
            == FwPhase::Streaming || self.phase == FwPhase::Bursting || self.phase
            == FwPhase::Settling || self.phase == FwPhase::Validating
    }

    /// What holds of every update from its start on: it is at a controller
    /// that exists and at a block that the image announced, it has found no
    /// failure while it transfers the image, it has found one when it takes
    /// a controller out of update mode, and it tells controllers to complete
    /// only behind the last block.
    pub open spec fn wf(self) -> bool {
        &&& self.phase != FwPhase::Finished ==> self.controller < self.num_controllers
        &&& self.block matches FwBlock::Data(i) ==> i < self.num_data_blocks
        &&& self.phase == FwPhase::EnteringMode || self.phase == FwPhase::Initializing
            ==> self.block == FwBlock::Header
        &&& self.phase == FwPhase::Streaming ==> self.block != FwBlock::Header
        &&& self.transferring() ==> self.outcome is Ok && !self.completing
        &&& self.phase == FwPhase::Completing ==> self.completing
        &&& self.completing ==> self.block == FwBlock::Config
        &&& self.phase == FwPhase::Exiting || self.phase == FwPhase::Resetting
            ==> self.outcome is Err
    }
}

/// The blocks of an image with `k` data blocks in the order in which an
/// update transfers them: the header block, the data blocks by position,
/// the application configuration block.
pub open spec fn spec_block_order(k: nat) -> Seq<FwBlock> {
    Seq::new(
        k + 2,
        |p: int|
            if p == 0 {
                FwBlock::Header
            } else if p <= k {
                FwBlock::Data((p - 1) as u16)
            } else {
                FwBlock::Config
            },
    )
}

/// In the order of transfer each block is followed by the one that
/// `spec_next` names, and the last by none. The controller keeps the status
/// of the data block at place `p` under the index `p`, so that the indices
/// of the blocks behind the header run from one up to `k`, and the
/// application configuration block, which comes last, has its own index,
/// twelve.
pub proof fn lemma_block_order(k: nat, p: int)
    requires
        k <= u16::MAX,
        0 <= p < k + 2,
    ensures
        spec_block_order(k)[p].spec_position(k as int) == p,
        spec_block_order(k)[p].spec_next(k as int) == (if p < k + 1 {
            Some(spec_block_order(k)[p + 1])
        } else {
            None
        }),
        1 <= p <= k ==> spec_block_order(k)[p].spec_index() == p,
        p == k + 1 ==> spec_block_order(k)[p].spec_index()
            == crate::command::PD_FW_APP_CONFIG_BLOCK_INDEX,
{
}

/// What holds of an update at its start holds after every event.
pub proof fn lemma_update_stays_wf<BE>(m: FwUpdate<BE>, image: Seq<u8>, event: FwEvent<BE>)
    requires
        m.wf(),
    ensures
        m.spec_resume(image, event).0.wf(),
        FwUpdate::<BE>::spec_start(m.num_controllers, m.command_timeout_ms).0.wf(),
{
}

/// No failure while the image is transferred goes unanswered: the update
/// gives up, keeps the failure as what it will end with, and tells the first
/// controller to leave update mode before anything else.
pub proof fn lemma_failure_aborts<BE>(m: FwUpdate<BE>, image: Seq<u8>, event: FwEvent<BE>)
    requires
        m.transferring(),
        m.spec_answer(event) is Err,
    ensures
        m.spec_resume(image, event).0.aborting(),
        m.spec_resume(image, event).0.outcome == m.spec_answer(event),
        m.spec_resume(image, event).0.controller == 0,
        m.spec_resume(image, event).1 == FwStep::<BE>::Request(
            FwRequest::Execute {
                controller: 0,
                command: FwCommand::Exit,
                timeout_ms: TFUE_TIMEOUT_MS,
            },
        ),
{
}

/// A block that a controller does not report as good fails the update: when
/// the query succeeds and its answer holds, for the block that was written,
/// a status that does not let the update go on, the update gives up with
/// `Failed` and tells the first controller to leave update mode.
pub proof fn lemma_bad_block_aborts<BE>(
    m: FwUpdate<BE>,
    image: Seq<u8>,
    event: FwEvent<BE>,
    status: crate::command::TfuqBlockStatus,
)
    requires
        m.phase == FwPhase::Validating,
        event matches FwEvent::CommandResult(Ok(ReturnValue::Success), answer) && answer@.len()
            >= TFUQ_RETURN_LEN && m.block.spec_index() < crate::command::TFUQ_BLOCK_STATUS_LEN
            && crate::command::TfuqBlockStatus::from_code(answer@[7 + m.block.spec_index()])
            == Some(status),
        !m.block.spec_accepts(status),
    ensures
        m.spec_resume(image, event).0.aborting(),
        m.spec_resume(image, event).0.outcome == Err::<(), Error<BE>>(
            Error::Pd(PdError::Failed),
        ),
        m.spec_resume(image, event).1 == FwStep::<BE>::Request(
            FwRequest::Execute {
                controller: 0,
                command: FwCommand::Exit,
                timeout_ms: TFUE_TIMEOUT_MS,
            },
        ),
{
}

/// An update that has given up goes through the controllers in order. Each
/// is told to leave update mode; one that fails to is reset, and however
/// the reset ends the update goes on to the next controller. Behind the
/// last controller the update ends with the failure that made it give up:
/// the failure is kept at every step and never turns into success.
pub proof fn lemma_abort_ends_in_failure<BE>(m: FwUpdate<BE>, image: Seq<u8>, event: FwEvent<BE>)
    requires
        m.wf(),
        m.aborting(),
    ensures
        ({
            let (post, step) = m.spec_resume(image, event);
            let exit_failed = m.phase == FwPhase::Exiting && m.spec_answer(event) is Err;
            &&& exit_failed ==> post.aborting() && post.outcome == m.outcome && post.controller
                == m.controller && step == FwStep::<BE>::Request(
                FwRequest::Reset { controller: m.controller },
            )
            &&& !exit_failed && m.controller + 1 < m.num_controllers ==> post.aborting()
                && post.outcome == m.outcome && post.controller == m.controller + 1 && step
                == FwStep::<BE>::Request(
                FwRequest::Execute {
                    controller: post.controller,
                    command: FwCommand::Exit,
                    timeout_ms: TFUE_TIMEOUT_MS,
                },
            )
            &&& !exit_failed && m.controller + 1 >= m.num_controllers ==> post.phase
                == FwPhase::Finished && step == FwStep::Done(m.outcome) && m.outcome is Err
        }),
{
}

/// An update ends well only behind the last controller's completion, and
/// only if no controller failed to complete.
pub proof fn lemma_success_needs_completion<BE>(
    m: FwUpdate<BE>,
    image: Seq<u8>,
    event: FwEvent<BE>,
)
    requires
        m.wf(),
    ensures
        m.spec_resume(image, event).1 matches FwStep::Done(Ok(_)) ==> m.completing && m.outcome
            is Ok && m.block == FwBlock::Config && m.controller + 1 >= m.num_controllers,
        m.completing && m.outcome is Err ==> m.spec_resume(image, event).0.outcome == m.outcome
            || m.spec_resume(image, event).1 == FwStep::Done(m.outcome),
{
}

/// Blocks are transferred in order, each once. The update is at a new
/// block only when every controller has reported the block before it as
/// good, and the new block is the one that follows in the order of
/// transfer. A block is announced to the first controller when the update
/// arrives at it, to every other controller right after the one before it,
/// and always with the arguments that the image holds for the block. The
/// controllers are told to complete only when the last block, the
/// application configuration block, was reported as good by all.
pub proof fn lemma_blocks_in_order<BE>(m: FwUpdate<BE>, image: Seq<u8>, event: FwEvent<BE>)
    requires
        m.wf(),
    ensures
        ({
            let (post, step) = m.spec_resume(image, event);
            let k = m.num_data_blocks as int;
            let block_done = m.phase == FwPhase::Validating && m.spec_answer(event) is Ok
                && m.controller + 1 >= m.num_controllers;
            &&& post.block != m.block ==> block_done && m.block.spec_next(k) == Some(post.block)
                && post.block.spec_position(k) == m.block.spec_position(k) + 1 && post.phase
                == FwPhase::Streaming && post.controller == 0
            &&& step matches FwStep::Request(
                FwRequest::Execute { controller, command: FwCommand::Stream(args), timeout_ms },
            ) ==> {
                &&& post.phase == FwPhase::Streaming
                &&& post.controller == controller
                &&& post.num_data_blocks == m.num_data_blocks
                &&& spec_block_place(image, post.block, k) matches Ok(place) && place.args == args
                &&& controller == 0 ==> block_done && m.block.spec_next(k) == Some(post.block)
                &&& controller != 0 ==> m.phase == FwPhase::Streaming && post.block == m.block
                    && controller == m.controller + 1
            }
            &&& step matches FwStep::Request(FwRequest::Complete { controller }) ==> (controller
                == 0 ==> block_done && m.block == FwBlock::Config)
            &&& block_done ==> (match m.block.spec_next(k) {
                Some(b) => post.aborting() || (post.block == b && step matches FwStep::Request(
                    FwRequest::Execute { controller: 0, command: FwCommand::Stream(_), .. },
                )),
                None => step == FwStep::<BE>::Request(FwRequest::Complete { controller: 0 }),
            })
        }),
{
}

impl<BE> FwUpdate<BE> {
    /// The state that the update is in after the events `events`.
    pub open spec fn spec_after(self, image: Seq<u8>, events: Seq<FwEvent<BE>>) -> FwUpdate<BE>
        decreases events.len(),
    {
        if events.len() == 0 {
            self
        } else {
            self.spec_after(image, events.drop_last()).spec_resume(image, events.last()).0
        }
    }

    /// The step that answers the last of the events `events`.
    pub open spec fn spec_last_step(self, image: Seq<u8>, events: Seq<FwEvent<BE>>) -> FwStep<BE>
        recommends
            events.len() > 0,
    {
        self.spec_after(image, events.drop_last()).spec_resume(image, events.last()).1
    }

    /// The blocks that were announced to the first controller in the course
    /// of the events `events`, in the order in which they were announced.
    pub open spec fn spec_announced(self, image: Seq<u8>, events: Seq<FwEvent<BE>>) -> Seq<
        FwBlock,
    >
        decreases events.len(),
    {
        if events.len() == 0 {
            Seq::empty()
        } else {
            let before = self.spec_announced(image, events.drop_last());
            let now = self.spec_after(image, events);
            if now.phase == FwPhase::Streaming && now.controller == 0 {
                before.push(now.block)
            } else {
                before
            }
        }
    }

    /// While an update has not given up, the blocks that it has announced
    /// are the blocks behind the header block, in order, up to the block
    /// that it is at.
    pub open spec fn on_track(self, announced: Seq<FwBlock>) -> bool {
        self.transferring() || self.completing ==> announced == spec_block_order(
            self.num_data_blocks as nat,
        ).subrange(1, self.block.spec_position(self.num_data_blocks as int) + 1)
    }
}

/// An update stays on track from its start on, whatever the events are.
pub proof fn lemma_update_stays_on_track<BE>(
    num_controllers: usize,
    command_timeout_ms: u32,
    image: Seq<u8>,
    events: Seq<FwEvent<BE>>,
)
    ensures
        ({
            let start = FwUpdate::<BE>::spec_start(num_controllers, command_timeout_ms).0;
            start.spec_after(image, events).wf() && start.spec_after(image, events).on_track(
                start.spec_announced(image, events),
            )
        }),
    decreases events.len(),
{
    let start = FwUpdate::<BE>::spec_start(num_controllers, command_timeout_ms).0;
    if events.len() == 0 {
        assert(spec_block_order(0).subrange(1, 1) =~= Seq::<FwBlock>::empty());
    } else {
        lemma_update_stays_on_track::<BE>(
            num_controllers,
            command_timeout_ms,
            image,
            events.drop_last(),
        );
        let m = start.spec_after(image, events.drop_last());
        let before = start.spec_announced(image, events.drop_last());
        let post = start.spec_after(image, events);
        let now = start.spec_announced(image, events);
        lemma_update_stays_wf(m, image, events.last());
        lemma_blocks_in_order(m, image, events.last());
        lemma_success_needs_completion(m, image, events.last());
        let k = post.num_data_blocks as nat;
        let order = spec_block_order(k);
        if post.transferring() || post.completing {
            let p = post.block.spec_position(k as int);
            lemma_block_order(k, p);
            if post.block == FwBlock::Header {
                assert(order.subrange(1, 1) =~= Seq::<FwBlock>::empty());
                assert(now =~= Seq::<FwBlock>::empty());
            } else if post.block != m.block {
                assert(order[p] == post.block);
                assert(now =~= before.push(post.block));
                assert(order.subrange(1, p + 1) =~= order.subrange(1, p).push(order[p]));
            } else {
                assert(now == before);
            }
        }
    }
}

/// An update that ends well has announced every block behind the header
/// block once, and in order: the data blocks, as many as the image says it
/// holds, and then the application configuration block.
pub proof fn lemma_update_transfers_every_block<BE>(
    num_controllers: usize,
    command_timeout_ms: u32,
    image: Seq<u8>,
    events: Seq<FwEvent<BE>>,
)
    requires
        events.len() > 0,
        FwUpdate::<BE>::spec_start(num_controllers, command_timeout_ms).0.spec_last_step(
            image,
            events,
        ) == FwStep::<BE>::Done(Ok(())),
    ensures
        ({
            let start = FwUpdate::<BE>::spec_start(num_controllers, command_timeout_ms).0;
            let k = start.spec_after(image, events).num_data_blocks as nat;
            &&& spec_header_args(image) matches Ok(args) && args.num_data_blocks_tx == k
            &&& start.spec_announced(image, events) == spec_block_order(k).subrange(1, k as int + 2)
            &&& start.spec_announced(image, events).len() == k + 1
        }),
{
    let start = FwUpdate::<BE>::spec_start(num_controllers, command_timeout_ms).0;
    lemma_update_stays_on_track::<BE>(num_controllers, command_timeout_ms, image, events);
    lemma_update_stays_on_track::<BE>(
        num_controllers,
        command_timeout_ms,
        image,
        events.drop_last(),
    );
    let m = start.spec_after(image, events.drop_last());
    lemma_success_needs_completion(m, image, events.last());
    lemma_header_is_read_from_image::<BE>(
        num_controllers,
        command_timeout_ms,
        image,
        events.drop_last(),
    );
}

/// Once an update is past the header block, the number of data blocks that
/// it goes by is the one that the image holds in its header.
pub proof fn lemma_header_is_read_from_image<BE>(
    num_controllers: usize,
    command_timeout_ms: u32,
    image: Seq<u8>,
    events: Seq<FwEvent<BE>>,
)
    ensures
        ({
            let now = FwUpdate::<BE>::spec_start(num_controllers, command_timeout_ms).0.spec_after(
                image,
                events,
            );
            now.phase != FwPhase::EnteringMode && (now.transferring() || now.completing) ==> (
            spec_header_args(image) matches Ok(args) && args.num_data_blocks_tx
                == now.num_data_blocks)
        }),
    decreases events.len(),
{
    if events.len() > 0 {
        lemma_header_is_read_from_image::<BE>(
            num_controllers,
            command_timeout_ms,
            image,
            events.drop_last(),
        );
        lemma_update_stays_on_track::<BE>(
            num_controllers,
            command_timeout_ms,
            image,
            events.drop_last(),
        );
    }
}

/// Once an update has given up with a failure, it keeps to it: after every
/// further event it is still taking controllers out of update mode with
/// the same failure in hand, or it has ended.
pub proof fn lemma_update_keeps_failure<BE>(
    start: FwUpdate<BE>,
    image: Seq<u8>,
    events: Seq<FwEvent<BE>>,
    i: int,
    j: int,
)
    requires
        0 <= i <= j <= events.len(),
        start.spec_after(image, events.take(i)).wf(),
        start.spec_after(image, events.take(i)).aborting(),
    ensures
        ({
            let given_up = start.spec_after(image, events.take(i));
            let later = start.spec_after(image, events.take(j));
            later.wf() && (later.phase == FwPhase::Finished || (later.aborting() && later.outcome
                == given_up.outcome))
        }),
    decreases j - i,
{
    if i < j {
        lemma_update_keeps_failure(start, image, events, i, j - 1);
        let m = start.spec_after(image, events.take(j - 1));
        assert(events.take(j).drop_last() =~= events.take(j - 1));
        assert(events.take(j).last() == events[j - 1]);
        lemma_update_stays_wf(m, image, events[j - 1]);
        if m.phase != FwPhase::Finished {
            lemma_abort_ends_in_failure(m, image, events[j - 1]);
        }
    }
}

/// No failure is swallowed. When a request that belongs to the transfer of
/// the image fails, be it a block that a controller does not report as
/// good, a command that fails or runs out of time, or a transfer that the
/// bus refuses, then the very next thing that the update asks for is that
/// the first controller leave update mode, and when the update ends, it
/// ends with that failure.
pub proof fn lemma_update_reports_failure<BE>(
    num_controllers: usize,
    command_timeout_ms: u32,
    image: Seq<u8>,
    events: Seq<FwEvent<BE>>,
    i: int,
)
    requires
        0 <= i < events.len() - 1,
        ({
            let start = FwUpdate::<BE>::spec_start(num_controllers, command_timeout_ms).0;
            let m = start.spec_after(image, events.take(i));
            let before_last = start.spec_after(image, events.drop_last());
            &&& m.transferring()
            &&& m.spec_answer(events[i]) is Err
            &&& before_last.phase != FwPhase::Finished
            &&& start.spec_last_step(image, events) is Done
        }),
    ensures
        ({
            let start = FwUpdate::<BE>::spec_start(num_controllers, command_timeout_ms).0;
            let m = start.spec_after(image, events.take(i));
            &&& m.spec_resume(image, events[i]).1 == FwStep::<BE>::Request(
                FwRequest::Execute {
                    controller: 0,
                    command: FwCommand::Exit,
                    timeout_ms: TFUE_TIMEOUT_MS,
                },
            )
            &&& start.spec_last_step(image, events) == FwStep::Done(m.spec_answer(events[i]))
        }),
{
    let start = FwUpdate::<BE>::spec_start(num_controllers, command_timeout_ms).0;
    let m = start.spec_after(image, events.take(i));
    lemma_update_stays_on_track::<BE>(num_controllers, command_timeout_ms, image, events.take(i));
    lemma_failure_aborts(m, image, events[i]);
    lemma_update_stays_wf(m, image, events[i]);
    assert(events.take(i + 1).drop_last() =~= events.take(i));
    assert(events.take(i + 1).last() == events[i]);
    let n = events.len() as int;
    lemma_update_keeps_failure(start, image, events, i + 1, n - 1);
    assert(events.take(n - 1) =~= events.drop_last());
    let before_last = start.spec_after(image, events.drop_last());
    lemma_abort_ends_in_failure(before_last, image, events.last());
}

} // verus!
