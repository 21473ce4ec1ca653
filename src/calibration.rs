//! The load-cell calibration handshake: two phases of register writes over
//! the acknowledged channel, each ending in a command that the terminal
//! acknowledges through a status and a response register.
//!
//! The session decides; the caller performs. Each call hands back the next
//! action (a register write, a poll of the two acknowledgement registers, a
//! short wait) or the outcome of the phase, and the caller reports what
//! happened as an event.
use crate::devices::el3356::{Filter, FILTER_IIR8};
use crate::sdo::{sdo_write, write_of, Register, SdoValue, SdoWrite};
use vstd::prelude::*;

verus! {

/// Register that takes calibration commands.
pub const COMMAND_INDEX: u16 = 0xFB00;
pub const COMMAND_SUBINDEX: u8 = 0x01;
/// Register read back as status (one byte) when polling.
pub const STATUS_SUBINDEX: u8 = 0x02;
/// Register read back as response (four bytes) when polling.
pub const RESPONSE_SUBINDEX: u8 = 0x03;
/// Command that enters the present reading as zero balance.
pub const CMD_ZERO_BALANCE: u16 = 0x0101;
/// Command that determines the rated output from the reference load.
pub const CMD_SPAN: u16 = 0x0102;
/// Command that clears the command register.
pub const CMD_RESET: u16 = 0x0000;
/// Interval between two polls, in milliseconds.
pub const POLL_INTERVAL_MS: u64 = 1;
/// Bit pattern of the 32-bit float 1.0.
pub const F32_ONE: u32 = 0x3F80_0000;
/// Bit pattern of the 32-bit float 0.0.
pub const F32_ZERO: u32 = 0;
/// Value that restores the backup objects to their delivery state.
pub const RESTORE_DEFAULTS: u32 = 0x6461_6F6C;

#[derive(Clone, Copy, Debug, PartialEq, Eq, Structural)]
pub enum Phase {
    Idle,
    ZeroBalance,
    SpanCalibration,
}

/// One step of a phase.
#[derive(Clone, Copy, Debug, PartialEq, Eq, Structural)]
pub enum Step {
    /// Write a register.
    Write(SdoWrite),
    /// Poll status and response until both read zero.
    AwaitAck,
}

/// What the session waits for.
#[derive(Clone, Copy, Debug, PartialEq, Eq, Structural)]
pub enum Awaiting {
    WriteAck,
    PollResult,
    WaitDone,
}

/// What the caller is to do next.
#[derive(Clone, Copy, Debug, PartialEq, Eq, Structural)]
pub enum CalAction {
    /// Perform this register write, then report `Written`.
    Write(SdoWrite),
    /// Read the status and response registers, then report `Polled`.
    Poll,
    /// Wait `POLL_INTERVAL_MS`, then report `Waited`.
    Wait,
    /// The phase succeeded.
    Done,
    /// The phase failed; the session is idle again.
    Failed(CalibrationError),
}

/// What happened to the last action.
#[derive(Clone, Copy, Debug, PartialEq, Eq, Structural)]
pub enum CalEvent {
    Written,
    Polled { status: u8, response: u32 },
    Waited,
    /// A register access failed.
    CommFailed(Register),
}

#[derive(Clone, Copy, Debug, PartialEq, Eq, Structural)]
pub enum CalibrationError {
    /// A phase is already running.
    Busy,
    /// Span calibration was asked for without a successful zero balance
    /// earlier in the session.
    SpanWithoutZeroBalance,
    /// A register access failed.
    DeviceCommError(Register),
    /// The acknowledgement registers did not both read zero within the
    /// allowed number of polls.
    CalibrationTimeout,
    /// An event came that does not answer the last action.
    UnexpectedEvent,
    /// An event came while no phase was running.
    NotRunning,
}

/// The steps of a zero balance with the given nominal load (float bits).
pub open spec fn zero_balance_steps(nominal_load: u32) -> Seq<Step> {
    seq![
        Step::Write(write_of(0x1011, 0x01, SdoValue::U32(RESTORE_DEFAULTS))),
        Step::Write(write_of(0x8000, 0x27, SdoValue::F32(F32_ONE))),
        Step::Write(write_of(0x8000, 0x21, SdoValue::F32(F32_ONE))),
        Step::Write(write_of(0x8000, 0x22, SdoValue::F32(F32_ZERO))),
        Step::Write(write_of(0x8000, 0x11, SdoValue::U16(FILTER_IIR8))),
        Step::Write(write_of(0x8000, 0x24, SdoValue::F32(nominal_load))),
        Step::Write(write_of(COMMAND_INDEX, COMMAND_SUBINDEX, SdoValue::U16(CMD_ZERO_BALANCE))),
        Step::AwaitAck,
    ]
}

/// The steps of a span calibration with the given reference load (float
/// bits) and operating filter.
pub open spec fn span_steps(calibration_load: u32, filter: Filter) -> Seq<Step> {
    seq![
        Step::Write(write_of(0x8000, 0x28, SdoValue::F32(calibration_load))),
        Step::Write(write_of(COMMAND_INDEX, COMMAND_SUBINDEX, SdoValue::U16(CMD_SPAN))),
        Step::AwaitAck,
        Step::Write(write_of(COMMAND_INDEX, COMMAND_SUBINDEX, SdoValue::U16(CMD_RESET))),
        Step::Write(write_of(0x8000, 0x11, SdoValue::U16(filter.code_spec()))),
    ]
}

/// The action that starts a step.
pub open spec fn action_for(s: Step) -> CalAction {
    match s {
        Step::Write(w) => CalAction::Write(w),
        Step::AwaitAck => CalAction::Poll,
    }
}

pub open spec fn awaiting_for(s: Step) -> Awaiting {
    match s {
        Step::Write(_) => Awaiting::WriteAck,
        Step::AwaitAck => Awaiting::PollResult,
    }
}

/// The session as a value.
pub struct SessionView {
    pub phase: Phase,
    pub steps: Seq<Step>,
    pub pos: nat,
    pub awaiting: Awaiting,
    pub polls: nat,
    pub max_polls: nat,
    pub zero_done: bool,
}

/// An idle session.
pub open spec fn idle_view(max_polls: nat, zero_done: bool) -> SessionView {
    SessionView {
        phase: Phase::Idle,
        steps: Seq::empty(),
        pos: 0,
        awaiting: Awaiting::WriteAck,
        polls: 0,
        max_polls,
        zero_done,
    }
}

/// A session at step `pos` of a running phase, with no poll made yet.
pub open spec fn at_step(
    phase: Phase,
    steps: Seq<Step>,
    pos: nat,
    max_polls: nat,
    zero_done: bool,
) -> SessionView {
    SessionView {
        phase,
        steps,
        pos,
        awaiting: awaiting_for(steps[pos as int]),
        polls: 0,
        max_polls,
        zero_done,
    }
}

/// Moving past the present step: to the next one, or to the end of the
/// phase, where a completed zero balance is recorded and a completed span
/// calibration closes the session.
pub open spec fn advanced(o: SessionView, n: SessionView, r: CalAction) -> bool {
    if o.pos + 1 < o.steps.len() {
        &&& n == at_step(o.phase, o.steps, o.pos + 1, o.max_polls, o.zero_done)
        &&& r == action_for(o.steps[o.pos + 1 as int])
    } else {
        &&& n == idle_view(o.max_polls, o.phase == Phase::ZeroBalance)
        &&& r == CalAction::Done
    }
}

/// Failing the phase: the session is idle and no zero balance stands.
pub open spec fn aborted(o: SessionView, n: SessionView, r: CalAction, e: CalibrationError) -> bool {
    &&& n == idle_view(o.max_polls, false)
    &&& r == CalAction::Failed(e)
}

/// One step of the session: how the event `ev` moves it from `o` to `n`,
/// and the action `r` it hands back.
pub open spec fn stepped(o: SessionView, n: SessionView, ev: CalEvent, r: CalAction) -> bool {
    if o.phase == Phase::Idle {
        n == o && r == CalAction::Failed(CalibrationError::NotRunning)
    } else {
        match ev {
            CalEvent::CommFailed(reg) => aborted(o, n, r, CalibrationError::DeviceCommError(reg)),
            CalEvent::Written => if o.awaiting == Awaiting::WriteAck {
                advanced(o, n, r)
            } else {
                aborted(o, n, r, CalibrationError::UnexpectedEvent)
            },
            CalEvent::Polled { status, response } => if o.awaiting != Awaiting::PollResult {
                aborted(o, n, r, CalibrationError::UnexpectedEvent)
            } else if status == 0 && response == 0 {
                advanced(o, n, r)
            } else if o.polls + 1 >= o.max_polls {
                aborted(o, n, r, CalibrationError::CalibrationTimeout)
            } else {
                &&& n == SessionView { awaiting: Awaiting::WaitDone, polls: o.polls + 1, ..o }
                &&& r == CalAction::Wait
            },
            CalEvent::Waited => if o.awaiting == Awaiting::WaitDone {
                n == SessionView { awaiting: Awaiting::PollResult, ..o } && r == CalAction::Poll
            } else {
                aborted(o, n, r, CalibrationError::UnexpectedEvent)
            },
        }
    }
}

/// One calibration session of a load-cell terminal.
pub struct CalibrationSession {
    phase: Phase,
    steps: Vec<Step>,
    pos: usize,
    awaiting: Awaiting,
    polls: u32,
    max_polls: u32,
    zero_done: bool,
}

impl View for CalibrationSession {
    type V = SessionView;

    closed spec fn view(&self) -> SessionView {
        SessionView {
            phase: self.phase,
            steps: self.steps@,
            pos: self.pos as nat,
            awaiting: self.awaiting,
            polls: self.polls as nat,
            max_polls: self.max_polls as nat,
            zero_done: self.zero_done,
        }
    }
}

impl CalibrationSession {
    pub open spec fn wf(&self) -> bool {
        &&& self@.phase != Phase::Idle ==> {
            &&& self@.pos < self@.steps.len()
            &&& self@.polls <= self@.max_polls
            &&& self@.polls < 0x1_0000_0000
            &&& match self@.steps[self@.pos as int] {
                Step::Write(_) => self@.awaiting == Awaiting::WriteAck,
                Step::AwaitAck => self@.awaiting != Awaiting::WriteAck,
            }
        }
        &&& self@.phase == Phase::Idle ==> self@ == idle_view(self@.max_polls, self@.zero_done)
        &&& self@.max_polls < 0x1_0000_0000
    }

    /// A new idle session that allows `max_polls` polls per acknowledgement.
    pub fn new(max_polls: u32) -> (s: Self)
        ensures
            s.wf(),
            s@ == idle_view(max_polls as nat, false),
    {
        CalibrationSession {
            phase: Phase::Idle,
            steps: Vec::new(),
            pos: 0,
            awaiting: Awaiting::WriteAck,
            polls: 0,
            max_polls,
            zero_done: false,
        }
    }

    pub fn phase(&self) -> (p: Phase)
        ensures
            p == self@.phase,
    {
        self.phase
    }

    /// Whether a zero balance succeeded and no phase has failed since.
    pub fn zero_balanced(&self) -> (b: bool)
        ensures
            b == self@.zero_done,
    {
        self.zero_done
    }

    /// Sets how many polls an acknowledgement may take before the phase
    /// fails with a timeout. Refused while a phase runs.
    pub fn set_max_polls(&mut self, max_polls: u32) -> (r: Result<(), CalibrationError>)
        requires
            old(self).wf(),
        ensures
            final(self).wf(),
            old(self)@.phase != Phase::Idle ==> r == Err::<(), CalibrationError>(
                CalibrationError::Busy,
            ) && final(self)@ == old(self)@,
            old(self)@.phase == Phase::Idle ==> r is Ok && final(self)@ == idle_view(
                max_polls as nat,
                old(self)@.zero_done,
            ),
    {
        if self.phase != Phase::Idle {
            return Err(CalibrationError::Busy);
        }
        self.max_polls = max_polls;
        Ok(())
    }

    /// Ends the session: a running phase is abandoned and no zero balance
    /// stands any more.
    pub fn reset(&mut self)
        requires
            old(self).wf(),
        ensures
            final(self).wf(),
            final(self)@ == idle_view(old(self)@.max_polls, false),
    {
        self.phase = Phase::Idle;
        self.steps = Vec::new();
        self.pos = 0;
        self.awaiting = Awaiting::WriteAck;
        self.polls = 0;
        self.zero_done = false;
    }

    fn begin(&mut self, phase: Phase, steps: Vec<Step>, zero_done: bool) -> (r: CalAction)
        requires
            old(self).wf(),
            old(self)@.phase == Phase::Idle,
            phase != Phase::Idle,
            steps@.len() > 0,
        ensures
            final(self).wf(),
            final(self)@ == at_step(phase, steps@, 0, old(self)@.max_polls, zero_done),
            r == action_for(steps@[0]),
    {
        let first = steps[0];
        self.phase = phase;
        self.steps = steps;
        self.pos = 0;
        self.polls = 0;
        self.zero_done = zero_done;
        match first {
            Step::Write(w) => {
                self.awaiting = Awaiting::WriteAck;
                CalAction::Write(w)
            },
            Step::AwaitAck => {
                self.awaiting = Awaiting::PollResult;
                CalAction::Poll
            },
        }
    }

    /// Starts a zero balance with the given nominal load (float bits).
    pub fn start_zero_balance(&mut self, nominal_load: u32) -> (r: Result<CalAction, CalibrationError>)
        requires
            old(self).wf(),
        ensures
            final(self).wf(),
            old(self)@.phase != Phase::Idle ==> r == Err::<CalAction, CalibrationError>(
                CalibrationError::Busy,
            ) && final(self)@ == old(self)@,
            old(self)@.phase == Phase::Idle ==> {
                &&& final(self)@ == at_step(
                    Phase::ZeroBalance,
                    zero_balance_steps(nominal_load),
                    0,
                    old(self)@.max_polls,
                    false,
                )
                &&& r == Ok::<CalAction, CalibrationError>(
                    action_for(zero_balance_steps(nominal_load)[0]),
                )
            },
    {
        if self.phase != Phase::Idle {
            return Err(CalibrationError::Busy);
        }
        let mut steps: Vec<Step> = Vec::new();
        steps.push(Step::Write(sdo_write(0x1011, 0x01, SdoValue::U32(RESTORE_DEFAULTS))));
        steps.push(Step::Write(sdo_write(0x8000, 0x27, SdoValue::F32(F32_ONE))));
        steps.push(Step::Write(sdo_write(0x8000, 0x21, SdoValue::F32(F32_ONE))));
        steps.push(Step::Write(sdo_write(0x8000, 0x22, SdoValue::F32(F32_ZERO))));
        steps.push(Step::Write(sdo_write(0x8000, 0x11, SdoValue::U16(FILTER_IIR8))));
        steps.push(Step::Write(sdo_write(0x8000, 0x24, SdoValue::F32(nominal_load))));
        steps.push(
            Step::Write(sdo_write(COMMAND_INDEX, COMMAND_SUBINDEX, SdoValue::U16(CMD_ZERO_BALANCE))),
        );
        steps.push(Step::AwaitAck);
        assert(steps@ =~= zero_balance_steps(nominal_load));
        Ok(self.begin(Phase::ZeroBalance, steps, false))
    }

    /// Starts a span calibration with the given reference load (float bits),
    /// ending with the given operating filter. Refused unless a zero balance
    /// succeeded earlier in the session.
    pub fn start_span(&mut self, calibration_load: u32, filter: Filter) -> (r: Result<
        CalAction,
        CalibrationError,
    >)
        requires
            old(self).wf(),
        ensures
            final(self).wf(),
            old(self)@.phase != Phase::Idle ==> r == Err::<CalAction, CalibrationError>(
                CalibrationError::Busy,
            ) && final(self)@ == old(self)@,
            old(self)@.phase == Phase::Idle && !old(self)@.zero_done ==> r == Err::<
                CalAction,
                CalibrationError,
            >(CalibrationError::SpanWithoutZeroBalance) && final(self)@ == old(self)@,
            old(self)@.phase == Phase::Idle && old(self)@.zero_done ==> {
                &&& final(self)@ == at_step(
                    Phase::SpanCalibration,
                    span_steps(calibration_load, filter),
                    0,
                    old(self)@.max_polls,
                    true,
                )
                &&& r == Ok::<CalAction, CalibrationError>(
                    action_for(span_steps(calibration_load, filter)[0]),
                )
            },
    {
        if self.phase != Phase::Idle {
            return Err(CalibrationError::Busy);
        }
        if !self.zero_done {
            return Err(CalibrationError::SpanWithoutZeroBalance);
        }
        let mut steps: Vec<Step> = Vec::new();
        steps.push(Step::Write(sdo_write(0x8000, 0x28, SdoValue::F32(calibration_load))));
        steps.push(Step::Write(sdo_write(COMMAND_INDEX, COMMAND_SUBINDEX, SdoValue::U16(CMD_SPAN))));
        steps.push(Step::AwaitAck);
        steps.push(Step::Write(sdo_write(COMMAND_INDEX, COMMAND_SUBINDEX, SdoValue::U16(CMD_RESET))));
        steps.push(Step::Write(sdo_write(0x8000, 0x11, SdoValue::U16(filter.code()))));
        assert(steps@ =~= span_steps(calibration_load, filter));
        Ok(self.begin(Phase::SpanCalibration, steps, true))
    }

    fn abort(&mut self, e: CalibrationError) -> (r: CalAction)
        requires
            old(self).wf(),
        ensures
            final(self).wf(),
            aborted(old(self)@, final(self)@, r, e),
    {
        self.phase = Phase::Idle;
        self.steps = Vec::new();
        self.pos = 0;
        self.awaiting = Awaiting::WriteAck;
        self.polls = 0;
        self.zero_done = false;
        CalAction::Failed(e)
    }

    fn advance(&mut self) -> (r: CalAction)
        requires
            old(self).wf(),
            old(self)@.phase != Phase::Idle,
        ensures
            final(self).wf(),
            advanced(old(self)@, final(self)@, r),
    {
        if self.pos < self.steps.len() - 1 {
            self.pos = self.pos + 1;
            self.polls = 0;
            match self.steps[self.pos] {
                Step::Write(w) => {
                    self.awaiting = Awaiting::WriteAck;
                    CalAction::Write(w)
                },
                Step::AwaitAck => {
                    self.awaiting = Awaiting::PollResult;
                    CalAction::Poll
                },
            }
        } else {
            let zero = self.phase == Phase::ZeroBalance;
            self.phase = Phase::Idle;
            self.steps = Vec::new();
            self.pos = 0;
            self.awaiting = Awaiting::WriteAck;
            self.polls = 0;
            self.zero_done = zero;
            CalAction::Done
        }
    }

    /// Takes the outcome of the last action and hands back the next one.
    pub fn on_event(&mut self, ev: CalEvent) -> (r: CalAction)
        requires
            old(self).wf(),
        ensures
            final(self).wf(),
            final(self)@.zero_done ==> old(self)@.zero_done || (old(self)@.phase
                == Phase::ZeroBalance && r == CalAction::Done),
            stepped(old(self)@, final(self)@, ev, r),
    {
        if self.phase == Phase::Idle {
            return CalAction::Failed(CalibrationError::NotRunning);
        }
        match ev {
            CalEvent::CommFailed(reg) => self.abort(CalibrationError::DeviceCommError(reg)),
            CalEvent::Written => {
                if self.awaiting == Awaiting::WriteAck {
                    self.advance()
                } else {
                    self.abort(CalibrationError::UnexpectedEvent)
                }
            },
            CalEvent::Polled { status, response } => {
                if self.awaiting != Awaiting::PollResult {
                    self.abort(CalibrationError::UnexpectedEvent)
                } else if status == 0 && response == 0 {
                    self.advance()
                } else if self.polls as u64 + 1 >= self.max_polls as u64 {
                    self.abort(CalibrationError::CalibrationTimeout)
                } else {
                    self.polls = self.polls + 1;
                    self.awaiting = Awaiting::WaitDone;
                    CalAction::Wait
                }
            },
            CalEvent::Waited => {
                if self.awaiting == Awaiting::WaitDone {
                    self.awaiting = Awaiting::PollResult;
                    CalAction::Poll
                } else {
                    self.abort(CalibrationError::UnexpectedEvent)
                }
            },
        }
    }
}

} // verus!
