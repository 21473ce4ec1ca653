//! The supervisory operation mode of the machine: a state machine over
//! operator inputs. Its transitions are a pure function of state and event;
//! the owner carries out the effects that a transition names.
use vstd::prelude::*;
use vstd::string::StringExecFns;

verus! {

/// Operation modes as published on the signal bus.
#[derive(Clone, Copy, Debug, PartialEq, Eq, Structural)]
pub enum OperationMode {
    Unknown,
    Stopped,
    Starting,
    Running,
    Stopping,
    Cleaning,
    Emergency,
    Fault,
    Maintenance,
}

impl OperationMode {
    pub open spec fn code_spec(&self) -> u64 {
        match self {
            OperationMode::Unknown => 0,
            OperationMode::Stopped => 1,
            OperationMode::Starting => 2,
            OperationMode::Running => 3,
            OperationMode::Stopping => 4,
            OperationMode::Cleaning => 5,
            OperationMode::Emergency => 6,
            OperationMode::Fault => 7,
            OperationMode::Maintenance => 8,
        }
    }

    /// The number under which the mode is published.
    pub fn code(&self) -> (c: u64)
        ensures
            c == self.code_spec(),
    {
        match self {
            OperationMode::Unknown => 0,
            OperationMode::Stopped => 1,
            OperationMode::Starting => 2,
            OperationMode::Running => 3,
            OperationMode::Stopping => 4,
            OperationMode::Cleaning => 5,
            OperationMode::Emergency => 6,
            OperationMode::Fault => 7,
            OperationMode::Maintenance => 8,
        }
    }
}

/// The client side of the operation mode interface.
pub struct OperationsClient {
    log_key: String,
}

impl OperationsClient {
    pub closed spec fn key(&self) -> Seq<char> {
        self.log_key@
    }

    pub fn new(key: &str) -> (c: Self)
        ensures
            c.key() == key@,
    {
        OperationsClient { log_key: String::from_str(key) }
    }

    pub fn log_key(&self) -> (k: &str)
        ensures
            k@ == self.key(),
    {
        self.log_key.as_str()
    }

    /// The mode that the interface reports.
    pub fn mode(&self) -> (m: String)
        ensures
            m@ == "manual"@,
    {
        String::from_str("manual")
    }
}

/// States of the machine.
#[derive(Clone, Copy, Debug, PartialEq, Eq, Structural)]
pub enum OperationsState {
    Init,
    Stopped,
    Starting,
    Running,
    Stopping,
    Cleaning,
    Emergency,
    Fault,
    Maintenance,
}

/// Events of the machine.
#[derive(Clone, Copy, Debug, PartialEq, Eq, Structural)]
pub enum OperationsEvent {
    SetStopped,
    SetStarting,
    RunButton,
    StartingTimeout,
    StartingFinished,
    StoppingTimeout,
    StoppingFinished,
    CleaningButton,
    SetCleaning,
    SetEmergency,
    EmergencyOn,
    EmergencyOff,
    FaultOn,
    SetFault,
    FaultOff,
    MaintenanceButton,
    SetMaintenance,
}

/// A transition taken: the owner leaves `from` and enters `to`.
#[derive(Clone, Copy, Debug, PartialEq, Eq, Structural)]
pub struct Transition {
    pub from: OperationsState,
    pub to: OperationsState,
}

#[derive(Clone, Copy, Debug, PartialEq, Eq, Structural)]
pub enum OperationsError {
    /// The event has no transition from the present state.
    InvalidEvent,
}

/// The state that `e` leads to from `s`, if any. Leaving an emergency goes
/// to fault while a fault is present, else to stopped.
pub open spec fn next_state(s: OperationsState, e: OperationsEvent, fault: bool) -> Option<
    OperationsState,
> {
    match e {
        OperationsEvent::SetEmergency | OperationsEvent::EmergencyOn => Some(
            OperationsState::Emergency,
        ),
        _ => match (s, e) {
            (OperationsState::Init, OperationsEvent::SetStopped) => Some(OperationsState::Stopped),
            (OperationsState::Stopped, OperationsEvent::SetStarting) => Some(
                OperationsState::Starting,
            ),
            (OperationsState::Stopped, OperationsEvent::RunButton) => Some(
                OperationsState::Starting,
            ),
            (OperationsState::Starting, OperationsEvent::StartingTimeout) => Some(
                OperationsState::Running,
            ),
            (OperationsState::Starting, OperationsEvent::StartingFinished) => Some(
                OperationsState::Running,
            ),
            (OperationsState::Running, OperationsEvent::RunButton) => Some(
                OperationsState::Stopping,
            ),
            (OperationsState::Running, OperationsEvent::SetStopped) => Some(
                OperationsState::Stopping,
            ),
            (OperationsState::Stopping, OperationsEvent::StoppingTimeout) => Some(
                OperationsState::Stopped,
            ),
            (OperationsState::Stopping, OperationsEvent::StoppingFinished) => Some(
                OperationsState::Stopped,
            ),
            (OperationsState::Stopped, OperationsEvent::CleaningButton) => Some(
                OperationsState::Cleaning,
            ),
            (OperationsState::Stopped, OperationsEvent::SetCleaning) => Some(
                OperationsState::Cleaning,
            ),
            (OperationsState::Cleaning, OperationsEvent::CleaningButton) => Some(
                OperationsState::Stopped,
            ),
            (OperationsState::Cleaning, OperationsEvent::SetStopped) => Some(
                OperationsState::Stopped,
            ),
            (OperationsState::Emergency, OperationsEvent::EmergencyOff) => if fault {
                Some(OperationsState::Fault)
            } else {
                Some(OperationsState::Stopped)
            },
            (OperationsState::Stopped, OperationsEvent::FaultOn) => Some(OperationsState::Fault),
            (OperationsState::Stopped, OperationsEvent::SetFault) => Some(OperationsState::Fault),
            (OperationsState::Running, OperationsEvent::FaultOn) => Some(OperationsState::Fault),
            (OperationsState::Running, OperationsEvent::SetFault) => Some(OperationsState::Fault),
            (OperationsState::Fault, OperationsEvent::FaultOff) => Some(OperationsState::Stopped),
            (OperationsState::Stopped, OperationsEvent::MaintenanceButton) => Some(
                OperationsState::Maintenance,
            ),
            (OperationsState::Stopped, OperationsEvent::SetMaintenance) => Some(
                OperationsState::Maintenance,
            ),
            (OperationsState::Maintenance, OperationsEvent::MaintenanceButton) => Some(
                OperationsState::Stopped,
            ),
            (OperationsState::Maintenance, OperationsEvent::SetStopped) => Some(
                OperationsState::Stopped,
            ),
            _ => None,
        },
    }
}

/// The transition that `e` takes from `s`, or the refusal.
pub fn step(s: OperationsState, e: OperationsEvent, fault: bool) -> (r: Result<
    Transition,
    OperationsError,
>)
    ensures
        next_state(s, e, fault) is None ==> r == Err::<Transition, OperationsError>(
            OperationsError::InvalidEvent,
        ),
        next_state(s, e, fault) matches Some(t) ==> r == Ok::<Transition, OperationsError>(
            Transition { from: s, to: t },
        ),
{
    let to = match e {
        OperationsEvent::SetEmergency | OperationsEvent::EmergencyOn => Some(
            OperationsState::Emergency,
        ),
        _ => match (s, e) {
            (OperationsState::Init, OperationsEvent::SetStopped) => Some(OperationsState::Stopped),
            (OperationsState::Stopped, OperationsEvent::SetStarting) => Some(
                OperationsState::Starting,
            ),
            (OperationsState::Stopped, OperationsEvent::RunButton) => Some(
                OperationsState::Starting,
            ),
            (OperationsState::Starting, OperationsEvent::StartingTimeout) => Some(
                OperationsState::Running,
            ),
            (OperationsState::Starting, OperationsEvent::StartingFinished) => Some(
                OperationsState::Running,
            ),
            (OperationsState::Running, OperationsEvent::RunButton) => Some(
                OperationsState::Stopping,
            ),
            (OperationsState::Running, OperationsEvent::SetStopped) => Some(
                OperationsState::Stopping,
            ),
            (OperationsState::Stopping, OperationsEvent::StoppingTimeout) => Some(
                OperationsState::Stopped,
            ),
            (OperationsState::Stopping, OperationsEvent::StoppingFinished) => Some(
                OperationsState::Stopped,
            ),
            (OperationsState::Stopped, OperationsEvent::CleaningButton) => Some(
                OperationsState::Cleaning,
            ),
            (OperationsState::Stopped, OperationsEvent::SetCleaning) => Some(
                OperationsState::Cleaning,
            ),
            (OperationsState::Cleaning, OperationsEvent::CleaningButton) => Some(
                OperationsState::Stopped,
            ),
            (OperationsState::Cleaning, OperationsEvent::SetStopped) => Some(
                OperationsState::Stopped,
            ),
            (OperationsState::Emergency, OperationsEvent::EmergencyOff) => if fault {
                Some(OperationsState::Fault)
            } else {
                Some(OperationsState::Stopped)
            },
            (OperationsState::Stopped, OperationsEvent::FaultOn) => Some(OperationsState::Fault),
            (OperationsState::Stopped, OperationsEvent::SetFault) => Some(OperationsState::Fault),
            (OperationsState::Running, OperationsEvent::FaultOn) => Some(OperationsState::Fault),
            (OperationsState::Running, OperationsEvent::SetFault) => Some(OperationsState::Fault),
            (OperationsState::Fault, OperationsEvent::FaultOff) => Some(OperationsState::Stopped),
            (OperationsState::Stopped, OperationsEvent::MaintenanceButton) => Some(
                OperationsState::Maintenance,
            ),
            (OperationsState::Stopped, OperationsEvent::SetMaintenance) => Some(
                OperationsState::Maintenance,
            ),
            (OperationsState::Maintenance, OperationsEvent::MaintenanceButton) => Some(
                OperationsState::Stopped,
            ),
            (OperationsState::Maintenance, OperationsEvent::SetStopped) => Some(
                OperationsState::Stopped,
            ),
            _ => None,
        },
    };
    match to {
        Some(t) => Ok(Transition { from: s, to: t }),
        None => Err(OperationsError::InvalidEvent),
    }
}

/// The operation mode machine and the handlers of its inputs. Each
/// handler returns the transition taken, if its input raised an event.
pub struct OperationsImpl {
    state: OperationsState,
}

impl OperationsImpl {
    pub closed spec fn state_spec(&self) -> OperationsState {
        self.state
    }

    /// A machine in its initial state.
    pub fn new() -> (o: Self)
        ensures
            o.state_spec() == OperationsState::Init,
    {
        OperationsImpl { state: OperationsState::Init }
    }

    pub fn state(&self) -> (s: OperationsState)
        ensures
            s == self.state_spec(),
    {
        self.state
    }

    /// Whether a fault is present; no fault source is wired yet.
    pub fn is_fault(&self) -> (f: bool)
        ensures
            !f,
    {
        false
    }

    /// Feeds an event to the machine: on a transition the state moves to
    /// its target; a refused event leaves the state alone.
    pub fn process_event(&mut self, e: OperationsEvent) -> (r: Result<Transition, OperationsError>)
        ensures
            next_state(old(self).state_spec(), e, false) is None ==> r == Err::<
                Transition,
                OperationsError,
            >(OperationsError::InvalidEvent) && final(self).state_spec() == old(self).state_spec(),
            next_state(old(self).state_spec(), e, false) matches Some(t) ==> r == Ok::<
                Transition,
                OperationsError,
            >(Transition { from: old(self).state_spec(), to: t }) && final(self).state_spec() == t,
    {
        let fault = self.is_fault();
        let r = step(self.state, e, fault);
        if let Ok(t) = r {
            self.state = t.to;
        }
        r
    }

    /// An input that raises `e` when it turns true.
    fn on_press(&mut self, val: bool, e: OperationsEvent) -> (r: Option<
        Result<Transition, OperationsError>,
    >)
        ensures
            !val ==> r is None && final(self).state_spec() == old(self).state_spec(),
            val ==> (r matches Some(x) && (next_state(old(self).state_spec(), e, false) is None
                ==> x == Err::<Transition, OperationsError>(OperationsError::InvalidEvent)
                && final(self).state_spec() == old(self).state_spec()) && (next_state(
                old(self).state_spec(),
                e,
                false,
            ) matches Some(t) ==> x == Ok::<Transition, OperationsError>(
                Transition { from: old(self).state_spec(), to: t },
            ) && final(self).state_spec() == t)),
    {
        if !val {
            return None;
        }
        Some(self.process_event(e))
    }

    /// The start-up sequence reports its end.
    pub fn on_starting_finished(&mut self, val: bool) -> (r: Option<
        Result<Transition, OperationsError>,
    >)
        ensures
            !val ==> r is None && final(self).state_spec() == old(self).state_spec(),
            val ==> r is Some && final(self).state_spec() == (match next_state(
                old(self).state_spec(),
                OperationsEvent::StartingFinished,
                false,
            ) {
                Some(t) => t,
                None => old(self).state_spec(),
            }),
    {
        self.on_press(val, OperationsEvent::StartingFinished)
    }

    /// The shut-down sequence reports its end.
    pub fn on_stopping_finished(&mut self, val: bool) -> (r: Option<
        Result<Transition, OperationsError>,
    >)
        ensures
            !val ==> r is None && final(self).state_spec() == old(self).state_spec(),
            val ==> r is Some && final(self).state_spec() == (match next_state(
                old(self).state_spec(),
                OperationsEvent::StoppingFinished,
                false,
            ) {
                Some(t) => t,
                None => old(self).state_spec(),
            }),
    {
        self.on_press(val, OperationsEvent::StoppingFinished)
    }

    /// The run button.
    pub fn on_run_button(&mut self, val: bool) -> (r: Option<Result<Transition, OperationsError>>)
        ensures
            !val ==> r is None && final(self).state_spec() == old(self).state_spec(),
            val ==> r is Some && final(self).state_spec() == (match next_state(
                old(self).state_spec(),
                OperationsEvent::RunButton,
                false,
            ) {
                Some(t) => t,
                None => old(self).state_spec(),
            }),
    {
        self.on_press(val, OperationsEvent::RunButton)
    }

    /// The cleaning button.
    pub fn on_cleaning_button(&mut self, val: bool) -> (r: Option<
        Result<Transition, OperationsError>,
    >)
        ensures
            !val ==> r is None && final(self).state_spec() == old(self).state_spec(),
            val ==> r is Some && final(self).state_spec() == (match next_state(
                old(self).state_spec(),
                OperationsEvent::CleaningButton,
                false,
            ) {
                Some(t) => t,
                None => old(self).state_spec(),
            }),
    {
        self.on_press(val, OperationsEvent::CleaningButton)
    }

    /// The maintenance button.
    pub fn on_maintenance_button(&mut self, val: bool) -> (r: Option<
        Result<Transition, OperationsError>,
    >)
        ensures
            !val ==> r is None && final(self).state_spec() == old(self).state_spec(),
            val ==> r is Some && final(self).state_spec() == (match next_state(
                old(self).state_spec(),
                OperationsEvent::MaintenanceButton,
                false,
            ) {
                Some(t) => t,
                None => old(self).state_spec(),
            }),
    {
        self.on_press(val, OperationsEvent::MaintenanceButton)
    }

    /// The emergency input: raising it enters emergency from any state,
    /// lowering it leaves emergency.
    pub fn on_emergency_in(&mut self, val: bool) -> (r: Result<Transition, OperationsError>)
        ensures
            val ==> r == Ok::<Transition, OperationsError>(
                Transition { from: old(self).state_spec(), to: OperationsState::Emergency },
            ) && final(self).state_spec() == OperationsState::Emergency,
            !val && old(self).state_spec() == OperationsState::Emergency ==> r == Ok::<
                Transition,
                OperationsError,
            >(Transition { from: OperationsState::Emergency, to: OperationsState::Stopped })
                && final(self).state_spec() == OperationsState::Stopped,
            !val && old(self).state_spec() != OperationsState::Emergency ==> r == Err::<
                Transition,
                OperationsError,
            >(OperationsError::InvalidEvent) && final(self).state_spec() == old(self).state_spec(),
    {
        if val {
            self.process_event(OperationsEvent::EmergencyOn)
        } else {
            self.process_event(OperationsEvent::EmergencyOff)
        }
    }
}

} // verus!
