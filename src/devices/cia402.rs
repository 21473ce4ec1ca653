//! The drive state machine of CiA 402 drives: states read from the status
//! word, and the control word that moves a drive one step toward the wanted
//! state.
use vstd::prelude::*;

verus! {

#[derive(Clone, Copy, Debug, PartialEq, Eq, Structural)]
pub enum State {
    NotReadyToSwitchOn,
    SwitchOnDisabled,
    ReadyToSwitchOn,
    SwitchedOn,
    OperationEnabled,
    QuickStopActive,
    FaultReactionActive,
    Fault,
    /// A status word that matches no state.
    Unknown,
}

/// What the drive is asked to do.
#[derive(Clone, Copy, Debug, PartialEq, Eq, Structural)]
pub enum TransitionAction {
    /// Reach operation enabled.
    Run,
    /// Leave operation, back to switch on disabled.
    Stop,
}

/// Control word commands.
pub const CW_DISABLE_VOLTAGE: u16 = 0x0000;
pub const CW_SHUTDOWN: u16 = 0x0006;
pub const CW_SWITCH_ON: u16 = 0x0007;
pub const CW_ENABLE_OPERATION: u16 = 0x000F;
pub const CW_FAULT_RESET: u16 = 0x0080;

/// The state that a status word shows.
pub open spec fn state_of(sw: u16) -> State {
    if sw & 0x4F == 0x00 {
        State::NotReadyToSwitchOn
    } else if sw & 0x4F == 0x40 {
        State::SwitchOnDisabled
    } else if sw & 0x6F == 0x21 {
        State::ReadyToSwitchOn
    } else if sw & 0x6F == 0x23 {
        State::SwitchedOn
    } else if sw & 0x6F == 0x27 {
        State::OperationEnabled
    } else if sw & 0x6F == 0x07 {
        State::QuickStopActive
    } else if sw & 0x4F == 0x0F {
        State::FaultReactionActive
    } else if sw & 0x4F == 0x08 {
        State::Fault
    } else {
        State::Unknown
    }
}

/// The control word for one step from `state` toward what `action` asks.
/// A drive in fault is reset only when `reset_fault` allows it.
pub open spec fn control_for(state: State, action: TransitionAction, reset_fault: bool) -> u16 {
    match action {
        TransitionAction::Run => match state {
            State::SwitchOnDisabled => CW_SHUTDOWN,
            State::ReadyToSwitchOn => CW_SWITCH_ON,
            State::SwitchedOn => CW_ENABLE_OPERATION,
            State::OperationEnabled => CW_ENABLE_OPERATION,
            State::QuickStopActive => CW_ENABLE_OPERATION,
            State::Fault => if reset_fault {
                CW_FAULT_RESET
            } else {
                CW_DISABLE_VOLTAGE
            },
            _ => CW_DISABLE_VOLTAGE,
        },
        TransitionAction::Stop => match state {
            State::OperationEnabled => CW_SWITCH_ON,
            State::SwitchedOn => CW_SHUTDOWN,
            State::Fault => if reset_fault {
                CW_FAULT_RESET
            } else {
                CW_DISABLE_VOLTAGE
            },
            _ => CW_DISABLE_VOLTAGE,
        },
    }
}

/// Reads the state from a status word.
pub fn parse_state(sw: u16) -> (s: State)
    ensures
        s == state_of(sw),
{
    if sw & 0x4F == 0x00 {
        State::NotReadyToSwitchOn
    } else if sw & 0x4F == 0x40 {
        State::SwitchOnDisabled
    } else if sw & 0x6F == 0x21 {
        State::ReadyToSwitchOn
    } else if sw & 0x6F == 0x23 {
        State::SwitchedOn
    } else if sw & 0x6F == 0x27 {
        State::OperationEnabled
    } else if sw & 0x6F == 0x07 {
        State::QuickStopActive
    } else if sw & 0x4F == 0x0F {
        State::FaultReactionActive
    } else if sw & 0x4F == 0x08 {
        State::Fault
    } else {
        State::Unknown
    }
}

/// The control word for one step from `state` toward what `action` asks.
pub fn transition(state: State, action: TransitionAction, reset_fault: bool) -> (cw: u16)
    ensures
        cw == control_for(state, action, reset_fault),
{
    match action {
        TransitionAction::Run => match state {
            State::SwitchOnDisabled => CW_SHUTDOWN,
            State::ReadyToSwitchOn => CW_SWITCH_ON,
            State::SwitchedOn => CW_ENABLE_OPERATION,
            State::OperationEnabled => CW_ENABLE_OPERATION,
            State::QuickStopActive => CW_ENABLE_OPERATION,
            State::Fault => if reset_fault {
                CW_FAULT_RESET
            } else {
                CW_DISABLE_VOLTAGE
            },
            _ => CW_DISABLE_VOLTAGE,
        },
        TransitionAction::Stop => match state {
            State::OperationEnabled => CW_SWITCH_ON,
            State::SwitchedOn => CW_SHUTDOWN,
            State::Fault => if reset_fault {
                CW_FAULT_RESET
            } else {
                CW_DISABLE_VOLTAGE
            },
            _ => CW_DISABLE_VOLTAGE,
        },
    }
}

} // verus!
