use ethercat::operations::{
    step, OperationMode, OperationsClient, OperationsError, OperationsEvent, OperationsImpl,
    OperationsState, Transition,
};

#[test]
fn client_keeps_key_and_reports_manual() {
    let c = OperationsClient::new("OperationMode");
    assert_eq!(c.log_key(), "OperationMode");
    assert_eq!(c.mode(), "manual");
}

#[test]
fn mode_codes() {
    assert_eq!(OperationMode::Unknown.code(), 0);
    assert_eq!(OperationMode::Running.code(), 3);
    assert_eq!(OperationMode::Maintenance.code(), 8);
}

#[test]
fn run_cycle() {
    let mut o = OperationsImpl::new();
    assert_eq!(o.state(), OperationsState::Init);
    assert_eq!(o.on_run_button(true), Some(Err(OperationsError::InvalidEvent)));
    assert!(o.process_event(OperationsEvent::SetStopped).is_ok());
    assert_eq!(o.on_run_button(false), None);
    assert_eq!(
        o.on_run_button(true),
        Some(Ok(Transition { from: OperationsState::Stopped, to: OperationsState::Starting }))
    );
    assert!(o.on_starting_finished(true).is_some());
    assert_eq!(o.state(), OperationsState::Running);
    o.on_run_button(true);
    assert_eq!(o.state(), OperationsState::Stopping);
    o.on_stopping_finished(true);
    assert_eq!(o.state(), OperationsState::Stopped);
}

#[test]
fn emergency_from_anywhere() {
    let mut o = OperationsImpl::new();
    assert_eq!(
        o.on_emergency_in(true),
        Ok(Transition { from: OperationsState::Init, to: OperationsState::Emergency })
    );
    assert_eq!(
        o.on_emergency_in(false),
        Ok(Transition { from: OperationsState::Emergency, to: OperationsState::Stopped })
    );
    assert_eq!(o.on_emergency_in(false), Err(OperationsError::InvalidEvent));
    assert!(!o.is_fault());
}

#[test]
fn cleaning_and_maintenance() {
    let mut o = OperationsImpl::new();
    o.process_event(OperationsEvent::SetStopped).unwrap();
    o.on_cleaning_button(true);
    assert_eq!(o.state(), OperationsState::Cleaning);
    o.on_cleaning_button(true);
    o.on_maintenance_button(true);
    assert_eq!(o.state(), OperationsState::Maintenance);
    assert_eq!(o.process_event(OperationsEvent::RunButton), Err(OperationsError::InvalidEvent));
    assert_eq!(o.state(), OperationsState::Maintenance);
}

#[test]
fn emergency_off_with_fault_goes_to_fault() {
    assert_eq!(
        step(OperationsState::Emergency, OperationsEvent::EmergencyOff, true),
        Ok(Transition { from: OperationsState::Emergency, to: OperationsState::Fault })
    );
    assert_eq!(
        step(OperationsState::Running, OperationsEvent::FaultOn, false),
        Ok(Transition { from: OperationsState::Running, to: OperationsState::Fault })
    );
    assert_eq!(
        step(OperationsState::Fault, OperationsEvent::FaultOff, false),
        Ok(Transition { from: OperationsState::Fault, to: OperationsState::Stopped })
    );
}
