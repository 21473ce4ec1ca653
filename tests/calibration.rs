use ethercat::calibration::{CalAction, CalEvent, CalibrationError, CalibrationSession, Phase};
use ethercat::devices::el3356::{El3356, Filter};
use ethercat::sdo::{Register, SdoValue, SdoWrite};

fn w(index: u16, subindex: u8, value: SdoValue) -> CalAction {
    CalAction::Write(SdoWrite { register: Register { index, subindex }, value })
}

/// Acknowledges writes and answers polls with `polls_before_ack` non-zero
/// readings before the zero one; returns the writes seen and the outcome.
fn run(s: &mut CalibrationSession, first: CalAction, polls_before_ack: u32) -> (Vec<CalAction>, CalAction) {
    let mut seen = Vec::new();
    let mut action = first;
    let mut polls = 0;
    loop {
        match action {
            CalAction::Write(_) => {
                seen.push(action);
                action = s.on_event(CalEvent::Written);
            }
            CalAction::Poll => {
                let ev = if polls < polls_before_ack {
                    CalEvent::Polled { status: 1, response: 0 }
                } else {
                    CalEvent::Polled { status: 0, response: 0 }
                };
                polls += 1;
                action = s.on_event(ev);
            }
            CalAction::Wait => action = s.on_event(CalEvent::Waited),
            CalAction::Done | CalAction::Failed(_) => return (seen, action),
        }
    }
}

#[test]
fn span_without_zero_balance_is_rejected() {
    let mut s = CalibrationSession::new(10);
    assert_eq!(s.start_span(0x40A0_0000, Filter::FIR50), Err(CalibrationError::SpanWithoutZeroBalance));
    assert_eq!(s.phase(), Phase::Idle);
}

#[test]
fn zero_balance_then_span() {
    let mut s = CalibrationSession::new(10);
    let first = s.start_zero_balance(0x40A0_0000).unwrap();
    let (writes, outcome) = run(&mut s, first, 3);
    assert_eq!(outcome, CalAction::Done);
    assert_eq!(
        writes,
        vec![
            w(0x1011, 0x01, SdoValue::U32(0x6461_6F6C)),
            w(0x8000, 0x27, SdoValue::F32(0x3F80_0000)),
            w(0x8000, 0x21, SdoValue::F32(0x3F80_0000)),
            w(0x8000, 0x22, SdoValue::F32(0)),
            w(0x8000, 0x11, SdoValue::U16(9)),
            w(0x8000, 0x24, SdoValue::F32(0x40A0_0000)),
            w(0xFB00, 0x01, SdoValue::U16(0x0101)),
        ]
    );
    assert!(s.zero_balanced());
    let first = s.start_span(0x4120_0000, Filter::IIR3).unwrap();
    let (writes, outcome) = run(&mut s, first, 0);
    assert_eq!(outcome, CalAction::Done);
    assert_eq!(
        writes,
        vec![
            w(0x8000, 0x28, SdoValue::F32(0x4120_0000)),
            w(0xFB00, 0x01, SdoValue::U16(0x0102)),
            w(0xFB00, 0x01, SdoValue::U16(0)),
            w(0x8000, 0x11, SdoValue::U16(4)),
        ]
    );
    assert!(!s.zero_balanced());
    assert_eq!(s.start_span(0x4120_0000, Filter::IIR3), Err(CalibrationError::SpanWithoutZeroBalance));
}

#[test]
fn polling_times_out() {
    let mut s = CalibrationSession::new(4);
    let first = s.start_zero_balance(0).unwrap();
    let (_, outcome) = run(&mut s, first, 100);
    assert_eq!(outcome, CalAction::Failed(CalibrationError::CalibrationTimeout));
    assert_eq!(s.phase(), Phase::Idle);
    assert!(!s.zero_balanced());
}

#[test]
fn write_failure_aborts_phase() {
    let mut s = CalibrationSession::new(4);
    assert!(s.start_zero_balance(0).is_ok());
    assert_eq!(s.on_event(CalEvent::Written), w(0x8000, 0x27, SdoValue::F32(0x3F80_0000)));
    let reg = Register { index: 0x8000, subindex: 0x27 };
    assert_eq!(
        s.on_event(CalEvent::CommFailed(reg)),
        CalAction::Failed(CalibrationError::DeviceCommError(reg))
    );
    assert_eq!(s.phase(), Phase::Idle);
    assert_eq!(s.on_event(CalEvent::Written), CalAction::Failed(CalibrationError::NotRunning));
}

#[test]
fn busy_and_unexpected_events() {
    let mut s = CalibrationSession::new(4);
    assert!(s.start_zero_balance(0).is_ok());
    assert_eq!(s.start_zero_balance(0), Err(CalibrationError::Busy));
    assert_eq!(
        s.on_event(CalEvent::Waited),
        CalAction::Failed(CalibrationError::UnexpectedEvent)
    );
    assert_eq!(s.phase(), Phase::Idle);
}

#[test]
fn failed_span_requires_new_zero_balance() {
    let mut s = CalibrationSession::new(4);
    let first = s.start_zero_balance(0).unwrap();
    assert_eq!(run(&mut s, first, 0).1, CalAction::Done);
    assert!(s.start_span(0, Filter::FIR50).is_ok());
    let reg = Register { index: 0x8000, subindex: 0x28 };
    s.on_event(CalEvent::CommFailed(reg));
    assert_eq!(s.start_span(0, Filter::FIR50), Err(CalibrationError::SpanWithoutZeroBalance));
}

#[test]
fn el3356_calibration_uses_settings() {
    let mut d = El3356::new(0, 0);
    assert_eq!(d.calibrate(), Err(CalibrationError::SpanWithoutZeroBalance));
    let first = d.zero_calibrate().unwrap();
    assert_eq!(first, w(0x1011, 0x01, SdoValue::U32(0x6461_6F6C)));
    let mut action = first;
    let mut last_write = None;
    while let CalAction::Write(x) = action {
        last_write = Some(x);
        action = d.calibration_event(CalEvent::Written);
    }
    assert_eq!(last_write.unwrap().value, SdoValue::U16(0x0101));
    assert_eq!(action, CalAction::Poll);
    assert_eq!(
        d.calibration_event(CalEvent::Polled { status: 0, response: 0 }),
        CalAction::Done
    );
    assert_eq!(d.calibrate(), Ok(w(0x8000, 0x28, SdoValue::F32(0x40A0_0000))));
}

#[test]
fn poll_bound_is_configurable_and_reset_clears_session() {
    let mut s = CalibrationSession::new(100);
    assert_eq!(s.set_max_polls(2), Ok(()));
    let first = s.start_zero_balance(0).unwrap();
    assert_eq!(s.set_max_polls(50), Err(CalibrationError::Busy));
    let (_, outcome) = run(&mut s, first, 5);
    assert_eq!(outcome, CalAction::Failed(CalibrationError::CalibrationTimeout));
    let first = s.start_zero_balance(0).unwrap();
    assert_eq!(run(&mut s, first, 1).1, CalAction::Done);
    assert!(s.zero_balanced());
    s.reset();
    assert!(!s.zero_balanced());
    assert_eq!(s.start_span(0, Filter::FIR50), Err(CalibrationError::SpanWithoutZeroBalance));
}

#[test]
fn el3356_reset_requires_new_zero_balance() {
    let mut d = El3356::new(0, 0);
    assert_eq!(d.set_calibration_max_polls(3), Ok(()));
    let mut action = d.zero_calibrate().unwrap();
    while let CalAction::Write(_) = action {
        action = d.calibration_event(CalEvent::Written);
    }
    assert_eq!(d.calibration_event(CalEvent::Polled { status: 0, response: 0 }), CalAction::Done);
    d.reset_calibration();
    assert_eq!(d.calibrate(), Err(CalibrationError::SpanWithoutZeroBalance));
}
