use ethercat::devices::device_trait::DeviceError;
use ethercat::engine::{
    Bus, BusConfig, EngineError, EngineState, Identity, InitAction, Pacer, TimingReport,
    TimingStats, DEFAULT_CYCLE_TIME_US,
};
use ethercat::registry::{resolve, Device, DeviceKind};
use ethercat::sdo::Register;

const EL3356: Identity = Identity { vendor_id: 0x2, product_id: 0x0d1c3052, alias_address: 0 };
const I550: Identity = Identity { vendor_id: 0x3b, product_id: 0x6905_5000, alias_address: 0 };
const EL1008: Identity = Identity { vendor_id: 0x2, product_id: 0x3f03052, alias_address: 0 };
const UNKNOWN: Identity = Identity { vendor_id: 0x99, product_id: 0x1234, alias_address: 0 };

fn bus() -> Bus {
    Bus::new("eth0".to_string(), 1000)
}

#[test]
fn resolve_unregistered_gives_noop_device() {
    let mut d = resolve(0xdead, 0xbeef, 0, 0);
    assert_eq!(d.device_kind(), DeviceKind::Unimplemented);
    assert!(matches!(d, Device::Unimplemented(_)));
    assert!(d.setup().is_empty());
    let e = d.process_data(&[1, 2, 3], 4).unwrap();
    assert!(e.output.is_none());
    assert!(e.channels.is_empty());
}

#[test]
fn resolve_registered_kinds() {
    assert_eq!(resolve(0x2, 0x0d1c3052, 0, 0).device_kind(), DeviceKind::El3356);
    assert_eq!(resolve(0x3b, 0x69055000, 0, 0).device_kind(), DeviceKind::I550);
    assert_eq!(resolve(0x2, 0x3ea3052, 0, 0).device_kind(), DeviceKind::El1002);
    assert_eq!(resolve(0x2, 0x3f03052, 0, 0).device_kind(), DeviceKind::El1008);
    assert_eq!(resolve(0x2, 0x7113052, 0, 0).device_kind(), DeviceKind::El1809);
    assert_eq!(resolve(0x3, 0x3f03052, 0, 0).device_kind(), DeviceKind::Unimplemented);
}

#[test]
fn init_with_unregistered_slot_succeeds_at_once() {
    let mut b = bus();
    assert_eq!(b.init(&[UNKNOWN]), InitAction::EnterOperational);
    assert_eq!(b.state(), EngineState::Initializing);
    assert_eq!(b.enter_operational(true), Ok(()));
    assert_eq!(b.state(), EngineState::Operational);
    assert_eq!(b.device_kind(0), DeviceKind::Unimplemented);
}

#[test]
fn init_error_names_failing_device() {
    // Three terminals; the one at index 1 fails on its second register write.
    let mut b = bus();
    let mut action = b.init(&[EL3356, I550, EL1008]);
    let mut writes_to_device_one = 0;
    let mut reached_operational = false;
    let result = loop {
        match action {
            InitAction::Write { device, write } => {
                if device == 1 {
                    writes_to_device_one += 1;
                    if writes_to_device_one == 2 {
                        assert_eq!(write.register, Register { index: 0x1C12, subindex: 0 });
                        break b.write_failed();
                    }
                }
                action = b.write_done();
            }
            InitAction::EnterOperational => {
                reached_operational = true;
                break action;
            }
            InitAction::Failed(_) => break action,
        }
    };
    assert!(!reached_operational);
    assert_eq!(
        result,
        InitAction::Failed(EngineError::InitError {
            index: 1,
            register: Register { index: 0x1C12, subindex: 0 },
        })
    );
    assert_eq!(b.state(), EngineState::Uninitialized);
    assert_eq!(b.device_count(), 0);
}

#[test]
fn init_walks_every_write_in_bus_order() {
    let mut b = bus();
    let mut action = b.init(&[EL3356, UNKNOWN, I550]);
    let mut devices = Vec::new();
    while let InitAction::Write { device, .. } = action {
        devices.push(device);
        action = b.write_done();
    }
    assert_eq!(action, InitAction::EnterOperational);
    assert_eq!(devices.len(), 5 + 26);
    assert!(devices[..5].iter().all(|d| *d == 0));
    assert!(devices[5..].iter().all(|d| *d == 2));
    assert_eq!(b.enter_operational(false), Err(EngineError::TransitionError));
    assert_eq!(b.state(), EngineState::Uninitialized);
}

#[test]
fn dispatch_requires_operational_and_matching_buffers() {
    let mut b = bus();
    assert_eq!(b.dispatch(&vec![], &vec![]).err(), Some(EngineError::WrongState));
    assert_eq!(b.init(&[EL1008, UNKNOWN]), InitAction::EnterOperational);
    assert_eq!(b.enter_operational(true), Ok(()));
    let out = b.dispatch(&vec![vec![0b0000_0010], vec![]], &vec![0, 0]).unwrap();
    assert_eq!(out.len(), 2);
    assert_eq!(out[0].channels, vec![false, false, true, false, false, false, false, false]);
    assert!(out[1].channels.is_empty());
    // A digital input with a short frame fails only its own cycle.
    let out = b.dispatch(&vec![vec![], vec![]], &vec![0, 0]).unwrap();
    assert!(out[0].channels.is_empty());
    assert_eq!(b.state(), EngineState::Operational);
    assert_eq!(
        b.dispatch(&vec![vec![0]], &vec![0]).err(),
        Some(EngineError::DeviceCountMismatch { expected: 2, actual: 1 })
    );
    assert_eq!(b.state(), EngineState::Uninitialized);
}

#[test]
fn dispatch_length_mismatch_stops_engine() {
    let mut b = bus();
    let mut action = b.init(&[I550]);
    while let InitAction::Write { .. } = action {
        action = b.write_done();
    }
    assert_eq!(b.enter_operational(true), Ok(()));
    let err = b.dispatch(&vec![vec![0; 5]], &vec![4]).err();
    assert_eq!(
        err,
        Some(EngineError::DeviceFailed {
            index: 0,
            error: DeviceError::LengthMismatch { expected: 6, actual: 5 },
        })
    );
    assert_eq!(b.state(), EngineState::Uninitialized);
}

#[test]
fn dispatch_stops_at_first_failing_device() {
    let mut b = bus();
    let mut action = b.init(&[EL1008, EL3356, I550]);
    while let InitAction::Write { .. } = action {
        action = b.write_done();
    }
    assert_eq!(b.enter_operational(true), Ok(()));
    let ok = b.dispatch(&vec![vec![1], vec![0; 6], vec![0x40, 0, 0, 0, 0, 0]], &vec![0, 2, 4]).unwrap();
    assert_eq!(ok[1].output, Some(vec![0x02, 0x00]));
    assert_eq!(ok[2].output, Some(vec![0x06, 0x00, 0xE8, 0x03]));
    // both the load cell and the drive have bad frames: the first one stops the tick
    let err = b.dispatch(&vec![vec![1], vec![0; 6], vec![0; 2]], &vec![0, 3, 4]).err();
    assert_eq!(
        err,
        Some(EngineError::DeviceFailed {
            index: 1,
            error: DeviceError::LengthMismatch { expected: 2, actual: 3 },
        })
    );
    assert_eq!(b.state(), EngineState::Uninitialized);
}

#[test]
fn resolved_drivers_carry_their_keys() {
    match resolve(0x2, 0x0d1c3052, 3, 0) {
        Device::El3356(d) => assert_eq!(d.config_key(), "el3356_3"),
        _ => panic!("expected a load-cell driver"),
    }
    match resolve(0x3b, 0x69055000, 1, 9) {
        Device::I550(d) => assert_eq!(d.config_key(), "i550_slave_1_alias_9"),
        _ => panic!("expected a drive driver"),
    }
    match resolve(0x2, 0x7113052, 4, 0) {
        Device::DigitalInput(k, d) => {
            assert_eq!(k, DeviceKind::El1809);
            assert_eq!(d.channel_count(), 16);
            assert_eq!(d.channel_name(0), "el1809_s4_in1");
        }
        _ => panic!("expected a digital input driver"),
    }
}

#[test]
fn exchange_failure_restarts() {
    let mut b = bus();
    b.init(&[UNKNOWN]);
    b.enter_operational(true).unwrap();
    assert_eq!(b.exchange_failed(), EngineError::CommError);
    assert_eq!(b.state(), EngineState::Uninitialized);
    b.enumeration_failed();
    assert_eq!(b.state(), EngineState::Uninitialized);
    assert_eq!(b.write_done(), InitAction::Failed(EngineError::WrongState));
}

#[test]
fn pacer_skips_missed_ticks() {
    let mut p = Pacer::new(0, 10);
    assert_eq!(p.tick(0), 0);
    assert_eq!(p.tick(3), 10);
    // a stall past several boundaries: one tick at once, then back on the grid
    assert_eq!(p.tick(57), 57);
    assert_eq!(p.tick(58), 60);
    assert_eq!(p.tick(60), 70);
    // late exactly on a boundary
    assert_eq!(p.tick(90), 90);
    assert_eq!(p.tick(90), 100);
}

#[test]
fn pacer_never_bursts_after_stall() {
    let mut p = Pacer::new(1000, 100);
    let mut fires = Vec::new();
    fires.push(p.tick(1000));
    // stalled for ten periods, then asks repeatedly without waiting
    for _ in 0..5 {
        fires.push(p.tick(2050));
    }
    assert_eq!(fires, vec![1000, 2050, 2100, 2200, 2300, 2400]);
}

#[test]
fn timing_stats_report_every_thousand_ticks() {
    let mut s = TimingStats::new();
    for i in 0..999u64 {
        assert_eq!(s.record(1000, i, 2 * i), None);
    }
    let r = s.record(2000, 999, 1998);
    assert_eq!(r, Some(TimingReport { interval_avg: 1001, exchange_avg: 499, dispatch_avg: 999 }));
    assert_eq!(s.record(5, 5, 5), None);
}

#[test]
fn bus_config_defaults() {
    let c = BusConfig::default();
    assert_eq!(c.interface, "eth0");
    assert_eq!(c.cycle_time_us, DEFAULT_CYCLE_TIME_US);
    let b = Bus::new(c.interface.clone(), c.cycle_time_us);
    assert_eq!(b.interface(), "eth0");
    assert_eq!(b.cycle_time_us(), 1000);
}
