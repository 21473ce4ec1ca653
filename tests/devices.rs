use ethercat::devices::cia402::{parse_state, transition, State, TransitionAction};
use ethercat::devices::device_trait::DeviceError;
use ethercat::devices::el3356::{
    Config, El3356, Filter, Gravity, InputPdo, NominalValue, ScaleFactor, StatusWord, ZeroBalance,
};
use ethercat::devices::i550::{self, RatedMainsVoltage, I550};
use ethercat::sdo::{sdo_write_value_index, Register, SdoValue, SdoWrite};
use ethercat::text::with_number;

fn w(index: u16, subindex: u8, value: SdoValue) -> SdoWrite {
    SdoWrite { register: Register { index, subindex }, value }
}

#[test]
fn el3356_keys() {
    assert_eq!(El3356::new(5, 0).config_key(), "el3356_5");
    assert_eq!(El3356::new(5, 7).config_key(), "el3356_alias_7");
    assert_eq!(El3356::new(65535, 0).config_key(), "el3356_65535");
}

#[test]
fn el3356_setup_writes() {
    let d = El3356::new(0, 0);
    assert_eq!(
        d.setup(),
        vec![
            w(0x8000, 0x27, SdoValue::F32(0x4974_2400)),
            w(0x1C13, 0x00, SdoValue::U8(0)),
            w(0x1C13, 0x01, SdoValue::U16(0x1A00)),
            w(0x1C13, 0x02, SdoValue::U16(0x1A01)),
            w(0x1C13, 0x00, SdoValue::U8(2)),
        ]
    );
    let mut d = El3356::new(0, 0);
    let mut c = Config::default();
    c.nominal_value = Some(NominalValue::default());
    c.gravity = Some(Gravity { value: 0x3F80_0000 });
    d.set_config(c);
    let ws = d.setup();
    assert_eq!(ws.len(), 7);
    assert_eq!(ws[0], w(0x8000, 0x23, SdoValue::F32(0x3F80_0000)));
    assert_eq!(ws[1], w(0x8000, 0x26, SdoValue::F32(0x3F80_0000)));
}

#[test]
fn el3356_decodes_and_writes_every_tick() {
    let mut d = El3356::new(0, 0);
    // status: over range (bit 1), steady state (bit 8); raw value -2
    let input = [0b0000_0010, 0b0000_0001, 0xFE, 0xFF, 0xFF, 0xFF];
    assert!(d.last_input_pdo().is_none());
    let e = d.process_data(&input, 2).unwrap();
    assert_eq!(e.output, Some(vec![0x02, 0x00]));
    assert!(e.channels.is_empty());
    assert_eq!(
        d.last_input_pdo(),
        Some(InputPdo {
            status: StatusWord {
                over_range: true,
                data_invalid: false,
                collective_error: false,
                calibration_in_progress: false,
                steady_state: true,
                sync_error: false,
                tx_pdo: false,
            },
            raw_value: -2,
        })
    );
    let e = d.process_data(&[0, 0x80, 5, 0, 0, 0], 2).unwrap();
    assert_eq!(e.output, Some(vec![0x02, 0x00]));
    let p = d.last_input_pdo().unwrap();
    assert!(p.status.tx_pdo);
    assert!(!p.status.over_range);
    assert_eq!(p.raw_value, 5);
}

#[test]
fn el3356_length_mismatch() {
    let mut d = El3356::new(0, 0);
    assert_eq!(
        d.process_data(&[0; 5], 2).err(),
        Some(DeviceError::LengthMismatch { expected: 6, actual: 5 })
    );
    assert_eq!(
        d.process_data(&[0; 6], 3).err(),
        Some(DeviceError::LengthMismatch { expected: 2, actual: 3 })
    );
    assert!(d.last_input_pdo().is_some());
}

#[test]
fn device_layouts_are_valid() {
    use_layouts();
}

fn use_layouts() {
    use_layout(ethercat::devices::el3356::input_layout(), 6, 8);
    use_layout(ethercat::devices::el3356::control_layout(), 2, 5);
    use_layout(ethercat::devices::i550::input_layout(), 6, 3);
    use_layout(ethercat::devices::i550::output_layout(), 4, 2);
}

fn use_layout(l: ethercat::codec::Layout, bytes: usize, fields: usize) {
    assert_eq!(l.len(), bytes);
    assert_eq!(l.field_count(), fields);
    assert_eq!(l.decode(&vec![0u8; bytes]).unwrap(), vec![0u64; fields]);
}

#[test]
fn filter_codes_and_defaults() {
    assert_eq!(Filter::FIR50.code(), 0);
    assert_eq!(Filter::IIR8.code(), 9);
    assert_eq!(Filter::PDOFilterFrequency.code(), 11);
    assert_eq!(Filter::default(), Filter::FIR50);
    assert_eq!(sdo_write_value_index(&Filter::IIR2), w(0x8000, 0x11, SdoValue::U16(3)));
    let c = Config::default();
    assert_eq!(c.nominal_load, 0x40A0_0000);
    assert_eq!(c.calibration_load, 0x40A0_0000);
    assert!(c.scale_factor.is_none());
}

#[test]
fn i550_key_and_setup() {
    let d = I550::new(2, 0);
    assert_eq!(d.config_key(), "i550_slave_2_alias_0");
    let ws = d.setup();
    assert_eq!(ws.len(), 26);
    assert_eq!(ws[0], w(0x2631, 4, SdoValue::U8(1)));
    assert_eq!(ws[4], w(0x1605, 0x01, SdoValue::U32(0x6040_0010)));
    assert_eq!(ws[18], w(0x2540, 0x01, SdoValue::U8(1)));
    assert_eq!(ws[19], w(0x2B01, 1, SdoValue::U16(400)));
    assert_eq!(ws[21], w(0x6080, 0, SdoValue::U32(6075)));
    assert_eq!(ws[22], w(0x6046, 2, SdoValue::U32(6075)));
    assert_eq!(ws[25], w(0x6048, 2, SdoValue::U16(10)));
}

#[test]
fn i550_config_changes_setup() {
    let mut d = I550::new(0, 0);
    let mut c = i550::Config::default();
    c.rated_mains_voltage = RatedMainsVoltage::Veff230ReducedLuLevel;
    c.base_voltage.value = 230;
    d.set_config(c);
    let ws = d.setup();
    assert_eq!(ws[18], w(0x2540, 0x01, SdoValue::U8(10)));
    assert_eq!(ws[19], w(0x2B01, 1, SdoValue::U16(230)));
}

#[test]
fn i550_steps_drive_toward_operation() {
    let mut d = I550::new(0, 0);
    // switch on disabled
    let e = d.process_data(&[0x40, 0x00, 0x10, 0x00, 0x00, 0x00], 4).unwrap();
    assert_eq!(e.output, Some(vec![0x06, 0x00, 0xE8, 0x03]));
    // operation enabled
    let e = d.process_data(&[0x27, 0x00, 0xFF, 0xFF, 0x01, 0x00], 4).unwrap();
    assert_eq!(e.output, Some(vec![0x0F, 0x00, 0xE8, 0x03]));
    let p = d.last_input_pdo().unwrap();
    assert_eq!(p.status_word, 0x27);
    assert_eq!(p.actual_speed, -1);
    assert_eq!(p.error, 1);
    assert_eq!(
        d.process_data(&[0; 6], 2).err(),
        Some(DeviceError::LengthMismatch { expected: 4, actual: 2 })
    );
    assert_eq!(
        d.process_data(&[0; 7], 4).err(),
        Some(DeviceError::LengthMismatch { expected: 6, actual: 7 })
    );
}

#[test]
fn cia402_states_and_commands() {
    assert_eq!(parse_state(0x0000), State::NotReadyToSwitchOn);
    assert_eq!(parse_state(0x0040), State::SwitchOnDisabled);
    assert_eq!(parse_state(0x0021), State::ReadyToSwitchOn);
    assert_eq!(parse_state(0x0023), State::SwitchedOn);
    assert_eq!(parse_state(0x0027), State::OperationEnabled);
    assert_eq!(parse_state(0x0007), State::QuickStopActive);
    assert_eq!(parse_state(0x000F), State::FaultReactionActive);
    assert_eq!(parse_state(0x0008), State::Fault);
    assert_eq!(parse_state(0x0001), State::Unknown);
    assert_eq!(transition(State::ReadyToSwitchOn, TransitionAction::Run, true), 0x07);
    assert_eq!(transition(State::SwitchedOn, TransitionAction::Run, true), 0x0F);
    assert_eq!(transition(State::Fault, TransitionAction::Run, true), 0x80);
    assert_eq!(transition(State::Fault, TransitionAction::Run, false), 0x00);
    assert_eq!(transition(State::OperationEnabled, TransitionAction::Stop, true), 0x07);
}

#[test]
fn numbers_in_names() {
    assert_eq!(with_number("a", 0), "a0");
    assert_eq!(with_number("", 1234), "1234");
    assert_eq!(with_number("x_", 65535), "x_65535");
}

#[test]
fn value_defaults_are_float_bits() {
    assert_eq!(NominalValue::default().value, 1.0f32.to_bits());
    assert_eq!(Gravity::default().value, 9.80665f32.to_bits());
    assert_eq!(ZeroBalance::default().value, 0.0f32.to_bits());
    assert_eq!(ScaleFactor::default().value, 1000.0f32.to_bits());
    assert_eq!(Config::default().nominal_load, 5.0f32.to_bits());
    let c = i550::Config::default();
    assert_eq!(c.rated_mains_voltage, RatedMainsVoltage::Veff400);
    assert_eq!(c.base_frequency.value, 50);
    assert_eq!(c.min_speed.value, 0);
    assert_eq!(c.acceleration.numerator.value, 3000);
}
