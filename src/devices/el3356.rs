//! Load-cell amplifier terminal: setup, cyclic exchange and calibration.
use crate::bits::bit_at;
use crate::calibration::{CalAction, CalEvent, CalibrationError, CalibrationSession};
use crate::codec::{
    decoded, encoded, field_start, field_value, lemma_one_bit_value, push_field, Field, Layout,
};
use crate::devices::device_trait::{count_up, next_count, DeviceError, DeviceInfo, Exchange};
use crate::sdo::{sdo_write, sdo_write_value_index, write_of, Index, SdoValue, SdoWrite};
use crate::text::{decimal, with_number};
use vstd::prelude::*;

verus! {

/// Code of the strongest filter, used while calibrating.
pub const FILTER_IIR8: u16 = 9;

/// Measurement filter of the amplifier (register 0x8000:11).
#[derive(Clone, Copy, Debug, PartialEq, Eq, Structural)]
pub enum Filter {
    FIR50,
    FIR60,
    IIR1,
    IIR2,
    IIR3,
    IIR4,
    IIR5,
    IIR6,
    IIR7,
    IIR8,
    DynamicIIR,
    PDOFilterFrequency,
}

impl Filter {
    pub open spec fn code_spec(&self) -> u16 {
        match self {
            Filter::FIR50 => 0,
            Filter::FIR60 => 1,
            Filter::IIR1 => 2,
            Filter::IIR2 => 3,
            Filter::IIR3 => 4,
            Filter::IIR4 => 5,
            Filter::IIR5 => 6,
            Filter::IIR6 => 7,
            Filter::IIR7 => 8,
            Filter::IIR8 => FILTER_IIR8,
            Filter::DynamicIIR => 10,
            Filter::PDOFilterFrequency => 11,
        }
    }

    /// The register code of the filter.
    pub fn code(&self) -> (c: u16)
        ensures
            c == self.code_spec(),
    {
        match self {
            Filter::FIR50 => 0,
            Filter::FIR60 => 1,
            Filter::IIR1 => 2,
            Filter::IIR2 => 3,
            Filter::IIR3 => 4,
            Filter::IIR4 => 5,
            Filter::IIR5 => 6,
            Filter::IIR6 => 7,
            Filter::IIR7 => 8,
            Filter::IIR8 => FILTER_IIR8,
            Filter::DynamicIIR => 10,
            Filter::PDOFilterFrequency => 11,
        }
    }
}

impl Default for Filter {
    fn default() -> (f: Self)
        ensures
            f == Filter::FIR50,
    {
        Filter::FIR50
    }
}

impl Index for Filter {
    const INDEX: u16 = 0x8000;
    const SUBINDEX: u8 = 0x11;

    open spec fn spec_sdo_value(&self) -> SdoValue {
        SdoValue::U16(self.code_spec())
    }

    fn sdo_value(&self) -> (r: SdoValue) {
        SdoValue::U16(self.code())
    }
}

/// Register sets that hold which process data objects are sent.
pub const RX_PDO_ASSIGN: u16 = 0x1C12;
pub const TX_PDO_ASSIGN: u16 = 0x1C13;
/// First receive and transmit mapping objects.
pub const RX_PDO_MAPPING: u16 = 0x1600;
pub const TX_PDO_MAPPING: u16 = 0x1A00;
/// Bit pattern of the 32-bit float 1000000.0, the scale factor set at setup.
pub const SCALE_AT_SETUP: u32 = 0x4974_2400;
/// Polls allowed for one calibration acknowledgement.
pub const CALIBRATION_MAX_POLLS: u32 = 10000;

/// Nominal characteristic value of the sensor, mV/V (float bits).
#[derive(Clone, Copy, Debug, PartialEq, Eq, Structural)]
pub struct NominalValue {
    pub value: u32,
}

/// Gravity of earth, m/s^2 (float bits).
#[derive(Clone, Copy, Debug, PartialEq, Eq, Structural)]
pub struct Gravity {
    pub value: u32,
}

/// Zero balance of the sensor, mV/V (float bits).
#[derive(Clone, Copy, Debug, PartialEq, Eq, Structural)]
pub struct ZeroBalance {
    pub value: u32,
}

/// Factor that rescales the process data (float bits).
#[derive(Clone, Copy, Debug, PartialEq, Eq, Structural)]
pub struct ScaleFactor {
    pub value: u32,
}

impl Default for NominalValue {
    /// 1.0
    fn default() -> (v: Self)
        ensures
            v.value == 0x3F80_0000,
    {
        NominalValue { value: 0x3F80_0000 }
    }
}

impl Default for Gravity {
    /// 9.80665
    fn default() -> (v: Self)
        ensures
            v.value == 0x411C_E80A,
    {
        Gravity { value: 0x411C_E80A }
    }
}

impl Default for ZeroBalance {
    /// 0.0
    fn default() -> (v: Self)
        ensures
            v.value == 0,
    {
        ZeroBalance { value: 0 }
    }
}

impl Default for ScaleFactor {
    /// 1000.0
    fn default() -> (v: Self)
        ensures
            v.value == 0x447A_0000,
    {
        ScaleFactor { value: 0x447A_0000 }
    }
}

impl Index for NominalValue {
    const INDEX: u16 = 0x8000;
    const SUBINDEX: u8 = 0x23;

    open spec fn spec_sdo_value(&self) -> SdoValue {
        SdoValue::F32(self.value)
    }

    fn sdo_value(&self) -> (r: SdoValue) {
        SdoValue::F32(self.value)
    }
}

impl Index for Gravity {
    const INDEX: u16 = 0x8000;
    const SUBINDEX: u8 = 0x26;

    open spec fn spec_sdo_value(&self) -> SdoValue {
        SdoValue::F32(self.value)
    }

    fn sdo_value(&self) -> (r: SdoValue) {
        SdoValue::F32(self.value)
    }
}

impl Index for ZeroBalance {
    const INDEX: u16 = 0x8000;
    const SUBINDEX: u8 = 0x25;

    open spec fn spec_sdo_value(&self) -> SdoValue {
        SdoValue::F32(self.value)
    }

    fn sdo_value(&self) -> (r: SdoValue) {
        SdoValue::F32(self.value)
    }
}

impl Index for ScaleFactor {
    const INDEX: u16 = 0x8000;
    const SUBINDEX: u8 = 0x27;

    open spec fn spec_sdo_value(&self) -> SdoValue {
        SdoValue::F32(self.value)
    }

    fn sdo_value(&self) -> (r: SdoValue) {
        SdoValue::F32(self.value)
    }
}

/// Persisted settings of a load-cell terminal. Loads are in kg, as float
/// bits.
#[derive(Clone, Copy, Debug, PartialEq, Eq, Structural)]
pub struct Config {
    pub filter: Filter,
    pub nominal_load: u32,
    pub calibration_load: u32,
    pub nominal_value: Option<NominalValue>,
    pub gravity: Option<Gravity>,
    pub zero_balance: Option<ZeroBalance>,
    pub scale_factor: Option<ScaleFactor>,
}

/// The weakest filter, 5.0 kg for both loads, and the terminal's own
/// sensor values.
pub open spec fn default_config() -> Config {
    Config {
        filter: Filter::FIR50,
        nominal_load: 0x40A0_0000,
        calibration_load: 0x40A0_0000,
        nominal_value: None,
        gravity: None,
        zero_balance: None,
        scale_factor: None,
    }
}

impl Default for Config {
    fn default() -> (c: Self)
        ensures
            c == default_config(),
    {
        Config {
            filter: Filter::FIR50,
            nominal_load: 0x40A0_0000,
            calibration_load: 0x40A0_0000,
            nominal_value: None,
            gravity: None,
            zero_balance: None,
            scale_factor: None,
        }
    }
}

/// Status word of the amplifier.
#[derive(Clone, Copy, Debug, PartialEq, Eq, Structural)]
pub struct StatusWord {
    pub over_range: bool,
    pub data_invalid: bool,
    pub collective_error: bool,
    pub calibration_in_progress: bool,
    /// The load stayed within a band for a set time.
    pub steady_state: bool,
    pub sync_error: bool,
    /// Toggles with each updated data set.
    pub tx_pdo: bool,
}

/// The terminal's input process data.
#[derive(Clone, Copy, Debug, PartialEq, Eq, Structural)]
pub struct InputPdo {
    pub status: StatusWord,
    pub raw_value: i32,
}

/// The input process data that a six-byte input frame carries.
pub open spec fn input_pdo_of(bytes: Seq<u8>) -> InputPdo {
    InputPdo {
        status: StatusWord {
            over_range: bit_at(bytes, 1),
            data_invalid: bit_at(bytes, 3),
            collective_error: bit_at(bytes, 6),
            calibration_in_progress: bit_at(bytes, 7),
            steady_state: bit_at(bytes, 8),
            sync_error: bit_at(bytes, 13),
            tx_pdo: bit_at(bytes, 15),
        },
        raw_value: field_value(bytes, 16, 32) as u32 as i32,
    }
}

/// Fields of the input frame: the status word's flags, then the raw value.
pub open spec fn input_fields() -> Seq<Field> {
    seq![
        Field { bits: 1, pre_skip: 1, post_skip: 0 },
        Field { bits: 1, pre_skip: 1, post_skip: 0 },
        Field { bits: 1, pre_skip: 2, post_skip: 0 },
        Field { bits: 1, pre_skip: 0, post_skip: 0 },
        Field { bits: 1, pre_skip: 0, post_skip: 0 },
        Field { bits: 1, pre_skip: 4, post_skip: 0 },
        Field { bits: 1, pre_skip: 1, post_skip: 0 },
        Field { bits: 32, pre_skip: 0, post_skip: 0 },
    ]
}

/// Fields of the output frame, the control word: start calibration,
/// disable calibration, input freeze, sample mode, tare.
pub open spec fn control_fields() -> Seq<Field> {
    seq![
        Field { bits: 1, pre_skip: 0, post_skip: 0 },
        Field { bits: 1, pre_skip: 0, post_skip: 0 },
        Field { bits: 1, pre_skip: 0, post_skip: 0 },
        Field { bits: 1, pre_skip: 0, post_skip: 0 },
        Field { bits: 1, pre_skip: 0, post_skip: 11 },
    ]
}

/// The control word written during operation: periodic self-calibration
/// disabled, everything else off.
pub open spec fn operating_control() -> Seq<u64> {
    seq![0u64, 1, 0, 0, 0]
}

/// The input frame layout, six bytes: status word flags and raw value.
pub fn input_layout() -> (l: Layout)
    ensures
        crate::codec::valid_layout(input_fields(), 6),
        l.fields() == input_fields(),
        l.byte_len() == 6,
        field_start(l.fields(), 0) == 1,
        field_start(l.fields(), 1) == 3,
        field_start(l.fields(), 2) == 6,
        field_start(l.fields(), 3) == 7,
        field_start(l.fields(), 4) == 8,
        field_start(l.fields(), 5) == 13,
        field_start(l.fields(), 6) == 15,
        field_start(l.fields(), 7) == 16,
{
    let mut f: Vec<Field> = Vec::new();
    push_field(&mut f, Field { bits: 1, pre_skip: 1, post_skip: 0 });
    push_field(&mut f, Field { bits: 1, pre_skip: 1, post_skip: 0 });
    push_field(&mut f, Field { bits: 1, pre_skip: 2, post_skip: 0 });
    push_field(&mut f, Field { bits: 1, pre_skip: 0, post_skip: 0 });
    push_field(&mut f, Field { bits: 1, pre_skip: 0, post_skip: 0 });
    push_field(&mut f, Field { bits: 1, pre_skip: 4, post_skip: 0 });
    push_field(&mut f, Field { bits: 1, pre_skip: 1, post_skip: 0 });
    push_field(&mut f, Field { bits: 32, pre_skip: 0, post_skip: 0 });
    assert(f@ =~= input_fields());
    Layout::new(f, 6).unwrap()
}

/// The output frame layout, two bytes: the control word.
pub fn control_layout() -> (l: Layout)
    ensures
        crate::codec::valid_layout(control_fields(), 2),
        l.fields() == control_fields(),
        l.byte_len() == 2,
{
    let mut f: Vec<Field> = Vec::new();
    push_field(&mut f, Field { bits: 1, pre_skip: 0, post_skip: 0 });
    push_field(&mut f, Field { bits: 1, pre_skip: 0, post_skip: 0 });
    push_field(&mut f, Field { bits: 1, pre_skip: 0, post_skip: 0 });
    push_field(&mut f, Field { bits: 1, pre_skip: 0, post_skip: 0 });
    push_field(&mut f, Field { bits: 1, pre_skip: 0, post_skip: 11 });
    assert(f@ =~= control_fields());
    Layout::new(f, 2).unwrap()
}

/// The write of an optional value to its register, if it is set.
pub open spec fn optional_write<T: Index>(v: Option<T>) -> Seq<SdoWrite> {
    match v {
        Some(x) => seq![write_of(T::INDEX, T::SUBINDEX, x.spec_sdo_value())],
        None => seq![],
    }
}

/// The writes that set a load-cell terminal up: the sensor values that
/// the settings hold, the scale factor, and the transmit assignment of the
/// status mapping and the integer value mapping.
pub open spec fn setup_writes(c: Config) -> Seq<SdoWrite> {
    optional_write(c.nominal_value) + optional_write(c.gravity) + optional_write(c.zero_balance)
        + seq![
        write_of(0x8000, 0x27, SdoValue::F32(SCALE_AT_SETUP)),
        write_of(TX_PDO_ASSIGN, 0x00, SdoValue::U8(0)),
        write_of(TX_PDO_ASSIGN, 0x01, SdoValue::U16(0x1A00)),
        write_of(TX_PDO_ASSIGN, 0x02, SdoValue::U16(0x1A01)),
        write_of(TX_PDO_ASSIGN, 0x00, SdoValue::U8(0x02)),
    ]
}

/// The configuration key of a load-cell terminal: by alias address when it
/// has one, else by position on the bus.
pub open spec fn el3356_key(slave_number: u16, alias_address: u16) -> Seq<char> {
    if alias_address != 0 {
        "el3356_alias_"@ + decimal(alias_address as nat)
    } else {
        "el3356_"@ + decimal(slave_number as nat)
    }
}

/// The error of one exchange with frames of these lengths, if any.
pub open spec fn exchange_error(input_len: nat, output_len: usize) -> Option<DeviceError> {
    if input_len != 6 {
        Some(DeviceError::LengthMismatch { expected: 6, actual: input_len as usize })
    } else if output_len != 2 {
        Some(DeviceError::LengthMismatch { expected: 2, actual: output_len })
    } else {
        None
    }
}

/// One exchange of a load-cell driver, from `o` to `n` with outcome `r`:
/// the counter moves on, a six-byte input frame is decoded and kept, and
/// unless a frame has the wrong length the operating control word is
/// written.
pub open spec fn exchanged(
    o: El3356,
    input: Seq<u8>,
    output_len: usize,
    n: El3356,
    r: Result<Exchange, DeviceError>,
) -> bool {
    &&& n.wf()
    &&& n.count() == next_count(o.count())
    &&& n.settings() == o.settings()
    &&& n.key() == o.key()
    &&& n.session() == o.session()
    &&& n.last_input() == if input.len() == 6 {
        Some(input_pdo_of(input))
    } else {
        o.last_input()
    }
    &&& match exchange_error(input.len(), output_len) {
        Some(e) => r == Err::<Exchange, DeviceError>(e),
        None => r matches Ok(x) && x.channels@.len() == 0 && (x.output matches Some(out)
            && encoded(control_fields(), operating_control(), out@, 2)),
    }
}

/// Load-cell amplifier terminal.
pub struct El3356 {
    cnt: u64,
    config: Config,
    log_key: String,
    snapshot: Option<InputPdo>,
    calibration: CalibrationSession,
}

impl El3356 {
    pub closed spec fn count(&self) -> u64 {
        self.cnt
    }

    pub closed spec fn settings(&self) -> Config {
        self.config
    }

    pub closed spec fn key(&self) -> Seq<char> {
        self.log_key@
    }

    pub closed spec fn last_input(&self) -> Option<InputPdo> {
        self.snapshot
    }

    pub closed spec fn session(&self) -> CalibrationSession {
        self.calibration
    }

    pub open spec fn wf(&self) -> bool {
        self.session().wf()
    }

    /// A driver for the terminal at position `slave_number`, with default
    /// settings.
    pub fn new(slave_number: u16, alias_address: u16) -> (d: Self)
        ensures
            d.wf(),
            d.count() == 0,
            d.key() == el3356_key(slave_number, alias_address),
            d.settings() == default_config(),
            d.last_input() is None,
            d.session()@.phase == crate::calibration::Phase::Idle,
            !d.session()@.zero_done,
    {
        proof {
            reveal_strlit("el3356_alias_");
            reveal_strlit("el3356_");
        }
        let log_key = if alias_address != 0 {
            with_number("el3356_alias_", alias_address)
        } else {
            with_number("el3356_", slave_number)
        };
        El3356 {
            cnt: 0,
            config: Config::default(),
            log_key,
            snapshot: None,
            calibration: CalibrationSession::new(CALIBRATION_MAX_POLLS),
        }
    }

    /// The key under which the terminal's settings are stored.
    pub fn config_key(&self) -> (k: &str)
        ensures
            k@ == self.key(),
    {
        self.log_key.as_str()
    }

    pub fn config(&self) -> (c: Config)
        ensures
            c == self.settings(),
    {
        self.config
    }

    /// Replaces the settings with those read from the store.
    pub fn set_config(&mut self, config: Config)
        requires
            old(self).wf(),
        ensures
            final(self).wf(),
            final(self).settings() == config,
            final(self).count() == old(self).count(),
            final(self).key() == old(self).key(),
            final(self).last_input() == old(self).last_input(),
            final(self).session() == old(self).session(),
    {
        self.config = config;
    }

    /// The input last decoded, if any.
    pub fn last_input_pdo(&self) -> (p: Option<InputPdo>)
        ensures
            p == self.last_input(),
    {
        self.snapshot
    }

    /// The register writes that set the terminal up.
    pub fn setup(&self) -> (w: Vec<SdoWrite>)
        ensures
            w@ == setup_writes(self.settings()),
    {
        let mut w: Vec<SdoWrite> = Vec::new();
        let ghost c = self.config;
        if let Some(v) = self.config.nominal_value {
            w.push(sdo_write_value_index(&v));
        }
        assert(w@ =~= optional_write(c.nominal_value));
        if let Some(v) = self.config.gravity {
            w.push(sdo_write_value_index(&v));
        }
        assert(w@ =~= optional_write(c.nominal_value) + optional_write(c.gravity));
        if let Some(v) = self.config.zero_balance {
            w.push(sdo_write_value_index(&v));
        }
        let ghost opt = w@;
        assert(opt =~= optional_write(c.nominal_value) + optional_write(c.gravity)
            + optional_write(c.zero_balance));
        w.push(sdo_write(0x8000, 0x27, SdoValue::F32(SCALE_AT_SETUP)));
        w.push(sdo_write(TX_PDO_ASSIGN, 0x00, SdoValue::U8(0)));
        w.push(sdo_write(TX_PDO_ASSIGN, 0x01, SdoValue::U16(0x1A00)));
        w.push(sdo_write(TX_PDO_ASSIGN, 0x02, SdoValue::U16(0x1A01)));
        w.push(sdo_write(TX_PDO_ASSIGN, 0x00, SdoValue::U8(0x02)));
        assert(w@ =~= setup_writes(c));
        w
    }

    /// One cyclic exchange: the input frame is decoded and kept, and the
    /// operating control word is written.
    pub fn process_data(&mut self, input: &[u8], output_len: usize) -> (r: Result<
        Exchange,
        DeviceError,
    >)
        requires
            old(self).wf(),
        ensures
            exchanged(*old(self), input@, output_len, *final(self), r),
    {
        self.cnt = count_up(self.cnt);
        let il = input_layout();
        let vals = match il.decode(input) {
            Ok(v) => v,
            Err(_) => {
                return Err(DeviceError::LengthMismatch { expected: 6, actual: input.len() });
            },
        };
        proof {
            assert(decoded(input_fields(), input@, vals@));
            assert(vals@[0] as nat == field_value(input@, field_start(input_fields(), 0) as int, 1));
            lemma_one_bit_value(input@, 1);
            assert(vals@[1] as nat == field_value(input@, field_start(input_fields(), 1) as int, 1));
            lemma_one_bit_value(input@, 3);
            assert(vals@[2] as nat == field_value(input@, field_start(input_fields(), 2) as int, 1));
            lemma_one_bit_value(input@, 6);
            assert(vals@[3] as nat == field_value(input@, field_start(input_fields(), 3) as int, 1));
            lemma_one_bit_value(input@, 7);
            assert(vals@[4] as nat == field_value(input@, field_start(input_fields(), 4) as int, 1));
            lemma_one_bit_value(input@, 8);
            assert(vals@[5] as nat == field_value(input@, field_start(input_fields(), 5) as int, 1));
            lemma_one_bit_value(input@, 13);
            assert(vals@[6] as nat == field_value(input@, field_start(input_fields(), 6) as int, 1));
            lemma_one_bit_value(input@, 15);
            assert(input_fields()[7].bits == 32);
            assert(vals@[7] as nat == field_value(input@, 16, 32));
        }
        let pdo = InputPdo {
            status: StatusWord {
                over_range: vals[0] != 0,
                data_invalid: vals[1] != 0,
                collective_error: vals[2] != 0,
                calibration_in_progress: vals[3] != 0,
                steady_state: vals[4] != 0,
                sync_error: vals[5] != 0,
                tx_pdo: vals[6] != 0,
            },
            raw_value: #[verifier::truncate] (vals[7] as u32) as i32,
        };
        self.snapshot = Some(pdo);
        if output_len != 2 {
            return Err(DeviceError::LengthMismatch { expected: 2, actual: output_len });
        }
        let cl = control_layout();
        let control: [u64; 5] = [0, 1, 0, 0, 0];
        proof {
            vstd::arithmetic::power2::lemma2_to64();
            assert(control@ =~= operating_control());
        }
        match cl.encode(control.as_slice()) {
            Ok(o) => Ok(Exchange { output: Some(o), channels: Vec::new() }),
            Err(_) => Err(DeviceError::LengthMismatch { expected: 2, actual: output_len }),
        }
    }

    /// Starts a zero balance with the nominal load of the settings.
    pub fn zero_calibrate(&mut self) -> (r: Result<CalAction, CalibrationError>)
        requires
            old(self).wf(),
        ensures
            final(self).wf(),
            final(self).settings() == old(self).settings(),
            final(self).count() == old(self).count(),
            old(self).session()@.phase != crate::calibration::Phase::Idle ==> r == Err::<
                CalAction,
                CalibrationError,
            >(CalibrationError::Busy),
            old(self).session()@.phase == crate::calibration::Phase::Idle ==> r == Ok::<
                CalAction,
                CalibrationError,
            >(
                crate::calibration::action_for(
                    crate::calibration::zero_balance_steps(old(self).settings().nominal_load)[0],
                ),
            ),
            old(self).session()@.phase == crate::calibration::Phase::Idle ==> final(self).session()@
                == crate::calibration::at_step(
                crate::calibration::Phase::ZeroBalance,
                crate::calibration::zero_balance_steps(old(self).settings().nominal_load),
                0,
                old(self).session()@.max_polls,
                false,
            ),
    {
        let load = self.config.nominal_load;
        self.calibration.start_zero_balance(load)
    }

    /// Starts a span calibration with the calibration load and the filter
    /// of the settings. Refused unless a zero balance succeeded earlier in
    /// the session.
    pub fn calibrate(&mut self) -> (r: Result<CalAction, CalibrationError>)
        requires
            old(self).wf(),
        ensures
            final(self).wf(),
            final(self).settings() == old(self).settings(),
            final(self).count() == old(self).count(),
            old(self).session()@.phase != crate::calibration::Phase::Idle ==> r == Err::<
                CalAction,
                CalibrationError,
            >(CalibrationError::Busy),
            old(self).session()@.phase == crate::calibration::Phase::Idle
                && !old(self).session()@.zero_done ==> r == Err::<CalAction, CalibrationError>(
                CalibrationError::SpanWithoutZeroBalance,
            ),
            old(self).session()@.phase == crate::calibration::Phase::Idle
                && old(self).session()@.zero_done ==> r == Ok::<CalAction, CalibrationError>(
                crate::calibration::action_for(
                    crate::calibration::span_steps(
                        old(self).settings().calibration_load,
                        old(self).settings().filter,
                    )[0],
                ),
            ),
            old(self).session()@.phase == crate::calibration::Phase::Idle
                && old(self).session()@.zero_done ==> final(self).session()@
                == crate::calibration::at_step(
                crate::calibration::Phase::SpanCalibration,
                crate::calibration::span_steps(
                    old(self).settings().calibration_load,
                    old(self).settings().filter,
                ),
                0,
                old(self).session()@.max_polls,
                true,
            ),
    {
        let load = self.config.calibration_load;
        let filter = self.config.filter;
        self.calibration.start_span(load, filter)
    }

    /// Sets the number of polls that a calibration acknowledgement may
    /// take. Refused while a phase runs.
    pub fn set_calibration_max_polls(&mut self, max_polls: u32) -> (r: Result<
        (),
        CalibrationError,
    >)
        requires
            old(self).wf(),
        ensures
            final(self).wf(),
            final(self).settings() == old(self).settings(),
            final(self).count() == old(self).count(),
            old(self).session()@.phase != crate::calibration::Phase::Idle ==> r == Err::<
                (),
                CalibrationError,
            >(CalibrationError::Busy) && final(self).session()@ == old(self).session()@,
            old(self).session()@.phase == crate::calibration::Phase::Idle ==> r is Ok && final(self).session()@ == crate::calibration::idle_view(
                max_polls as nat,
                old(self).session()@.zero_done,
            ),
    {
        self.calibration.set_max_polls(max_polls)
    }

    /// Ends the calibration session: a running phase is abandoned and a
    /// new zero balance is needed before a span calibration.
    pub fn reset_calibration(&mut self)
        requires
            old(self).wf(),
        ensures
            final(self).wf(),
            final(self).settings() == old(self).settings(),
            final(self).count() == old(self).count(),
            final(self).session()@ == crate::calibration::idle_view(
                old(self).session()@.max_polls,
                false,
            ),
    {
        self.calibration.reset()
    }

    /// Hands the outcome of the last calibration action to the session and
    /// returns the next action.
    pub fn calibration_event(&mut self, ev: CalEvent) -> (r: CalAction)
        requires
            old(self).wf(),
        ensures
            final(self).wf(),
            crate::calibration::stepped(old(self).session()@, final(self).session()@, ev, r),
            final(self).settings() == old(self).settings(),
            final(self).count() == old(self).count(),
    {
        self.calibration.on_event(ev)
    }
}

/// Identity of the load-cell terminal.
pub const EL3356_VENDOR_ID: u32 = 0x2;
pub const EL3356_PRODUCT_ID: u32 = 0x0d1c3052;

impl DeviceInfo for El3356 {
    const VENDOR_ID: u32 = EL3356_VENDOR_ID;
    const PRODUCT_ID: u32 = EL3356_PRODUCT_ID;
    const NAME: &'static str = "El3356";
}

} // verus!
