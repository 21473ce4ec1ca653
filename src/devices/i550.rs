//! Drive inverter: register setup of its process data and motor data, and
//! a cyclic exchange that steers the drive toward operation.
use crate::codec::{decoded, encoded, field_start, field_value, push_field, Field, Layout};
use crate::devices::cia402::{control_for, parse_state, state_of, transition, TransitionAction};
use crate::devices::device_trait::{count_up, next_count, DeviceError, DeviceInfo, Exchange};
use crate::sdo::{sdo_write, sdo_write_value_index, write_of, Index, SdoValue, SdoWrite};
use crate::text::{decimal, with_number};
use vstd::prelude::*;
use vstd::string::StringExecFns;

verus! {

pub const RX_PDO_ASSIGN: u16 = 0x1C12;
pub const TX_PDO_ASSIGN: u16 = 0x1C13;
pub const RX_PDO_MAPPING: u16 = 0x1605;
pub const TX_PDO_MAPPING: u16 = 0x1A05;
pub const BASIC_MOTOR_CONTROL: u16 = 0x2631;
/// Speed set point sent every tick.
pub const SPEED_SET_POINT: i16 = 1000;

/// Rated mains voltage of the inverter.
#[derive(Clone, Copy, Debug, PartialEq, Eq, Structural)]
pub enum RatedMainsVoltage {
    Veff230,
    Veff400,
    Veff480,
    Veff120,
    Veff230ReducedLuLevel,
}

impl RatedMainsVoltage {
    pub open spec fn code_spec(&self) -> u8 {
        match self {
            RatedMainsVoltage::Veff230 => 0,
            RatedMainsVoltage::Veff400 => 1,
            RatedMainsVoltage::Veff480 => 2,
            RatedMainsVoltage::Veff120 => 3,
            RatedMainsVoltage::Veff230ReducedLuLevel => 10,
        }
    }

    /// The register code of the voltage.
    pub fn code(&self) -> (c: u8)
        ensures
            c == self.code_spec(),
    {
        match self {
            RatedMainsVoltage::Veff230 => 0,
            RatedMainsVoltage::Veff400 => 1,
            RatedMainsVoltage::Veff480 => 2,
            RatedMainsVoltage::Veff120 => 3,
            RatedMainsVoltage::Veff230ReducedLuLevel => 10,
        }
    }
}

impl Default for RatedMainsVoltage {
    fn default() -> (v: Self)
        ensures
            v == RatedMainsVoltage::Veff400,
    {
        RatedMainsVoltage::Veff400
    }
}

impl Index for RatedMainsVoltage {
    const INDEX: u16 = 0x2540;
    const SUBINDEX: u8 = 0x01;

    open spec fn spec_sdo_value(&self) -> SdoValue {
        SdoValue::U8(self.code_spec())
    }

    fn sdo_value(&self) -> (r: SdoValue) {
        SdoValue::U8(self.code())
    }
}

/// Base voltage in volts.
#[derive(Clone, Copy, Debug, PartialEq, Eq, Structural)]
pub struct BaseVoltage {
    pub value: u16,
}

/// Base frequency in hertz.
#[derive(Clone, Copy, Debug, PartialEq, Eq, Structural)]
pub struct BaseFrequency {
    pub value: u16,
}

/// Maximum speed in rpm.
#[derive(Clone, Copy, Debug, PartialEq, Eq, Structural)]
pub struct MaxSpeed {
    pub value: u32,
}

/// Minimum speed in rpm.
#[derive(Clone, Copy, Debug, PartialEq, Eq, Structural)]
pub struct MinSpeed {
    pub value: u32,
}

/// Acceleration numerator in rpm.
#[derive(Clone, Copy, Debug, PartialEq, Eq, Structural)]
pub struct AccelerationNumerator {
    pub value: u32,
}

/// Acceleration denominator in seconds.
#[derive(Clone, Copy, Debug, PartialEq, Eq, Structural)]
pub struct AccelerationDenominator {
    pub value: u16,
}

impl Default for BaseVoltage {
    fn default() -> (v: Self)
        ensures
            v.value == 400,
    {
        BaseVoltage { value: 400 }
    }
}

impl Default for BaseFrequency {
    fn default() -> (v: Self)
        ensures
            v.value == 50,
    {
        BaseFrequency { value: 50 }
    }
}

impl Default for MaxSpeed {
    fn default() -> (v: Self)
        ensures
            v.value == 6075,
    {
        MaxSpeed { value: 6075 }
    }
}

impl Default for MinSpeed {
    fn default() -> (v: Self)
        ensures
            v.value == 0,
    {
        MinSpeed { value: 0 }
    }
}

impl Default for AccelerationNumerator {
    fn default() -> (v: Self)
        ensures
            v.value == 3000,
    {
        AccelerationNumerator { value: 3000 }
    }
}

impl Default for AccelerationDenominator {
    fn default() -> (v: Self)
        ensures
            v.value == 10,
    {
        AccelerationDenominator { value: 10 }
    }
}

impl Index for BaseVoltage {
    const INDEX: u16 = 0x2B01;
    const SUBINDEX: u8 = 1;

    open spec fn spec_sdo_value(&self) -> SdoValue {
        SdoValue::U16(self.value)
    }

    fn sdo_value(&self) -> (r: SdoValue) {
        SdoValue::U16(self.value)
    }
}

impl Index for BaseFrequency {
    const INDEX: u16 = 0x2B01;
    const SUBINDEX: u8 = 2;

    open spec fn spec_sdo_value(&self) -> SdoValue {
        SdoValue::U16(self.value)
    }

    fn sdo_value(&self) -> (r: SdoValue) {
        SdoValue::U16(self.value)
    }
}

impl Index for MaxSpeed {
    const INDEX: u16 = 0x6080;
    const SUBINDEX: u8 = 0;

    open spec fn spec_sdo_value(&self) -> SdoValue {
        SdoValue::U32(self.value)
    }

    fn sdo_value(&self) -> (r: SdoValue) {
        SdoValue::U32(self.value)
    }
}

impl Index for MinSpeed {
    const INDEX: u16 = 0x6046;
    const SUBINDEX: u8 = 1;

    open spec fn spec_sdo_value(&self) -> SdoValue {
        SdoValue::U32(self.value)
    }

    fn sdo_value(&self) -> (r: SdoValue) {
        SdoValue::U32(self.value)
    }
}

impl Index for AccelerationNumerator {
    const INDEX: u16 = 0x6048;
    const SUBINDEX: u8 = 1;

    open spec fn spec_sdo_value(&self) -> SdoValue {
        SdoValue::U32(self.value)
    }

    fn sdo_value(&self) -> (r: SdoValue) {
        SdoValue::U32(self.value)
    }
}

impl Index for AccelerationDenominator {
    const INDEX: u16 = 0x6048;
    const SUBINDEX: u8 = 2;

    open spec fn spec_sdo_value(&self) -> SdoValue {
        SdoValue::U16(self.value)
    }

    fn sdo_value(&self) -> (r: SdoValue) {
        SdoValue::U16(self.value)
    }
}

#[derive(Clone, Copy, Debug, PartialEq, Eq, Structural)]
pub struct Acceleration {
    pub numerator: AccelerationNumerator,
    pub denominator: AccelerationDenominator,
}

/// Persisted motor data of a drive inverter.
#[derive(Clone, Copy, Debug, PartialEq, Eq, Structural)]
pub struct Config {
    pub rated_mains_voltage: RatedMainsVoltage,
    pub base_voltage: BaseVoltage,
    pub base_frequency: BaseFrequency,
    pub max_speed: MaxSpeed,
    pub min_speed: MinSpeed,
    pub acceleration: Acceleration,
}

/// 400 V mains and base voltage, 50 Hz, 0 to 6075 rpm, 3000 rpm per 10 s.
pub open spec fn default_config() -> Config {
    Config {
        rated_mains_voltage: RatedMainsVoltage::Veff400,
        base_voltage: BaseVoltage { value: 400 },
        base_frequency: BaseFrequency { value: 50 },
        max_speed: MaxSpeed { value: 6075 },
        min_speed: MinSpeed { value: 0 },
        acceleration: Acceleration {
            numerator: AccelerationNumerator { value: 3000 },
            denominator: AccelerationDenominator { value: 10 },
        },
    }
}

impl Default for Config {
    fn default() -> (c: Self)
        ensures
            c == default_config(),
    {
        Config {
            rated_mains_voltage: RatedMainsVoltage::default(),
            base_voltage: BaseVoltage::default(),
            base_frequency: BaseFrequency::default(),
            max_speed: MaxSpeed::default(),
            min_speed: MinSpeed::default(),
            acceleration: Acceleration {
                numerator: AccelerationNumerator::default(),
                denominator: AccelerationDenominator::default(),
            },
        }
    }
}

/// The register writes that set a drive inverter up: reset its fault,
/// map control word and set speed as outputs and status word, actual speed
/// and error as inputs, assign both mappings, select velocity mode, enable
/// the inverter, and write the motor data.
pub open spec fn setup_writes(c: Config) -> Seq<SdoWrite> {
    seq![
        write_of(BASIC_MOTOR_CONTROL, 4, SdoValue::U8(1)),
        write_of(RX_PDO_ASSIGN, 0x00, SdoValue::U8(0)),
        write_of(TX_PDO_ASSIGN, 0x00, SdoValue::U8(0)),
        write_of(RX_PDO_MAPPING, 0x00, SdoValue::U8(0)),
        write_of(RX_PDO_MAPPING, 0x01, SdoValue::U32(0x6040_0010)),
        write_of(RX_PDO_MAPPING, 0x02, SdoValue::U32(0x6042_0010)),
        write_of(RX_PDO_MAPPING, 0x00, SdoValue::U8(2)),
        write_of(TX_PDO_MAPPING, 0x00, SdoValue::U8(0)),
        write_of(TX_PDO_MAPPING, 0x01, SdoValue::U32(0x6041_0010)),
        write_of(TX_PDO_MAPPING, 0x02, SdoValue::U32(0x6044_0010)),
        write_of(TX_PDO_MAPPING, 0x03, SdoValue::U32(0x603F_0010)),
        write_of(TX_PDO_MAPPING, 0x00, SdoValue::U8(3)),
        write_of(RX_PDO_ASSIGN, 0x01, SdoValue::U16(RX_PDO_MAPPING)),
        write_of(RX_PDO_ASSIGN, 0x00, SdoValue::U8(1)),
        write_of(TX_PDO_ASSIGN, 0x01, SdoValue::U16(TX_PDO_MAPPING)),
        write_of(TX_PDO_ASSIGN, 0x00, SdoValue::U8(1)),
        write_of(0x6060, 0, SdoValue::U8(2)),
        write_of(BASIC_MOTOR_CONTROL, 0x01, SdoValue::U8(1)),
        write_of(0x2540, 0x01, SdoValue::U8(c.rated_mains_voltage.code_spec())),
        write_of(0x2B01, 1, SdoValue::U16(c.base_voltage.value)),
        write_of(0x2B01, 2, SdoValue::U16(c.base_frequency.value)),
        write_of(0x6080, 0, SdoValue::U32(c.max_speed.value)),
        write_of(0x6046, 2, SdoValue::U32(c.max_speed.value)),
        write_of(0x6046, 1, SdoValue::U32(c.min_speed.value)),
        write_of(0x6048, 1, SdoValue::U32(c.acceleration.numerator.value)),
        write_of(0x6048, 2, SdoValue::U16(c.acceleration.denominator.value)),
    ]
}

/// Fields of the input frame: status word, actual speed, error.
pub open spec fn input_fields() -> Seq<Field> {
    seq![
        Field { bits: 16, pre_skip: 0, post_skip: 0 },
        Field { bits: 16, pre_skip: 0, post_skip: 0 },
        Field { bits: 16, pre_skip: 0, post_skip: 0 },
    ]
}

/// Fields of the output frame: control word, set speed.
pub open spec fn output_fields() -> Seq<Field> {
    seq![Field { bits: 16, pre_skip: 0, post_skip: 0 }, Field { bits: 16, pre_skip: 0, post_skip: 0 }]
}

/// The input process data of the drive.
#[derive(Clone, Copy, Debug, PartialEq, Eq, Structural)]
pub struct InputPdo {
    pub status_word: u16,
    pub actual_speed: i16,
    pub error: i16,
}

pub open spec fn input_pdo_of(bytes: Seq<u8>) -> InputPdo {
    InputPdo {
        status_word: field_value(bytes, 0, 16) as u16,
        actual_speed: field_value(bytes, 16, 16) as u16 as i16,
        error: field_value(bytes, 32, 16) as u16 as i16,
    }
}

/// The output values for an input frame: the control word that steps the
/// drive toward operation, resetting a fault, and the speed set point.
pub open spec fn output_values(input: Seq<u8>) -> Seq<u64> {
    seq![
        control_for(state_of(input_pdo_of(input).status_word), TransitionAction::Run, true) as u64,
        SPEED_SET_POINT as u16 as u64,
    ]
}

/// The input frame layout, six bytes: status word, actual speed, error.
pub fn input_layout() -> (l: Layout)
    ensures
        crate::codec::valid_layout(input_fields(), 6),
        l.fields() == input_fields(),
        l.byte_len() == 6,
        field_start(l.fields(), 0) == 0,
        field_start(l.fields(), 1) == 16,
        field_start(l.fields(), 2) == 32,
{
    let mut f: Vec<Field> = Vec::new();
    push_field(&mut f, Field { bits: 16, pre_skip: 0, post_skip: 0 });
    push_field(&mut f, Field { bits: 16, pre_skip: 0, post_skip: 0 });
    push_field(&mut f, Field { bits: 16, pre_skip: 0, post_skip: 0 });
    assert(f@ =~= input_fields());
    Layout::new(f, 6).unwrap()
}

/// The output frame layout, four bytes: control word and set speed.
pub fn output_layout() -> (l: Layout)
    ensures
        crate::codec::valid_layout(output_fields(), 4),
        l.fields() == output_fields(),
        l.byte_len() == 4,
{
    let mut f: Vec<Field> = Vec::new();
    push_field(&mut f, Field { bits: 16, pre_skip: 0, post_skip: 0 });
    push_field(&mut f, Field { bits: 16, pre_skip: 0, post_skip: 0 });
    assert(f@ =~= output_fields());
    Layout::new(f, 4).unwrap()
}

/// The configuration key of a drive inverter.
pub open spec fn i550_key(slave_number: u16, alias_address: u16) -> Seq<char> {
    "i550_slave_"@ + decimal(slave_number as nat) + "_alias_"@ + decimal(alias_address as nat)
}

/// The error of one exchange with frames of these lengths, if any.
pub open spec fn exchange_error(input_len: nat, output_len: usize) -> Option<DeviceError> {
    if output_len != 4 {
        Some(DeviceError::LengthMismatch { expected: 4, actual: output_len })
    } else if input_len != 6 {
        Some(DeviceError::LengthMismatch { expected: 6, actual: input_len as usize })
    } else {
        None
    }
}

/// One exchange of a drive driver, from `o` to `n` with outcome `r`: with
/// frames of the right lengths the input is decoded and kept, the counter
/// moves on, and the control word and set speed are written; otherwise
/// nothing changes.
pub open spec fn exchanged(
    o: I550,
    input: Seq<u8>,
    output_len: usize,
    n: I550,
    r: Result<Exchange, DeviceError>,
) -> bool {
    &&& n.settings() == o.settings()
    &&& n.key_spec() == o.key_spec()
    &&& match exchange_error(input.len(), output_len) {
        Some(e) => {
            &&& r == Err::<Exchange, DeviceError>(e)
            &&& n.count() == o.count()
            &&& n.last_input() == o.last_input()
        },
        None => {
            &&& n.count() == next_count(o.count())
            &&& n.last_input() == Some(input_pdo_of(input))
            &&& r matches Ok(x) && x.channels@.len() == 0 && (x.output matches Some(out)
                && encoded(output_fields(), output_values(input), out@, 4))
        },
    }
}

/// Drive inverter.
pub struct I550 {
    cnt: u64,
    config: Config,
    key: String,
    snapshot: Option<InputPdo>,
}

impl I550 {
    pub closed spec fn count(&self) -> u64 {
        self.cnt
    }

    pub closed spec fn settings(&self) -> Config {
        self.config
    }

    pub closed spec fn key_spec(&self) -> Seq<char> {
        self.key@
    }

    pub closed spec fn last_input(&self) -> Option<InputPdo> {
        self.snapshot
    }

    /// A driver for the drive at `slave_number`, with default motor data.
    pub fn new(slave_number: u16, alias_address: u16) -> (d: Self)
        ensures
            d.count() == 0,
            d.settings() == default_config(),
            d.key_spec() == i550_key(slave_number, alias_address),
            d.last_input() is None,
    {
        let mut key = with_number("i550_slave_", slave_number);
        let a = with_number("_alias_", alias_address);
        key.append(a.as_str());
        proof {
            reveal_strlit("i550_slave_");
            reveal_strlit("_alias_");
            assert(key@ =~= i550_key(slave_number, alias_address));
        }
        I550 { cnt: 0, config: Config::default(), key, snapshot: None }
    }

    /// The key under which the drive's motor data are stored.
    pub fn config_key(&self) -> (k: &str)
        ensures
            k@ == self.key_spec(),
    {
        self.key.as_str()
    }

    pub fn config(&self) -> (c: Config)
        ensures
            c == self.settings(),
    {
        self.config
    }

    /// Replaces the motor data with those read from the store.
    pub fn set_config(&mut self, config: Config)
        ensures
            final(self).settings() == config,
            final(self).count() == old(self).count(),
            final(self).key_spec() == old(self).key_spec(),
            final(self).last_input() == old(self).last_input(),
    {
        self.config = config;
    }

    /// The input last decoded, if any.
    pub fn last_input_pdo(&self) -> (p: Option<InputPdo>)
        ensures
            p == self.last_input(),
    {
        self.snapshot
    }

    /// The register writes that set the drive up.
    pub fn setup(&self) -> (w: Vec<SdoWrite>)
        ensures
            w@ == setup_writes(self.settings()),
    {
        let c = self.config;
        let mut w: Vec<SdoWrite> = Vec::new();
        w.push(sdo_write(BASIC_MOTOR_CONTROL, 4, SdoValue::U8(1)));
        w.push(sdo_write(RX_PDO_ASSIGN, 0x00, SdoValue::U8(0)));
        w.push(sdo_write(TX_PDO_ASSIGN, 0x00, SdoValue::U8(0)));
        w.push(sdo_write(RX_PDO_MAPPING, 0x00, SdoValue::U8(0)));
        w.push(sdo_write(RX_PDO_MAPPING, 0x01, SdoValue::U32(0x6040_0010)));
        w.push(sdo_write(RX_PDO_MAPPING, 0x02, SdoValue::U32(0x6042_0010)));
        w.push(sdo_write(RX_PDO_MAPPING, 0x00, SdoValue::U8(2)));
        w.push(sdo_write(TX_PDO_MAPPING, 0x00, SdoValue::U8(0)));
        w.push(sdo_write(TX_PDO_MAPPING, 0x01, SdoValue::U32(0x6041_0010)));
        w.push(sdo_write(TX_PDO_MAPPING, 0x02, SdoValue::U32(0x6044_0010)));
        w.push(sdo_write(TX_PDO_MAPPING, 0x03, SdoValue::U32(0x603F_0010)));
        w.push(sdo_write(TX_PDO_MAPPING, 0x00, SdoValue::U8(3)));
        w.push(sdo_write(RX_PDO_ASSIGN, 0x01, SdoValue::U16(RX_PDO_MAPPING)));
        w.push(sdo_write(RX_PDO_ASSIGN, 0x00, SdoValue::U8(1)));
        w.push(sdo_write(TX_PDO_ASSIGN, 0x01, SdoValue::U16(TX_PDO_MAPPING)));
        w.push(sdo_write(TX_PDO_ASSIGN, 0x00, SdoValue::U8(1)));
        w.push(sdo_write(0x6060, 0, SdoValue::U8(2)));
        w.push(sdo_write(BASIC_MOTOR_CONTROL, 0x01, SdoValue::U8(1)));
        w.push(sdo_write_value_index(&c.rated_mains_voltage));
        w.push(sdo_write_value_index(&c.base_voltage));
        w.push(sdo_write_value_index(&c.base_frequency));
        w.push(sdo_write_value_index(&c.max_speed));
        w.push(sdo_write(0x6046, 2, SdoValue::U32(c.max_speed.value)));
        w.push(sdo_write_value_index(&c.min_speed));
        w.push(sdo_write_value_index(&c.acceleration.numerator));
        w.push(sdo_write_value_index(&c.acceleration.denominator));
        assert(w@ =~= setup_writes(c));
        w
    }

    /// One cyclic exchange: decodes the drive's status and writes the
    /// control word that steps it toward operation, with the speed set
    /// point.
    pub fn process_data(&mut self, input: &[u8], output_len: usize) -> (r: Result<
        Exchange,
        DeviceError,
    >)
        ensures
            exchanged(*old(self), input@, output_len, *final(self), r),
    {
        if output_len != 4 {
            return Err(DeviceError::LengthMismatch { expected: 4, actual: output_len });
        }
        let il = input_layout();
        let vals = match il.decode(input) {
            Ok(v) => v,
            Err(_) => {
                return Err(DeviceError::LengthMismatch { expected: 6, actual: input.len() });
            },
        };
        proof {
            assert(decoded(input_fields(), input@, vals@));
            assert(input_fields()[0].bits == 16);
            assert(input_fields()[1].bits == 16);
            assert(input_fields()[2].bits == 16);
            assert(vals@[0] as nat == field_value(input@, 0, 16));
            assert(vals@[1] as nat == field_value(input@, 16, 16));
            assert(vals@[2] as nat == field_value(input@, 32, 16));
        }
        let pdo = InputPdo {
            status_word: vals[0] as u16,
            actual_speed: #[verifier::truncate] (vals[1] as u16) as i16,
            error: #[verifier::truncate] (vals[2] as u16) as i16,
        };
        self.snapshot = Some(pdo);
        let control = transition(parse_state(pdo.status_word), TransitionAction::Run, true);
        let ol = output_layout();
        let values: [u64; 2] = [control as u64, SPEED_SET_POINT as u16 as u64];
        proof {
            vstd::arithmetic::power2::lemma2_to64();
            assert(values@ =~= output_values(input@));
        }
        let out = match ol.encode(values.as_slice()) {
            Ok(o) => o,
            Err(_) => {
                return Err(DeviceError::LengthMismatch { expected: 4, actual: output_len });
            },
        };
        self.cnt = count_up(self.cnt);
        Ok(Exchange { output: Some(out), channels: Vec::new() })
    }
}

/// Identity of the drive inverter.
pub const I550_VENDOR_ID: u32 = 0x0000003b;
pub const I550_PRODUCT_ID: u32 = 0x69055000;

impl DeviceInfo for I550 {
    const VENDOR_ID: u32 = I550_VENDOR_ID;
    const PRODUCT_ID: u32 = I550_PRODUCT_ID;
    const NAME: &'static str = "i550";
}

} // verus!
