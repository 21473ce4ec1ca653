//! The registry: from the identity a terminal enumerates with to the driver
//! that runs it.
use crate::devices::device_trait::{DeviceError, DeviceInfo, Exchange, UnimplementedDevice};
use crate::devices::el1xxx::{
    channel_values, valid_map, El1002Info, El1008Info, El1809Info, El1xxx, BECKHOFF_VENDOR_ID,
    EL1002_ENTRIES, EL1002_PRODUCT_ID, EL1008_ENTRIES, EL1008_PRODUCT_ID, EL1809_ENTRIES,
    EL1809_PRODUCT_ID,
};
use crate::devices::el3356::{El3356, EL3356_PRODUCT_ID, EL3356_VENDOR_ID};
use crate::devices::i550::{I550, I550_PRODUCT_ID, I550_VENDOR_ID};
use crate::sdo::SdoWrite;
use vstd::prelude::*;

verus! {

/// The kinds of terminal the registry knows.
#[derive(Clone, Copy, Debug, PartialEq, Eq, Structural)]
pub enum DeviceKind {
    Unimplemented,
    El3356,
    I550,
    El1002,
    El1008,
    El1809,
}

/// The kind registered for a vendor and product id.
pub open spec fn kind_of(vendor_id: u32, product_id: u32) -> DeviceKind {
    if vendor_id == EL3356_VENDOR_ID && product_id == EL3356_PRODUCT_ID {
        DeviceKind::El3356
    } else if vendor_id == I550_VENDOR_ID && product_id == I550_PRODUCT_ID {
        DeviceKind::I550
    } else if vendor_id == BECKHOFF_VENDOR_ID && product_id == EL1002_PRODUCT_ID {
        DeviceKind::El1002
    } else if vendor_id == BECKHOFF_VENDOR_ID && product_id == EL1008_PRODUCT_ID {
        DeviceKind::El1008
    } else if vendor_id == BECKHOFF_VENDOR_ID && product_id == EL1809_PRODUCT_ID {
        DeviceKind::El1809
    } else {
        DeviceKind::Unimplemented
    }
}

/// The setup writes of a freshly resolved driver of the given kind, with
/// default settings.
pub open spec fn default_setup(kind: DeviceKind) -> Seq<SdoWrite> {
    match kind {
        DeviceKind::El3356 => crate::devices::el3356::setup_writes(
            crate::devices::el3356::default_config(),
        ),
        DeviceKind::I550 => crate::devices::i550::setup_writes(
            crate::devices::i550::default_config(),
        ),
        _ => Seq::empty(),
    }
}

/// The error that one exchange of a driver ends with, for an input frame
/// and an output frame length: only the load-cell and drive drivers fail,
/// on frames of the wrong length. A digital input terminal fails its own
/// cycle only and never stops the exchange.
pub open spec fn device_error(d: Device, input: Seq<u8>, output_len: usize) -> Option<DeviceError> {
    match d {
        Device::El3356(_) => crate::devices::el3356::exchange_error(input.len(), output_len),
        Device::I550(_) => crate::devices::i550::exchange_error(input.len(), output_len),
        _ => None,
    }
}

/// One exchange of a driver, from `o` to `n` with outcome `r`, as the
/// driver of each kind states it. A digital input terminal whose frame has
/// the wrong length publishes nothing.
pub open spec fn processed(
    o: Device,
    input: Seq<u8>,
    output_len: usize,
    n: Device,
    r: Result<Exchange, DeviceError>,
) -> bool {
    match (o, n) {
        (Device::Unimplemented(_), Device::Unimplemented(_)) => r matches Ok(e) && e.output is None
            && e.channels@.len() == 0,
        (Device::El3356(a), Device::El3356(b)) => crate::devices::el3356::exchanged(
            a,
            input,
            output_len,
            b,
            r,
        ),
        (Device::I550(a), Device::I550(b)) => crate::devices::i550::exchanged(
            a,
            input,
            output_len,
            b,
            r,
        ),
        (Device::DigitalInput(k, a), Device::DigitalInput(k2, b)) => {
            &&& k2 == k
            &&& crate::devices::el1xxx::exchanged(a, input, b)
            &&& r matches Ok(e) && e.output is None && (if input.len() == a.input_len() {
                e.channels@ == channel_values(a.map(), input)
            } else {
                e.channels@.len() == 0
            })
        },
        _ => false,
    }
}

/// The channel map of a digital input kind.
pub open spec fn digital_map(k: DeviceKind) -> Seq<u8> {
    match k {
        DeviceKind::El1002 => EL1002_ENTRIES@,
        DeviceKind::El1008 => EL1008_ENTRIES@,
        _ => EL1809_ENTRIES@,
    }
}

/// The input frame length of a digital input kind, in bytes.
pub open spec fn digital_len(k: DeviceKind) -> nat {
    match k {
        DeviceKind::El1809 => 2,
        _ => 1,
    }
}

/// The name of a digital input kind.
pub open spec fn digital_name(k: DeviceKind) -> Seq<char> {
    match k {
        DeviceKind::El1002 => El1002Info::NAME@,
        DeviceKind::El1008 => El1008Info::NAME@,
        _ => El1809Info::NAME@,
    }
}

/// A freshly resolved driver for the terminal at `index` with alias
/// `alias`: default settings, stored under the key that index and alias
/// give, nothing exchanged yet; a digital input terminal with its kind's
/// channel map and frame length.
pub open spec fn fresh(d: Device, index: u16, alias: u16) -> bool {
    match d {
        Device::El3356(t) => {
            &&& t.key() == crate::devices::el3356::el3356_key(index, alias)
            &&& t.settings() == crate::devices::el3356::default_config()
            &&& t.count() == 0
            &&& t.last_input() is None
            &&& t.session()@.phase == crate::calibration::Phase::Idle
            &&& !t.session()@.zero_done
        },
        Device::I550(t) => {
            &&& t.key_spec() == crate::devices::i550::i550_key(index, alias)
            &&& t.settings() == crate::devices::i550::default_config()
            &&& t.count() == 0
            &&& t.last_input() is None
        },
        Device::DigitalInput(k, t) => {
            &&& t.map() == digital_map(k)
            &&& t.input_len() == digital_len(k)
            &&& t.device_name() == digital_name(k)
            &&& t.position() == index
            &&& t.key() == digital_name(k) + ":"@ + crate::text::decimal(index as nat)
            &&& !t.failing()
        },
        Device::Unimplemented(_) => true,
    }
}

/// A terminal's driver.
pub enum Device {
    Unimplemented(UnimplementedDevice),
    El3356(El3356),
    I550(I550),
    DigitalInput(DeviceKind, El1xxx),
}

impl Device {
    pub open spec fn kind(&self) -> DeviceKind {
        match self {
            Device::Unimplemented(_) => DeviceKind::Unimplemented,
            Device::El3356(_) => DeviceKind::El3356,
            Device::I550(_) => DeviceKind::I550,
            Device::DigitalInput(k, _) => *k,
        }
    }

    pub open spec fn wf(&self) -> bool {
        match self {
            Device::El3356(d) => d.wf(),
            Device::DigitalInput(_, d) => d.wf(),
            _ => true,
        }
    }

    /// The register writes that set the terminal up.
    pub open spec fn setup_spec(&self) -> Seq<SdoWrite> {
        match self {
            Device::Unimplemented(_) => Seq::empty(),
            Device::El3356(d) => crate::devices::el3356::setup_writes(d.settings()),
            Device::I550(d) => crate::devices::i550::setup_writes(d.settings()),
            Device::DigitalInput(_, _) => Seq::empty(),
        }
    }

    pub fn device_kind(&self) -> (k: DeviceKind)
        ensures
            k == self.kind(),
    {
        match self {
            Device::Unimplemented(_) => DeviceKind::Unimplemented,
            Device::El3356(_) => DeviceKind::El3356,
            Device::I550(_) => DeviceKind::I550,
            Device::DigitalInput(k, _) => *k,
        }
    }

    /// The register writes that set the terminal up.
    pub fn setup(&self) -> (w: Vec<SdoWrite>)
        ensures
            w@ == self.setup_spec(),
    {
        match self {
            Device::Unimplemented(d) => d.setup(),
            Device::El3356(d) => d.setup(),
            Device::I550(d) => d.setup(),
            Device::DigitalInput(_, _) => Vec::new(),
        }
    }

    /// One cyclic exchange. A digital input terminal whose frame has the
    /// wrong length fails its own cycle only: it publishes nothing and the
    /// exchange goes on.
    pub fn process_data(&mut self, input: &[u8], output_len: usize) -> (r: Result<
        Exchange,
        DeviceError,
    >)
        requires
            old(self).wf(),
        ensures
            final(self).wf(),
            final(self).kind() == old(self).kind(),
            final(self).setup_spec() == old(self).setup_spec(),
            processed(*old(self), input@, output_len, *final(self), r),
            r is Err <==> device_error(*old(self), input@, output_len) is Some,
            r matches Err(e) ==> device_error(*old(self), input@, output_len) == Some(e),
    {
        match self {
            Device::Unimplemented(d) => d.process_data(input),
            Device::El3356(d) => d.process_data(input, output_len),
            Device::I550(d) => d.process_data(input, output_len),
            Device::DigitalInput(_, d) => match d.process_data(input) {
                Ok(e) => Ok(e),
                Err(_) => Ok(Exchange { output: None, channels: Vec::new() }),
            },
        }
    }
}

fn digital_input(kind: DeviceKind, name: &str, entries: &[u8], byte_len: usize, instance_index: u16) -> (d: Device)
    requires
        byte_len <= 8,
        valid_map(entries@, byte_len as nat),
    ensures
        d.kind() == kind,
        d.wf(),
        d matches Device::DigitalInput(k, t) && k == kind && t.map() == entries@ && t.input_len()
            == byte_len && t.device_name() == name@ && t.position() == instance_index && t.key()
            == name@ + ":"@ + crate::text::decimal(instance_index as nat) && !t.failing(),
{
    match El1xxx::with_map(name, entries, byte_len, instance_index) {
        Ok(t) => Device::DigitalInput(kind, t),
        Err(_) => Device::Unimplemented(UnimplementedDevice),
    }
}

/// The driver for a terminal, chosen by its vendor and product id. An
/// unknown pair gets a driver that does nothing, so that one unsupported
/// terminal does not hold up the bus. The instance index and alias name
/// the driver's stored settings.
pub fn resolve(vendor_id: u32, product_id: u32, instance_index: u16, alias: u16) -> (d: Device)
    ensures
        d.kind() == kind_of(vendor_id, product_id),
        d.wf(),
        d is Unimplemented <==> kind_of(vendor_id, product_id) == DeviceKind::Unimplemented,
        d.setup_spec() == default_setup(d.kind()),
        fresh(d, instance_index, alias),
{
    if vendor_id == EL3356_VENDOR_ID && product_id == EL3356_PRODUCT_ID {
        Device::El3356(El3356::new(instance_index, alias))
    } else if vendor_id == I550_VENDOR_ID && product_id == I550_PRODUCT_ID {
        Device::I550(I550::new(instance_index, alias))
    } else if vendor_id == BECKHOFF_VENDOR_ID && product_id == EL1002_PRODUCT_ID {
        let e = EL1002_ENTRIES;
        digital_input(DeviceKind::El1002, El1002Info::NAME, e.as_slice(), 1, instance_index)
    } else if vendor_id == BECKHOFF_VENDOR_ID && product_id == EL1008_PRODUCT_ID {
        let e = EL1008_ENTRIES;
        digital_input(DeviceKind::El1008, El1008Info::NAME, e.as_slice(), 1, instance_index)
    } else if vendor_id == BECKHOFF_VENDOR_ID && product_id == EL1809_PRODUCT_ID {
        let e = EL1809_ENTRIES;
        digital_input(DeviceKind::El1809, El1809Info::NAME, e.as_slice(), 2, instance_index)
    } else {
        Device::Unimplemented(UnimplementedDevice)
    }
}

} // verus!
