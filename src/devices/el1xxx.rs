//! Digital input terminals: raw input bits mapped to named channels.
use crate::bits::{bit_at, read_bit};
use crate::devices::device_trait::{DeviceError, DeviceInfo, Exchange};
use crate::text::{decimal, with_number};
use vstd::prelude::*;
use vstd::string::StringExecFns;

verus! {

/// The raw input bit, counted from one, that each channel reads.
pub trait Entries<const N: usize> {
    const ENTRIES: [u8; N];
}

pub struct El1002Info;

pub struct El1008Info;

pub struct El1809Info;

/// Vendor of the digital input terminals.
pub const BECKHOFF_VENDOR_ID: u32 = 0x2;
pub const EL1002_PRODUCT_ID: u32 = 0x3ea3052;
pub const EL1008_PRODUCT_ID: u32 = 0x3f03052;
pub const EL1809_PRODUCT_ID: u32 = 0x7113052;

impl DeviceInfo for El1002Info {
    const VENDOR_ID: u32 = BECKHOFF_VENDOR_ID;
    const PRODUCT_ID: u32 = EL1002_PRODUCT_ID;
    const NAME: &'static str = "el1002";
}

impl DeviceInfo for El1008Info {
    const VENDOR_ID: u32 = BECKHOFF_VENDOR_ID;
    const PRODUCT_ID: u32 = EL1008_PRODUCT_ID;
    const NAME: &'static str = "el1008";
}

impl DeviceInfo for El1809Info {
    const VENDOR_ID: u32 = BECKHOFF_VENDOR_ID;
    const PRODUCT_ID: u32 = EL1809_PRODUCT_ID;
    const NAME: &'static str = "el1809";
}

/// Channel map of the two-channel terminal.
pub const EL1002_ENTRIES: [u8; 2] = [1, 5];

/// Channel map of the eight-channel terminal.
pub const EL1008_ENTRIES: [u8; 8] = [1, 5, 2, 6, 3, 7, 4, 8];

/// Channel map of the sixteen-channel terminal.
pub const EL1809_ENTRIES: [u8; 16] = [1, 2, 3, 4, 5, 6, 7, 8, 9, 10, 11, 12, 13, 14, 15, 16];

impl Entries<2> for El1002Info {
    const ENTRIES: [u8; 2] = EL1002_ENTRIES;
}

impl Entries<8> for El1008Info {
    const ENTRIES: [u8; 8] = EL1008_ENTRIES;
}

impl Entries<16> for El1809Info {
    const ENTRIES: [u8; 16] = EL1809_ENTRIES;
}

/// Every channel reads a bit, counted from one, that lies in an input
/// frame of `byte_len` bytes.
pub open spec fn valid_map(entries: Seq<u8>, byte_len: nat) -> bool {
    forall|k: int| 0 <= k < entries.len() ==> 1 <= #[trigger] entries[k] <= byte_len * 8
}

/// The channel values that an input frame carries: channel `k` reads raw
/// bit `entries[k]`, counted from one, least significant bit first.
pub open spec fn channel_values(entries: Seq<u8>, input: Seq<u8>) -> Seq<bool> {
    Seq::new(entries.len(), |k: int| bit_at(input, entries[k] - 1))
}

/// The state of a digital input driver after one exchange: only the
/// failure flag changes, set when the frame has the wrong length.
pub open spec fn exchanged(o: El1xxx, input: Seq<u8>, n: El1xxx) -> bool {
    &&& n.wf()
    &&& n.map() == o.map()
    &&& n.input_len() == o.input_len()
    &&& n.key() == o.key()
    &&& n.device_name() == o.device_name()
    &&& n.position() == o.position()
    &&& n.failing() == (input.len() != o.input_len())
}

/// A digital input terminal.
pub struct El1xxx {
    name: String,
    entries: Vec<u8>,
    byte_len: usize,
    subdevice_number: u16,
    log_key: String,
    error: bool,
}

impl El1xxx {
    pub closed spec fn map(&self) -> Seq<u8> {
        self.entries@
    }

    pub closed spec fn input_len(&self) -> nat {
        self.byte_len as nat
    }

    pub closed spec fn failing(&self) -> bool {
        self.error
    }

    pub closed spec fn key(&self) -> Seq<char> {
        self.log_key@
    }

    pub closed spec fn device_name(&self) -> Seq<char> {
        self.name@
    }

    pub closed spec fn position(&self) -> u16 {
        self.subdevice_number
    }

    pub open spec fn wf(&self) -> bool {
        &&& valid_map(self.map(), self.input_len())
        &&& self.input_len() <= usize::MAX / 8
    }

    /// A terminal named `name` at bus position `subdevice_number`, whose
    /// channels read the raw bits `entries` (counted from one) of an input
    /// frame of `byte_len` bytes. Refused when a channel reads a bit outside
    /// the frame.
    pub fn with_map(name: &str, entries: &[u8], byte_len: usize, subdevice_number: u16) -> (r:
        Result<Self, DeviceError>)
        requires
            byte_len <= usize::MAX / 8,
        ensures
            r is Ok <==> valid_map(entries@, byte_len as nat),
            r matches Err(e) ==> e == DeviceError::ConfigurationError,
            r matches Ok(d) ==> {
                &&& d.wf()
                &&& d.map() == entries@
                &&& d.input_len() == byte_len
                &&& !d.failing()
                &&& d.device_name() == name@
                &&& d.position() == subdevice_number
                &&& d.key() == name@ + ":"@ + decimal(subdevice_number as nat)
            },
    {
        let mut k: usize = 0;
        while k < entries.len()
            invariant
                k <= entries@.len(),
                byte_len <= usize::MAX / 8,
                forall|j: int| 0 <= j < k ==> 1 <= #[trigger] entries@[j] <= byte_len * 8,
            decreases entries@.len() - k,
        {
            let e = entries[k];
            if e < 1 || e as usize > byte_len * 8 {
                return Err(DeviceError::ConfigurationError);
            }
            k = k + 1;
        }
        let mut list: Vec<u8> = Vec::new();
        let mut j: usize = 0;
        while j < entries.len()
            invariant
                j <= entries@.len(),
                list@ == entries@.subrange(0, j as int),
            decreases entries@.len() - j,
        {
            list.push(entries[j]);
            j = j + 1;
            assert(list@ =~= entries@.subrange(0, j as int));
        }
        assert(list@ =~= entries@);
        let mut log_key = String::from_str(name);
        proof {
            reveal_strlit(":");
        }
        log_key.append(":");
        let number = with_number("", subdevice_number);
        proof {
            reveal_strlit("");
            assert(number@ =~= decimal(subdevice_number as nat));
        }
        log_key.append(number.as_str());
        Ok(El1xxx {
            name: String::from_str(name),
            entries: list,
            byte_len,
            subdevice_number,
            log_key,
            error: false,
        })
    }

    /// The terminal described by `D`, with an input frame of `ARR_LEN`
    /// bytes.
    pub fn new<D: DeviceInfo + Entries<N>, const N: usize, const ARR_LEN: usize>(
        subdevice_number: u16,
        subdevice_alias: u16,
    ) -> (r: Result<Self, DeviceError>)
        requires
            ARR_LEN <= usize::MAX / 8,
        ensures
            r is Ok <==> valid_map(D::ENTRIES@, ARR_LEN as nat),
            r matches Ok(d) ==> {
                &&& d.wf()
                &&& d.map() == D::ENTRIES@
                &&& d.input_len() == ARR_LEN
                &&& !d.failing()
                &&& d.device_name() == D::NAME@
                &&& d.position() == subdevice_number
                &&& d.key() == D::NAME@ + ":"@ + decimal(subdevice_number as nat)
            },
    {
        let entries: [u8; N] = D::ENTRIES;
        Self::with_map(D::NAME, entries.as_slice(), ARR_LEN, subdevice_number)
    }

    /// The number of channels.
    pub fn channel_count(&self) -> (n: usize)
        ensures
            n == self.map().len(),
    {
        self.entries.len()
    }

    /// The name under which channel `k` is published.
    pub fn channel_name(&self, k: usize) -> (s: String)
        requires
            k < self.map().len(),
        ensures
            s@ == self.device_name() + "_s"@ + decimal(self.position() as nat) + "_in"@ + decimal(
                self.map()[k as int] as nat,
            ),
    {
        let mut s = String::from_str(self.name.as_str());
        let a = with_number("_s", self.subdevice_number);
        s.append(a.as_str());
        let b = with_number("_in", self.entries[k] as u16);
        s.append(b.as_str());
        proof {
            reveal_strlit("_s");
            reveal_strlit("_in");
            assert(s@ =~= self.device_name() + "_s"@ + decimal(self.position() as nat) + "_in"@
                + decimal(self.map()[k as int] as nat));
        }
        s
    }

    /// Whether the last exchange failed; set on a failure and cleared on
    /// the next success, so a failure is reported once.
    pub fn in_error(&self) -> (b: bool)
        ensures
            b == self.failing(),
    {
        self.error
    }

    /// One cyclic exchange: checks the input frame's length and reads every
    /// channel's bit.
    pub fn process_data(&mut self, input: &[u8]) -> (r: Result<Exchange, DeviceError>)
        requires
            old(self).wf(),
        ensures
            exchanged(*old(self), input@, *final(self)),
            input@.len() != old(self).input_len() ==> r == Err::<Exchange, DeviceError>(
                DeviceError::LengthMismatch {
                    expected: old(self).input_len() as usize,
                    actual: input@.len() as usize,
                },
            ),
            input@.len() == old(self).input_len() ==> (r matches Ok(e) && e.output is None
                && e.channels@ == channel_values(old(self).map(), input@)),
    {
        if input.len() != self.byte_len {
            self.error = true;
            return Err(DeviceError::LengthMismatch { expected: self.byte_len, actual: input.len() });
        }
        self.error = false;
        let mut channels: Vec<bool> = Vec::new();
        let mut k: usize = 0;
        while k < self.entries.len()
            invariant
                self.wf(),
                input@.len() == self.input_len(),
                k <= self.map().len(),
                channels@ == channel_values(self.map(), input@).subrange(0, k as int),
            decreases self.map().len() - k,
        {
            let e = self.entries[k];
            assert(1 <= self.map()[k as int] <= self.input_len() * 8);
            let b = read_bit(input, (e - 1) as usize);
            channels.push(b);
            k = k + 1;
            assert(channels@ =~= channel_values(self.map(), input@).subrange(0, k as int));
        }
        assert(channels@ =~= channel_values(self.map(), input@));
        Ok(Exchange { output: None, channels })
    }
}

} // verus!
