//! The cyclic bus engine: bring-up of every terminal in bus order, the
//! per-tick dispatch to every terminal, the pacing of ticks, and timing
//! statistics.
//!
//! The engine decides; the caller talks to the bus. During bring-up each
//! call hands back the next register write (tagged with the terminal it is
//! for), the request to move the group to cyclic exchange, or the error that
//! ends the bring-up.
use crate::devices::device_trait::{DeviceError, Exchange};
use crate::registry::{
    default_setup, device_error, fresh, processed, resolve, Device, DeviceKind,
};
use crate::sdo::{Register, SdoWrite};
use vstd::prelude::*;
use vstd::string::StringExecFns;

verus! {

/// Pause before bring-up is tried again after a failure, in milliseconds.
pub const INIT_RETRY_DELAY_MS: u64 = 1000;
/// Ticks between two reports of timing statistics.
pub const STATS_EVERY: u64 = 1000;
/// Tick period used when the settings give none, in microseconds.
pub const DEFAULT_CYCLE_TIME_US: u64 = 1000;

/// The identity of a terminal found on the bus.
#[derive(Clone, Copy, Debug, PartialEq, Eq, Structural)]
pub struct Identity {
    pub vendor_id: u32,
    pub product_id: u32,
    pub alias_address: u16,
}

#[derive(Clone, Copy, Debug, PartialEq, Eq, Structural)]
pub enum EngineState {
    Uninitialized,
    Initializing,
    Operational,
}

#[derive(Clone, Copy, Debug, PartialEq, Eq, Structural)]
pub enum EngineError {
    /// Setup of the terminal at `index` failed on a write to `register`.
    InitError { index: usize, register: Register },
    /// The group did not reach cyclic exchange in time.
    TransitionError,
    /// The frame exchange failed.
    CommError,
    /// The exchange of the terminal at `index` failed.
    DeviceFailed { index: usize, error: DeviceError },
    /// The buffers handed in do not match the terminals.
    DeviceCountMismatch { expected: usize, actual: usize },
    /// The call does not fit the engine's present state.
    WrongState,
}

/// What the caller is to do next during bring-up.
#[derive(Clone, Copy, Debug, PartialEq, Eq, Structural)]
pub enum InitAction {
    /// Write a register of the terminal at `device`, then report.
    Write { device: usize, write: SdoWrite },
    /// Every terminal is set up: move the group to cyclic exchange, then
    /// report.
    EnterOperational,
    /// Bring-up failed; the engine is uninitialized again.
    Failed(EngineError),
}

/// The writes of one terminal, tagged with its index.
pub open spec fn tagged(index: int, ws: Seq<SdoWrite>) -> Seq<(usize, SdoWrite)> {
    Seq::new(ws.len(), |k: int| (index as usize, ws[k]))
}

/// The writes of every terminal, in bus order, each tagged with the index
/// of its terminal.
pub open spec fn setup_plan(devs: Seq<Device>) -> Seq<(usize, SdoWrite)>
    decreases devs.len(),
{
    if devs.len() == 0 {
        Seq::empty()
    } else {
        setup_plan(devs.drop_last()) + tagged(devs.len() - 1, devs.last().setup_spec())
    }
}

/// The drivers for the identities found, in bus order.
pub open spec fn resolved(ids: Seq<Identity>, devs: Seq<Device>) -> bool {
    &&& devs.len() == ids.len()
    &&& forall|i: int|
        0 <= i < ids.len() ==> (#[trigger] devs[i]).kind() == crate::registry::kind_of(
            ids[i].vendor_id,
            ids[i].product_id,
        ) && devs[i].wf() && devs[i].setup_spec() == default_setup(devs[i].kind()) && (devs[i] is Unimplemented
            <==> devs[i].kind() == DeviceKind::Unimplemented) && fresh(
            devs[i],
            i as u16,
            ids[i].alias_address,
        )
}

/// The action at position `pos` of a plan: its write, or the move to
/// cyclic exchange once every write is done.
pub open spec fn action_at(plan: Seq<(usize, SdoWrite)>, pos: int) -> InitAction {
    if pos < plan.len() {
        InitAction::Write { device: plan[pos].0, write: plan[pos].1 }
    } else {
        InitAction::EnterOperational
    }
}

proof fn lemma_tagged_index(index: int, ws: Seq<SdoWrite>, k: int)
    requires
        0 <= k < ws.len(),
    ensures
        tagged(index, ws)[k].0 == index as usize,
{
}

/// Every write of a bring-up belongs to a terminal on the bus that the
/// registry knows: a terminal with an unregistered identity gets no write,
/// so its slot is set up at once.
pub proof fn lemma_plan_skips_unregistered(devs: Seq<Device>, k: int)
    requires
        0 <= k < setup_plan(devs).len(),
        devs.len() <= usize::MAX,
    ensures
        setup_plan(devs)[k].0 < devs.len(),
        devs[setup_plan(devs)[k].0 as int].kind() != DeviceKind::Unimplemented,
    decreases devs.len(),
{
    let init = devs.drop_last();
    let n = setup_plan(init).len();
    if k < n {
        lemma_plan_skips_unregistered(init, k);
        assert(setup_plan(devs)[k] == setup_plan(init)[k]);
    } else {
        let last = devs.len() - 1;
        let ws = devs.last().setup_spec();
        assert(setup_plan(devs)[k] == tagged(last, ws)[k - n]);
        lemma_tagged_index(last, ws, k - n);
    }
}

/// No terminal before position `k` fails its exchange on its frames.
pub open spec fn none_fail_before(
    devs: Seq<Device>,
    inputs: Seq<Vec<u8>>,
    output_lens: Seq<usize>,
    k: int,
) -> bool {
    forall|j: int|
        0 <= j < k ==> device_error(#[trigger] devs[j], inputs[j]@, output_lens[j]) is None
}

/// Settings of the bus: the network interface and the tick period.
#[derive(Clone, Debug)]
pub struct BusConfig {
    pub interface: String,
    pub cycle_time_us: u64,
}

impl Default for BusConfig {
    /// The first ethernet interface, a tick every millisecond.
    fn default() -> (c: Self)
        ensures
            c.interface@ == "eth0"@,
            c.cycle_time_us == DEFAULT_CYCLE_TIME_US,
    {
        BusConfig { interface: String::from_str("eth0"), cycle_time_us: DEFAULT_CYCLE_TIME_US }
    }
}

/// The bus engine.
pub struct Bus {
    interface: String,
    cycle_time_us: u64,
    state: EngineState,
    devices: Vec<Device>,
    plan: Vec<(usize, SdoWrite)>,
    pos: usize,
}

impl Bus {
    pub closed spec fn state_spec(&self) -> EngineState {
        self.state
    }

    pub closed spec fn devices_spec(&self) -> Seq<Device> {
        self.devices@
    }

    pub closed spec fn plan_spec(&self) -> Seq<(usize, SdoWrite)> {
        self.plan@
    }

    /// Writes done so far in bring-up.
    pub closed spec fn progress(&self) -> nat {
        self.pos as nat
    }

    pub closed spec fn cycle_time(&self) -> u64 {
        self.cycle_time_us
    }

    pub closed spec fn interface_spec(&self) -> Seq<char> {
        self.interface@
    }

    pub open spec fn wf(&self) -> bool {
        &&& forall|i: int|
            0 <= i < self.devices_spec().len() ==> (#[trigger] self.devices_spec()[i]).wf()
        &&& self.state_spec() == EngineState::Initializing ==> {
            &&& self.plan_spec() == setup_plan(self.devices_spec())
            &&& self.progress() <= self.plan_spec().len()
        }
    }

    /// An engine for the link `interface`, ticking every `cycle_time_us`
    /// microseconds.
    pub fn new(interface: String, cycle_time_us: u64) -> (b: Self)
        ensures
            b.wf(),
            b.state_spec() == EngineState::Uninitialized,
            b.devices_spec().len() == 0,
            b.cycle_time() == cycle_time_us,
            b.interface_spec() == interface@,
    {
        Bus {
            interface,
            cycle_time_us,
            state: EngineState::Uninitialized,
            devices: Vec::new(),
            plan: Vec::new(),
            pos: 0,
        }
    }

    pub fn state(&self) -> (s: EngineState)
        ensures
            s == self.state_spec(),
    {
        self.state
    }

    pub fn cycle_time_us(&self) -> (c: u64)
        ensures
            c == self.cycle_time(),
    {
        self.cycle_time_us
    }

    pub fn interface(&self) -> (s: &str)
        ensures
            s@ == self.interface_spec(),
    {
        self.interface.as_str()
    }

    pub fn device_count(&self) -> (n: usize)
        ensures
            n == self.devices_spec().len(),
    {
        self.devices.len()
    }

    /// The kind of the terminal at `index`.
    pub fn device_kind(&self, index: usize) -> (k: DeviceKind)
        requires
            index < self.devices_spec().len(),
        ensures
            k == self.devices_spec()[index as int].kind(),
    {
        self.devices[index].device_kind()
    }

    /// The driver of the terminal at `index`.
    pub fn device(&self, index: usize) -> (d: &Device)
        requires
            index < self.devices_spec().len(),
        ensures
            *d == self.devices_spec()[index as int],
    {
        &self.devices[index]
    }

    /// Starts bring-up over the terminals found, in bus order: each gets the
    /// next index and its driver from the registry, and the writes of every
    /// driver's setup are lined up, terminal after terminal.
    pub fn init(&mut self, ids: &[Identity]) -> (r: InitAction)
        requires
            old(self).wf(),
            ids@.len() <= u16::MAX,
        ensures
            final(self).wf(),
            final(self).state_spec() == EngineState::Initializing,
            resolved(ids@, final(self).devices_spec()),
            final(self).progress() == 0,
            r == action_at(setup_plan(final(self).devices_spec()), 0),
            final(self).cycle_time() == old(self).cycle_time(),
            final(self).interface_spec() == old(self).interface_spec(),
    {
        let mut devices: Vec<Device> = Vec::new();
        let mut plan: Vec<(usize, SdoWrite)> = Vec::new();
        let mut i: usize = 0;
        while i < ids.len()
            invariant
                i <= ids@.len(),
                ids@.len() <= u16::MAX,
                resolved(ids@.subrange(0, i as int), devices@),
                plan@ == setup_plan(devices@),
            decreases ids@.len() - i,
        {
            let id = ids[i];
            let d = resolve(id.vendor_id, id.product_id, i as u16, id.alias_address);
            let ws = d.setup();
            let ghost before = devices@;
            let ghost plan_before = plan@;
            devices.push(d);
            let mut k: usize = 0;
            while k < ws.len()
                invariant
                    k <= ws@.len(),
                    plan@ == plan_before + tagged(i as int, ws@.subrange(0, k as int)),
                decreases ws@.len() - k,
            {
                plan.push((i, ws[k]));
                k = k + 1;
                assert(plan@ =~= plan_before + tagged(i as int, ws@.subrange(0, k as int)));
            }
            proof {
                assert(ws@.subrange(0, ws@.len() as int) =~= ws@);
                assert(devices@.drop_last() =~= before);
                assert(plan@ =~= setup_plan(devices@));
                assert(ids@.subrange(0, i + 1).drop_last() =~= ids@.subrange(0, i as int));
                assert forall|j: int| 0 <= j <= i implies (#[trigger] devices@[j]).kind()
                    == crate::registry::kind_of(
                    ids@.subrange(0, i + 1)[j].vendor_id,
                    ids@.subrange(0, i + 1)[j].product_id,
                ) && devices@[j].wf() && devices@[j].setup_spec() == default_setup(devices@[j].kind())
                    && (devices@[j] is Unimplemented <==> devices@[j].kind()
                    == DeviceKind::Unimplemented) && fresh(
                    devices@[j],
                    j as u16,
                    ids@.subrange(0, i + 1)[j].alias_address,
                ) by {
                    if j < i {
                        assert(ids@.subrange(0, i + 1)[j] == ids@.subrange(0, i as int)[j]);
                    }
                }
            }
            i = i + 1;
        }
        proof {
            assert(ids@.subrange(0, ids@.len() as int) =~= ids@);
        }
        self.devices = devices;
        self.plan = plan;
        self.pos = 0;
        self.state = EngineState::Initializing;
        self.next_init_action()
    }

    fn next_init_action(&self) -> (r: InitAction)
        requires
            self.wf(),
            self.state_spec() == EngineState::Initializing,
        ensures
            r == action_at(self.plan_spec(), self.progress() as int),
    {
        if self.pos < self.plan.len() {
            let (device, write) = self.plan[self.pos];
            InitAction::Write { device, write }
        } else {
            InitAction::EnterOperational
        }
    }

    fn reset(&mut self)
        ensures
            final(self).wf(),
            final(self).state_spec() == EngineState::Uninitialized,
            final(self).devices_spec().len() == 0,
            final(self).cycle_time() == old(self).cycle_time(),
            final(self).interface_spec() == old(self).interface_spec(),
    {
        self.state = EngineState::Uninitialized;
        self.devices = Vec::new();
        self.plan = Vec::new();
        self.pos = 0;
    }

    /// The last write of bring-up went through.
    pub fn write_done(&mut self) -> (r: InitAction)
        requires
            old(self).wf(),
        ensures
            final(self).wf(),
            final(self).cycle_time() == old(self).cycle_time(),
            final(self).interface_spec() == old(self).interface_spec(),
            old(self).state_spec() != EngineState::Initializing || old(self).progress() == old(self).plan_spec().len() ==> r == InitAction::Failed(EngineError::WrongState) && final(self).state_spec() == EngineState::Uninitialized,
            old(self).state_spec() == EngineState::Initializing && old(self).progress() < old(self).plan_spec().len() ==> {
                &&& final(self).state_spec() == EngineState::Initializing
                &&& final(self).devices_spec() == old(self).devices_spec()
                &&& final(self).progress() == old(self).progress() + 1
                &&& r == action_at(old(self).plan_spec(), old(self).progress() + 1int)
            },
    {
        if self.state != EngineState::Initializing || self.pos >= self.plan.len() {
            self.reset();
            return InitAction::Failed(EngineError::WrongState);
        }
        self.pos = self.pos + 1;
        self.next_init_action()
    }

    /// The last write of bring-up failed: bring-up ends with the index of
    /// the terminal being set up and the register written.
    pub fn write_failed(&mut self) -> (r: InitAction)
        requires
            old(self).wf(),
        ensures
            final(self).wf(),
            final(self).state_spec() == EngineState::Uninitialized,
            final(self).devices_spec().len() == 0,
            final(self).cycle_time() == old(self).cycle_time(),
            final(self).interface_spec() == old(self).interface_spec(),
            old(self).state_spec() == EngineState::Initializing && old(self).progress() < old(self).plan_spec().len() ==> r == InitAction::Failed(
                EngineError::InitError {
                    index: old(self).plan_spec()[old(self).progress() as int].0,
                    register: old(self).plan_spec()[old(self).progress() as int].1.register,
                },
            ),
            old(self).state_spec() != EngineState::Initializing || old(self).progress() == old(self).plan_spec().len() ==> r == InitAction::Failed(EngineError::WrongState),
    {
        let r = if self.state == EngineState::Initializing && self.pos < self.plan.len() {
            let (index, write) = self.plan[self.pos];
            InitAction::Failed(EngineError::InitError { index, register: write.register })
        } else {
            InitAction::Failed(EngineError::WrongState)
        };
        self.reset();
        r
    }

    /// Bring-up could not start: the terminals could not be enumerated.
    pub fn enumeration_failed(&mut self)
        ensures
            final(self).wf(),
            final(self).state_spec() == EngineState::Uninitialized,
            final(self).devices_spec().len() == 0,
            final(self).cycle_time() == old(self).cycle_time(),
            final(self).interface_spec() == old(self).interface_spec(),
    {
        self.reset();
    }

    /// The outcome of moving the group to cyclic exchange. Asked for only
    /// once every write of bring-up went through.
    pub fn enter_operational(&mut self, reached: bool) -> (r: Result<(), EngineError>)
        requires
            old(self).wf(),
        ensures
            final(self).wf(),
            final(self).cycle_time() == old(self).cycle_time(),
            final(self).interface_spec() == old(self).interface_spec(),
            old(self).state_spec() != EngineState::Initializing || old(self).progress() < old(self).plan_spec().len() ==> r == Err::<(), EngineError>(EngineError::WrongState)
                && final(self).state_spec() == EngineState::Uninitialized,
            old(self).state_spec() == EngineState::Initializing && old(self).progress() == old(self).plan_spec().len() ==> {
                &&& reached ==> r is Ok && final(self).state_spec() == EngineState::Operational
                    && final(self).devices_spec() == old(self).devices_spec()
                &&& !reached ==> r == Err::<(), EngineError>(EngineError::TransitionError)
                    && final(self).state_spec() == EngineState::Uninitialized
            },
    {
        if self.state != EngineState::Initializing || self.pos < self.plan.len() {
            self.reset();
            return Err(EngineError::WrongState);
        }
        if !reached {
            self.reset();
            return Err(EngineError::TransitionError);
        }
        self.state = EngineState::Operational;
        Ok(())
    }

    /// The frame exchange failed: the engine stops and must be brought up
    /// again.
    pub fn exchange_failed(&mut self) -> (e: EngineError)
        ensures
            final(self).wf(),
            final(self).state_spec() == EngineState::Uninitialized,
            final(self).devices_spec().len() == 0,
            final(self).cycle_time() == old(self).cycle_time(),
            final(self).interface_spec() == old(self).interface_spec(),
            e == EngineError::CommError,
    {
        self.reset();
        EngineError::CommError
    }

    /// One tick's dispatch: every terminal, in index order, gets its input
    /// frame and the length of its output frame. The first terminal that
    /// fails stops the dispatch and the engine, which must be brought up
    /// again.
    pub fn dispatch(&mut self, inputs: &Vec<Vec<u8>>, output_lens: &Vec<usize>) -> (r: Result<
        Vec<Exchange>,
        EngineError,
    >)
        requires
            old(self).wf(),
        ensures
            final(self).wf(),
            final(self).cycle_time() == old(self).cycle_time(),
            final(self).interface_spec() == old(self).interface_spec(),
            old(self).state_spec() != EngineState::Operational ==> r == Err::<
                Vec<Exchange>,
                EngineError,
            >(EngineError::WrongState) && final(self).state_spec() == old(self).state_spec(),
            old(self).state_spec() == EngineState::Operational && inputs@.len() != old(self).devices_spec().len() ==> r == Err::<Vec<Exchange>, EngineError>(
                EngineError::DeviceCountMismatch {
                    expected: old(self).devices_spec().len() as usize,
                    actual: inputs@.len() as usize,
                },
            ) && final(self).state_spec() == EngineState::Uninitialized,
            old(self).state_spec() == EngineState::Operational && inputs@.len() == old(self).devices_spec().len() && output_lens@.len() != old(self).devices_spec().len() ==> r
                == Err::<Vec<Exchange>, EngineError>(
                EngineError::DeviceCountMismatch {
                    expected: old(self).devices_spec().len() as usize,
                    actual: output_lens@.len() as usize,
                },
            ) && final(self).state_spec() == EngineState::Uninitialized,
            old(self).state_spec() == EngineState::Operational && inputs@.len() == old(self).devices_spec().len() && output_lens@.len() == old(self).devices_spec().len() ==> {
                &&& r is Ok <==> none_fail_before(
                    old(self).devices_spec(),
                    inputs@,
                    output_lens@,
                    old(self).devices_spec().len() as int,
                )
                &&& r is Err ==> r matches Err(EngineError::DeviceFailed { index, error })
            },
            r matches Ok(exs) ==> {
                &&& old(self).state_spec() == EngineState::Operational
                &&& final(self).state_spec() == EngineState::Operational
                &&& exs@.len() == old(self).devices_spec().len()
                &&& final(self).devices_spec().len() == old(self).devices_spec().len()
                &&& forall|i: int|
                    0 <= i < exs@.len() ==> processed(
                        old(self).devices_spec()[i],
                        inputs@[i]@,
                        output_lens@[i],
                        final(self).devices_spec()[i],
                        Ok(#[trigger] exs@[i]),
                    )
            },
            r matches Err(EngineError::DeviceFailed { index, error }) ==> {
                &&& old(self).state_spec() == EngineState::Operational
                &&& index < old(self).devices_spec().len()
                &&& none_fail_before(old(self).devices_spec(), inputs@, output_lens@, index as int)
                &&& device_error(
                    old(self).devices_spec()[index as int],
                    inputs@[index as int]@,
                    output_lens@[index as int],
                ) == Some(error)
                &&& final(self).state_spec() == EngineState::Uninitialized
            },
    {
        if self.state != EngineState::Operational {
            return Err(EngineError::WrongState);
        }
        let n = self.devices.len();
        if inputs.len() != n {
            self.reset();
            return Err(EngineError::DeviceCountMismatch { expected: n, actual: inputs.len() });
        }
        if output_lens.len() != n {
            self.reset();
            return Err(EngineError::DeviceCountMismatch { expected: n, actual: output_lens.len() });
        }
        let ghost before = self.devices@;
        let mut out: Vec<Exchange> = Vec::new();
        let mut i: usize = 0;
        while i < n
            invariant
                n == before.len(),
                before == old(self).devices@,
                old(self).state == EngineState::Operational,
                inputs@.len() == n,
                output_lens@.len() == n,
                self.devices@.len() == n,
                self.state == EngineState::Operational,
                i <= n,
                out@.len() == i,
                none_fail_before(before, inputs@, output_lens@, i as int),
                forall|j: int|
                    0 <= j < i ==> processed(
                        before[j],
                        inputs@[j]@,
                        output_lens@[j],
                        self.devices@[j],
                        Ok(#[trigger] out@[j]),
                    ),
                forall|j: int| 0 <= j < n ==> (#[trigger] self.devices@[j]).wf(),
                forall|j: int|
                    0 <= j < n ==> (#[trigger] self.devices@[j]).kind() == before[j].kind(),
                forall|j: int| i <= j < n ==> #[trigger] self.devices@[j] == before[j],
                self.cycle_time_us == old(self).cycle_time_us,
                self.interface@ == old(self).interface@,
            decreases n - i,
        {
            let mut d = self.devices.remove(i);
            let ghost d0 = d;
            assert(d0 == before[i as int]);
            let res = d.process_data(inputs[i].as_slice(), output_lens[i]);
            let ghost rest = self.devices@;
            self.devices.insert(i, d);
            proof {
                assert(self.devices@[i as int] == d);
                assert forall|j: int| 0 <= j < n implies (#[trigger] self.devices@[j]).wf()
                    && self.devices@[j].kind() == before[j].kind() by {
                    if j < i {
                        assert(self.devices@[j] == rest[j]);
                    } else if j > i {
                        assert(self.devices@[j] == rest[j - 1]);
                    }
                }
                assert forall|j: int| 0 <= j < i implies #[trigger] self.devices@[j] == rest[j] by {}
                assert forall|j: int| i + 1 <= j < n implies #[trigger] self.devices@[j]
                    == before[j] by {
                    assert(self.devices@[j] == rest[j - 1]);
                }
            }
            match res {
                Ok(e) => {
                    let ghost out_before = out@;
                    out.push(e);
                    proof {
                        assert forall|j: int| 0 <= j < i implies out@[j] == out_before[j] by {}
                    }
                },
                Err(error) => {
                    self.reset();
                    return Err(EngineError::DeviceFailed { index: i, error });
                },
            }
            i = i + 1;
        }
        Ok(out)
    }
}

/// Tick pacing with a skip policy: a tick that comes late is taken at once,
/// and the next one is set to the first boundary of the fixed grid after
/// it, so missed ticks are skipped rather than caught up.
pub struct Pacer {
    origin: u64,
    period: u64,
    next: u64,
}

/// The pacer as a value.
pub struct PacerView {
    pub origin: int,
    pub period: int,
    pub next: int,
}

/// The time a tick asked for at `now` is taken.
pub open spec fn fire_time(p: PacerView, now: int) -> int {
    if now > p.next {
        now
    } else {
        p.next
    }
}

/// The first boundary of the grid after `t`.
pub open spec fn boundary_after(p: PacerView, t: int) -> int {
    t + p.period - (t - p.origin) % p.period
}

/// The grid slot that `t` falls in.
pub open spec fn slot(p: PacerView, t: int) -> int {
    (t - p.origin) / p.period
}

/// A pacer's fire times for ticks asked for at the times `nows`.
pub open spec fn fires(p: PacerView, nows: Seq<int>) -> Seq<int>
    decreases nows.len(),
{
    if nows.len() == 0 {
        Seq::empty()
    } else {
        let t = fire_time(p, nows[0]);
        seq![t] + fires(PacerView { next: boundary_after(p, t), ..p }, nows.drop_first())
    }
}

pub open spec fn pacer_ok(p: PacerView) -> bool {
    &&& p.period > 0
    &&& p.next >= p.origin
    &&& (p.next - p.origin) % p.period == 0
}

proof fn lemma_boundary(p: PacerView, t: int)
    requires
        pacer_ok(p),
        t >= p.origin,
    ensures
        boundary_after(p, t) > t,
        boundary_after(p, t) - t <= p.period,
        (boundary_after(p, t) - p.origin) % p.period == 0,
        slot(p, boundary_after(p, t)) == slot(p, t) + 1,
{
    let q = (t - p.origin) / p.period;
    let r = (t - p.origin) % p.period;
    vstd::arithmetic::div_mod::lemma_fundamental_div_mod(t - p.origin, p.period);
    assert(boundary_after(p, t) - p.origin == (q + 1) * p.period) by (nonlinear_arith)
        requires
            t - p.origin == p.period * q + r,
            boundary_after(p, t) == t + p.period - r,
    ;
    vstd::arithmetic::div_mod::lemma_mod_multiples_basic(q + 1, p.period);
    vstd::arithmetic::div_mod::lemma_div_multiples_vanish(q + 1, p.period);
    assert((q + 1) * p.period == p.period * (q + 1)) by (nonlinear_arith);
}

proof fn lemma_slot_mono(p: PacerView, a: int, b: int)
    requires
        pacer_ok(p),
        p.origin <= a <= b,
    ensures
        slot(p, a) <= slot(p, b),
{
    vstd::arithmetic::div_mod::lemma_div_is_ordered(a - p.origin, b - p.origin, p.period);
}

/// Under any delays, a pacer never takes more ticks than grid slots
/// elapse: the `j`-th tick after a given one falls at least `j` slots
/// later. Missed ticks are skipped, never caught up in a burst.
pub proof fn lemma_no_burst(p: PacerView, nows: Seq<int>, i: int, j: int)
    requires
        pacer_ok(p),
        0 <= i < j < nows.len(),
    ensures
        slot(p, fires(p, nows)[j]) >= slot(p, fires(p, nows)[i]) + (j - i),
    decreases nows.len(),
{
    let t = fire_time(p, nows[0]);
    let p2 = PacerView { next: boundary_after(p, t), ..p };
    lemma_boundary(p, t);
    let rest = nows.drop_first();
    assert(fires(p, nows) == seq![t] + fires(p2, rest));
    lemma_fires_len(p2, rest);
    assert(fires(p, nows)[0] == t);
    assert(fires(p, nows)[j] == fires(p2, rest)[j - 1]);
    assert(fires(p, nows)[i] == if i == 0 {
        t
    } else {
        fires(p2, rest)[i - 1]
    });
    assert(pacer_ok(p2));
    if i == 0 {
        if j == 1 {
            lemma_first_fire(p2, rest);
            lemma_slot_mono(p, p2.next, fires(p2, rest)[0]);
        } else {
            lemma_no_burst(p2, rest, 0, j - 1);
            lemma_first_fire(p2, rest);
            lemma_slot_mono(p, p2.next, fires(p2, rest)[0]);
        }
    } else {
        lemma_no_burst(p2, rest, i - 1, j - 1);
    }
}

proof fn lemma_first_fire(p: PacerView, nows: Seq<int>)
    requires
        nows.len() > 0,
    ensures
        fires(p, nows).len() == nows.len(),
        fires(p, nows)[0] >= p.next,
    decreases nows.len(),
{
    lemma_fires_len(p, nows);
}

proof fn lemma_fires_len(p: PacerView, nows: Seq<int>)
    ensures
        fires(p, nows).len() == nows.len(),
    decreases nows.len(),
{
    if nows.len() > 0 {
        lemma_fires_len(PacerView { next: boundary_after(p, fire_time(p, nows[0])), ..p }, nows.drop_first());
    }
}

impl View for Pacer {
    type V = PacerView;

    closed spec fn view(&self) -> PacerView {
        PacerView { origin: self.origin as int, period: self.period as int, next: self.next as int }
    }
}

impl Pacer {
    /// A pacer whose grid starts at `start`, with ticks `period` apart; the
    /// first tick is due at `start`.
    pub fn new(start: u64, period: u64) -> (p: Self)
        requires
            period > 0,
        ensures
            pacer_ok(p@),
            p@ == (PacerView { origin: start as int, period: period as int, next: start as int }),
    {
        proof {
            vstd::arithmetic::div_mod::lemma_mod_self_0(period as int);
            assert(0int % (period as int) == 0) by {
                vstd::arithmetic::div_mod::lemma_small_mod(0, period as nat);
            }
        }
        Pacer { origin: start, period, next: start }
    }

    /// When the next tick is due.
    pub fn next_due(&self) -> (t: u64)
        ensures
            t == self@.next,
    {
        self.next
    }

    pub fn period(&self) -> (p: u64)
        ensures
            p == self@.period,
    {
        self.period
    }

    /// The next tick is asked for at `now`: returns the time it is to be
    /// taken at, and moves the next one to the first grid boundary after
    /// that.
    pub fn tick(&mut self, now: u64) -> (t: u64)
        requires
            pacer_ok(old(self)@),
            now as int + old(self)@.period <= u64::MAX,
            old(self)@.next + old(self)@.period <= u64::MAX,
        ensures
            pacer_ok(final(self)@),
            t == fire_time(old(self)@, now as int),
            final(self)@ == (PacerView { next: boundary_after(old(self)@, t as int), ..old(self)@ }),
            t >= now,
            final(self)@.next > t,
            final(self)@.next - t <= old(self)@.period,
    {
        let t = if now > self.next {
            now
        } else {
            self.next
        };
        proof {
            lemma_boundary(self@, t as int);
        }
        let r = (t - self.origin) % self.period;
        self.next = t + (self.period - r);
        t
    }
}

/// Timing statistics, reported as averages every `STATS_EVERY` ticks.
pub struct TimingStats {
    ticks: u64,
    interval_total: u128,
    exchange_total: u128,
    dispatch_total: u128,
}

/// Average tick interval, exchange duration and dispatch duration over a
/// reporting window.
#[derive(Clone, Copy, Debug, PartialEq, Eq, Structural)]
pub struct TimingReport {
    pub interval_avg: u64,
    pub exchange_avg: u64,
    pub dispatch_avg: u64,
}

/// A sum of at most `ticks` 64-bit durations.
pub open spec fn bounded_sum(sum: nat, ticks: nat) -> bool {
    sum <= ticks * 0xFFFF_FFFF_FFFF_FFFF
}

proof fn lemma_sum_step(sum: u128, ticks: u64, x: u64)
    requires
        bounded_sum(sum as nat, ticks as nat),
        ticks < STATS_EVERY,
    ensures
        sum + x <= 1000 * 0xFFFF_FFFF_FFFF_FFFFu128,
        bounded_sum((sum + x) as nat, (ticks + 1) as nat),
        (sum + x) / 1000 <= 0xFFFF_FFFF_FFFF_FFFF,
{
    assert(sum + x <= (ticks + 1) * 0xFFFF_FFFF_FFFF_FFFFu128) by (nonlinear_arith)
        requires
            sum <= ticks * 0xFFFF_FFFF_FFFF_FFFFu128,
            x <= 0xFFFF_FFFF_FFFF_FFFFu64,
    ;
    assert((ticks + 1) * 0xFFFF_FFFF_FFFF_FFFFu128 <= 1000 * 0xFFFF_FFFF_FFFF_FFFFu128)
        by (nonlinear_arith)
        requires
            ticks < 1000,
    ;
    assert((sum + x) / 1000 <= 0xFFFF_FFFF_FFFF_FFFF) by (nonlinear_arith)
        requires
            sum + x <= 1000 * 0xFFFF_FFFF_FFFF_FFFFu128,
    ;
}

impl TimingStats {
    pub closed spec fn ticks_spec(&self) -> nat {
        self.ticks as nat
    }

    pub closed spec fn interval_sum(&self) -> nat {
        self.interval_total as nat
    }

    pub closed spec fn exchange_sum(&self) -> nat {
        self.exchange_total as nat
    }

    pub closed spec fn dispatch_sum(&self) -> nat {
        self.dispatch_total as nat
    }

    pub open spec fn wf(&self) -> bool {
        &&& self.ticks_spec() < STATS_EVERY
        &&& bounded_sum(self.interval_sum(), self.ticks_spec())
        &&& bounded_sum(self.exchange_sum(), self.ticks_spec())
        &&& bounded_sum(self.dispatch_sum(), self.ticks_spec())
    }

    pub fn new() -> (s: Self)
        ensures
            s.wf(),
            s.ticks_spec() == 0,
            s.interval_sum() == 0,
            s.exchange_sum() == 0,
            s.dispatch_sum() == 0,
    {
        TimingStats { ticks: 0, interval_total: 0, exchange_total: 0, dispatch_total: 0 }
    }

    /// Adds one tick: the time since the previous tick began, and the
    /// durations of its exchange and its dispatch. On every
    /// `STATS_EVERY`-th tick returns the averages over the window and
    /// starts a new one.
    pub fn record(&mut self, interval: u64, exchange: u64, dispatch: u64) -> (r: Option<
        TimingReport,
    >)
        requires
            old(self).wf(),
        ensures
            final(self).wf(),
            old(self).ticks_spec() + 1 < STATS_EVERY ==> {
                &&& r is None
                &&& final(self).ticks_spec() == old(self).ticks_spec() + 1
                &&& final(self).interval_sum() == old(self).interval_sum() + interval
                &&& final(self).exchange_sum() == old(self).exchange_sum() + exchange
                &&& final(self).dispatch_sum() == old(self).dispatch_sum() + dispatch
            },
            old(self).ticks_spec() + 1 == STATS_EVERY ==> {
                &&& r == Some(
                    TimingReport {
                        interval_avg: ((old(self).interval_sum() + interval as nat)
                            / STATS_EVERY as nat) as u64,
                        exchange_avg: ((old(self).exchange_sum() + exchange as nat)
                            / STATS_EVERY as nat) as u64,
                        dispatch_avg: ((old(self).dispatch_sum() + dispatch as nat)
                            / STATS_EVERY as nat) as u64,
                    },
                )
                &&& final(self).ticks_spec() == 0
                &&& final(self).interval_sum() == 0
                &&& final(self).exchange_sum() == 0
                &&& final(self).dispatch_sum() == 0
            },
    {
        proof {
            lemma_sum_step(self.interval_total, self.ticks, interval);
            lemma_sum_step(self.exchange_total, self.ticks, exchange);
            lemma_sum_step(self.dispatch_total, self.ticks, dispatch);
        }
        let iv = self.interval_total + interval as u128;
        let ex = self.exchange_total + exchange as u128;
        let dis = self.dispatch_total + dispatch as u128;
        if self.ticks + 1 == STATS_EVERY {
            let report = TimingReport {
                interval_avg: (iv / STATS_EVERY as u128) as u64,
                exchange_avg: (ex / STATS_EVERY as u128) as u64,
                dispatch_avg: (dis / STATS_EVERY as u128) as u64,
            };
            *self = TimingStats::new();
            Some(report)
        } else {
            *self = TimingStats {
                ticks: self.ticks + 1,
                interval_total: iv,
                exchange_total: ex,
                dispatch_total: dis,
            };
            None
        }
    }
}

} // verus!
