//! The control loop that finds devices, reads them out and hands their
//! records to the store.
//!
//! The loop itself waits for the transport and the store, so it runs at
//! the caller. What it decides is here: the caller performs each
//! [`LoaderAction`] and hands back a [`LoaderEvent`], and a failure of one
//! device never keeps the loader from the next.

use vstd::prelude::*;

use crate::devices::device::{
    spec_classify,
    spec_device_key,
    spec_expiry,
    Device,
    DeviceInfo,
    DeviceInfoView,
    FactoryImpl,
    BACKOFF_SECONDS,
};
use crate::measurement::{Record, RecordView};
use crate::time::Timestamp;

verus! {

/// How long the loader waits before it looks for devices again, in
/// milliseconds.
pub const TICK_MS: u64 = 1000;

/// How long a connect and a disconnect may take, in milliseconds.
pub const CONNECT_TIMEOUT_MS: u64 = 5000;

/// Where the loader stands.
#[derive(Clone, Copy, Debug, PartialEq, Eq)]
pub enum LoaderState {
    /// Not started.
    Idle,
    /// The start of discovery was asked for.
    Discovering,
    /// The visible devices were asked for.
    Enumerating,
    /// A connection to the device was asked for.
    Connecting(Device),
    /// The device is being read out.
    Extracting(Device),
    /// The device was read out; its disconnection was asked for.
    Disconnecting(Device),
    /// The records of the device were handed to the store.
    Persisting(Device),
    /// The stop of discovery was asked for.
    Stopping,
    /// The loader has returned.
    Stopped,
}

/// What the caller reports back.
#[derive(Debug)]
pub enum LoaderEvent {
    /// The loader is to run.
    Begin,
    /// Discovery has started.
    DiscoveryStarted,
    /// The devices that the transport sees now.
    Devices(Vec<DeviceInfo>),
    /// The transport could not tell which devices it sees.
    EnumerationFailed,
    /// The connection stands (`true`), or failed or took too long.
    Connected(bool),
    /// The records read from the device, or `None` where reading failed.
    Extracted(Option<Vec<Record>>),
    /// The device is disconnected (`true`), or that failed or took too
    /// long.
    Disconnected(bool),
    /// The store has taken the records (`true`) or refused them.
    Persisted(bool),
    /// Discovery has stopped.
    DiscoveryStopped,
}

/// The mathematical value of a [`LoaderEvent`].
pub enum LoaderEventView {
    Begin,
    DiscoveryStarted,
    Devices(Seq<DeviceInfoView>),
    EnumerationFailed,
    Connected(bool),
    Extracted(Option<Seq<RecordView>>),
    Disconnected(bool),
    Persisted(bool),
    DiscoveryStopped,
}

impl View for LoaderEvent {
    type V = LoaderEventView;

    open spec fn view(&self) -> LoaderEventView {
        match self {
            LoaderEvent::Begin => LoaderEventView::Begin,
            LoaderEvent::DiscoveryStarted => LoaderEventView::DiscoveryStarted,
            LoaderEvent::Devices(devices) => LoaderEventView::Devices(devices.deep_view()),
            LoaderEvent::EnumerationFailed => LoaderEventView::EnumerationFailed,
            LoaderEvent::Connected(ok) => LoaderEventView::Connected(*ok),
            LoaderEvent::Extracted(records) => LoaderEventView::Extracted(
                match records {
                    Some(records) => Some(records.deep_view()),
                    None => None,
                },
            ),
            LoaderEvent::Disconnected(ok) => LoaderEventView::Disconnected(*ok),
            LoaderEvent::Persisted(ok) => LoaderEventView::Persisted(*ok),
            LoaderEvent::DiscoveryStopped => LoaderEventView::DiscoveryStopped,
        }
    }
}

/// What the caller is to do next.
#[derive(Debug)]
pub enum LoaderAction {
    /// Start discovery.
    StartDiscovery,
    /// Wait `after_ms`, then report the visible devices.
    Enumerate { after_ms: u64 },
    /// Connect to the device within `timeout_ms`.
    Connect { device: Device, timeout_ms: u64 },
    /// Read the device out.
    Extract { device: Device },
    /// Disconnect from the device within `timeout_ms`.
    Disconnect { device: Device, timeout_ms: u64 },
    /// Hand the records to the store.
    Persist { records: Vec<Record> },
    /// Stop discovery.
    StopDiscovery,
    /// Return.
    Return,
}

/// The mathematical value of a [`LoaderAction`].
pub enum LoaderActionView {
    StartDiscovery,
    Enumerate { after_ms: u64 },
    Connect { device: Device, timeout_ms: u64 },
    Extract { device: Device },
    Disconnect { device: Device, timeout_ms: u64 },
    Persist { records: Seq<RecordView> },
    StopDiscovery,
    Return,
}

impl View for LoaderAction {
    type V = LoaderActionView;

    open spec fn view(&self) -> LoaderActionView {
        match self {
            LoaderAction::StartDiscovery => LoaderActionView::StartDiscovery,
            LoaderAction::Enumerate { after_ms } => LoaderActionView::Enumerate {
                after_ms: *after_ms,
            },
            LoaderAction::Connect { device, timeout_ms } => LoaderActionView::Connect {
                device: *device,
                timeout_ms: *timeout_ms,
            },
            LoaderAction::Extract { device } => LoaderActionView::Extract { device: *device },
            LoaderAction::Disconnect { device, timeout_ms } => LoaderActionView::Disconnect {
                device: *device,
                timeout_ms: *timeout_ms,
            },
            LoaderAction::Persist { records } => LoaderActionView::Persist {
                records: records.deep_view(),
            },
            LoaderAction::StopDiscovery => LoaderActionView::StopDiscovery,
            LoaderAction::Return => LoaderActionView::Return,
        }
    }
}

/// The mathematical value of a [`Loader`].
pub struct LoaderView {
    /// The keys of the paired devices.
    pub paired: Set<u64>,
    /// The backoff table.
    pub backoff: Map<u64, Timestamp>,
    /// Where the loader stands.
    pub state: LoaderState,
    /// The devices of this round that are still to be looked at.
    pub pending: Seq<DeviceInfoView>,
    /// The records that wait for the store.
    pub records: Seq<RecordView>,
}

/// Whether the loader, in a given state, has asked for what the event
/// reports.
pub open spec fn spec_expects(state: LoaderState, event: LoaderEventView) -> bool {
    match (state, event) {
        (LoaderState::Idle, LoaderEventView::Begin) => true,
        (LoaderState::Discovering, LoaderEventView::DiscoveryStarted) => true,
        (LoaderState::Enumerating, LoaderEventView::Devices(_)) => true,
        (LoaderState::Enumerating, LoaderEventView::EnumerationFailed) => true,
        (LoaderState::Connecting(_), LoaderEventView::Connected(_)) => true,
        (LoaderState::Extracting(_), LoaderEventView::Extracted(_)) => true,
        (LoaderState::Disconnecting(_), LoaderEventView::Disconnected(_)) => true,
        (LoaderState::Persisting(_), LoaderEventView::Persisted(_)) => true,
        (LoaderState::Stopping, LoaderEventView::DiscoveryStopped) => true,
        _ => false,
    }
}

/// The loader turns to the next device of the round: the first pending
/// device that gets a decoder is connected to, and those before it are
/// passed over. When the round is over the loader looks for devices again
/// after a tick if it is still to run, and stops discovery if not.
pub open spec fn spec_advance(loader: LoaderView, running: bool, now: Timestamp) -> (
    LoaderView,
    LoaderActionView,
)
    decreases loader.pending.len(),
{
    if loader.pending.len() == 0 {
        if running {
            (
                LoaderView { state: LoaderState::Enumerating, ..loader },
                LoaderActionView::Enumerate { after_ms: TICK_MS },
            )
        } else {
            (
                LoaderView { state: LoaderState::Stopping, ..loader },
                LoaderActionView::StopDiscovery,
            )
        }
    } else {
        let rest = LoaderView { pending: loader.pending.skip(1), ..loader };
        match spec_classify(loader.paired, loader.backoff, loader.pending[0], now) {
            Some(device) => (
                LoaderView { state: LoaderState::Connecting(device), ..rest },
                LoaderActionView::Connect { device, timeout_ms: CONNECT_TIMEOUT_MS },
            ),
            None => spec_advance(rest, running, now),
        }
    }
}

/// The loader after an event, and what the caller is to do next.
/// `running` tells whether the loader is still to run, and `now` is the
/// time.
///
/// A failure on the way of one device (no connection, no data, a store
/// that refuses) makes the loader turn to the next device, and a failed
/// enumeration makes it wait for the next tick: none of them ends the
/// run. An event that the loader has not asked for leaves it as it is
/// and is answered with `Return`.
pub open spec fn spec_step(
    loader: LoaderView,
    event: LoaderEventView,
    running: bool,
    now: Timestamp,
) -> (LoaderView, LoaderActionView) {
    match (loader.state, event) {
        (LoaderState::Idle, LoaderEventView::Begin) => (
            LoaderView { state: LoaderState::Discovering, ..loader },
            LoaderActionView::StartDiscovery,
        ),
        (LoaderState::Discovering, LoaderEventView::DiscoveryStarted) => spec_advance(
            LoaderView { pending: Seq::empty(), ..loader },
            running,
            now,
        ),
        (LoaderState::Enumerating, LoaderEventView::Devices(devices)) => spec_advance(
            LoaderView { pending: devices, ..loader },
            running,
            now,
        ),
        (LoaderState::Enumerating, LoaderEventView::EnumerationFailed) => spec_advance(
            LoaderView { pending: Seq::empty(), ..loader },
            running,
            now,
        ),
        (LoaderState::Connecting(device), LoaderEventView::Connected(ok)) => if ok {
            (
                LoaderView { state: LoaderState::Extracting(device), ..loader },
                LoaderActionView::Extract { device },
            )
        } else {
            spec_advance(loader, running, now)
        },
        (LoaderState::Extracting(device), LoaderEventView::Extracted(records)) => match records {
            Some(records) => (
                LoaderView { state: LoaderState::Disconnecting(device), records, ..loader },
                LoaderActionView::Disconnect { device, timeout_ms: CONNECT_TIMEOUT_MS },
            ),
            None => spec_advance(loader, running, now),
        },
        (LoaderState::Disconnecting(device), LoaderEventView::Disconnected(_)) => (
            LoaderView {
                state: LoaderState::Persisting(device),
                records: Seq::empty(),
                ..loader
            },
            LoaderActionView::Persist { records: loader.records },
        ),
        (LoaderState::Persisting(device), LoaderEventView::Persisted(ok)) => if ok {
            spec_advance(
                LoaderView {
                    backoff: loader.backoff.insert(
                        spec_device_key(device.spec_mac_address()),
                        spec_expiry(now),
                    ),
                    ..loader
                },
                running,
                now,
            )
        } else {
            spec_advance(loader, running, now)
        },
        (LoaderState::Stopping, LoaderEventView::DiscoveryStopped) => (
            LoaderView { state: LoaderState::Stopped, ..loader },
            LoaderActionView::Return,
        ),
        _ => (loader, LoaderActionView::Return),
    }
}

/// The loader: the factory, and where the loop stands.
pub struct Loader {
    factory: FactoryImpl,
    state: LoaderState,
    devices: Vec<DeviceInfo>,
    next: usize,
    records: Vec<Record>,
}

impl View for Loader {
    type V = LoaderView;

    closed spec fn view(&self) -> LoaderView {
        LoaderView {
            paired: self.factory.paired(),
            backoff: self.factory.backoff(),
            state: self.state,
            pending: self.devices.deep_view().skip(self.next as int),
            records: self.records.deep_view(),
        }
    }
}

impl Loader {
    /// Whether the loader's bookkeeping is sound. Every loader that
    /// [`Loader::new`] made is, and stays so.
    pub closed spec fn wf(&self) -> bool {
        self.next <= self.devices.len()
    }

    /// A loader that has not started, with the given factory.
    pub fn new(factory: FactoryImpl) -> (loader: Self)
        ensures
            loader.wf(),
            loader@ == (LoaderView {
                paired: factory.paired(),
                backoff: factory.backoff(),
                state: LoaderState::Idle,
                pending: Seq::empty(),
                records: Seq::empty(),
            }),
    {
        let loader = Loader {
            factory,
            state: LoaderState::Idle,
            devices: Vec::new(),
            next: 0,
            records: Vec::new(),
        };
        assert(loader@.pending =~= Seq::<DeviceInfoView>::empty());
        assert(loader@.records =~= Seq::<RecordView>::empty());
        loader
    }

    /// Where the loader stands.
    pub fn state(&self) -> (state: LoaderState)
        ensures
            state == self@.state,
    {
        self.state
    }

    /// Whether the loader has asked for what the event reports.
    pub fn expects(&self, event: &LoaderEvent) -> (expected: bool)
        ensures
            expected == spec_expects(self@.state, event@),
    {
        match (self.state, event) {
            (LoaderState::Idle, LoaderEvent::Begin) => true,
            (LoaderState::Discovering, LoaderEvent::DiscoveryStarted) => true,
            (LoaderState::Enumerating, LoaderEvent::Devices(_)) => true,
            (LoaderState::Enumerating, LoaderEvent::EnumerationFailed) => true,
            (LoaderState::Connecting(_), LoaderEvent::Connected(_)) => true,
            (LoaderState::Extracting(_), LoaderEvent::Extracted(_)) => true,
            (LoaderState::Disconnecting(_), LoaderEvent::Disconnected(_)) => true,
            (LoaderState::Persisting(_), LoaderEvent::Persisted(_)) => true,
            (LoaderState::Stopping, LoaderEvent::DiscoveryStopped) => true,
            _ => false,
        }
    }

    /// Turns to the next device of the round.
    fn advance(&mut self, running: bool, now: Timestamp) -> (action: LoaderAction)
        requires
            old(self).wf(),
        ensures
            final(self).wf(),
            (final(self)@, action@) == spec_advance(old(self)@, running, now),
    {
        while self.next < self.devices.len()
            invariant
                self.wf(),
                spec_advance(self@, running, now) == spec_advance(old(self)@, running, now),
            decreases self.devices.len() - self.next,
        {
            let ghost before = self@;
            let found = self.factory.make_device(&self.devices[self.next], now);
            proof {
                assert(before.pending[0] == self.devices[self.next as int]@);
                assert(self.devices.deep_view().skip(self.next as int + 1) =~= before.pending.skip(
                    1,
                ));
            }
            self.next = self.next + 1;
            match found {
                Some(device) => {
                    self.state = LoaderState::Connecting(device);
                    return LoaderAction::Connect { device, timeout_ms: CONNECT_TIMEOUT_MS };
                },
                None => {},
            }
        }
        assert(self@.pending.len() == 0);
        if running {
            self.state = LoaderState::Enumerating;
            LoaderAction::Enumerate { after_ms: TICK_MS }
        } else {
            self.state = LoaderState::Stopping;
            LoaderAction::StopDiscovery
        }
    }

    /// Takes what the caller reports at the time `now` and tells what to
    /// do next.
    pub fn step(&mut self, event: LoaderEvent, running: bool, now: Timestamp) -> (action:
        LoaderAction)
        requires
            old(self).wf(),
            now.secs + BACKOFF_SECONDS <= i64::MAX,
        ensures
            final(self).wf(),
            (final(self)@, action@) == spec_step(old(self)@, event@, running, now),
    {
        match (self.state, event) {
            (LoaderState::Idle, LoaderEvent::Begin) => {
                self.state = LoaderState::Discovering;
                LoaderAction::StartDiscovery
            },
            (LoaderState::Discovering, LoaderEvent::DiscoveryStarted) => {
                self.devices = Vec::new();
                self.next = 0;
                assert(self@.pending =~= Seq::<DeviceInfoView>::empty());
                self.advance(running, now)
            },
            (LoaderState::Enumerating, LoaderEvent::Devices(devices)) => {
                let ghost seen = devices.deep_view();
                self.devices = devices;
                self.next = 0;
                assert(self@.pending =~= seen);
                self.advance(running, now)
            },
            (LoaderState::Enumerating, LoaderEvent::EnumerationFailed) => {
                self.devices = Vec::new();
                self.next = 0;
                assert(self@.pending =~= Seq::<DeviceInfoView>::empty());
                self.advance(running, now)
            },
            (LoaderState::Connecting(device), LoaderEvent::Connected(ok)) => {
                if ok {
                    self.state = LoaderState::Extracting(device);
                    LoaderAction::Extract { device }
                } else {
                    self.advance(running, now)
                }
            },
            (LoaderState::Extracting(device), LoaderEvent::Extracted(records)) => {
                match records {
                    Some(records) => {
                        self.records = records;
                        self.state = LoaderState::Disconnecting(device);
                        LoaderAction::Disconnect { device, timeout_ms: CONNECT_TIMEOUT_MS }
                    },
                    None => self.advance(running, now),
                }
            },
            (LoaderState::Disconnecting(device), LoaderEvent::Disconnected(_)) => {
                let mut records: Vec<Record> = Vec::new();
                assert(records.deep_view() =~= Seq::<RecordView>::empty());
                core::mem::swap(&mut self.records, &mut records);
                self.state = LoaderState::Persisting(device);
                LoaderAction::Persist { records }
            },
            (LoaderState::Persisting(device), LoaderEvent::Persisted(ok)) => {
                if ok {
                    self.factory.mark_processed(&device, now);
                }
                self.advance(running, now)
            },
            (LoaderState::Stopping, LoaderEvent::DiscoveryStopped) => {
                self.state = LoaderState::Stopped;
                LoaderAction::Return
            },
            _ => LoaderAction::Return,
        }
    }
}

/// Turning to the next device changes neither the registry, nor the
/// backoff table, nor the records that wait for the store.
pub proof fn lemma_advance_keeps_tables(loader: LoaderView, running: bool, now: Timestamp)
    ensures
        spec_advance(loader, running, now).0.paired == loader.paired,
        spec_advance(loader, running, now).0.backoff == loader.backoff,
        spec_advance(loader, running, now).0.records == loader.records,
    decreases loader.pending.len(),
{
    if loader.pending.len() > 0 {
        let rest = LoaderView { pending: loader.pending.skip(1), ..loader };
        lemma_advance_keeps_tables(rest, running, now);
    }
}

/// The loader connects only to a device that the factory gave a decoder
/// at that time, and it leaves the loop only when it is told to stop.
pub proof fn lemma_advance_outcome(loader: LoaderView, running: bool, now: Timestamp)
    ensures
        ({
            let (after, action) = spec_advance(loader, running, now);
            match action {
                LoaderActionView::Connect { device, timeout_ms } => {
                    &&& after.state == LoaderState::Connecting(device)
                    &&& timeout_ms == CONNECT_TIMEOUT_MS
                    &&& exists|i: int|
                        0 <= i < loader.pending.len() && spec_classify(
                            loader.paired,
                            loader.backoff,
                            #[trigger] loader.pending[i],
                            now,
                        ) == Some(device)
                },
                LoaderActionView::Enumerate { after_ms } => {
                    &&& running
                    &&& after_ms == TICK_MS
                    &&& after.state == LoaderState::Enumerating
                    &&& forall|i: int|
                        0 <= i < loader.pending.len() ==> spec_classify(
                            loader.paired,
                            loader.backoff,
                            #[trigger] loader.pending[i],
                            now,
                        ) is None
                },
                LoaderActionView::StopDiscovery => {
                    &&& !running
                    &&& after.state == LoaderState::Stopping
                },
                _ => false,
            }
        }),
    decreases loader.pending.len(),
{
    if loader.pending.len() > 0 {
        let rest = LoaderView { pending: loader.pending.skip(1), ..loader };
        lemma_advance_outcome(rest, running, now);
        let (after, action) = spec_advance(loader, running, now);
        match spec_classify(loader.paired, loader.backoff, loader.pending[0], now) {
            Some(device) => {
                assert(spec_classify(loader.paired, loader.backoff, loader.pending[0], now)
                    == Some(device));
            },
            None => {
                match action {
                    LoaderActionView::Connect { device, timeout_ms } => {
                        let i = choose|i: int|
                            0 <= i < rest.pending.len() && spec_classify(
                                rest.paired,
                                rest.backoff,
                                #[trigger] rest.pending[i],
                                now,
                            ) == Some(device);
                        assert(loader.pending[i + 1] == rest.pending[i]);
                    },
                    LoaderActionView::Enumerate { after_ms } => {
                        assert forall|i: int| 0 <= i < loader.pending.len() implies spec_classify(
                            loader.paired,
                            loader.backoff,
                            #[trigger] loader.pending[i],
                            now,
                        ) is None by {
                            if i > 0 {
                                assert(loader.pending[i] == rest.pending[i - 1]);
                            }
                        }
                    },
                    _ => {},
                }
            },
        }
    }
}

/// A device is marked as processed when the store has taken its records,
/// and at no other time: any other event, a failed connection, a failed
/// extraction and a refusal of the store among them, leaves the backoff
/// table as it was. The registry never changes.
pub proof fn lemma_marked_only_after_persistence(
    loader: LoaderView,
    event: LoaderEventView,
    running: bool,
    now: Timestamp,
)
    ensures
        ({
            let after = spec_step(loader, event, running, now).0;
            &&& after.paired == loader.paired
            &&& match (loader.state, event) {
                (LoaderState::Persisting(device), LoaderEventView::Persisted(true)) => after.backoff
                    == loader.backoff.insert(
                    spec_device_key(device.spec_mac_address()),
                    spec_expiry(now),
                ),
                _ => after.backoff == loader.backoff,
            }
        }),
{
    match (loader.state, event) {
        (LoaderState::Discovering, LoaderEventView::DiscoveryStarted) => {
            lemma_advance_keeps_tables(
                LoaderView { pending: Seq::empty(), ..loader },
                running,
                now,
            );
        },
        (LoaderState::Enumerating, LoaderEventView::Devices(devices)) => {
            lemma_advance_keeps_tables(LoaderView { pending: devices, ..loader }, running, now);
        },
        (LoaderState::Enumerating, LoaderEventView::EnumerationFailed) => {
            lemma_advance_keeps_tables(
                LoaderView { pending: Seq::empty(), ..loader },
                running,
                now,
            );
        },
        (LoaderState::Persisting(device), LoaderEventView::Persisted(true)) => {
            lemma_advance_keeps_tables(
                LoaderView {
                    backoff: loader.backoff.insert(
                        spec_device_key(device.spec_mac_address()),
                        spec_expiry(now),
                    ),
                    ..loader
                },
                running,
                now,
            );
        },
        _ => {
            lemma_advance_keeps_tables(loader, running, now);
        },
    }
}

/// The store is handed exactly the records that were read from the
/// device, whether or not the device could be disconnected.
pub proof fn lemma_persists_what_was_extracted(
    loader: LoaderView,
    device: Device,
    records: Seq<RecordView>,
    disconnected: bool,
    running: bool,
    now: Timestamp,
    later: Timestamp,
)
    requires
        loader.state == LoaderState::Extracting(device),
    ensures
        ({
            let (extracted, first) = spec_step(
                loader,
                LoaderEventView::Extracted(Some(records)),
                running,
                now,
            );
            let (persisting, second) = spec_step(
                extracted,
                LoaderEventView::Disconnected(disconnected),
                running,
                later,
            );
            &&& first == (LoaderActionView::Disconnect { device, timeout_ms: CONNECT_TIMEOUT_MS })
            &&& second == (LoaderActionView::Persist { records })
            &&& persisting.state == LoaderState::Persisting(device)
        }),
{
}

/// A failed enumeration does not end the run: the loader looks for
/// devices again after a tick while it is to run, and stops discovery
/// once it is not.
pub proof fn lemma_failed_enumeration_goes_on(loader: LoaderView, running: bool, now: Timestamp)
    requires
        loader.state == LoaderState::Enumerating,
    ensures
        ({
            let (after, action) = spec_step(
                loader,
                LoaderEventView::EnumerationFailed,
                running,
                now,
            );
            &&& after.paired == loader.paired
            &&& after.backoff == loader.backoff
            &&& running ==> action == (LoaderActionView::Enumerate { after_ms: TICK_MS })
                && after.state == LoaderState::Enumerating
            &&& !running ==> action == LoaderActionView::StopDiscovery && after.state
                == LoaderState::Stopping
        }),
{
}

/// The loader returns only after it has stopped discovery, and it stops
/// discovery only when it is no longer to run.
pub proof fn lemma_returns_after_stop(
    loader: LoaderView,
    event: LoaderEventView,
    running: bool,
    now: Timestamp,
)
    requires
        spec_expects(loader.state, event),
    ensures
        spec_step(loader, event, running, now).1 is Return ==> loader.state
            == LoaderState::Stopping,
        spec_step(loader, event, running, now).1 is StopDiscovery ==> !running,
{
    match (loader.state, event) {
        (LoaderState::Discovering, LoaderEventView::DiscoveryStarted) => {
            lemma_advance_outcome(LoaderView { pending: Seq::empty(), ..loader }, running, now);
        },
        (LoaderState::Enumerating, LoaderEventView::Devices(devices)) => {
            lemma_advance_outcome(LoaderView { pending: devices, ..loader }, running, now);
        },
        (LoaderState::Enumerating, LoaderEventView::EnumerationFailed) => {
            lemma_advance_outcome(LoaderView { pending: Seq::empty(), ..loader }, running, now);
        },
        (LoaderState::Persisting(device), LoaderEventView::Persisted(true)) => {
            lemma_advance_outcome(
                LoaderView {
                    backoff: loader.backoff.insert(
                        spec_device_key(device.spec_mac_address()),
                        spec_expiry(now),
                    ),
                    ..loader
                },
                running,
                now,
            );
        },
        _ => {
            lemma_advance_outcome(loader, running, now);
        },
    }
}

} // verus!
