//! The factory that picks a decoder for a discovered device, and the
//! table that keeps a processed device from being processed again at once.

use std::collections::{HashMap, HashSet};
use vstd::prelude::*;

use crate::devices::contour::ElitePlus;
use crate::devices::huawei::AH100;
use crate::devices::soehnle::{Shape200, SystoMC400};
use crate::macaddress::{spec_format, spec_key, spec_parse, MacAddress};
use vstd::string::StringSliceAdditionalSpecFns;
use crate::time::Timestamp;

verus! {

broadcast use vstd::std_specs::hash::group_hash_axioms;

/// How long a processed device is left alone, in seconds.
pub const BACKOFF_SECONDS: i64 = 300;

/// What the transport reports of a device it can see.
#[derive(Clone, Debug, PartialEq, Eq)]
pub struct DeviceInfo {
    /// Whether the device is in range: whether a signal strength is known.
    pub in_range: bool,
    /// The identity of the device.
    pub mac_address: MacAddress,
    /// The name the device announces.
    pub name: String,
}

/// The mathematical value of a [`DeviceInfo`].
pub struct DeviceInfoView {
    pub in_range: bool,
    pub mac_address: MacAddress,
    pub name: Seq<char>,
}

impl View for DeviceInfo {
    type V = DeviceInfoView;

    open spec fn view(&self) -> DeviceInfoView {
        DeviceInfoView {
            in_range: self.in_range,
            mac_address: self.mac_address,
            name: self.name@,
        }
    }
}

impl DeepView for DeviceInfo {
    type V = DeviceInfoView;

    open spec fn deep_view(&self) -> DeviceInfoView {
        self@
    }
}

/// The name under which a device is shown: the name it announces, or its
/// address in text where it announces none.
pub fn display_device(name: Option<String>, mac_address: &MacAddress) -> (shown: String)
    ensures
        shown@ == match name {
            Some(name) => name@,
            None => spec_format(*mac_address),
        },
{
    match name {
        Some(name) => name,
        None => mac_address.to_string(),
    }
}

/// A decoder, of one of the supported models, bound to one device.
#[derive(Clone, Copy, Debug, PartialEq, Eq)]
pub enum Device {
    ElitePlus(ElitePlus),
    Shape200(Shape200),
    SystoMC400(SystoMC400),
    AH100(AH100),
}

impl Device {
    /// The address of the device that the decoder is bound to.
    pub open spec fn spec_mac_address(self) -> MacAddress {
        match self {
            Device::ElitePlus(d) => d.mac_address,
            Device::Shape200(d) => d.mac_address,
            Device::SystoMC400(d) => d.mac_address,
            Device::AH100(d) => d.mac_address,
        }
    }

    /// The address of the device that the decoder is bound to.
    pub fn mac_address(&self) -> (mac_address: MacAddress)
        ensures
            mac_address == self.spec_mac_address(),
    {
        match self {
            Device::ElitePlus(d) => d.mac_address,
            Device::Shape200(d) => d.mac_address,
            Device::SystoMC400(d) => d.mac_address,
            Device::AH100(d) => d.mac_address,
        }
    }
}

/// Whether `needle` occurs in `haystack` as a run of characters.
pub open spec fn spec_contains(haystack: Seq<char>, needle: Seq<char>) -> bool {
    exists|i: int|
        0 <= i && i + needle.len() <= haystack.len() && #[trigger] haystack.subrange(
            i,
            i + needle.len(),
        ) == needle
}

/// Whether a name contains a pattern, by `str::contains` of the standard
/// library. Taken on trust: it answers `true` exactly when the pattern
/// occurs in the name as a run of characters, case and all.
#[verifier::external_body]
fn name_contains(name: &str, pattern: &str) -> (found: bool)
    ensures
        found == spec_contains(name@, pattern@),
{
    name.contains(pattern)
}

/// The decoder for a device of the given name and address: the first of
/// Contour, Shape200, Systo MC 400 and CH100 that the name contains
/// decides, and a name with none of them has no decoder.
pub open spec fn spec_decoder_for(name: Seq<char>, mac_address: MacAddress) -> Option<Device> {
    if spec_contains(name, "Contour"@) {
        Some(Device::ElitePlus(ElitePlus { mac_address }))
    } else if spec_contains(name, "Shape200"@) {
        Some(Device::Shape200(Shape200 { mac_address }))
    } else if spec_contains(name, "Systo MC 400"@) {
        Some(Device::SystoMC400(SystoMC400 { mac_address }))
    } else if spec_contains(name, "CH100"@) {
        Some(Device::AH100(AH100 { mac_address }))
    } else {
        None
    }
}

/// The key under which the registry and the backoff table hold a device.
pub open spec fn spec_device_key(mac_address: MacAddress) -> u64 {
    spec_key(mac_address@) as u64
}

/// Whether a device is still left alone at `now`: whether the table holds
/// an expiry for it that is strictly later than `now`.
pub open spec fn spec_backed_off(
    backoff: Map<u64, Timestamp>,
    mac_address: MacAddress,
    now: Timestamp,
) -> bool {
    backoff.contains_key(spec_device_key(mac_address)) && backoff[spec_device_key(
        mac_address,
    )].spec_is_after(now)
}

/// The decoder that a discovered device gets at `now`: none where it is
/// out of range, not paired, or still backed off, else the one that its
/// name calls for.
pub open spec fn spec_make_device(
    paired: Set<u64>,
    backoff: Map<u64, Timestamp>,
    in_range: bool,
    mac_address: MacAddress,
    name: Seq<char>,
    now: Timestamp,
) -> Option<Device> {
    if !in_range {
        None
    } else if !paired.contains(spec_device_key(mac_address)) {
        None
    } else if spec_backed_off(backoff, mac_address, now) {
        None
    } else {
        spec_decoder_for(name, mac_address)
    }
}

/// The decoder that a discovered device gets at `now`.
pub open spec fn spec_classify(
    paired: Set<u64>,
    backoff: Map<u64, Timestamp>,
    info: DeviceInfoView,
    now: Timestamp,
) -> Option<Device> {
    spec_make_device(paired, backoff, info.in_range, info.mac_address, info.name, now)
}

/// When the backoff of a device that was processed at `now` ends.
pub open spec fn spec_expiry(now: Timestamp) -> Timestamp
    recommends
        now.secs + BACKOFF_SECONDS <= i64::MAX,
{
    now.spec_plus_seconds(BACKOFF_SECONDS as int)
}

/// For each processed device the time until which it is left alone.
struct BackoffTable {
    expiry_timestamps: HashMap<u64, Timestamp>,
}

impl BackoffTable {
    fn new() -> (table: Self)
        ensures
            table.expiry_timestamps@ == Map::<u64, Timestamp>::empty(),
    {
        Self { expiry_timestamps: HashMap::new() }
    }

    fn check(&self, mac_address: &MacAddress, now: Timestamp) -> (backed_off: bool)
        ensures
            backed_off == spec_backed_off(self.expiry_timestamps@, *mac_address, now),
    {
        let key = mac_address.key();
        match self.expiry_timestamps.get(&key) {
            Some(expiry) => expiry.is_after(&now),
            None => false,
        }
    }

    fn mark(&mut self, mac_address: &MacAddress, now: Timestamp) -> (expiry: Timestamp)
        requires
            now.secs + BACKOFF_SECONDS <= i64::MAX,
        ensures
            expiry == spec_expiry(now),
            final(self).expiry_timestamps@ == old(self).expiry_timestamps@.insert(
                spec_device_key(*mac_address),
                expiry,
            ),
    {
        let expiry = Timestamp { secs: now.secs + BACKOFF_SECONDS, nanos: now.nanos };
        self.expiry_timestamps.insert(mac_address.key(), expiry);
        expiry
    }
}

/// The addresses that the lines of a registry spell, in the order of the
/// lines; a line that spells no address is passed over.
pub open spec fn spec_registry(lines: Seq<Seq<char>>) -> Seq<MacAddress>
    decreases lines.len(),
{
    if lines.len() == 0 {
        Seq::empty()
    } else {
        let earlier = spec_registry(lines.drop_last());
        match spec_parse(vstd::utf8::encode_utf8(lines.last())) {
            Ok(mac_address) => earlier.push(mac_address),
            Err(_) => earlier,
        }
    }
}

/// Reads the registry of paired devices from its lines, one address to a
/// line. Blank lines and lines that spell no address are passed over.
pub fn parse_registry(lines: &Vec<String>) -> (paired: Vec<MacAddress>)
    ensures
        paired@ == spec_registry(lines.deep_view()),
{
    let mut paired: Vec<MacAddress> = Vec::new();
    let ghost all = lines.deep_view();
    let mut i: usize = 0;
    while i < lines.len()
        invariant
            i <= lines.len(),
            all == lines.deep_view(),
            all.len() == lines.len(),
            paired@ == spec_registry(all.take(i as int)),
        decreases lines.len() - i,
    {
        proof {
            let upto = all.take(i + 1);
            assert(upto.drop_last() == all.take(i as int));
            assert(upto.last() == lines[i as int]@);
        }
        match MacAddress::from_str(lines[i].as_str()) {
            Ok(mac_address) => {
                paired.push(mac_address);
            },
            Err(_) => {},
        }
        i = i + 1;
    }
    proof {
        assert(all.take(all.len() as int) == all);
    }
    paired
}

/// The factory: the registry of paired devices and the backoff table.
pub struct FactoryImpl {
    paired_devices: HashSet<u64>,
    backoff_table: BackoffTable,
}

impl FactoryImpl {
    /// The keys of the paired devices.
    pub closed spec fn paired(&self) -> Set<u64> {
        self.paired_devices@
    }

    /// The backoff table: for the key of each processed device the time
    /// until which it is left alone.
    pub closed spec fn backoff(&self) -> Map<u64, Timestamp> {
        self.backoff_table.expiry_timestamps@
    }

    /// Whether a device is in the registry.
    pub open spec fn spec_is_paired(&self, mac_address: MacAddress) -> bool {
        self.paired().contains(spec_device_key(mac_address))
    }

    /// A factory for the given paired devices, with an empty backoff
    /// table.
    pub fn new(paired_devices: &Vec<MacAddress>) -> (factory: Self)
        ensures
            forall|mac_address: MacAddress|
                factory.spec_is_paired(mac_address) <==> paired_devices@.contains(mac_address),
            factory.backoff() == Map::<u64, Timestamp>::empty(),
    {
        let mut paired: HashSet<u64> = HashSet::new();
        let mut i: usize = 0;
        while i < paired_devices.len()
            invariant
                i <= paired_devices.len(),
                forall|k: u64|
                    paired@.contains(k) <==> exists|j: int|
                        0 <= j < i && k == spec_device_key(#[trigger] paired_devices[j]),
            decreases paired_devices.len() - i,
        {
            paired.insert(paired_devices[i].key());
            i = i + 1;
        }
        let factory = Self { paired_devices: paired, backoff_table: BackoffTable::new() };
        proof {
            assert forall|mac_address: MacAddress|
                factory.spec_is_paired(mac_address) <==> paired_devices@.contains(
                    mac_address,
                ) by {
                if factory.spec_is_paired(mac_address) {
                    let j = choose|j: int|
                        0 <= j < paired_devices.len() && spec_device_key(mac_address)
                            == spec_device_key(#[trigger] paired_devices[j]);
                    crate::macaddress::lemma_key_injective(mac_address, paired_devices[j]);
                }
                if paired_devices@.contains(mac_address) {
                    let j = choose|j: int|
                        0 <= j < paired_devices.len() && paired_devices[j] == mac_address;
                    assert(spec_device_key(mac_address) == spec_device_key(paired_devices[j]));
                }
            }
        }
        factory
    }

    /// A factory for the devices that the lines of a registry name, with an
    /// empty backoff table.
    pub fn from_lines(lines: &Vec<String>) -> (factory: Self)
        ensures
            forall|mac_address: MacAddress|
                factory.spec_is_paired(mac_address) <==> spec_registry(
                    lines.deep_view(),
                ).contains(mac_address),
            factory.backoff() == Map::<u64, Timestamp>::empty(),
    {
        let paired = parse_registry(lines);
        Self::new(&paired)
    }

    /// Picks the decoder for a discovered device as of `now`.
    ///
    /// The checks come in this order, and the first that fails decides:
    /// the device is in range; it is paired; it is not backed off; its
    /// name contains the name of a supported model.
    pub fn make_device(&self, ble_device: &DeviceInfo, now: Timestamp) -> (device: Option<Device>)
        ensures
            device == spec_make_device(
                self.paired(),
                self.backoff(),
                ble_device.in_range,
                ble_device.mac_address,
                ble_device.name@,
                now,
            ),
    {
        let mac_address = ble_device.mac_address;
        let key = mac_address.key();
        if !ble_device.in_range || !self.paired_devices.contains(&key) {
            None
        } else if self.backoff_table.check(&mac_address, now) {
            None
        } else if name_contains(ble_device.name.as_str(), "Contour") {
            Some(Device::ElitePlus(ElitePlus::new(mac_address)))
        } else if name_contains(ble_device.name.as_str(), "Shape200") {
            Some(Device::Shape200(Shape200::new(mac_address)))
        } else if name_contains(ble_device.name.as_str(), "Systo MC 400") {
            Some(Device::SystoMC400(SystoMC400::new(mac_address)))
        } else if name_contains(ble_device.name.as_str(), "CH100") {
            Some(Device::AH100(AH100::new(mac_address)))
        } else {
            None
        }
    }

    /// Notes that a device was processed at `now`: it is backed off until
    /// five minutes later. Returns the end of the backoff.
    pub fn mark_processed(&mut self, device: &Device, now: Timestamp) -> (expiry: Timestamp)
        requires
            now.secs + BACKOFF_SECONDS <= i64::MAX,
        ensures
            expiry == spec_expiry(now),
            final(self).paired() == old(self).paired(),
            final(self).backoff() == old(self).backoff().insert(
                spec_device_key(device.spec_mac_address()),
                expiry,
            ),
    {
        let mac_address = device.mac_address();
        self.backoff_table.mark(&mac_address, now)
    }
}

/// A device that is out of range gets no decoder, whatever its name and
/// whether or not it is paired.
pub proof fn lemma_out_of_range_never_classified(
    paired: Set<u64>,
    backoff: Map<u64, Timestamp>,
    mac_address: MacAddress,
    name: Seq<char>,
    now: Timestamp,
)
    ensures
        spec_make_device(paired, backoff, false, mac_address, name, now) is None,
{
}

/// A device that is not paired gets no decoder.
pub proof fn lemma_unpaired_never_classified(
    paired: Set<u64>,
    backoff: Map<u64, Timestamp>,
    in_range: bool,
    mac_address: MacAddress,
    name: Seq<char>,
    now: Timestamp,
)
    requires
        !paired.contains(spec_device_key(mac_address)),
    ensures
        spec_make_device(paired, backoff, in_range, mac_address, name, now) is None,
{
}

/// A device whose backoff has not expired gets no decoder, though it be
/// paired, in range and of a supported model.
pub proof fn lemma_backed_off_never_classified(
    paired: Set<u64>,
    backoff: Map<u64, Timestamp>,
    in_range: bool,
    mac_address: MacAddress,
    name: Seq<char>,
    now: Timestamp,
)
    requires
        backoff.contains_key(spec_device_key(mac_address)),
        backoff[spec_device_key(mac_address)].spec_is_after(now),
    ensures
        spec_make_device(paired, backoff, in_range, mac_address, name, now) is None,
{
}

/// A device that was processed at `processed` is backed off for the five
/// minutes that follow and gets its decoder again from the end of the
/// backoff on.
pub proof fn lemma_classifiable_after_expiry(
    paired: Set<u64>,
    backoff: Map<u64, Timestamp>,
    mac_address: MacAddress,
    name: Seq<char>,
    processed: Timestamp,
    now: Timestamp,
)
    requires
        paired.contains(spec_device_key(mac_address)),
        processed.secs + BACKOFF_SECONDS <= i64::MAX,
    ensures
        ({
            let expiry = spec_expiry(processed);
            let marked = backoff.insert(spec_device_key(mac_address), expiry);
            &&& expiry.secs == processed.secs + 300
            &&& expiry.nanos == processed.nanos
            &&& expiry.spec_is_after(now) ==> spec_make_device(
                paired,
                marked,
                true,
                mac_address,
                name,
                now,
            ) is None
            &&& !expiry.spec_is_after(now) ==> spec_make_device(
                paired,
                marked,
                true,
                mac_address,
                name,
                now,
            ) == spec_decoder_for(name, mac_address)
        }),
{
}

/// Marking one device leaves every other device's backoff as it was.
pub proof fn lemma_mark_is_local(
    backoff: Map<u64, Timestamp>,
    marked: MacAddress,
    other: MacAddress,
    expiry: Timestamp,
    now: Timestamp,
)
    requires
        marked != other,
    ensures
        spec_backed_off(backoff.insert(spec_device_key(marked), expiry), other, now)
            == spec_backed_off(backoff, other, now),
{
    if spec_device_key(marked) == spec_device_key(other) {
        crate::macaddress::lemma_key_bounds(marked);
        crate::macaddress::lemma_key_bounds(other);
        crate::macaddress::lemma_key_injective(marked, other);
    }
}

} // verus!
