//! The Contour Elite Plus glucose meter.
//!
//! The meter speaks the Glucose service of the Bluetooth SIG. On the
//! command to report its stored records it replays every measurement on
//! one characteristic and the context of every measurement (the meal it
//! relates to) on another. The two streams are matched by the sequence
//! number that the meter gives each measurement.

use std::collections::BTreeMap;
use vstd::prelude::*;

use crate::api::{BleCharacteristicEvent, CharacteristicId};
use crate::devices::utils::{
    flag,
    naive_date_time_from_le_bytes,
    spec_flag,
    spec_naive_date_time_from_bytes,
    spec_u16_from_bytes,
    u16_from_bytes,
};
use crate::macaddress::MacAddress;
use crate::measurement::{
    spec_kinds_distinct,
    MealIndicator,
    Record,
    RecordView,
    Source,
    SourceView,
    Value,
};

verus! {

broadcast use {vstd::laws_cmp::group_laws_cmp, vstd::std_specs::btree::group_btree_axioms};

/// The glucose service.
pub const GLUCOSE_SERVICE: u128 = 0x00001808_0000_1000_8000_00805f9b34fb;

/// The characteristic that notifies measurements.
pub const GLUCOSE_CHARACTERISTIC: u128 = 0x00002a18_0000_1000_8000_00805f9b34fb;

/// The characteristic that notifies the context of measurements.
pub const GLUCOSE_MEASUREMENT_CONTEXT_CHARACTERISTIC: u128 =
    0x00002a34_0000_1000_8000_00805f9b34fb;

/// The record access control point, which takes commands.
pub const RACP_CHARACTERISTIC: u128 = 0x00002a52_0000_1000_8000_00805f9b34fb;

/// How long a stream may stay silent before it counts as drained, in
/// milliseconds.
pub const IDLE_TIMEOUT_MS: u64 = 1000;

/// The least length of a measurement event.
pub const MEASUREMENT_LENGTH: usize = 13;

/// The sequence number of a measurement or context event of at least 3
/// bytes: byte 1 is its low byte, byte 2 its high byte.
pub open spec fn spec_sequence_number(bytes: Seq<u8>) -> u16
    recommends
        bytes.len() >= 3,
{
    spec_u16_from_bytes(bytes[2], bytes[1])
}

/// The glucose concentration of a measurement event: bytes 11 and 12, the
/// high byte first.
pub open spec fn spec_glucose(bytes: Seq<u8>) -> u16
    recommends
        bytes.len() >= 13,
{
    spec_u16_from_bytes(bytes[11], bytes[12])
}

/// What a measurement event decodes to: nothing where it is shorter than
/// 13 bytes or bytes 3 to 9 hold no valid date and time, else the sequence
/// number and a record with the glucose reading.
pub open spec fn spec_read_record(mac_address: MacAddress, bytes: Seq<u8>) -> Option<
    (u16, RecordView),
> {
    if bytes.len() < 13 {
        None
    } else {
        match spec_naive_date_time_from_bytes(bytes.subrange(3, 10), true) {
            None => None,
            Some(timestamp) => Some(
                (
                    spec_sequence_number(bytes),
                    RecordView {
                        timestamp,
                        values: seq![Value::Glucose(spec_glucose(bytes) as i32)],
                        raw_data: bytes,
                        source: SourceView::Device(mac_address),
                    },
                ),
            ),
        }
    }
}

/// Where the meal byte of a context event stands: after the 3 header
/// bytes, one byte further if bit 7 of the flags is set and two bytes
/// further if bit 0 is set.
pub open spec fn spec_meal_index(flags: u8) -> int {
    3 + (if spec_flag(flags, 7) {
        1int
    } else {
        0int
    }) + (if spec_flag(flags, 0) {
        2int
    } else {
        0int
    })
}

/// What a context event decodes to: the sequence number it refers to and
/// the meal indicator, where bit 1 of the flags announces one and the
/// event is long enough to hold it; nothing otherwise.
pub open spec fn spec_read_context(bytes: Seq<u8>) -> Option<(u16, MealIndicator)> {
    if bytes.len() < 3 {
        None
    } else if !spec_flag(bytes[0], 1) {
        None
    } else if bytes.len() <= spec_meal_index(bytes[0]) {
        None
    } else {
        Some(
            (
                spec_sequence_number(bytes),
                MealIndicator::spec_from_code(bytes[spec_meal_index(bytes[0])]),
            ),
        )
    }
}

/// The records by sequence number after a run of measurement events: each
/// event that decodes takes the place of what its sequence number held.
pub open spec fn spec_measurements(mac_address: MacAddress, events: Seq<Seq<u8>>) -> Map<
    u16,
    RecordView,
>
    decreases events.len(),
{
    if events.len() == 0 {
        Map::empty()
    } else {
        let earlier = spec_measurements(mac_address, events.drop_last());
        match spec_read_record(mac_address, events.last()) {
            Some((sequence_number, record)) => earlier.insert(sequence_number, record),
            None => earlier,
        }
    }
}

/// A record with one more value at its end.
pub open spec fn spec_with_value(record: RecordView, value: Value) -> RecordView {
    RecordView { values: record.values.push(value), ..record }
}

/// The records after one context event: the record with the event's
/// sequence number gains the meal indicator; an event that decodes to
/// nothing, or that refers to no record, changes nothing.
pub open spec fn spec_apply_context(records: Map<u16, RecordView>, event: Seq<u8>) -> Map<
    u16,
    RecordView,
> {
    match spec_read_context(event) {
        Some((sequence_number, meal)) => if records.contains_key(sequence_number) {
            records.insert(
                sequence_number,
                spec_with_value(records[sequence_number], Value::Meal(meal)),
            )
        } else {
            records
        },
        None => records,
    }
}

/// The records after a run of context events, applied in order.
pub open spec fn spec_contexts(records: Map<u16, RecordView>, events: Seq<Seq<u8>>) -> Map<
    u16,
    RecordView,
>
    decreases events.len(),
{
    if events.len() == 0 {
        records
    } else {
        spec_apply_context(spec_contexts(records, events.drop_last()), events.last())
    }
}

/// The records with a sequence number below `limit`, in ascending order of
/// sequence number.
pub open spec fn spec_ascending(records: Map<u16, RecordView>, limit: nat) -> Seq<RecordView>
    decreases limit,
{
    if limit == 0 {
        Seq::empty()
    } else {
        let below = spec_ascending(records, (limit - 1) as nat);
        if limit <= 0x1_0000 && records.contains_key((limit - 1) as u16) {
            below.push(records[(limit - 1) as u16])
        } else {
            below
        }
    }
}

/// What a session yields: the measurements, each with the meal indicators
/// of its context events, in ascending order of sequence number.
pub open spec fn spec_get_data(
    mac_address: MacAddress,
    measurement_events: Seq<Seq<u8>>,
    context_events: Seq<Seq<u8>>,
) -> Seq<RecordView> {
    spec_ascending(
        spec_contexts(spec_measurements(mac_address, measurement_events), context_events),
        0x1_0000,
    )
}

/// The view of every record of a map.
pub open spec fn spec_views(records: Map<u16, Record>) -> Map<u16, RecordView> {
    records.map_values(|record: Record| record@)
}

/// The decoder for one Contour Elite Plus.
#[derive(Clone, Copy, Debug, PartialEq, Eq)]
pub struct ElitePlus {
    pub mac_address: MacAddress,
}

impl ElitePlus {
    /// A decoder for the meter with the given address.
    pub fn new(mac_address: MacAddress) -> (device: Self)
        ensures
            device.mac_address == mac_address,
    {
        Self { mac_address }
    }

    /// The characteristic that notifies measurements.
    pub fn measurement_characteristic() -> (id: CharacteristicId)
        ensures
            id == (CharacteristicId {
                service: GLUCOSE_SERVICE,
                characteristic: GLUCOSE_CHARACTERISTIC,
            }),
    {
        CharacteristicId { service: GLUCOSE_SERVICE, characteristic: GLUCOSE_CHARACTERISTIC }
    }

    /// The characteristic that notifies measurement contexts.
    pub fn context_characteristic() -> (id: CharacteristicId)
        ensures
            id == (CharacteristicId {
                service: GLUCOSE_SERVICE,
                characteristic: GLUCOSE_MEASUREMENT_CONTEXT_CHARACTERISTIC,
            }),
    {
        CharacteristicId {
            service: GLUCOSE_SERVICE,
            characteristic: GLUCOSE_MEASUREMENT_CONTEXT_CHARACTERISTIC,
        }
    }

    /// The record access control point.
    pub fn racp_characteristic() -> (id: CharacteristicId)
        ensures
            id == (CharacteristicId {
                service: GLUCOSE_SERVICE,
                characteristic: RACP_CHARACTERISTIC,
            }),
    {
        CharacteristicId { service: GLUCOSE_SERVICE, characteristic: RACP_CHARACTERISTIC }
    }

    /// The command, written to the record access control point, that makes
    /// the meter report all stored records.
    pub fn report_stored_records_command() -> (command: Vec<u8>)
        ensures
            command@ == seq![1u8, 1u8],
    {
        vec![1, 1]
    }

    /// Decodes one measurement event into its sequence number and record.
    /// An event shorter than 13 bytes, or with an invalid date, is
    /// discarded.
    pub fn read_record(&self, event: BleCharacteristicEvent) -> (decoded: Option<(u16, Record)>)
        ensures
            decoded is Some <==> spec_read_record(self.mac_address, event@) is Some,
            decoded matches Some((sequence_number, record)) ==> spec_read_record(
                self.mac_address,
                event@,
            ) == Some((sequence_number, record@)),
    {
        if event.value.len() < MEASUREMENT_LENGTH {
            return None;
        }
        let sequence_number = u16_from_bytes(event.value[2], event.value[1]);
        let timestamp = match naive_date_time_from_le_bytes(
            vstd::slice::slice_subrange(event.value.as_slice(), 3, 10),
        ) {
            Some(timestamp) => timestamp,
            None => {
                return None;
            },
        };
        let glucose = u16_from_bytes(event.value[11], event.value[12]);
        let values = vec![Value::Glucose(glucose as i32)];
        assert(values@ =~= seq![Value::Glucose(spec_glucose(event@) as i32)]);
        Some(
            (
                sequence_number,
                Record::new(timestamp, values, event.value, Source::Device(self.mac_address)),
            ),
        )
    }

    /// Decodes one context event into the sequence number it refers to and
    /// its meal indicator. An event that announces no meal indicator, or
    /// is too short to hold what it announces, decodes to nothing.
    pub fn read_context(event: &BleCharacteristicEvent) -> (decoded: Option<
        (u16, MealIndicator),
    >)
        ensures
            decoded == spec_read_context(event@),
    {
        if event.value.len() < 3 {
            return None;
        }
        let flags = event.value[0];
        if !flag(flags, 1) {
            return None;
        }
        let mut meal_index: usize = 3;
        if flag(flags, 7) {
            meal_index = meal_index + 1;
        }
        if flag(flags, 0) {
            meal_index = meal_index + 2;
        }
        if event.value.len() <= meal_index {
            return None;
        }
        let sequence_number = u16_from_bytes(event.value[2], event.value[1]);
        Some((sequence_number, MealIndicator::from_code(event.value[meal_index])))
    }

    /// Turns the events of one session into records.
    ///
    /// `measurement_events` are the notifications of the measurement
    /// characteristic and `context_events` those of the context
    /// characteristic, each in the order of arrival and up to the first
    /// silence of [`IDLE_TIMEOUT_MS`]. A measurement replaces an earlier one
    /// with the same sequence number. A context event adds its meal
    /// indicator to the measurement with its sequence number, and is
    /// dropped where there is none. The records come out in ascending
    /// order of sequence number.
    pub fn get_data(
        &self,
        measurement_events: Vec<BleCharacteristicEvent>,
        context_events: Vec<BleCharacteristicEvent>,
    ) -> (records: Vec<Record>)
        ensures
            records.deep_view() == spec_get_data(
                self.mac_address,
                measurement_events.deep_view(),
                context_events.deep_view(),
            ),
    {
        let mut records = BTreeMap::<u16, Record>::new();
        let ghost measurements = measurement_events.deep_view();
        for event in it: measurement_events.into_iter()
            invariant
                it.seq().len() == measurements.len(),
                forall|i: int| 0 <= i < it.seq().len() ==> (#[trigger] it.seq()[i])@ == measurements[i],
                spec_views(records@) == spec_measurements(
                    self.mac_address,
                    measurements.take(it.index() as int),
                ),
        {
            proof {
                let upto = measurements.take(it.index() + 1);
                assert(upto.drop_last() == measurements.take(it.index() as int));
                assert(upto.last() == event@);
            }
            let ghost before = records@;
            if let Some((sequence_number, record)) = self.read_record(event) {
                records.insert(sequence_number, record);
                assert(spec_views(records@) == spec_views(before).insert(
                    sequence_number,
                    record@,
                ));
            }
        }
        proof {
            assert(measurements.take(measurements.len() as int) == measurements);
        }
        let ghost contexts = context_events.deep_view();
        let ghost measured = spec_views(records@);
        for event in it: context_events.into_iter()
            invariant
                it.seq().len() == contexts.len(),
                forall|i: int| 0 <= i < it.seq().len() ==> (#[trigger] it.seq()[i])@ == contexts[i],
                spec_views(records@) == spec_contexts(measured, contexts.take(it.index() as int)),
        {
            proof {
                let upto = contexts.take(it.index() + 1);
                assert(upto.drop_last() == contexts.take(it.index() as int));
                assert(upto.last() == event@);
            }
            let ghost before = records@;
            if let Some((sequence_number, meal)) = Self::read_context(&event) {
                if let Some(mut record) = records.remove(&sequence_number) {
                    let ghost found = record@;
                    record.add_value(Value::Meal(meal));
                    records.insert(sequence_number, record);
                    assert(spec_views(records@) == spec_views(before).insert(
                        sequence_number,
                        spec_with_value(found, Value::Meal(meal)),
                    ));
                }
            }
        }
        proof {
            assert(contexts.take(contexts.len() as int) == contexts);
        }
        Self::into_ascending(records)
    }

    /// Empties a map of records into a vector, in ascending order of
    /// sequence number.
    fn into_ascending(records: BTreeMap<u16, Record>) -> (ordered: Vec<Record>)
        ensures
            ordered.deep_view() == spec_ascending(spec_views(records@), 0x1_0000),
    {
        let ghost all = spec_views(records@);
        let mut records = records;
        let mut ordered: Vec<Record> = Vec::new();
        let mut next: u32 = 0;
        while next < 0x1_0000
            invariant
                next <= 0x1_0000,
                ordered.deep_view() == spec_ascending(all, next as nat),
                forall|k: u16|
                    k >= next ==> (#[trigger] records@.contains_key(k)) == all.contains_key(k),
                forall|k: u16|
                    k >= next && records@.contains_key(k) ==> (#[trigger] records@[k])@ == all[k],
            decreases 0x1_0000 - next,
        {
            let sequence_number: u16 = next as u16;
            let ghost before = ordered.deep_view();
            if let Some(record) = records.remove(&sequence_number) {
                ordered.push(record);
                assert(ordered.deep_view() == before.push(record@));
            }
            next = next + 1;
        }
        ordered
    }
}

/// The two bytes that spell a 16-bit number, the low byte first: how the
/// meter writes a sequence number.
pub open spec fn spec_low_byte_first(value: u16) -> Seq<u8> {
    seq![(value % 256) as u8, (value / 256) as u8]
}

/// The two bytes that spell a 16-bit number, the high byte first: how the
/// meter writes a glucose concentration.
pub open spec fn spec_high_byte_first(value: u16) -> Seq<u8> {
    seq![(value / 256) as u8, (value % 256) as u8]
}

/// Writes a sequence number the way the meter does, the low byte first.
pub fn encode_sequence_number(sequence_number: u16) -> (bytes: [u8; 2])
    ensures
        bytes@ == spec_low_byte_first(sequence_number),
{
    let bytes = [(sequence_number % 256) as u8, (sequence_number / 256) as u8];
    assert(bytes@ =~= spec_low_byte_first(sequence_number));
    bytes
}

/// Writes a glucose concentration the way the meter does, the high byte
/// first.
pub fn encode_glucose(glucose: u16) -> (bytes: [u8; 2])
    ensures
        bytes@ == spec_high_byte_first(glucose),
{
    let bytes = [(glucose / 256) as u8, (glucose % 256) as u8];
    assert(bytes@ =~= spec_high_byte_first(glucose));
    bytes
}

/// Decoding a measurement event and writing its sequence number and its
/// glucose concentration back gives the bytes that the event holds at
/// their places: bytes 1 and 2, and bytes 11 and 12.
pub proof fn lemma_measurement_round_trip(mac_address: MacAddress, bytes: Seq<u8>)
    requires
        spec_read_record(mac_address, bytes) is Some,
    ensures
        ({
            let (sequence_number, record) = spec_read_record(mac_address, bytes).unwrap();
            &&& bytes.len() >= 13
            &&& spec_low_byte_first(sequence_number) == bytes.subrange(1, 3)
            &&& record.values == seq![Value::Glucose(spec_glucose(bytes) as i32)]
            &&& spec_high_byte_first(spec_glucose(bytes)) == bytes.subrange(11, 13)
            &&& record.raw_data == bytes
        }),
{
    let (sequence_number, record) = spec_read_record(mac_address, bytes).unwrap();
    assert(spec_low_byte_first(sequence_number) =~= bytes.subrange(1, 3));
    assert(spec_high_byte_first(spec_glucose(bytes)) =~= bytes.subrange(11, 13));
}

/// Context events add no record and remove none: after any run of them
/// the sequence numbers are those of the measurements.
pub proof fn lemma_contexts_keep_sequence_numbers(
    records: Map<u16, RecordView>,
    events: Seq<Seq<u8>>,
)
    ensures
        spec_contexts(records, events).dom() == records.dom(),
    decreases events.len(),
{
    if events.len() > 0 {
        lemma_contexts_keep_sequence_numbers(records, events.drop_last());
        let earlier = spec_contexts(records, events.drop_last());
        assert(spec_apply_context(earlier, events.last()).dom() =~= earlier.dom());
    }
}

/// A measurement followed by a context event with its sequence number
/// and a meal indicator yields one record that holds the glucose reading
/// and then the meal indicator.
pub proof fn lemma_context_joins_measurement(
    mac_address: MacAddress,
    measurement: Seq<u8>,
    context: Seq<u8>,
)
    requires
        spec_read_record(mac_address, measurement) is Some,
        spec_read_context(context) is Some,
        spec_read_context(context).unwrap().0 == spec_read_record(
            mac_address,
            measurement,
        ).unwrap().0,
    ensures
        ({
            let (sequence_number, record) = spec_read_record(mac_address, measurement).unwrap();
            let meal = spec_read_context(context).unwrap().1;
            let records = spec_contexts(
                spec_measurements(mac_address, seq![measurement]),
                seq![context],
            );
            &&& records.dom() == set![sequence_number]
            &&& records[sequence_number] == spec_with_value(record, Value::Meal(meal))
        }),
{
    let (sequence_number, record) = spec_read_record(mac_address, measurement).unwrap();
    let one = seq![measurement];
    assert(one.drop_last() =~= Seq::<Seq<u8>>::empty());
    assert(one.last() == measurement);
    reveal_with_fuel(spec_measurements, 2);
    let measured = spec_measurements(mac_address, one);
    assert(measured == Map::<u16, RecordView>::empty().insert(sequence_number, record));
    let ctx = seq![context];
    assert(ctx.drop_last() =~= Seq::<Seq<u8>>::empty());
    assert(ctx.last() == context);
    reveal_with_fuel(spec_contexts, 2);
    let records = spec_contexts(measured, ctx);
    assert(records.dom() =~= set![sequence_number]);
}

/// Whether values are a glucose reading followed by meal indicators and
/// nothing else.
pub open spec fn spec_reading_with_meals(values: Seq<Value>) -> bool {
    &&& values.len() >= 1
    &&& values[0] is Glucose
    &&& forall|i: int| 1 <= i < values.len() ==> #[trigger] values[i] is Meal
}

/// Whether every record of a map is a glucose reading with its meal
/// indicators.
pub open spec fn spec_all_readings(records: Map<u16, RecordView>) -> bool {
    forall|k: u16| #[trigger] records.contains_key(k) ==> spec_reading_with_meals(records[k].values)
}

/// Every record of a session holds one glucose reading, first, and beyond
/// it only meal indicators: no kind of value but the meal indicator occurs
/// twice.
pub proof fn lemma_session_records_are_readings(
    mac_address: MacAddress,
    measurement_events: Seq<Seq<u8>>,
    context_events: Seq<Seq<u8>>,
)
    ensures
        ({
            let records = spec_contexts(
                spec_measurements(mac_address, measurement_events),
                context_events,
            );
            forall|k: u16| #[trigger]
                records.contains_key(k) ==> spec_reading_with_meals(records[k].values)
                    && spec_kinds_distinct(records[k].values)
        }),
{
    lemma_measurements_are_readings(mac_address, measurement_events);
    lemma_contexts_keep_readings(
        spec_measurements(mac_address, measurement_events),
        context_events,
    );
}

proof fn lemma_measurements_are_readings(mac_address: MacAddress, events: Seq<Seq<u8>>)
    ensures
        spec_all_readings(spec_measurements(mac_address, events)),
    decreases events.len(),
{
    if events.len() > 0 {
        lemma_measurements_are_readings(mac_address, events.drop_last());
    }
}

proof fn lemma_contexts_keep_readings(records: Map<u16, RecordView>, events: Seq<Seq<u8>>)
    requires
        spec_all_readings(records),
    ensures
        spec_all_readings(spec_contexts(records, events)),
        forall|k: u16| #[trigger]
            spec_contexts(records, events).contains_key(k) ==> spec_kinds_distinct(
                spec_contexts(records, events)[k].values,
            ),
    decreases events.len(),
{
    if events.len() > 0 {
        lemma_contexts_keep_readings(records, events.drop_last());
        let earlier = spec_contexts(records, events.drop_last());
        let after = spec_apply_context(earlier, events.last());
        assert forall|k: u16| #[trigger] after.contains_key(k) implies spec_reading_with_meals(
            after[k].values,
        ) by {
            assert(earlier.contains_key(k));
        }
    }
    let last = spec_contexts(records, events);
    assert forall|k: u16| #[trigger] last.contains_key(k) implies spec_kinds_distinct(
        last[k].values,
    ) by {
        let values = last[k].values;
        assert forall|i: int, j: int|
            0 <= i < j < values.len() && #[trigger] values[i].spec_value_type()
                == #[trigger] values[j].spec_value_type() implies values[i] is Meal by {
            assert(values[j] is Meal);
        }
    }
}

} // verus!
