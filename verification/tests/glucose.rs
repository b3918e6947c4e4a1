use chrono::NaiveDate;
use healthpi::api::BleCharacteristicEvent;
use healthpi::devices::contour::{encode_glucose, encode_sequence_number, ElitePlus};
use healthpi::macaddress::MacAddress;
use healthpi::measurement::{MealIndicator, Record, Source, Value};
use healthpi::time::Timestamp;

fn event(value: Vec<u8>) -> BleCharacteristicEvent {
    BleCharacteristicEvent { value }
}

fn meter() -> ElitePlus {
    ElitePlus::new(MacAddress::from([0xAA, 0xBB, 0xCC, 0xDD, 0xEE, 0xFF]))
}

/// A measurement of `glucose` with sequence number `sequence_number`,
/// taken on 2023-03-05 at 07:08:09.
fn measurement(sequence_number: u16, glucose: u16) -> Vec<u8> {
    let seq = sequence_number.to_le_bytes();
    let glu = glucose.to_be_bytes();
    vec![0x0B, seq[0], seq[1], 0xE7, 0x07, 3, 5, 7, 8, 9, 0, glu[0], glu[1], 0xF8]
}

fn context(flags: u8, sequence_number: u16, rest: &[u8]) -> Vec<u8> {
    let seq = sequence_number.to_le_bytes();
    let mut bytes = vec![flags, seq[0], seq[1]];
    bytes.extend_from_slice(rest);
    bytes
}

fn fifth_of_march() -> Timestamp {
    let date_time = NaiveDate::from_ymd_opt(2023, 3, 5).unwrap().and_hms_opt(7, 8, 9).unwrap();
    Timestamp::new(date_time.and_utc().timestamp(), 0)
}

#[test]
fn glucose_measurement_is_decoded() {
    let raw = measurement(0x0102, 0x0123);
    let (sequence_number, record) = meter().read_record(event(raw.clone())).unwrap();
    assert_eq!(sequence_number, 0x0102);
    assert_eq!(
        record,
        Record::new(
            fifth_of_march(),
            vec![Value::Glucose(0x0123)],
            raw,
            Source::Device(MacAddress::from([0xAA, 0xBB, 0xCC, 0xDD, 0xEE, 0xFF])),
        )
    );
}

#[test]
fn glucose_fields_round_trip() {
    for (sequence_number, glucose) in [(0u16, 0u16), (5, 97), (0x1234, 0xFEDC), (0xFFFF, 0xFFFF), (256, 255)] {
        let raw = measurement(sequence_number, glucose);
        let (decoded_number, record) = meter().read_record(event(raw.clone())).unwrap();
        assert_eq!(encode_sequence_number(decoded_number), [raw[1], raw[2]]);
        let decoded_glucose = match record.values[0] {
            Value::Glucose(g) => g as u16,
            _ => panic!("no glucose value"),
        };
        assert_eq!(encode_glucose(decoded_glucose), [raw[11], raw[12]]);
        assert_eq!(record.values.len(), 1);
    }
    assert_eq!(encode_sequence_number(0x1234), [0x34, 0x12]);
    assert_eq!(encode_glucose(0x1234), [0x12, 0x34]);
}

#[test]
fn short_or_invalid_measurements_are_discarded() {
    let mut raw = measurement(1, 100);
    raw.truncate(12);
    assert_eq!(meter().read_record(event(raw)), None);
    assert_eq!(meter().read_record(event(vec![])), None);
    let mut raw = measurement(1, 100);
    raw[5] = 13; // month 13
    assert_eq!(meter().read_record(event(raw)), None);
    let mut raw = measurement(1, 100);
    raw.truncate(13);
    assert!(meter().read_record(event(raw)).is_some());
}

#[test]
fn context_meal_codes() {
    for (code, meal) in [
        (0u8, MealIndicator::NoIndication),
        (1, MealIndicator::BeforeMeal),
        (2, MealIndicator::AfterMeal),
        (3, MealIndicator::NoMeal),
        (4, MealIndicator::NoIndication),
        (255, MealIndicator::NoIndication),
    ] {
        assert_eq!(
            ElitePlus::read_context(&event(context(0b0000_0010, 7, &[code]))),
            Some((7, meal))
        );
    }
}

#[test]
fn context_meal_offset_follows_the_flags() {
    // bit 7 moves the meal byte by one, bit 0 by two
    assert_eq!(
        ElitePlus::read_context(&event(context(0b1000_0010, 9, &[0, 2]))),
        Some((9, MealIndicator::AfterMeal))
    );
    assert_eq!(
        ElitePlus::read_context(&event(context(0b0000_0011, 9, &[0, 0, 1]))),
        Some((9, MealIndicator::BeforeMeal))
    );
    assert_eq!(
        ElitePlus::read_context(&event(context(0b1000_0011, 0x0900, &[0, 0, 0, 3]))),
        Some((0x0900, MealIndicator::NoMeal))
    );
}

#[test]
fn context_without_meal_or_too_short_decodes_to_nothing() {
    assert_eq!(ElitePlus::read_context(&event(context(0b0000_0000, 9, &[1]))), None);
    assert_eq!(ElitePlus::read_context(&event(context(0b1111_1101, 9, &[1, 1, 1, 1]))), None);
    assert_eq!(ElitePlus::read_context(&event(context(0b0000_0010, 9, &[]))), None);
    assert_eq!(ElitePlus::read_context(&event(context(0b1000_0011, 9, &[0, 0, 0]))), None);
    assert_eq!(ElitePlus::read_context(&event(vec![2, 9])), None);
    assert_eq!(ElitePlus::read_context(&event(vec![])), None);
}

#[test]
fn measurement_and_context_make_one_record() {
    let raw = measurement(5, 112);
    let records = meter().get_data(
        vec![event(raw.clone())],
        vec![event(context(2, 5, &[2])), event(context(2, 6, &[1]))],
    );
    assert_eq!(
        records,
        vec![Record::new(
            fifth_of_march(),
            vec![Value::Glucose(112), Value::Meal(MealIndicator::AfterMeal)],
            raw,
            Source::Device(MacAddress::from([0xAA, 0xBB, 0xCC, 0xDD, 0xEE, 0xFF])),
        )]
    );
}

#[test]
fn context_for_unknown_sequence_number_adds_nothing() {
    let records = meter().get_data(vec![], vec![event(context(2, 6, &[1]))]);
    assert_eq!(records, vec![]);
    let records = meter().get_data(vec![event(measurement(5, 1))], vec![event(context(2, 6, &[1]))]);
    assert_eq!(records.len(), 1);
    assert_eq!(records[0].values, vec![Value::Glucose(1)]);
}

#[test]
fn records_come_out_by_sequence_number() {
    let records = meter().get_data(
        vec![
            event(measurement(0xFFFF, 4)),
            event(measurement(300, 3)),
            event(vec![1, 2, 3]),
            event(measurement(0, 1)),
            event(measurement(2, 2)),
            event(measurement(300, 33)),
        ],
        vec![
            event(context(2, 300, &[1])),
            event(context(0, 2, &[1])),
            event(context(2, 300, &[3])),
            event(context(2, 0, &[9])),
        ],
    );
    let values: Vec<Vec<Value>> = records.into_iter().map(|r| r.values).collect();
    assert_eq!(
        values,
        vec![
            vec![Value::Glucose(1), Value::Meal(MealIndicator::NoIndication)],
            vec![Value::Glucose(2)],
            vec![
                Value::Glucose(33),
                Value::Meal(MealIndicator::BeforeMeal),
                Value::Meal(MealIndicator::NoMeal)
            ],
            vec![Value::Glucose(4)],
        ]
    );
}

#[test]
fn glucose_commands_and_characteristics() {
    assert_eq!(ElitePlus::report_stored_records_command(), vec![1, 1]);
    let measurement = ElitePlus::measurement_characteristic();
    assert_eq!(measurement.service, 0x00001808_0000_1000_8000_00805f9b34fb);
    assert_eq!(measurement.characteristic, 0x00002a18_0000_1000_8000_00805f9b34fb);
    assert_eq!(
        ElitePlus::context_characteristic().characteristic,
        0x00002a34_0000_1000_8000_00805f9b34fb
    );
    assert_eq!(
        ElitePlus::racp_characteristic().characteristic,
        0x00002a52_0000_1000_8000_00805f9b34fb
    );
}
