//! The Soehnle Shape200 bioimpedance scale and the Soehnle Systo MC 400
//! blood-pressure monitor.

use vstd::prelude::*;

use crate::api::{BleCharacteristicEvent, CharacteristicId, TimedEvent};
use crate::devices::utils::{
    flag,
    lemma_decoded_timestamp_bounds,
    naive_date_time_from_be_bytes,
    naive_date_time_from_le_bytes,
    spec_flag,
    spec_naive_date_time_from_bytes,
    spec_u16_from_bytes,
    u16_from_bytes,
};
use crate::macaddress::MacAddress;
use crate::measurement::{
    spec_kinds_distinct,
    Ratio,
    Record,
    RecordView,
    Source,
    SourceView,
    Value,
    ValueType,
};
use crate::time::Timestamp;
use crate::user::User;

verus! {

/// The scale's service.
pub const CUSTOM_SERVICE_UUID: u128 = 0x352e3000_28e9_40b8_a361_6db4cca4147c;

/// The characteristic on which the scale notifies profile and weights.
pub const WEIGHT_CUSTOM_CHARACTERISTIC: u128 = 0x352e3001_28e9_40b8_a361_6db4cca4147c;

/// The characteristic that takes the scale's commands.
pub const CMD_CHARACTERISTIC: u128 = 0x352e3002_28e9_40b8_a361_6db4cca4147c;

/// How long the scale's stream may stay silent before it counts as
/// drained, in milliseconds.
pub const SHAPE200_IDLE_TIMEOUT_MS: u64 = 1000;

/// The length of a measurement event of the scale.
pub const SHAPE200_MEASUREMENT_LENGTH: usize = 15;

/// The least length of the event that carries the user profile.
pub const SHAPE200_PROFILE_LENGTH: usize = 10;

/// The impedance at 50 kHz from which on a reading counts as an artifact
/// of the measurement: such a reading would put body fat near 100 %.
pub const IMPEDANCE_LIMIT: u16 = 1600;

/// Why the profile that opens a scale session could not be read.
#[derive(Clone, Copy, Debug, PartialEq, Eq, Structural)]
pub enum ProfileError {
    /// The stream ended before the scale sent its active profile.
    Missing,
    /// The event that should hold the profile is shorter than 10 bytes.
    Malformed,
}

/// The profile that a profile event holds: age in byte 3, sex in byte 4
/// (any nonzero value is a woman), height in centimetres in bytes 5 and 6,
/// the high byte first, and activity level in byte 9.
pub open spec fn spec_user(bytes: Seq<u8>) -> User
    recommends
        bytes.len() >= 10,
{
    User {
        age: bytes[3],
        is_female: bytes[4] != 0,
        height: spec_u16_from_bytes(bytes[5], bytes[6]),
        activity_level: bytes[9],
    }
}

/// What the first event of a session decodes to.
pub open spec fn spec_read_user(event: Option<Seq<u8>>) -> Result<User, ProfileError> {
    match event {
        None => Err(ProfileError::Missing),
        Some(bytes) => if bytes.len() < 10 {
            Err(ProfileError::Malformed)
        } else {
            Ok(spec_user(bytes))
        },
    }
}

/// The weight in kilograms of a reading in tenths of a kilogram.
pub open spec fn spec_weight(weight: int) -> Ratio {
    Ratio { num: weight as i128, den: 10 }
}

/// Body-mass index: the weight in kilograms over the square of the height
/// in metres. With the weight `w` in tenths of a kilogram and the height
/// `h` in centimetres that is `1000 w / h^2`.
pub open spec fn spec_body_mass_index(user: User, weight: int) -> Ratio {
    Ratio { num: (1000 * weight) as i128, den: (user.height * user.height) as i128 }
}

/// Basal metabolic rate in kilocalories a day, in ten-thousandths. For a
/// woman `447.593 + 9.247 kg + 3.098 cm - 4.330 years`, for a man
/// `88.362 + 13.397 kg + 4.799 cm - 5.677 years`.
pub open spec fn spec_basal_metabolic_rate(user: User, weight: int) -> Ratio {
    if user.is_female {
        Ratio {
            num: (4_475_930 + 9_247 * weight + 30_980 * user.height - 43_300 * user.age) as i128,
            den: 10_000,
        }
    } else {
        Ratio {
            num: (883_620 + 13_397 * weight + 47_990 * user.height - 56_770 * user.age) as i128,
            den: 10_000,
        }
    }
}

/// The activity correction of the body fat formula, in thousandths: 2.3
/// and 4.1 for a woman of activity level 4 and 5, 2.5 and 4.3 for a man,
/// and nothing at any other level.
pub open spec fn spec_fat_activity_correction(user: User) -> int {
    if user.activity_level == 4 {
        if user.is_female {
            2_300
        } else {
            2_500
        }
    } else if user.activity_level == 5 {
        if user.is_female {
            4_100
        } else {
            4_300
        }
    } else {
        0
    }
}

/// Body fat in percent:
/// `1.847 bmi + s years + 0.062 imp50 - (d - c)`, with `s = 0.214` and
/// `d = 55.1` for a woman, `s = 0.250` and `d = 65.5` for a man, and `c`
/// the activity correction. Brought over the denominator `1000 h^2`.
pub open spec fn spec_fat_percentage(user: User, weight: int, imp50: int) -> Ratio {
    let per_year: int = if user.is_female {
        214
    } else {
        250
    };
    let offset: int = if user.is_female {
        55_100
    } else {
        65_500
    };
    let square = user.height * user.height;
    Ratio {
        num: (1_847_000 * weight + square * (per_year * user.age + 62 * imp50 - offset
            + spec_fat_activity_correction(user))) as i128,
        den: (1000 * square) as i128,
    }
}

/// The activity correction of the body water formula, in
/// hundred-thousandths: for activity levels 1 to 3, 4 and 5 it is 0, 0.4
/// and 1.4 for a woman and 2.83, 3.93 and 5.33 for a man.
pub open spec fn spec_water_activity_correction(user: User) -> int {
    if 1 <= user.activity_level <= 3 {
        if user.is_female {
            0
        } else {
            283_000
        }
    } else if user.activity_level == 4 {
        if user.is_female {
            40_000
        } else {
            393_000
        }
    } else if user.activity_level == 5 {
        if user.is_female {
            140_000
        } else {
            533_000
        }
    } else {
        0
    }
}

/// Body water in percent of the weight:
/// `(0.3674 h^2 / imp50 + 0.17530 kg - 0.11 years + 6.53 + c) / kg * 100`,
/// with `c` the activity correction. Brought over the denominator
/// `100 imp50 w`.
pub open spec fn spec_water_percentage(user: User, weight: int, imp50: int) -> Ratio {
    Ratio {
        num: (36_740 * (user.height * user.height) + imp50 * (1_753 * weight - 11_000 * user.age
            + 653_000 + spec_water_activity_correction(user))) as i128,
        den: (100 * imp50 * weight) as i128,
    }
}

/// The activity correction of the muscle formula, in millionths: for
/// activity levels 1 to 3, 4 and 5 it is 0, 0 and 1.664 for a woman and
/// 3.6224, 4.3904 and 5.4144 for a man.
pub open spec fn spec_muscle_activity_correction(user: User) -> int {
    if 1 <= user.activity_level <= 3 {
        if user.is_female {
            0
        } else {
            3_622_400
        }
    } else if user.activity_level == 4 {
        if user.is_female {
            0
        } else {
            4_390_400
        }
    } else if user.activity_level == 5 {
        if user.is_female {
            1_664_000
        } else {
            5_414_400
        }
    } else {
        0
    }
}

/// Muscle in percent of the weight:
/// `((0.47027 / imp50 - 0.24196 / imp5) h^2 + 0.13796 kg - 0.1152 years
/// + 5.12 + c) / kg * 100`, with `c` the activity correction. Brought over
/// the denominator `1000 imp5 imp50 w`.
pub open spec fn spec_muscle_percentage(user: User, weight: int, imp5: int, imp50: int) -> Ratio {
    Ratio {
        num: ((470_270 * imp5 - 241_960 * imp50) * (user.height * user.height) + imp5 * imp50 * (
        13_796 * weight - 115_200 * user.age + 5_120_000 + spec_muscle_activity_correction(
            user,
        ))) as i128,
        den: (1000 * imp5 * imp50 * weight) as i128,
    }
}

/// Whether an impedance at 50 kHz is good for the composition formulas.
pub open spec fn spec_impedance_usable(imp50: int) -> bool {
    0 < imp50 < IMPEDANCE_LIMIT
}

/// The values of one sample: weight, body-mass index and basal metabolic
/// rate always, and fat, water and muscle where the impedance at 50 kHz is
/// usable.
pub open spec fn spec_values(user: User, weight: int, imp5: int, imp50: int) -> Seq<Value> {
    let basic = seq![
        Value::Weight(spec_weight(weight)),
        Value::BodyMassIndex(spec_body_mass_index(user, weight)),
        Value::BasalMetabolicRate(spec_basal_metabolic_rate(user, weight)),
    ];
    if spec_impedance_usable(imp50) {
        basic + seq![
            Value::FatPercent(spec_fat_percentage(user, weight, imp50)),
            Value::WaterPercent(spec_water_percentage(user, weight, imp50)),
            Value::MusclePercent(spec_muscle_percentage(user, weight, imp5, imp50)),
        ]
    } else {
        basic
    }
}

/// The weight field of a measurement event, in tenths of a kilogram.
pub open spec fn spec_event_weight(bytes: Seq<u8>) -> u16
    recommends
        bytes.len() == 15,
{
    spec_u16_from_bytes(bytes[9], bytes[10])
}

/// The impedance at 5 kHz of a measurement event.
pub open spec fn spec_event_imp5(bytes: Seq<u8>) -> u16
    recommends
        bytes.len() == 15,
{
    spec_u16_from_bytes(bytes[11], bytes[12])
}

/// The impedance at 50 kHz of a measurement event.
pub open spec fn spec_event_imp50(bytes: Seq<u8>) -> u16
    recommends
        bytes.len() == 15,
{
    spec_u16_from_bytes(bytes[13], bytes[14])
}

/// What a measurement event of the scale decodes to: nothing unless it is
/// 15 bytes long and bytes 2 to 8 hold a valid date and time, else a
/// record of the sample's values.
pub open spec fn spec_read_scale_record(mac_address: MacAddress, user: User, bytes: Seq<u8>) -> Option<
    RecordView,
> {
    if bytes.len() != 15 {
        None
    } else {
        match spec_naive_date_time_from_bytes(bytes.subrange(2, 9), false) {
            None => None,
            Some(timestamp) => Some(
                RecordView {
                    timestamp,
                    values: spec_values(
                        user,
                        spec_event_weight(bytes) as int,
                        spec_event_imp5(bytes) as int,
                        spec_event_imp50(bytes) as int,
                    ),
                    raw_data: bytes,
                    source: SourceView::Device(mac_address),
                },
            ),
        }
    }
}

/// The records of a run of measurement events: one for each event that
/// decodes, in the order of the events.
pub open spec fn spec_scale_records(mac_address: MacAddress, user: User, events: Seq<Seq<u8>>) -> Seq<
    RecordView,
>
    decreases events.len(),
{
    if events.len() == 0 {
        Seq::empty()
    } else {
        let earlier = spec_scale_records(mac_address, user, events.drop_last());
        match spec_read_scale_record(mac_address, user, events.last()) {
            Some(record) => earlier.push(record),
            None => earlier,
        }
    }
}

/// A product of a bounded number and a bounded natural number is bounded
/// by the product of the bounds.
proof fn lemma_product_bound(a: int, b: int, a_max: int, b_max: int)
    requires
        -a_max <= a <= a_max,
        0 <= b <= b_max,
    ensures
        -(a_max * b_max) <= a * b <= a_max * b_max,
{
    assert(-(a_max * b_max) <= a * b <= a_max * b_max) by (nonlinear_arith)
        requires
            -a_max <= a <= a_max,
            0 <= b <= b_max,
    ;
}

/// Body-mass index of a weight in tenths of a kilogram.
pub fn get_body_mass_index(user: &User, weight: u16) -> (bmi: Ratio)
    ensures
        bmi == spec_body_mass_index(*user, weight as int),
{
    let height = user.height_cm() as i128;
    proof {
        lemma_product_bound(height as int, height as int, 65_535, 65_535);
    }
    Ratio { num: 1000 * (weight as i128), den: height * height }
}

/// Basal metabolic rate for a weight in tenths of a kilogram.
pub fn get_basal_metabolic_rate(user: &User, weight: u16) -> (bmr: Ratio)
    ensures
        bmr == spec_basal_metabolic_rate(*user, weight as int),
{
    let weight = weight as i128;
    let height = user.height_cm() as i128;
    let age = user.age() as i128;
    if user.is_female() {
        Ratio { num: 4_475_930 + 9_247 * weight + 30_980 * height - 43_300 * age, den: 10_000 }
    } else {
        Ratio { num: 883_620 + 13_397 * weight + 47_990 * height - 56_770 * age, den: 10_000 }
    }
}

/// Body fat in percent for a weight in tenths of a kilogram and an
/// impedance at 50 kHz.
pub fn get_fat_percentage(user: &User, weight: u16, imp50: u16) -> (fat: Ratio)
    ensures
        fat == spec_fat_percentage(*user, weight as int, imp50 as int),
{
    let activity_correction: i128 = match (user.activity_level(), user.is_female()) {
        (4, true) => 2_300,
        (4, false) => 2_500,
        (5, true) => 4_100,
        (5, false) => 4_300,
        _ => 0,
    };
    let (per_year, offset): (i128, i128) = if user.is_female() {
        (214, 55_100)
    } else {
        (250, 65_500)
    };
    let height = user.height_cm() as i128;
    proof {
        lemma_product_bound(height as int, height as int, 65_535, 65_535);
    }
    let square = height * height;
    let linear = per_year * (user.age() as i128) + 62 * (imp50 as i128) - offset
        + activity_correction;
    proof {
        lemma_product_bound(linear as int, square as int, 5_000_000, 4_294_836_225);
        assert(linear == per_year * user.age + 62 * imp50 - offset + spec_fat_activity_correction(
            *user,
        ));
        assert(linear * square == square * linear) by (nonlinear_arith);
    }
    Ratio { num: 1_847_000 * (weight as i128) + linear * square, den: 1000 * square }
}

/// Body water in percent for a weight in tenths of a kilogram and an
/// impedance at 50 kHz.
pub fn get_water_percentage(user: &User, weight: u16, imp50: u16) -> (water: Ratio)
    ensures
        water == spec_water_percentage(*user, weight as int, imp50 as int),
{
    let activity_correction: i128 = match (user.activity_level(), user.is_female()) {
        (1..=3, true) => 0,
        (1..=3, false) => 283_000,
        (4, true) => 40_000,
        (4, false) => 393_000,
        (5, true) => 140_000,
        (5, false) => 533_000,
        _ => 0,
    };
    let height = user.height_cm() as i128;
    proof {
        lemma_product_bound(height as int, height as int, 65_535, 65_535);
    }
    let square = height * height;
    let weight = weight as i128;
    let imp50 = imp50 as i128;
    let linear = 1_753 * weight - 11_000 * (user.age() as i128) + 653_000 + activity_correction;
    proof {
        lemma_product_bound(linear as int, imp50 as int, 200_000_000, 65_535);
        lemma_product_bound(imp50 as int, weight as int, 65_535, 65_535);
        assert(100 * imp50 * weight == 100 * (imp50 * weight)) by (nonlinear_arith);
        assert(linear == 1_753 * weight - 11_000 * user.age + 653_000
            + spec_water_activity_correction(*user));
        assert(linear * imp50 == imp50 * linear) by (nonlinear_arith);
    }
    Ratio { num: 36_740 * square + linear * imp50, den: 100 * (imp50 * weight) }
}

/// Muscle in percent for a weight in tenths of a kilogram and the
/// impedances at 5 kHz and at 50 kHz.
pub fn get_muscle_percentage(user: &User, weight: u16, imp5: u16, imp50: u16) -> (muscle: Ratio)
    ensures
        muscle == spec_muscle_percentage(*user, weight as int, imp5 as int, imp50 as int),
{
    let activity_correction: i128 = match (user.activity_level(), user.is_female()) {
        (1..=3, true) => 0,
        (1..=3, false) => 3_622_400,
        (4, true) => 0,
        (4, false) => 4_390_400,
        (5, true) => 1_664_000,
        (5, false) => 5_414_400,
        _ => 0,
    };
    let height = user.height_cm() as i128;
    proof {
        lemma_product_bound(height as int, height as int, 65_535, 65_535);
    }
    let square = height * height;
    let weight = weight as i128;
    let imp5 = imp5 as i128;
    let imp50 = imp50 as i128;
    let slope = 470_270 * imp5 - 241_960 * imp50;
    let linear = 13_796 * weight - 115_200 * (user.age() as i128) + 5_120_000
        + activity_correction;
    proof {
        lemma_product_bound(imp5 as int, imp50 as int, 65_535, 65_535);
    }
    let both = imp5 * imp50;
    proof {
        lemma_product_bound(slope as int, square as int, 40_000_000_000, 4_294_836_225);
        lemma_product_bound(linear as int, both as int, 1_000_000_000, 4_294_836_225);
        lemma_product_bound(both as int, weight as int, 4_294_836_225, 65_535);
        assert(1000 * imp5 * imp50 * weight == 1000 * ((imp5 * imp50) * weight))
            by (nonlinear_arith);
        assert(linear == 13_796 * weight - 115_200 * user.age + 5_120_000
            + spec_muscle_activity_correction(*user));
        assert(linear * both == imp5 * imp50 * linear) by (nonlinear_arith)
            requires
                both == imp5 * imp50,
        ;
    }
    Ratio { num: slope * square + linear * both, den: 1000 * (both * weight) }
}

/// The decoder for one Shape200 scale.
#[derive(Clone, Copy, Debug, PartialEq, Eq)]
pub struct Shape200 {
    pub mac_address: MacAddress,
}

impl Shape200 {
    /// A decoder for the scale with the given address.
    pub fn new(mac_address: MacAddress) -> (device: Self)
        ensures
            device.mac_address == mac_address,
    {
        Self { mac_address }
    }

    /// The characteristic on which the scale notifies.
    pub fn weight_characteristic() -> (id: CharacteristicId)
        ensures
            id == (CharacteristicId {
                service: CUSTOM_SERVICE_UUID,
                characteristic: WEIGHT_CUSTOM_CHARACTERISTIC,
            }),
    {
        CharacteristicId {
            service: CUSTOM_SERVICE_UUID,
            characteristic: WEIGHT_CUSTOM_CHARACTERISTIC,
        }
    }

    /// The characteristic that takes commands.
    pub fn command_characteristic() -> (id: CharacteristicId)
        ensures
            id == (CharacteristicId {
                service: CUSTOM_SERVICE_UUID,
                characteristic: CMD_CHARACTERISTIC,
            }),
    {
        CharacteristicId { service: CUSTOM_SERVICE_UUID, characteristic: CMD_CHARACTERISTIC }
    }

    /// The command that makes the scale send the active user profile. It is
    /// written with acknowledgement.
    pub fn request_user_command() -> (command: Vec<u8>)
        ensures
            command@ == seq![0x0Cu8, 0x01u8],
    {
        vec![0x0C, 0x01]
    }

    /// The command that makes the scale replay its measurements. It is
    /// written with acknowledgement, after the profile has arrived.
    pub fn request_history_command() -> (command: Vec<u8>)
        ensures
            command@ == seq![0x09u8, 0x01u8],
    {
        vec![0x09, 0x01]
    }

    /// Reads the user profile from the first event of a session. `event`
    /// is `None` where the stream ended before any event came.
    pub fn read_user(event: Option<&BleCharacteristicEvent>) -> (user: Result<User, ProfileError>)
        ensures
            user == spec_read_user(
                match event {
                    Some(e) => Some(e@),
                    None => None,
                },
            ),
    {
        match event {
            None => Err(ProfileError::Missing),
            Some(event) => {
                if event.value.len() < SHAPE200_PROFILE_LENGTH {
                    Err(ProfileError::Malformed)
                } else {
                    Ok(
                        User::new(
                            event.value[3],
                            event.value[4] != 0,
                            u16_from_bytes(event.value[5], event.value[6]),
                            event.value[9],
                        ),
                    )
                }
            },
        }
    }

    /// Decodes one measurement event. An event of another length than 15
    /// bytes, or with an invalid date, is discarded.
    pub fn read_record(&self, user: &User, event: BleCharacteristicEvent) -> (record: Option<
        Record,
    >)
        ensures
            record is Some <==> spec_read_scale_record(self.mac_address, *user, event@) is Some,
            record matches Some(r) ==> spec_read_scale_record(self.mac_address, *user, event@)
                == Some(r@),
    {
        if event.value.len() != SHAPE200_MEASUREMENT_LENGTH {
            return None;
        }
        let timestamp = match naive_date_time_from_be_bytes(
            vstd::slice::slice_subrange(event.value.as_slice(), 2, 9),
        ) {
            Some(timestamp) => timestamp,
            None => {
                return None;
            },
        };
        let weight = u16_from_bytes(event.value[9], event.value[10]);
        let mut values = vec![
            Value::Weight(Ratio { num: weight as i128, den: 10 }),
            Value::BodyMassIndex(get_body_mass_index(user, weight)),
            Value::BasalMetabolicRate(get_basal_metabolic_rate(user, weight)),
        ];
        let imp5 = u16_from_bytes(event.value[11], event.value[12]);
        let imp50 = u16_from_bytes(event.value[13], event.value[14]);
        if imp50 > 0 && imp50 < IMPEDANCE_LIMIT {
            values.push(Value::FatPercent(get_fat_percentage(user, weight, imp50)));
            values.push(Value::WaterPercent(get_water_percentage(user, weight, imp50)));
            values.push(Value::MusclePercent(get_muscle_percentage(user, weight, imp5, imp50)));
        }
        assert(values@ =~= spec_values(*user, weight as int, imp5 as int, imp50 as int));
        Some(Record::new(timestamp, values, event.value, Source::Device(self.mac_address)))
    }

    /// Turns the measurement events of one session into records, one for
    /// each event that decodes, in the order of the events.
    ///
    /// `user` is the profile read from the session's first event, and
    /// `events` are the notifications that followed the request for the
    /// history, up to the first silence of [`SHAPE200_IDLE_TIMEOUT_MS`].
    pub fn get_data(&self, user: &User, events: Vec<BleCharacteristicEvent>) -> (records: Vec<
        Record,
    >)
        ensures
            records.deep_view() == spec_scale_records(
                self.mac_address,
                *user,
                events.deep_view(),
            ),
    {
        let mut records: Vec<Record> = Vec::new();
        let ghost all = events.deep_view();
        assert(records.deep_view() =~= Seq::<RecordView>::empty());
        for event in it: events.into_iter()
            invariant
                it.seq().len() == all.len(),
                forall|i: int| 0 <= i < it.seq().len() ==> (#[trigger] it.seq()[i])@ == all[i],
                records.deep_view() == spec_scale_records(
                    self.mac_address,
                    *user,
                    all.take(it.index() as int),
                ),
        {
            proof {
                let upto = all.take(it.index() + 1);
                assert(upto.drop_last() == all.take(it.index() as int));
                assert(upto.last() == event@);
            }
            let ghost before = records.deep_view();
            if let Some(record) = self.read_record(user, event) {
                records.push(record);
                assert(records.deep_view() =~= before.push(record@));
            }
        }
        proof {
            assert(all.take(all.len() as int) == all);
        }
        records
    }
}

/// The blood-pressure service.
pub const BLOOD_PRESSURE_SERVICE: u128 = 0x00001810_0000_1000_8000_00805f9b34fb;

/// The characteristic that notifies blood-pressure measurements.
pub const BLOOD_PRESSURE_CHARACTERISTIC: u128 = 0x00002a35_0000_1000_8000_00805f9b34fb;

/// How long the monitor's stream may stay silent before it counts as
/// drained, in milliseconds.
pub const SYSTO_IDLE_TIMEOUT_MS: u64 = 5000;

/// A pressure in mmHg: the reading itself, or, where the monitor reports
/// in units of kPa, the reading times 15 over 2000, rounded down.
pub open spec fn spec_pressure(raw: u16, kpa: bool) -> int {
    if kpa {
        raw * 15 / 2000
    } else {
        raw as int
    }
}

/// The systolic reading of an event: bytes 1 and 2, the low byte first.
pub open spec fn spec_systolic_raw(bytes: Seq<u8>) -> u16
    recommends
        bytes.len() >= 5,
{
    spec_u16_from_bytes(bytes[2], bytes[1])
}

/// The diastolic reading of an event: bytes 3 and 4, the low byte first.
pub open spec fn spec_diastolic_raw(bytes: Seq<u8>) -> u16
    recommends
        bytes.len() >= 5,
{
    spec_u16_from_bytes(bytes[4], bytes[3])
}

/// Where the pulse rate of an event stands: behind the 7 bytes of flags
/// and pressures, and behind the 7 bytes of the timestamp if there is one.
pub open spec fn spec_pulse_index(flags: u8) -> int {
    if spec_flag(flags, 1) {
        14
    } else {
        7
    }
}

/// The least length of an event with the given flags.
pub open spec fn spec_pressure_event_length(flags: u8) -> int {
    let fixed: int = if spec_flag(flags, 1) {
        14
    } else {
        5
    };
    if spec_flag(flags, 2) {
        spec_pulse_index(flags) + 2
    } else {
        fixed
    }
}

/// The timestamp of an event: the 7 bytes from byte 7 on, the year's low
/// byte first, where bit 1 of the flags announces them, else the time of
/// arrival.
pub open spec fn spec_pressure_timestamp(bytes: Seq<u8>, now: Timestamp) -> Option<Timestamp>
    recommends
        bytes.len() >= spec_pressure_event_length(bytes[0]),
{
    if spec_flag(bytes[0], 1) {
        spec_naive_date_time_from_bytes(bytes.subrange(7, 14), true)
    } else {
        Some(now)
    }
}

/// The values of an event: systolic and diastolic pressure in mmHg and,
/// where bit 2 of the flags announces it, the pulse rate.
pub open spec fn spec_pressure_values(bytes: Seq<u8>) -> Seq<Value>
    recommends
        bytes.len() >= spec_pressure_event_length(bytes[0]),
{
    let kpa = spec_flag(bytes[0], 0);
    let pressures = seq![
        Value::BloodPressureSystolic(spec_pressure(spec_systolic_raw(bytes), kpa) as i32),
        Value::BloodPressureDiastolic(spec_pressure(spec_diastolic_raw(bytes), kpa) as i32),
    ];
    if spec_flag(bytes[0], 2) {
        let at = spec_pulse_index(bytes[0]);
        pressures.push(Value::HeartRate(spec_u16_from_bytes(bytes[at + 1], bytes[at]) as i32))
    } else {
        pressures
    }
}

/// What an event of the monitor decodes to when it arrives at `now`:
/// nothing where it is empty, shorter than its flags require, or holds an
/// invalid date; else a record of its values.
pub open spec fn spec_read_pressure_record(
    mac_address: MacAddress,
    bytes: Seq<u8>,
    now: Timestamp,
) -> Option<RecordView> {
    if bytes.len() == 0 || bytes.len() < spec_pressure_event_length(bytes[0]) {
        None
    } else {
        match spec_pressure_timestamp(bytes, now) {
            None => None,
            Some(timestamp) => Some(
                RecordView {
                    timestamp,
                    values: spec_pressure_values(bytes),
                    raw_data: bytes,
                    source: SourceView::Device(mac_address),
                },
            ),
        }
    }
}

/// What a session of the monitor has gathered so far.
pub struct Gathered {
    /// The decoded timestamp of the latest record that was no duplicate.
    pub previous: Option<Timestamp>,
    /// How many records in a row have repeated that timestamp.
    pub duplicates: nat,
    /// The records, in the order of their events.
    pub records: Seq<RecordView>,
}

/// A session that has seen no event yet.
pub open spec fn spec_nothing_gathered() -> Gathered {
    Gathered { previous: None, duplicates: 0, records: Seq::empty() }
}

/// A record with its timestamp moved `seconds` later.
pub open spec fn spec_delayed(record: RecordView, seconds: int) -> RecordView {
    RecordView { timestamp: record.timestamp.spec_plus_seconds(seconds), ..record }
}

/// The session after one more decoded record.
///
/// A record whose timestamp differs from the previous one is kept as it
/// is, and the count of duplicates starts again from zero. A record that
/// repeats the previous timestamp raises the count by one and is kept
/// with that many seconds added, so that a burst with one timestamp
/// comes out one second apart; it is left out where the later second
/// cannot be counted in 64 bits.
pub open spec fn spec_gather(gathered: Gathered, record: RecordView) -> Gathered {
    if gathered.previous == Some(record.timestamp) {
        let duplicates = gathered.duplicates + 1;
        Gathered {
            previous: gathered.previous,
            duplicates,
            records: if record.timestamp.secs + duplicates <= i64::MAX {
                gathered.records.push(spec_delayed(record, duplicates as int))
            } else {
                gathered.records
            },
        }
    } else {
        Gathered {
            previous: Some(record.timestamp),
            duplicates: 0,
            records: gathered.records.push(record),
        }
    }
}

/// The session after a run of events, each with its time of arrival.
pub open spec fn spec_gather_all(mac_address: MacAddress, events: Seq<(Seq<u8>, Timestamp)>) -> Gathered
    decreases events.len(),
{
    if events.len() == 0 {
        spec_nothing_gathered()
    } else {
        let earlier = spec_gather_all(mac_address, events.drop_last());
        match spec_read_pressure_record(mac_address, events.last().0, events.last().1) {
            Some(record) => spec_gather(earlier, record),
            None => earlier,
        }
    }
}

/// The decoder for one Systo MC 400 blood-pressure monitor.
#[derive(Clone, Copy, Debug, PartialEq, Eq)]
pub struct SystoMC400 {
    pub mac_address: MacAddress,
}

impl SystoMC400 {
    /// A decoder for the monitor with the given address.
    pub fn new(mac_address: MacAddress) -> (device: Self)
        ensures
            device.mac_address == mac_address,
    {
        Self { mac_address }
    }

    /// The characteristic that notifies measurements.
    pub fn measurement_characteristic() -> (id: CharacteristicId)
        ensures
            id == (CharacteristicId {
                service: BLOOD_PRESSURE_SERVICE,
                characteristic: BLOOD_PRESSURE_CHARACTERISTIC,
            }),
    {
        CharacteristicId {
            service: BLOOD_PRESSURE_SERVICE,
            characteristic: BLOOD_PRESSURE_CHARACTERISTIC,
        }
    }

    /// Decodes one event that arrived at `now`, the time that an event
    /// without a timestamp of its own is given. An event that is shorter
    /// than its flags require, or whose timestamp is no valid date, decodes
    /// to nothing.
    pub fn read_record(raw_data: Vec<u8>, mac_address: MacAddress, now: Timestamp) -> (record:
        Option<Record>)
        ensures
            record is Some <==> spec_read_pressure_record(mac_address, raw_data@, now) is Some,
            record matches Some(r) ==> spec_read_pressure_record(mac_address, raw_data@, now)
                == Some(r@),
    {
        if raw_data.len() < 5 {
            return None;
        }
        let flags = raw_data[0];
        let kpa = flag(flags, 0);
        let has_timestamp = flag(flags, 1);
        let has_pulse = flag(flags, 2);
        let pulse_index: usize = if has_timestamp {
            14
        } else {
            7
        };
        if has_timestamp && raw_data.len() < 14 {
            return None;
        }
        if has_pulse && raw_data.len() < pulse_index + 2 {
            return None;
        }
        let systolic_raw = u16_from_bytes(raw_data[2], raw_data[1]);
        let diastolic_raw = u16_from_bytes(raw_data[4], raw_data[3]);
        let (systolic, diastolic): (u32, u32) = if kpa {
            (systolic_raw as u32 * 15 / 2000, diastolic_raw as u32 * 15 / 2000)
        } else {
            (systolic_raw as u32, diastolic_raw as u32)
        };
        let mut values = vec![
            Value::BloodPressureSystolic(systolic as i32),
            Value::BloodPressureDiastolic(diastolic as i32),
        ];
        let timestamp = if has_timestamp {
            match naive_date_time_from_le_bytes(
                vstd::slice::slice_subrange(raw_data.as_slice(), 7, 14),
            ) {
                Some(timestamp) => timestamp,
                None => {
                    return None;
                },
            }
        } else {
            now
        };
        if has_pulse {
            let heart_rate = u16_from_bytes(raw_data[pulse_index + 1], raw_data[pulse_index]);
            values.push(Value::HeartRate(heart_rate as i32));
        }
        assert(values@ =~= spec_pressure_values(raw_data@));
        Some(Record::new(timestamp, values, raw_data, Source::Device(mac_address)))
    }

    /// Turns the events of one session into records, one for each event
    /// that decodes, in the order of the events.
    ///
    /// `events` are the notifications of the measurement characteristic,
    /// each with the time at which it arrived, up to the first silence of
    /// [`SYSTO_IDLE_TIMEOUT_MS`]. Records in a row with the same decoded
    /// timestamp are set one second apart.
    pub fn get_data(&self, events: Vec<TimedEvent>) -> (records: Vec<Record>)
        ensures
            records.deep_view() == spec_gather_all(self.mac_address, events.deep_view()).records,
    {
        let mut records: Vec<Record> = Vec::new();
        let mut previous: Option<Timestamp> = None;
        let mut duplicates: u64 = 0;
        let ghost all = events.deep_view();
        assert(records.deep_view() =~= Seq::<RecordView>::empty());
        let count = events.len();
        assert(all.len() == count);
        for timed in it: events.into_iter()
            invariant
                it.seq().len() == all.len(),
                forall|i: int|
                    0 <= i < it.seq().len() ==> (#[trigger] it.seq()[i]).deep_view() == all[i],
                all.len() == count,
                duplicates <= it.index(),
                spec_gather_all(self.mac_address, all.take(it.index() as int)) == (Gathered {
                    previous,
                    duplicates: duplicates as nat,
                    records: records.deep_view(),
                }),
        {
            proof {
                let upto = all.take(it.index() + 1);
                assert(upto.drop_last() == all.take(it.index() as int));
                assert(upto.last() == timed.deep_view());
            }
            let ghost before = records.deep_view();
            let TimedEvent { event, received } = timed;
            if let Some(record) = Self::read_record(event.value, self.mac_address, received) {
                let ghost decoded = record@;
                let repeats = match previous {
                    Some(p) => p.secs == record.timestamp.secs && p.nanos == record.timestamp.nanos,
                    None => false,
                };
                if repeats {
                    assert(it.index() < all.len());
                    duplicates = duplicates + 1;
                    if let Some(later) = record.timestamp.checked_plus_seconds(duplicates) {
                        let mut record = record;
                        record.timestamp = later;
                        records.push(record);
                        assert(records.deep_view() =~= before.push(
                            spec_delayed(decoded, duplicates as int),
                        ));
                    }
                } else {
                    duplicates = 0;
                    previous = Some(record.timestamp);
                    records.push(record);
                    assert(records.deep_view() =~= before.push(decoded));
                }
            }
        }
        proof {
            assert(all.take(all.len() as int) == all);
        }
        records
    }
}

/// The kinds of the values of a record, in order.
pub open spec fn spec_kinds(values: Seq<Value>) -> Seq<ValueType> {
    values.map_values(|value: Value| value.spec_value_type())
}

/// A sample of the scale whose impedance at 50 kHz is zero, or at or above
/// the limit, yields weight, body-mass index and basal metabolic rate and
/// nothing else; any other sample yields these three and then fat, water
/// and muscle.
pub proof fn lemma_scale_values_by_impedance(user: User, weight: int, imp5: int, imp50: int)
    ensures
        imp50 <= 0 || imp50 >= 1600 ==> spec_kinds(spec_values(user, weight, imp5, imp50))
            == seq![ValueType::Weight, ValueType::BodyMassIndex, ValueType::BasalMetabolicRate],
        0 < imp50 < 1600 ==> spec_kinds(spec_values(user, weight, imp5, imp50)) == seq![
            ValueType::Weight,
            ValueType::BodyMassIndex,
            ValueType::BasalMetabolicRate,
            ValueType::FatPercent,
            ValueType::WaterPercent,
            ValueType::MusclePercent,
        ],
{
    let kinds = spec_kinds(spec_values(user, weight, imp5, imp50));
    if 0 < imp50 < 1600 {
        assert(kinds =~= seq![
            ValueType::Weight,
            ValueType::BodyMassIndex,
            ValueType::BasalMetabolicRate,
            ValueType::FatPercent,
            ValueType::WaterPercent,
            ValueType::MusclePercent,
        ]);
    } else {
        assert(kinds =~= seq![
            ValueType::Weight,
            ValueType::BodyMassIndex,
            ValueType::BasalMetabolicRate,
        ]);
    }
}

/// Every record that a measurement event of the scale decodes to holds
/// exactly the kinds that its impedance at 50 kHz calls for.
pub proof fn lemma_scale_record_kinds(mac_address: MacAddress, user: User, bytes: Seq<u8>)
    requires
        spec_read_scale_record(mac_address, user, bytes) is Some,
    ensures
        ({
            let record = spec_read_scale_record(mac_address, user, bytes).unwrap();
            let imp50 = spec_event_imp50(bytes);
            &&& imp50 == 0 || imp50 >= 1600 ==> spec_kinds(record.values) == seq![
                ValueType::Weight,
                ValueType::BodyMassIndex,
                ValueType::BasalMetabolicRate,
            ]
            &&& 0 < imp50 < 1600 ==> spec_kinds(record.values) == seq![
                ValueType::Weight,
                ValueType::BodyMassIndex,
                ValueType::BasalMetabolicRate,
                ValueType::FatPercent,
                ValueType::WaterPercent,
                ValueType::MusclePercent,
            ]
        }),
{
    lemma_scale_values_by_impedance(
        user,
        spec_event_weight(bytes) as int,
        spec_event_imp5(bytes) as int,
        spec_event_imp50(bytes) as int,
    );
}

/// Where the monitor reports in kPa the decoded pressures are the
/// readings times 15 over 2000, rounded down; where it reports in mmHg
/// they are the readings unchanged.
pub proof fn lemma_pressure_units(mac_address: MacAddress, bytes: Seq<u8>, now: Timestamp)
    requires
        spec_read_pressure_record(mac_address, bytes, now) is Some,
    ensures
        ({
            let values = spec_read_pressure_record(mac_address, bytes, now).unwrap().values;
            let systolic = spec_systolic_raw(bytes);
            let diastolic = spec_diastolic_raw(bytes);
            &&& values.len() >= 2
            &&& spec_flag(bytes[0], 0) ==> values[0] == Value::BloodPressureSystolic(
                (systolic * 15 / 2000) as i32,
            ) && values[1] == Value::BloodPressureDiastolic((diastolic * 15 / 2000) as i32)
            &&& !spec_flag(bytes[0], 0) ==> values[0] == Value::BloodPressureSystolic(
                systolic as i32,
            ) && values[1] == Value::BloodPressureDiastolic(diastolic as i32)
        }),
{
}

/// Of two records in a row with the same decoded timestamp the second is
/// stored exactly one second later than the first, and a third exactly
/// two seconds later than the first, whatever came before them.
pub proof fn lemma_duplicates_one_second_apart(
    gathered: Gathered,
    first: RecordView,
    second: RecordView,
    third: RecordView,
)
    requires
        first.timestamp == second.timestamp,
        second.timestamp == third.timestamp,
        first.timestamp.secs + gathered.duplicates + 3 <= i64::MAX,
    ensures
        ({
            let before = gathered.records.len() as int;
            let after = spec_gather(spec_gather(spec_gather(gathered, first), second), third);
            &&& after.records.len() == before + 3
            &&& after.records.subrange(0, before) == gathered.records
            &&& after.records[before + 1].timestamp.secs == after.records[before].timestamp.secs
                + 1
            &&& after.records[before + 2].timestamp.secs == after.records[before].timestamp.secs
                + 2
            &&& after.records[before + 1].timestamp.nanos == after.records[before].timestamp.nanos
            &&& after.records[before + 2].timestamp.nanos == after.records[before].timestamp.nanos
            &&& gathered.previous != Some(first.timestamp) ==> after.records[before] == first
        }),
{
    let one = spec_gather(gathered, first);
    let two = spec_gather(one, second);
    let three = spec_gather(two, third);
    assert(three.records.subrange(0, gathered.records.len() as int) =~= gathered.records);
}

/// No record of the scale holds a kind of value twice.
pub proof fn lemma_scale_kinds_distinct(user: User, weight: int, imp5: int, imp50: int)
    ensures
        spec_kinds_distinct(spec_values(user, weight, imp5, imp50)),
{
}

/// No record of the blood-pressure monitor holds a kind of value twice.
pub proof fn lemma_pressure_kinds_distinct(bytes: Seq<u8>)
    ensures
        spec_kinds_distinct(spec_pressure_values(bytes)),
{
}

/// A record whose event carries its own timestamp lies between the year
/// 0 and the year 65 536, on a whole second.
pub proof fn lemma_pressure_timestamp_bounds(mac_address: MacAddress, bytes: Seq<u8>, now: Timestamp)
    requires
        spec_read_pressure_record(mac_address, bytes, now) is Some,
        spec_flag(bytes[0], 1),
    ensures
        -62_200_000_000 < spec_read_pressure_record(
            mac_address,
            bytes,
            now,
        ).unwrap().timestamp.secs < 2_010_000_000_000,
        spec_read_pressure_record(mac_address, bytes, now).unwrap().timestamp.nanos == 0,
{
    lemma_decoded_timestamp_bounds(bytes.subrange(7, 14), true);
}

/// The session after one more event is the session before it with the
/// event's record gathered, if the event decodes.
pub proof fn lemma_gather_one_more(
    mac_address: MacAddress,
    earlier: Seq<(Seq<u8>, Timestamp)>,
    event: (Seq<u8>, Timestamp),
)
    ensures
        spec_gather_all(mac_address, earlier.push(event)) == match spec_read_pressure_record(
            mac_address,
            event.0,
            event.1,
        ) {
            Some(record) => spec_gather(spec_gather_all(mac_address, earlier), record),
            None => spec_gather_all(mac_address, earlier),
        },
{
    let events = earlier.push(event);
    assert(events.drop_last() =~= earlier);
    assert(events.last() == event);
}

/// Three events in a row that carry the same timestamp T, the first of
/// them being the first of its run, come out of a session as three
/// records in a row with the timestamps T, T plus one second and T plus
/// two seconds, and otherwise as they were decoded. The same holds of the
/// first two alone.
pub proof fn lemma_burst_in_a_session(
    mac_address: MacAddress,
    earlier: Seq<(Seq<u8>, Timestamp)>,
    first: (Seq<u8>, Timestamp),
    second: (Seq<u8>, Timestamp),
    third: (Seq<u8>, Timestamp),
)
    requires
        spec_read_pressure_record(mac_address, first.0, first.1) is Some,
        spec_read_pressure_record(mac_address, second.0, second.1) is Some,
        spec_read_pressure_record(mac_address, third.0, third.1) is Some,
        spec_flag(first.0[0], 1),
        spec_read_pressure_record(mac_address, first.0, first.1).unwrap().timestamp
            == spec_read_pressure_record(mac_address, second.0, second.1).unwrap().timestamp,
        spec_read_pressure_record(mac_address, first.0, first.1).unwrap().timestamp
            == spec_read_pressure_record(mac_address, third.0, third.1).unwrap().timestamp,
        spec_gather_all(mac_address, earlier).previous != Some(
            spec_read_pressure_record(mac_address, first.0, first.1).unwrap().timestamp,
        ),
    ensures
        ({
            let before = spec_gather_all(mac_address, earlier).records;
            let one = spec_read_pressure_record(mac_address, first.0, first.1).unwrap();
            let two = spec_read_pressure_record(mac_address, second.0, second.1).unwrap();
            let three = spec_read_pressure_record(mac_address, third.0, third.1).unwrap();
            let t = one.timestamp;
            &&& spec_gather_all(mac_address, earlier.push(first).push(second)).records
                == before.push(one).push(
                RecordView { timestamp: Timestamp { secs: (t.secs + 1) as i64, nanos: 0 }, ..two },
            )
            &&& spec_gather_all(
                mac_address,
                earlier.push(first).push(second).push(third),
            ).records == before.push(one).push(
                RecordView { timestamp: Timestamp { secs: (t.secs + 1) as i64, nanos: 0 }, ..two },
            ).push(
                RecordView {
                    timestamp: Timestamp { secs: (t.secs + 2) as i64, nanos: 0 },
                    ..three
                },
            )
            &&& t.secs + 2 <= i64::MAX
            &&& t.nanos == 0
        }),
{
    lemma_pressure_timestamp_bounds(mac_address, first.0, first.1);
    lemma_gather_one_more(mac_address, earlier, first);
    lemma_gather_one_more(mac_address, earlier.push(first), second);
    lemma_gather_one_more(mac_address, earlier.push(first).push(second), third);
}

} // verus!
