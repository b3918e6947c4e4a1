//! Measurement values and the records that carry them.

use vstd::prelude::*;

use crate::macaddress::MacAddress;
use crate::time::Timestamp;

verus! {

/// The kinds of measurement value, in the order in which stores number them.
#[derive(Clone, Copy, Debug, PartialEq, Eq, Structural)]
pub enum ValueType {
    Weight,
    BodyMassIndex,
    BasalMetabolicRate,
    WaterPercent,
    MusclePercent,
    FatPercent,
    Glucose,
    Meal,
    BloodPressureSystolic,
    BloodPressureDiastolic,
    HeartRate,
}

impl ValueType {
    /// The number of the kind: its position in the declaration, from zero.
    pub open spec fn spec_index(self) -> int {
        match self {
            ValueType::Weight => 0,
            ValueType::BodyMassIndex => 1,
            ValueType::BasalMetabolicRate => 2,
            ValueType::WaterPercent => 3,
            ValueType::MusclePercent => 4,
            ValueType::FatPercent => 5,
            ValueType::Glucose => 6,
            ValueType::Meal => 7,
            ValueType::BloodPressureSystolic => 8,
            ValueType::BloodPressureDiastolic => 9,
            ValueType::HeartRate => 10,
        }
    }

    /// The kind with a given number, if there is one.
    pub open spec fn spec_from_index(index: int) -> Option<ValueType> {
        if index == 0 {
            Some(ValueType::Weight)
        } else if index == 1 {
            Some(ValueType::BodyMassIndex)
        } else if index == 2 {
            Some(ValueType::BasalMetabolicRate)
        } else if index == 3 {
            Some(ValueType::WaterPercent)
        } else if index == 4 {
            Some(ValueType::MusclePercent)
        } else if index == 5 {
            Some(ValueType::FatPercent)
        } else if index == 6 {
            Some(ValueType::Glucose)
        } else if index == 7 {
            Some(ValueType::Meal)
        } else if index == 8 {
            Some(ValueType::BloodPressureSystolic)
        } else if index == 9 {
            Some(ValueType::BloodPressureDiastolic)
        } else if index == 10 {
            Some(ValueType::HeartRate)
        } else {
            None
        }
    }

    /// The number under which the kind is stored.
    pub fn index(self) -> (index: usize)
        ensures
            index as int == self.spec_index(),
    {
        match self {
            ValueType::Weight => 0,
            ValueType::BodyMassIndex => 1,
            ValueType::BasalMetabolicRate => 2,
            ValueType::WaterPercent => 3,
            ValueType::MusclePercent => 4,
            ValueType::FatPercent => 5,
            ValueType::Glucose => 6,
            ValueType::Meal => 7,
            ValueType::BloodPressureSystolic => 8,
            ValueType::BloodPressureDiastolic => 9,
            ValueType::HeartRate => 10,
        }
    }

    /// The kind stored under `index`; `None` for a number that names no kind.
    pub fn from_usize(index: usize) -> (kind: Option<ValueType>)
        ensures
            kind == Self::spec_from_index(index as int),
    {
        match index {
            0 => Some(ValueType::Weight),
            1 => Some(ValueType::BodyMassIndex),
            2 => Some(ValueType::BasalMetabolicRate),
            3 => Some(ValueType::WaterPercent),
            4 => Some(ValueType::MusclePercent),
            5 => Some(ValueType::FatPercent),
            6 => Some(ValueType::Glucose),
            7 => Some(ValueType::Meal),
            8 => Some(ValueType::BloodPressureSystolic),
            9 => Some(ValueType::BloodPressureDiastolic),
            10 => Some(ValueType::HeartRate),
            _ => None,
        }
    }
}

/// Numbering a kind and reading the number back gives the kind again, and
/// no number beyond ten names a kind.
pub proof fn lemma_value_type_index_round_trip(kind: ValueType)
    ensures
        ValueType::spec_from_index(kind.spec_index()) == Some(kind),
        0 <= kind.spec_index() <= 10,
{
}

/// When a glucose reading was taken relative to a meal.
#[derive(Clone, Copy, Debug, PartialEq, Eq, Structural)]
pub enum MealIndicator {
    NoIndication,
    NoMeal,
    BeforeMeal,
    AfterMeal,
}

impl MealIndicator {
    /// The indicator that a glucose meter's meal code stands for.
    pub open spec fn spec_from_code(code: u8) -> MealIndicator {
        if code == 1 {
            MealIndicator::BeforeMeal
        } else if code == 2 {
            MealIndicator::AfterMeal
        } else if code == 3 {
            MealIndicator::NoMeal
        } else {
            MealIndicator::NoIndication
        }
    }

    /// Decodes the meal code of a glucose measurement context: 1 is before
    /// a meal, 2 after a meal, 3 no meal, and every other code no indication.
    pub fn from_code(code: u8) -> (meal: MealIndicator)
        ensures
            meal == Self::spec_from_code(code),
    {
        match code {
            1 => MealIndicator::BeforeMeal,
            2 => MealIndicator::AfterMeal,
            3 => MealIndicator::NoMeal,
            _ => MealIndicator::NoIndication,
        }
    }

    /// The number of the indicator: its position in the declaration.
    pub open spec fn spec_index(self) -> int {
        match self {
            MealIndicator::NoIndication => 0,
            MealIndicator::NoMeal => 1,
            MealIndicator::BeforeMeal => 2,
            MealIndicator::AfterMeal => 3,
        }
    }

    /// The number under which the indicator is stored.
    pub fn index(self) -> (index: u8)
        ensures
            index as int == self.spec_index(),
    {
        match self {
            MealIndicator::NoIndication => 0,
            MealIndicator::NoMeal => 1,
            MealIndicator::BeforeMeal => 2,
            MealIndicator::AfterMeal => 3,
        }
    }

    /// The indicator stored under `index`, if there is one.
    pub fn from_index(index: u8) -> (meal: Option<MealIndicator>)
        ensures
            meal matches Some(m) ==> m.spec_index() == index,
            meal is None <==> index > 3,
    {
        match index {
            0 => Some(MealIndicator::NoIndication),
            1 => Some(MealIndicator::NoMeal),
            2 => Some(MealIndicator::BeforeMeal),
            3 => Some(MealIndicator::AfterMeal),
            _ => None,
        }
    }
}

/// An exact fraction `num / den`.
///
/// Quantities that a device reports in tenths, or that follow from such
/// readings by a formula, are kept as the fraction the formula gives, not
/// rounded. A zero denominator marks a quantity that the inputs leave
/// undefined (a body-mass index for a height of zero).
#[derive(Clone, Copy, Debug, PartialEq, Eq, Structural)]
pub struct Ratio {
    pub num: i128,
    pub den: i128,
}

/// One typed health reading.
#[derive(Clone, Copy, Debug, PartialEq, Eq, Structural)]
pub enum Value {
    /// Body weight in kilograms.
    Weight(Ratio),
    /// Weight in kilograms over the square of the height in metres.
    BodyMassIndex(Ratio),
    /// Energy use at rest, in kilocalories a day.
    BasalMetabolicRate(Ratio),
    /// Share of body water, in percent of the weight.
    WaterPercent(Ratio),
    /// Share of muscle, in percent of the weight.
    MusclePercent(Ratio),
    /// Share of body fat, in percent of the weight.
    FatPercent(Ratio),
    /// Blood glucose concentration as the meter reports it.
    Glucose(i32),
    /// Meal context of a glucose reading.
    Meal(MealIndicator),
    /// Systolic blood pressure in mmHg.
    BloodPressureSystolic(i32),
    /// Diastolic blood pressure in mmHg.
    BloodPressureDiastolic(i32),
    /// Pulse in beats a minute.
    HeartRate(i32),
}

impl Value {
    /// The kind of the value.
    pub open spec fn spec_value_type(self) -> ValueType {
        match self {
            Value::Weight(_) => ValueType::Weight,
            Value::BodyMassIndex(_) => ValueType::BodyMassIndex,
            Value::BasalMetabolicRate(_) => ValueType::BasalMetabolicRate,
            Value::WaterPercent(_) => ValueType::WaterPercent,
            Value::MusclePercent(_) => ValueType::MusclePercent,
            Value::FatPercent(_) => ValueType::FatPercent,
            Value::Glucose(_) => ValueType::Glucose,
            Value::Meal(_) => ValueType::Meal,
            Value::BloodPressureSystolic(_) => ValueType::BloodPressureSystolic,
            Value::BloodPressureDiastolic(_) => ValueType::BloodPressureDiastolic,
            Value::HeartRate(_) => ValueType::HeartRate,
        }
    }

    /// The amount of the value as a fraction: a reading that is a whole
    /// number over one, a meal indicator by its number over one.
    pub open spec fn spec_amount(self) -> Ratio {
        match self {
            Value::Weight(x) => x,
            Value::BodyMassIndex(x) => x,
            Value::BasalMetabolicRate(x) => x,
            Value::WaterPercent(x) => x,
            Value::MusclePercent(x) => x,
            Value::FatPercent(x) => x,
            Value::Glucose(x) => Ratio { num: x as i128, den: 1 },
            Value::Meal(m) => Ratio { num: m.spec_index() as i128, den: 1 },
            Value::BloodPressureSystolic(x) => Ratio { num: x as i128, den: 1 },
            Value::BloodPressureDiastolic(x) => Ratio { num: x as i128, den: 1 },
            Value::HeartRate(x) => Ratio { num: x as i128, den: 1 },
        }
    }

    /// The kind of the value.
    pub fn value_type(&self) -> (kind: ValueType)
        ensures
            kind == self.spec_value_type(),
    {
        match self {
            Value::Weight(_) => ValueType::Weight,
            Value::BodyMassIndex(_) => ValueType::BodyMassIndex,
            Value::BasalMetabolicRate(_) => ValueType::BasalMetabolicRate,
            Value::WaterPercent(_) => ValueType::WaterPercent,
            Value::MusclePercent(_) => ValueType::MusclePercent,
            Value::FatPercent(_) => ValueType::FatPercent,
            Value::Glucose(_) => ValueType::Glucose,
            Value::Meal(_) => ValueType::Meal,
            Value::BloodPressureSystolic(_) => ValueType::BloodPressureSystolic,
            Value::BloodPressureDiastolic(_) => ValueType::BloodPressureDiastolic,
            Value::HeartRate(_) => ValueType::HeartRate,
        }
    }

    /// Splits the value into the number of its kind and its amount, the
    /// form in which a store keeps it.
    pub fn into_parts(self) -> (parts: (usize, Ratio))
        ensures
            parts.0 as int == self.spec_value_type().spec_index(),
            parts.1 == self.spec_amount(),
    {
        match self {
            Value::Weight(x) => (0, x),
            Value::BodyMassIndex(x) => (1, x),
            Value::BasalMetabolicRate(x) => (2, x),
            Value::WaterPercent(x) => (3, x),
            Value::MusclePercent(x) => (4, x),
            Value::FatPercent(x) => (5, x),
            Value::Glucose(x) => (6, Ratio { num: x as i128, den: 1 }),
            Value::Meal(m) => (7, Ratio { num: m.index() as i128, den: 1 }),
            Value::BloodPressureSystolic(x) => (8, Ratio { num: x as i128, den: 1 }),
            Value::BloodPressureDiastolic(x) => (9, Ratio { num: x as i128, den: 1 }),
            Value::HeartRate(x) => (10, Ratio { num: x as i128, den: 1 }),
        }
    }
}

/// Why a kind number and an amount make no value.
#[derive(Clone, Copy, Debug, PartialEq, Eq, Structural)]
pub enum ValueError {
    /// The number names no kind of value.
    InvalidValueType,
    /// The amount is no number of a meal indicator.
    InvalidMealIndicator,
}

/// A number without its sign.
pub open spec fn spec_magnitude(x: int) -> int {
    if x < 0 {
        -x
    } else {
        x
    }
}

/// The whole part of a fraction: the fraction with what follows the
/// decimal point cut off.
pub open spec fn spec_whole_part(amount: Ratio) -> int
    recommends
        amount.den != 0,
{
    let whole = spec_magnitude(amount.num as int) / spec_magnitude(amount.den as int);
    if (amount.num < 0) != (amount.den < 0) {
        -whole
    } else {
        whole
    }
}

/// The whole number of 32 bits that an amount stands for: its whole part,
/// or the end of the range that the whole part lies beyond. An amount
/// over zero stands for the end of the range on the side of its
/// numerator, and zero over zero for zero.
pub open spec fn spec_whole(amount: Ratio) -> i32 {
    if amount.den == 0 {
        if amount.num > 0 {
            i32::MAX
        } else if amount.num < 0 {
            i32::MIN
        } else {
            0
        }
    } else if spec_whole_part(amount) > i32::MAX {
        i32::MAX
    } else if spec_whole_part(amount) < i32::MIN {
        i32::MIN
    } else {
        spec_whole_part(amount) as i32
    }
}

/// The meal indicator that an amount stands for: the one whose number is
/// the whole part of the amount, if there is one.
pub open spec fn spec_meal_of(amount: Ratio) -> Option<MealIndicator> {
    if amount.den == 0 {
        None
    } else if spec_whole_part(amount) == 0 {
        Some(MealIndicator::NoIndication)
    } else if spec_whole_part(amount) == 1 {
        Some(MealIndicator::NoMeal)
    } else if spec_whole_part(amount) == 2 {
        Some(MealIndicator::BeforeMeal)
    } else if spec_whole_part(amount) == 3 {
        Some(MealIndicator::AfterMeal)
    } else {
        None
    }
}

/// The value that a kind number and an amount make.
pub open spec fn spec_from_parts(index: int, amount: Ratio) -> Result<Value, ValueError> {
    match ValueType::spec_from_index(index) {
        None => Err(ValueError::InvalidValueType),
        Some(ValueType::Weight) => Ok(Value::Weight(amount)),
        Some(ValueType::BodyMassIndex) => Ok(Value::BodyMassIndex(amount)),
        Some(ValueType::BasalMetabolicRate) => Ok(Value::BasalMetabolicRate(amount)),
        Some(ValueType::WaterPercent) => Ok(Value::WaterPercent(amount)),
        Some(ValueType::MusclePercent) => Ok(Value::MusclePercent(amount)),
        Some(ValueType::FatPercent) => Ok(Value::FatPercent(amount)),
        Some(ValueType::Glucose) => Ok(Value::Glucose(spec_whole(amount))),
        Some(ValueType::Meal) => match spec_meal_of(amount) {
            Some(meal) => Ok(Value::Meal(meal)),
            None => Err(ValueError::InvalidMealIndicator),
        },
        Some(ValueType::BloodPressureSystolic) => Ok(
            Value::BloodPressureSystolic(spec_whole(amount)),
        ),
        Some(ValueType::BloodPressureDiastolic) => Ok(
            Value::BloodPressureDiastolic(spec_whole(amount)),
        ),
        Some(ValueType::HeartRate) => Ok(Value::HeartRate(spec_whole(amount))),
    }
}

/// A number without its sign.
fn magnitude(x: i128) -> (m: u128)
    ensures
        m == spec_magnitude(x as int),
{
    if x >= 0 {
        x as u128
    } else {
        (-(x + 1)) as u128 + 1
    }
}

/// The whole part of a fraction without its sign, and whether the whole
/// part is to be taken negative.
fn whole_part(amount: Ratio) -> (part: (u128, bool))
    requires
        amount.den != 0,
    ensures
        spec_whole_part(amount) == if part.1 {
            -(part.0 as int)
        } else {
            part.0 as int
        },
{
    let negative = (amount.num < 0) != (amount.den < 0);
    (magnitude(amount.num) / magnitude(amount.den), negative)
}

/// The whole number of 32 bits that an amount stands for.
fn whole(amount: Ratio) -> (number: i32)
    ensures
        number == spec_whole(amount),
{
    if amount.den == 0 {
        if amount.num > 0 {
            i32::MAX
        } else if amount.num < 0 {
            i32::MIN
        } else {
            0
        }
    } else {
        let (part, negative) = whole_part(amount);
        if negative {
            if part > 2_147_483_648 {
                i32::MIN
            } else {
                (-(part as i64)) as i32
            }
        } else if part > 2_147_483_647 {
            i32::MAX
        } else {
            part as i32
        }
    }
}

/// The meal indicator that an amount stands for.
fn meal_of(amount: Ratio) -> (meal: Option<MealIndicator>)
    ensures
        meal == spec_meal_of(amount),
{
    if amount.den == 0 {
        return None;
    }
    let (part, negative) = whole_part(amount);
    if part == 0 {
        Some(MealIndicator::NoIndication)
    } else if negative {
        None
    } else if part == 1 {
        Some(MealIndicator::NoMeal)
    } else if part == 2 {
        Some(MealIndicator::BeforeMeal)
    } else if part == 3 {
        Some(MealIndicator::AfterMeal)
    } else {
        None
    }
}

impl Value {
    /// Puts a value together from the number of its kind and its amount,
    /// the form in which a store keeps it. A reading that is a whole
    /// number takes the whole part of the amount, kept within 32 bits.
    pub fn from_parts(index: usize, amount: Ratio) -> (value: Result<Value, ValueError>)
        ensures
            value == spec_from_parts(index as int, amount),
    {
        match ValueType::from_usize(index) {
            None => Err(ValueError::InvalidValueType),
            Some(ValueType::Weight) => Ok(Value::Weight(amount)),
            Some(ValueType::BodyMassIndex) => Ok(Value::BodyMassIndex(amount)),
            Some(ValueType::BasalMetabolicRate) => Ok(Value::BasalMetabolicRate(amount)),
            Some(ValueType::WaterPercent) => Ok(Value::WaterPercent(amount)),
            Some(ValueType::MusclePercent) => Ok(Value::MusclePercent(amount)),
            Some(ValueType::FatPercent) => Ok(Value::FatPercent(amount)),
            Some(ValueType::Glucose) => Ok(Value::Glucose(whole(amount))),
            Some(ValueType::Meal) => match meal_of(amount) {
                Some(meal) => Ok(Value::Meal(meal)),
                None => Err(ValueError::InvalidMealIndicator),
            },
            Some(ValueType::BloodPressureSystolic) => Ok(
                Value::BloodPressureSystolic(whole(amount)),
            ),
            Some(ValueType::BloodPressureDiastolic) => Ok(
                Value::BloodPressureDiastolic(whole(amount)),
            ),
            Some(ValueType::HeartRate) => Ok(Value::HeartRate(whole(amount))),
        }
    }
}

/// A value taken apart and put together again is the value.
pub proof fn lemma_parts_make_the_value(value: Value)
    ensures
        spec_from_parts(value.spec_value_type().spec_index(), value.spec_amount()) == Ok::<
            Value,
            ValueError,
        >(value),
{
    let amount = value.spec_amount();
    match value {
        Value::Glucose(x) => {
            lemma_whole_of_whole_number(x);
        },
        Value::BloodPressureSystolic(x) => {
            lemma_whole_of_whole_number(x);
        },
        Value::BloodPressureDiastolic(x) => {
            lemma_whole_of_whole_number(x);
        },
        Value::HeartRate(x) => {
            lemma_whole_of_whole_number(x);
        },
        Value::Meal(meal) => {
            assert(amount.den == 1);
            assert(spec_magnitude(amount.num as int) / 1 == spec_magnitude(amount.num as int));
            assert(spec_whole_part(amount) == meal.spec_index());
        },
        _ => {},
    }
}

/// A whole number over one stands for itself.
proof fn lemma_whole_of_whole_number(x: i32)
    ensures
        spec_whole(Ratio { num: x as i128, den: 1 }) == x,
{
    let amount = Ratio { num: x as i128, den: 1 };
    assert(spec_magnitude(x as int) / 1 == spec_magnitude(x as int));
    assert(spec_whole_part(amount) == x);
}

/// Whether no kind of value occurs twice, but for the meal indicator,
/// which a glucose reading may gain more than once.
pub open spec fn spec_kinds_distinct(values: Seq<Value>) -> bool {
    forall|i: int, j: int|
        0 <= i < j < values.len() && #[trigger] values[i].spec_value_type()
            == #[trigger] values[j].spec_value_type() ==> values[i] is Meal
}

/// Where a record comes from.
#[derive(Clone, Debug, PartialEq, Eq, Hash)]
pub enum Source {
    Device(MacAddress),
    Unknown(String),
}

/// The mathematical value of a [`Source`].
pub enum SourceView {
    Device(MacAddress),
    Unknown(Seq<char>),
}

impl View for Source {
    type V = SourceView;

    open spec fn view(&self) -> SourceView {
        match self {
            Source::Device(mac) => SourceView::Device(*mac),
            Source::Unknown(name) => SourceView::Unknown(name@),
        }
    }
}

/// One timestamped observation from one device.
#[derive(Debug, PartialEq, Eq)]
pub struct Record {
    pub timestamp: Timestamp,
    pub values: Vec<Value>,
    pub raw_data: Vec<u8>,
    pub source: Source,
}

/// The mathematical value of a [`Record`].
pub struct RecordView {
    pub timestamp: Timestamp,
    pub values: Seq<Value>,
    pub raw_data: Seq<u8>,
    pub source: SourceView,
}

impl View for Record {
    type V = RecordView;

    open spec fn view(&self) -> RecordView {
        RecordView {
            timestamp: self.timestamp,
            values: self.values@,
            raw_data: self.raw_data@,
            source: self.source@,
        }
    }
}

impl DeepView for Record {
    type V = RecordView;

    open spec fn deep_view(&self) -> RecordView {
        self@
    }
}

impl Record {
    /// A record of `values` read at `timestamp` from `source`, with the
    /// bytes they were decoded from.
    pub fn new(timestamp: Timestamp, values: Vec<Value>, raw_data: Vec<u8>, source: Source) -> (record:
        Self)
        ensures
            record@ == (RecordView {
                timestamp,
                values: values@,
                raw_data: raw_data@,
                source: source@,
            }),
    {
        Self { timestamp, values, raw_data, source }
    }

    /// Appends one more value to the record.
    pub fn add_value(&mut self, value: Value)
        ensures
            final(self)@ == (RecordView { values: old(self)@.values.push(value), ..old(self)@ }),
    {
        self.values.push(value)
    }
}

} // verus!
