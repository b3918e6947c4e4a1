//! The profile of the person a scale measures.

use vstd::prelude::*;

use crate::measurement::Ratio;

verus! {

/// The active user profile that a scale reports before it replays its
/// measurements.
#[derive(Clone, Copy, Debug, PartialEq, Eq, Structural)]
pub struct User {
    pub age: u8,
    pub is_female: bool,
    pub height: u16,
    pub activity_level: u8,
}

impl User {
    /// A profile from age in years, sex, height in centimetres and
    /// activity level.
    pub fn new(age: u8, is_female: bool, height: u16, activity_level: u8) -> (user: Self)
        ensures
            user == (User { age, is_female, height, activity_level }),
    {
        Self { age, is_female, height, activity_level }
    }

    /// Age in years.
    pub fn age(&self) -> (age: u8)
        ensures
            age == self.age,
    {
        self.age
    }

    /// Whether the profile is a woman's.
    pub fn is_female(&self) -> (is_female: bool)
        ensures
            is_female == self.is_female,
    {
        self.is_female
    }

    /// Height in centimetres.
    pub fn height_cm(&self) -> (height: u16)
        ensures
            height == self.height,
    {
        self.height
    }

    /// Height in metres, as the fraction of the centimetres over one hundred.
    pub fn height_m(&self) -> (height: Ratio)
        ensures
            height == (Ratio { num: self.height as i128, den: 100 }),
    {
        Ratio { num: self.height as i128, den: 100 }
    }

    /// Activity level, from 1 (sedentary) to 5 (athlete).
    pub fn activity_level(&self) -> (level: u8)
        ensures
            level == self.activity_level,
    {
        self.activity_level
    }
}

} // verus!
