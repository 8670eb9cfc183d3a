//! The gender that a request names.
use vstd::prelude::*;
use vstd::string::*;

verus! {

/// A gender, with the number that stands for it: 0, 1, -1 and 2.
#[derive(Debug, Clone, Copy, PartialEq, Eq, Structural)]
pub enum GenderEnum {
    Unknown,
    Male,
    Female,
    Double,
}

impl GenderEnum {
    /// The number that stands for the gender.
    pub open spec fn spec_value(self) -> i32 {
        match self {
            GenderEnum::Unknown => 0,
            GenderEnum::Male => 1,
            GenderEnum::Female => -1i32,
            GenderEnum::Double => 2,
        }
    }

    /// The variant's name, as the `Debug` format writes it.
    pub open spec fn debug_text(self) -> Seq<char> {
        match self {
            GenderEnum::Unknown => "Unknown"@,
            GenderEnum::Male => "Male"@,
            GenderEnum::Female => "Female"@,
            GenderEnum::Double => "Double"@,
        }
    }

    /// The number that stands for the gender: 0, 1, -1 or 2.
    pub fn value(&self) -> (v: i32)
        ensures
            v == self.spec_value(),
    {
        match self {
            GenderEnum::Unknown => 0,
            GenderEnum::Male => 1,
            GenderEnum::Female => -1i32,
            GenderEnum::Double => 2,
        }
    }

    /// The variant's name.
    pub fn debug_name(&self) -> (s: String)
        ensures
            s@ == self.debug_text(),
    {
        match self {
            GenderEnum::Unknown => String::from_str("Unknown"),
            GenderEnum::Male => String::from_str("Male"),
            GenderEnum::Female => String::from_str("Female"),
            GenderEnum::Double => String::from_str("Double"),
        }
    }
}

} // verus!
