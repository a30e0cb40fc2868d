//! The small closed sets of values that records carry, each with the byte
//! that stands for it in a stored record.

use vstd::prelude::*;

verus! {

/// Who a user is to the service.
#[derive(Clone, Copy, Debug, PartialEq, Eq, Hash, Default)]
pub enum UserType {
    #[default]
    Elderly,
    Caregiver,
    HealthcareProvider,
}

impl UserType {
    /// The byte that stands for the value.
    pub open spec fn tag(self) -> u8 {
        match self {
            UserType::Elderly => 0,
            UserType::Caregiver => 1,
            UserType::HealthcareProvider => 2,
        }
    }

    /// The value that `t` stands for, if it stands for one.
    pub open spec fn of_tag(t: u8) -> Option<Self> {
        if t == 0 {
            Some(UserType::Elderly)
        } else if t == 1 {
            Some(UserType::Caregiver)
        } else if t == 2 {
            Some(UserType::HealthcareProvider)
        } else {
            None
        }
    }

    /// The byte that stands for the value.
    pub fn to_tag(self) -> (t: u8)
        ensures
            t == self.tag(),
            Self::of_tag(t) == Some(self),
    {
        match self {
            UserType::Elderly => 0,
            UserType::Caregiver => 1,
            UserType::HealthcareProvider => 2,
        }
    }

    /// The value that `t` stands for, if it stands for one.
    pub fn from_tag(t: u8) -> (out: Option<Self>)
        ensures
            out == Self::of_tag(t),
            out matches Some(value) ==> value.tag() == t,
    {
        if t == 0 {
            Some(UserType::Elderly)
        } else if t == 1 {
            Some(UserType::Caregiver)
        } else if t == 2 {
            Some(UserType::HealthcareProvider)
        } else {
            None
        }
    }
}

/// How a health reading was judged.
#[derive(Clone, Copy, Debug, PartialEq, Eq, Hash, Default)]
pub enum HealthStatus {
    #[default]
    Stable,
    Critical,
}

impl HealthStatus {
    /// The byte that stands for the value.
    pub open spec fn tag(self) -> u8 {
        match self {
            HealthStatus::Stable => 0,
            HealthStatus::Critical => 1,
        }
    }

    /// The value that `t` stands for, if it stands for one.
    pub open spec fn of_tag(t: u8) -> Option<Self> {
        if t == 0 {
            Some(HealthStatus::Stable)
        } else if t == 1 {
            Some(HealthStatus::Critical)
        } else {
            None
        }
    }

    /// The byte that stands for the value.
    pub fn to_tag(self) -> (t: u8)
        ensures
            t == self.tag(),
            Self::of_tag(t) == Some(self),
    {
        match self {
            HealthStatus::Stable => 0,
            HealthStatus::Critical => 1,
        }
    }

    /// The value that `t` stands for, if it stands for one.
    pub fn from_tag(t: u8) -> (out: Option<Self>)
        ensures
            out == Self::of_tag(t),
            out matches Some(value) ==> value.tag() == t,
    {
        if t == 0 {
            Some(HealthStatus::Stable)
        } else if t == 1 {
            Some(HealthStatus::Critical)
        } else {
            None
        }
    }
}

/// Which meal of the day a diet record is about.
#[derive(Clone, Copy, Debug, PartialEq, Eq, Hash, Default)]
pub enum MealType {
    #[default]
    Breakfast,
    Lunch,
    Dinner,
}

impl MealType {
    /// The byte that stands for the value.
    pub open spec fn tag(self) -> u8 {
        match self {
            MealType::Breakfast => 0,
            MealType::Lunch => 1,
            MealType::Dinner => 2,
        }
    }

    /// The value that `t` stands for, if it stands for one.
    pub open spec fn of_tag(t: u8) -> Option<Self> {
        if t == 0 {
            Some(MealType::Breakfast)
        } else if t == 1 {
            Some(MealType::Lunch)
        } else if t == 2 {
            Some(MealType::Dinner)
        } else {
            None
        }
    }

    /// The byte that stands for the value.
    pub fn to_tag(self) -> (t: u8)
        ensures
            t == self.tag(),
            Self::of_tag(t) == Some(self),
    {
        match self {
            MealType::Breakfast => 0,
            MealType::Lunch => 1,
            MealType::Dinner => 2,
        }
    }

    /// The value that `t` stands for, if it stands for one.
    pub fn from_tag(t: u8) -> (out: Option<Self>)
        ensures
            out == Self::of_tag(t),
            out matches Some(value) ==> value.tag() == t,
    {
        if t == 0 {
            Some(MealType::Breakfast)
        } else if t == 1 {
            Some(MealType::Lunch)
        } else if t == 2 {
            Some(MealType::Dinner)
        } else {
            None
        }
    }
}

/// What kind of exercise is recommended.
#[derive(Clone, Copy, Debug, PartialEq, Eq, Hash, Default)]
pub enum ExerciseType {
    #[default]
    Cardio,
    Strength,
    Flexibility,
}

impl ExerciseType {
    /// The byte that stands for the value.
    pub open spec fn tag(self) -> u8 {
        match self {
            ExerciseType::Cardio => 0,
            ExerciseType::Strength => 1,
            ExerciseType::Flexibility => 2,
        }
    }

    /// The value that `t` stands for, if it stands for one.
    pub open spec fn of_tag(t: u8) -> Option<Self> {
        if t == 0 {
            Some(ExerciseType::Cardio)
        } else if t == 1 {
            Some(ExerciseType::Strength)
        } else if t == 2 {
            Some(ExerciseType::Flexibility)
        } else {
            None
        }
    }

    /// The byte that stands for the value.
    pub fn to_tag(self) -> (t: u8)
        ensures
            t == self.tag(),
            Self::of_tag(t) == Some(self),
    {
        match self {
            ExerciseType::Cardio => 0,
            ExerciseType::Strength => 1,
            ExerciseType::Flexibility => 2,
        }
    }

    /// The value that `t` stands for, if it stands for one.
    pub fn from_tag(t: u8) -> (out: Option<Self>)
        ensures
            out == Self::of_tag(t),
            out matches Some(value) ==> value.tag() == t,
    {
        if t == 0 {
            Some(ExerciseType::Cardio)
        } else if t == 1 {
            Some(ExerciseType::Strength)
        } else if t == 2 {
            Some(ExerciseType::Flexibility)
        } else {
            None
        }
    }
}

/// How hard a recommended exercise is.
#[derive(Clone, Copy, Debug, PartialEq, Eq, Hash, Default)]
pub enum Intensity {
    #[default]
    Low,
    Medium,
    High,
}

impl Intensity {
    /// The byte that stands for the value.
    pub open spec fn tag(self) -> u8 {
        match self {
            Intensity::Low => 0,
            Intensity::Medium => 1,
            Intensity::High => 2,
        }
    }

    /// The value that `t` stands for, if it stands for one.
    pub open spec fn of_tag(t: u8) -> Option<Self> {
        if t == 0 {
            Some(Intensity::Low)
        } else if t == 1 {
            Some(Intensity::Medium)
        } else if t == 2 {
            Some(Intensity::High)
        } else {
            None
        }
    }

    /// The byte that stands for the value.
    pub fn to_tag(self) -> (t: u8)
        ensures
            t == self.tag(),
            Self::of_tag(t) == Some(self),
    {
        match self {
            Intensity::Low => 0,
            Intensity::Medium => 1,
            Intensity::High => 2,
        }
    }

    /// The value that `t` stands for, if it stands for one.
    pub fn from_tag(t: u8) -> (out: Option<Self>)
        ensures
            out == Self::of_tag(t),
            out matches Some(value) ==> value.tag() == t,
    {
        if t == 0 {
            Some(Intensity::Low)
        } else if t == 1 {
            Some(Intensity::Medium)
        } else if t == 2 {
            Some(Intensity::High)
        } else {
            None
        }
    }
}

/// The mood that a mental health record notes.
#[derive(Clone, Copy, Debug, PartialEq, Eq, Hash, Default)]
pub enum Mood {
    #[default]
    Happy,
    Sad,
    Anxious,
}

impl Mood {
    /// The byte that stands for the value.
    pub open spec fn tag(self) -> u8 {
        match self {
            Mood::Happy => 0,
            Mood::Sad => 1,
            Mood::Anxious => 2,
        }
    }

    /// The value that `t` stands for, if it stands for one.
    pub open spec fn of_tag(t: u8) -> Option<Self> {
        if t == 0 {
            Some(Mood::Happy)
        } else if t == 1 {
            Some(Mood::Sad)
        } else if t == 2 {
            Some(Mood::Anxious)
        } else {
            None
        }
    }

    /// The byte that stands for the value.
    pub fn to_tag(self) -> (t: u8)
        ensures
            t == self.tag(),
            Self::of_tag(t) == Some(self),
    {
        match self {
            Mood::Happy => 0,
            Mood::Sad => 1,
            Mood::Anxious => 2,
        }
    }

    /// The value that `t` stands for, if it stands for one.
    pub fn from_tag(t: u8) -> (out: Option<Self>)
        ensures
            out == Self::of_tag(t),
            out matches Some(value) ==> value.tag() == t,
    {
        if t == 0 {
            Some(Mood::Happy)
        } else if t == 1 {
            Some(Mood::Sad)
        } else if t == 2 {
            Some(Mood::Anxious)
        } else {
            None
        }
    }
}

/// The stress that a mental health record notes.
#[derive(Clone, Copy, Debug, PartialEq, Eq, Hash, Default)]
pub enum StressLevel {
    #[default]
    Low,
    Medium,
    High,
}

impl StressLevel {
    /// The byte that stands for the value.
    pub open spec fn tag(self) -> u8 {
        match self {
            StressLevel::Low => 0,
            StressLevel::Medium => 1,
            StressLevel::High => 2,
        }
    }

    /// The value that `t` stands for, if it stands for one.
    pub open spec fn of_tag(t: u8) -> Option<Self> {
        if t == 0 {
            Some(StressLevel::Low)
        } else if t == 1 {
            Some(StressLevel::Medium)
        } else if t == 2 {
            Some(StressLevel::High)
        } else {
            None
        }
    }

    /// The byte that stands for the value.
    pub fn to_tag(self) -> (t: u8)
        ensures
            t == self.tag(),
            Self::of_tag(t) == Some(self),
    {
        match self {
            StressLevel::Low => 0,
            StressLevel::Medium => 1,
            StressLevel::High => 2,
        }
    }

    /// The value that `t` stands for, if it stands for one.
    pub fn from_tag(t: u8) -> (out: Option<Self>)
        ensures
            out == Self::of_tag(t),
            out matches Some(value) ==> value.tag() == t,
    {
        if t == 0 {
            Some(StressLevel::Low)
        } else if t == 1 {
            Some(StressLevel::Medium)
        } else if t == 2 {
            Some(StressLevel::High)
        } else {
            None
        }
    }
}

} // verus!
