//! Fixed rate constants and the roster of photographers.
//!
//! Two unit conventions are used throughout the library:
//! - flat charges are in cents;
//! - hourly rates are in cents per hundredth of an hour, which is
//!   numerically the familiar dollars-per-hour figure.

use vstd::prelude::*;

verus! {

/// Cents in one dollar; used where a whole-hour rate in dollars becomes cents.
pub const CENTS_PER_DOLLAR: u64 = 100;

/// Flat image preparation charge, in cents.
pub const IMAGE_PREP_PRICE: u64 = 5000;
/// Image preparation charge at the higher tier, in cents.
pub const HIGHER_IMAGE_PREP_PRICE: u64 = 10000;

/// Flat surcharge for drone usage, in cents.
pub const DRONE_PRICE: u64 = 15000;

/// Assistant rate, in cents per hundredth of an hour ($40/h).
pub const ASSISTANT_RATE: u64 = 40;
/// Assistant rate at the higher tier, in cents per hundredth of an hour ($50/h).
pub const HIGHER_ASSISTANT_RATE: u64 = 50;

/// Charge per billed expense, in cents.
pub const EXPENSES_PRICE: u64 = 1000;
/// On-site editing charge per day, in cents.
pub const ON_SITE_EDITING_PRICE: u64 = 10000;

/// Hourly rate of a large headshot session, in dollars per hour.
pub const LARGE_HEADSHOT_HOURLY: u64 = 275;
/// Hourly rate of a team headshot session, in dollars per hour.
pub const TEAM_HEADSHOT_HOURLY: u64 = 200;
/// Flat price of a small headshot session, in cents.
pub const SMALL_HEADSHOT_PRICE: u64 = 40000;
/// Charge per additionally retouched photo, in cents.
pub const EXTRA_RETOUCH_PRICE: u64 = 2000;

/// Conference coverage rate, in cents per hundredth of an hour ($200/h).
pub const CONFERENCE_HOURLY: u64 = 200;

/// The fixed roster of photographers, each with compiled-in rates.
#[derive(Clone, Copy, PartialEq, Eq, Structural, Debug)]
pub enum Photographer {
    Ken,
    Colin,
    Team,
}

impl Photographer {
    /// Hourly rate, in cents per hundredth of an hour.
    pub open spec fn spec_hourly(self) -> int {
        match self {
            Photographer::Ken => 275,
            Photographer::Colin => 225,
            Photographer::Team => 150,
        }
    }

    /// Rate of the first half of a paired day, in cents.
    pub open spec fn spec_first_half_day(self) -> int {
        match self {
            Photographer::Ken => 150000,
            Photographer::Colin => 150000,
            Photographer::Team => 60000,
        }
    }

    /// Rate of the second half of a paired day, in cents.
    pub open spec fn spec_second_half_day(self) -> int {
        match self {
            Photographer::Ken => 100000,
            Photographer::Colin => 100000,
            Photographer::Team => 60000,
        }
    }

    /// Hourly rate, in cents per hundredth of an hour.
    pub fn get_hourly(&self) -> (rate: u64)
        ensures
            rate == self.spec_hourly(),
    {
        match self {
            Photographer::Ken => 275,
            Photographer::Colin => 225,
            Photographer::Team => 150,
        }
    }

    /// Rate of the first half of a paired day, in cents.
    pub fn get_first_half_day(&self) -> (rate: u64)
        ensures
            rate == self.spec_first_half_day(),
    {
        match self {
            Photographer::Ken => 150000,
            Photographer::Colin => 150000,
            Photographer::Team => 60000,
        }
    }

    /// Rate of the second half of a paired day, in cents.
    pub fn get_second_half_day(&self) -> (rate: u64)
        ensures
            rate == self.spec_second_half_day(),
    {
        match self {
            Photographer::Ken => 100000,
            Photographer::Colin => 100000,
            Photographer::Team => 60000,
        }
    }

    /// Display name of the photographer.
    pub fn label(&self) -> (s: &'static str)
        ensures
            self is Ken ==> s@ == "Ken"@,
            self is Colin ==> s@ == "Colin"@,
            self is Team ==> s@ == "Team"@,
    {
        match self {
            Photographer::Ken => "Ken",
            Photographer::Colin => "Colin",
            Photographer::Team => "Team",
        }
    }
}

} // verus!
