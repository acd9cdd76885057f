//! The shoot description and the price calculation.
//!
//! A [`CalcApp`] holds the currently selected shoot kind together with the
//! global modifiers (billed expenses and drone usage), and [`CalcApp::calc_price`]
//! computes the total price in cents.  The arithmetic is specified exactly by
//! the `spec_*` functions of this module.

use vstd::prelude::*;

use vstd::arithmetic::div_mod::lemma_div_is_ordered;
use vstd::arithmetic::mul::lemma_mul_upper_bound;

use crate::rates::ASSISTANT_RATE;
use crate::rates::CENTS_PER_DOLLAR;
use crate::rates::CONFERENCE_HOURLY;
use crate::rates::DRONE_PRICE;
use crate::rates::EXPENSES_PRICE;
use crate::rates::EXTRA_RETOUCH_PRICE;
use crate::rates::HIGHER_ASSISTANT_RATE;
use crate::rates::HIGHER_IMAGE_PREP_PRICE;
use crate::rates::IMAGE_PREP_PRICE;
use crate::rates::LARGE_HEADSHOT_HOURLY;
use crate::rates::ON_SITE_EDITING_PRICE;
use crate::rates::Photographer;
use crate::rates::SMALL_HEADSHOT_PRICE;
use crate::rates::TEAM_HEADSHOT_HOURLY;

verus! {

/// The kind of headshot session, each with its own rate structure.
#[derive(Clone, Copy, PartialEq, Eq, Structural, Debug)]
pub enum HeadshotType {
    Large,
    Team,
    Small,
}

/// Tier of per-person photo retouching.
#[derive(Clone, Copy, PartialEq, Eq, Structural, Debug)]
pub enum RetouchLevel {
    Student,
    Discount,
    Corporate,
    Full,
}

impl RetouchLevel {
    /// Retouching charge per person, in cents.
    pub open spec fn spec_price_per(self) -> int {
        match self {
            RetouchLevel::Student => 500,
            RetouchLevel::Discount => 1000,
            RetouchLevel::Corporate => 2000,
            RetouchLevel::Full => 5000,
        }
    }

    /// Retouching charge per person, in cents.
    pub fn get_price_per(&self) -> (price: u64)
        ensures
            price == self.spec_price_per(),
    {
        match self {
            RetouchLevel::Student => 500,
            RetouchLevel::Discount => 1000,
            RetouchLevel::Corporate => 2000,
            RetouchLevel::Full => 5000,
        }
    }

    /// Display name of the retouching tier.
    pub fn label(&self) -> (s: &'static str)
        ensures
            self is Student ==> s@ == "Student"@,
            self is Discount ==> s@ == "Discount"@,
            self is Corporate ==> s@ == "Corporate/Under 20 People"@,
            self is Full ==> s@ == "Full Price/Special Needs"@,
    {
        match self {
            RetouchLevel::Student => "Student",
            RetouchLevel::Discount => "Discount",
            RetouchLevel::Corporate => "Corporate/Under 20 People",
            RetouchLevel::Full => "Full Price/Special Needs",
        }
    }
}

/// One kind of shoot with its kind-specific inputs.
///
/// Fractional durations (`hours`, `assistant_hours`) are in hundredths of an
/// hour; `extra_cost` is in cents; the remaining numeric fields are plain
/// counts.
#[derive(Clone, Copy)]
pub enum ShootType {
    Hourly {
        /// Shoot length, in hundredths of an hour.
        hours: u32,
        image_prep: bool,
        /// Assistant time, in hundredths of an hour.
        assistant_hours: u32,
        use_higher_prep_price: bool,
        use_higher_assistant_price: bool,
        photographer: Photographer,
    },
    HalfDayBased {
        /// Number of booked half days.
        halves: u32,
        image_prep: bool,
        /// Assistant time, in hundredths of an hour.
        assistant_hours: u32,
        use_higher_prep_price: bool,
        use_higher_assistant_price: bool,
        photographer: Photographer,
    },
    Headshot {
        /// Number of people photographed.
        heads: u32,
        headshot_type: HeadshotType,
        retouch_level: RetouchLevel,
        editing: bool,
        extra_retouched_photos: u32,
        days: u32,
    },
    Conference {
        /// Coverage length, in hundredths of an hour.
        hours: u32,
        /// Arbitrary additional charge, in cents.
        extra_cost: u32,
    },
}

impl HeadshotType {
    /// Display name of the session kind.
    pub fn label(&self) -> (s: &'static str)
        ensures
            self is Large ==> s@ == "Large"@,
            self is Team ==> s@ == "Team"@,
            self is Small ==> s@ == "Small"@,
    {
        match self {
            HeadshotType::Large => "Large",
            HeadshotType::Team => "Team",
            HeadshotType::Small => "Small",
        }
    }
}

impl ShootType {
    /// Display name of the shoot kind.
    pub fn label(&self) -> (s: &'static str)
        ensures
            self is Hourly ==> s@ == "Hourly"@,
            self is HalfDayBased ==> s@ == "Half Day"@,
            self is Headshot ==> s@ == "Headshot"@,
            self is Conference ==> s@ == "Conference"@,
    {
        match self {
            ShootType::Hourly { .. } => "Hourly",
            ShootType::HalfDayBased { .. } => "Half Day",
            ShootType::Headshot { .. } => "Headshot",
            ShootType::Conference { .. } => "Conference",
        }
    }
}

impl vstd::std_specs::cmp::PartialEqSpecImpl for ShootType {
    open spec fn obeys_eq_spec() -> bool {
        true
    }

    open spec fn eq_spec(&self, other: &ShootType) -> bool {
        ||| (*self is Hourly && *other is Hourly)
        ||| (*self is HalfDayBased && *other is HalfDayBased)
        ||| (*self is Headshot && *other is Headshot)
    }
}

/// Two shoot descriptions compare equal exactly when they are of the same
/// kind, except that conference coverages never compare equal; the kinds'
/// fields play no part.  This serves kind selection in a form.
impl PartialEq for ShootType {
    fn eq(&self, other: &Self) -> (r: bool) {
        matches!(
            (self, other),
            (ShootType::Hourly { .. }, ShootType::Hourly { .. })
                | (ShootType::HalfDayBased { .. }, ShootType::HalfDayBased { .. })
                | (ShootType::Headshot { .. }, ShootType::Headshot { .. })
        )
    }
}

/// Billable whole hours of a headshot session: one hour per started group of
/// twelve people, plus one extra hour on site.
pub open spec fn spec_calc_hours(heads: u32) -> int {
    (heads + 11) / 12 + 1
}

/// Billable whole hours of a headshot session: one hour per started group of
/// twelve people, plus one extra hour on site.
pub fn calc_hours(heads: u32) -> (h: u32)
    ensures
        h == spec_calc_hours(heads),
{
    let h64: u64 = (heads as u64 + 11) / 12 + 1;
    h64 as u32
}

/// Image preparation charge, in cents.
pub open spec fn spec_prep_charge(image_prep: bool, use_higher: bool) -> int {
    if image_prep {
        if use_higher {
            HIGHER_IMAGE_PREP_PRICE as int
        } else {
            IMAGE_PREP_PRICE as int
        }
    } else {
        0
    }
}

/// Drone surcharge, in cents.
pub open spec fn spec_drone_charge(drone: bool) -> int {
    if drone {
        DRONE_PRICE as int
    } else {
        0
    }
}

/// Assistant charge, in cents, for time given in hundredths of an hour.
pub open spec fn spec_assistant_charge(assistant_hours: u32, use_higher: bool) -> int {
    (if use_higher {
        HIGHER_ASSISTANT_RATE as int
    } else {
        ASSISTANT_RATE as int
    }) * assistant_hours
}

/// Charge for the billed expenses, in cents.
pub open spec fn spec_expenses_charge(expenses: u32) -> int {
    EXPENSES_PRICE * expenses
}

/// Price of an hourly shoot, in cents.
pub open spec fn spec_hourly_price(
    hours: u32,
    image_prep: bool,
    assistant_hours: u32,
    photographer: Photographer,
    use_higher_prep_price: bool,
    use_higher_assistant_price: bool,
    expenses: u32,
    drone: bool,
) -> int {
    photographer.spec_hourly() * hours + spec_prep_charge(image_prep, use_higher_prep_price)
        + spec_drone_charge(drone) + spec_assistant_charge(
        assistant_hours,
        use_higher_assistant_price,
    ) + spec_expenses_charge(expenses)
}

/// Price of a half-day based shoot, in cents.  The booked half days are
/// paired into full-day equivalents: a started pair is billed at the first
/// half rate, a completed pair adds the second half rate.
pub open spec fn spec_half_day_price(
    halves: u32,
    image_prep: bool,
    assistant_hours: u32,
    photographer: Photographer,
    use_higher_prep_price: bool,
    use_higher_assistant_price: bool,
    expenses: u32,
    drone: bool,
) -> int {
    (halves + 1) / 2 * photographer.spec_first_half_day() + halves as int / 2
        * photographer.spec_second_half_day() + spec_prep_charge(image_prep, use_higher_prep_price)
        + spec_drone_charge(drone) + spec_assistant_charge(
        assistant_hours,
        use_higher_assistant_price,
    ) + spec_expenses_charge(expenses)
}

/// Kind-specific part of a headshot session's price, in cents: the billable
/// hours times an hourly rate with assistant overhead, per-person retouching,
/// additionally retouched photos, and on-site editing per day.  A small
/// session is a flat price.
pub open spec fn spec_headshot_main_price(
    heads: u32,
    headshot_type: HeadshotType,
    retouch_level: RetouchLevel,
    editing: bool,
    extra_retouched_photos: u32,
    days: u32,
) -> int {
    match headshot_type {
        HeadshotType::Large => spec_calc_hours(heads) * ((LARGE_HEADSHOT_HOURLY + 2 * ASSISTANT_RATE)
            * CENTS_PER_DOLLAR) + heads * retouch_level.spec_price_per() + extra_retouched_photos
            * EXTRA_RETOUCH_PRICE + if editing {
            ON_SITE_EDITING_PRICE * days
        } else {
            0
        },
        HeadshotType::Team => spec_calc_hours(heads) * ((TEAM_HEADSHOT_HOURLY + ASSISTANT_RATE)
            * CENTS_PER_DOLLAR) + heads * retouch_level.spec_price_per() + extra_retouched_photos
            * EXTRA_RETOUCH_PRICE + if editing {
            ON_SITE_EDITING_PRICE * days
        } else {
            0
        },
        HeadshotType::Small => SMALL_HEADSHOT_PRICE as int,
    }
}

/// Price of a headshot session, in cents.
pub open spec fn spec_headshot_price(
    heads: u32,
    headshot_type: HeadshotType,
    retouch_level: RetouchLevel,
    editing: bool,
    extra_retouched_photos: u32,
    days: u32,
    expenses: u32,
    drone: bool,
) -> int {
    spec_headshot_main_price(heads, headshot_type, retouch_level, editing, extra_retouched_photos, days)
        + spec_expenses_charge(expenses) + spec_drone_charge(drone)
}

/// Price of conference coverage, in cents.
pub open spec fn spec_conference_price(hours: u32, extra_cost: u32, expenses: u32, drone: bool) -> int {
    CONFERENCE_HOURLY * hours + spec_drone_charge(drone) + spec_expenses_charge(expenses)
        + extra_cost
}

/// Total price of a shoot, in cents.
pub open spec fn spec_price(shoot: ShootType, expenses: u32, drone: bool) -> int {
    match shoot {
        ShootType::Hourly {
            hours,
            image_prep,
            assistant_hours,
            use_higher_prep_price,
            use_higher_assistant_price,
            photographer,
        } => spec_hourly_price(
            hours,
            image_prep,
            assistant_hours,
            photographer,
            use_higher_prep_price,
            use_higher_assistant_price,
            expenses,
            drone,
        ),
        ShootType::HalfDayBased {
            halves,
            image_prep,
            assistant_hours,
            use_higher_prep_price,
            use_higher_assistant_price,
            photographer,
        } => spec_half_day_price(
            halves,
            image_prep,
            assistant_hours,
            photographer,
            use_higher_prep_price,
            use_higher_assistant_price,
            expenses,
            drone,
        ),
        ShootType::Headshot {
            heads,
            headshot_type,
            retouch_level,
            editing,
            extra_retouched_photos,
            days,
        } => spec_headshot_price(
            heads,
            headshot_type,
            retouch_level,
            editing,
            extra_retouched_photos,
            days,
            expenses,
            drone,
        ),
        ShootType::Conference { hours, extra_cost } => spec_conference_price(
            hours,
            extra_cost,
            expenses,
            drone,
        ),
    }
}

/// The quote form: the selected shoot kind plus the global modifiers.
#[derive(Clone, Copy)]
pub struct CalcApp {
    pub shoot_type: ShootType,
    /// Number of billed expenses.
    pub expenses: u32,
    /// Whether a drone is used.
    pub drone: bool,
}

impl CalcApp {
    /// A fresh form: an hourly shoot with every input at its smallest value.
    pub fn new() -> (app: CalcApp)
        ensures
            app.shoot_type == (ShootType::Hourly {
                hours: 0,
                image_prep: false,
                assistant_hours: 0,
                use_higher_prep_price: false,
                use_higher_assistant_price: false,
                photographer: Photographer::Ken,
            }),
            app.expenses == 0,
            !app.drone,
    {
        CalcApp {
            shoot_type: ShootType::Hourly {
                hours: 0,
                image_prep: false,
                assistant_hours: 0,
                use_higher_prep_price: false,
                use_higher_assistant_price: false,
                photographer: Photographer::Ken,
            },
            expenses: 0,
            drone: false,
        }
    }

    /// Total price of the described shoot, in cents.
    pub fn calc_price(&self) -> (price: u64)
        ensures
            price == spec_price(self.shoot_type, self.expenses, self.drone),
    {
        match self.shoot_type {
            ShootType::Hourly {
                hours,
                image_prep,
                assistant_hours,
                use_higher_prep_price,
                use_higher_assistant_price,
                photographer,
            } => self.calc_hourly(
                hours,
                image_prep,
                assistant_hours,
                photographer,
                use_higher_prep_price,
                use_higher_assistant_price,
            ),
            ShootType::HalfDayBased {
                halves,
                image_prep,
                assistant_hours,
                use_higher_prep_price,
                use_higher_assistant_price,
                photographer,
            } => self.calc_half_day(
                halves,
                image_prep,
                assistant_hours,
                photographer,
                use_higher_prep_price,
                use_higher_assistant_price,
            ),
            ShootType::Headshot {
                heads,
                headshot_type,
                retouch_level,
                editing,
                extra_retouched_photos,
                days,
            } => self.calc_headshot(
                heads,
                headshot_type,
                editing,
                retouch_level,
                extra_retouched_photos,
                days,
            ),
            ShootType::Conference { hours, extra_cost } => self.calc_conference(hours, extra_cost),
        }
    }

    fn calc_hourly(
        &self,
        hours: u32,
        image_prep: bool,
        assistant_hours: u32,
        photographer: Photographer,
        use_higher_prep_price: bool,
        use_higher_assistant_price: bool,
    ) -> (price: u64)
        ensures
            price == spec_hourly_price(
                hours,
                image_prep,
                assistant_hours,
                photographer,
                use_higher_prep_price,
                use_higher_assistant_price,
                self.expenses,
                self.drone,
            ),
    {
        let rate = photographer.get_hourly();
        proof {
            assert(rate <= 275);
            lemma_mul_upper_bound(rate as int, 275, hours as int, 0xffff_ffff);
        }
        let base: u64 = rate * (hours as u64);
        let prep: u64 = if image_prep {
            if use_higher_prep_price {
                HIGHER_IMAGE_PREP_PRICE
            } else {
                IMAGE_PREP_PRICE
            }
        } else {
            0
        };
        let drone_charge: u64 = if self.drone {
            DRONE_PRICE
        } else {
            0
        };
        let assistant_rate: u64 = if use_higher_assistant_price {
            HIGHER_ASSISTANT_RATE
        } else {
            ASSISTANT_RATE
        };
        proof {
            assert(assistant_rate <= 50);
            lemma_mul_upper_bound(assistant_rate as int, 50, assistant_hours as int, 0xffff_ffff);
        }
        let assistant: u64 = assistant_rate * (assistant_hours as u64);
        let expenses_charge: u64 = EXPENSES_PRICE * (self.expenses as u64);
        base + prep + drone_charge + assistant + expenses_charge
    }

    fn calc_half_day(
        &self,
        halves: u32,
        image_prep: bool,
        assistant_hours: u32,
        photographer: Photographer,
        use_higher_prep_price: bool,
        use_higher_assistant_price: bool,
    ) -> (price: u64)
        ensures
            price == spec_half_day_price(
                halves,
                image_prep,
                assistant_hours,
                photographer,
                use_higher_prep_price,
                use_higher_assistant_price,
                self.expenses,
                self.drone,
            ),
    {
        let first = photographer.get_first_half_day();
        let second = photographer.get_second_half_day();
        let pairs_started: u64 = (halves as u64 + 1) / 2;
        let pairs_completed: u64 = (halves as u64) / 2;
        proof {
            assert(first <= 150000 && second <= 100000);
            assert(pairs_started <= 0x8000_0000 && pairs_completed <= 0x8000_0000);
            lemma_mul_upper_bound(pairs_started as int, 0x8000_0000, first as int, 150000);
            lemma_mul_upper_bound(pairs_completed as int, 0x8000_0000, second as int, 100000);
        }
        let day_price: u64 = pairs_started * first + pairs_completed * second;
        let prep: u64 = if image_prep {
            if use_higher_prep_price {
                HIGHER_IMAGE_PREP_PRICE
            } else {
                IMAGE_PREP_PRICE
            }
        } else {
            0
        };
        let drone_charge: u64 = if self.drone {
            DRONE_PRICE
        } else {
            0
        };
        let assistant_rate: u64 = if use_higher_assistant_price {
            HIGHER_ASSISTANT_RATE
        } else {
            ASSISTANT_RATE
        };
        proof {
            assert(assistant_rate <= 50);
            lemma_mul_upper_bound(assistant_rate as int, 50, assistant_hours as int, 0xffff_ffff);
        }
        let assistant: u64 = assistant_rate * (assistant_hours as u64);
        let expenses_charge: u64 = EXPENSES_PRICE * (self.expenses as u64);
        day_price + prep + drone_charge + assistant + expenses_charge
    }

    fn calc_headshot(
        &self,
        heads: u32,
        headshot_type: HeadshotType,
        editing: bool,
        retouch_level: RetouchLevel,
        extra_retouched_photos: u32,
        days: u32,
    ) -> (price: u64)
        ensures
            price == spec_headshot_price(
                heads,
                headshot_type,
                retouch_level,
                editing,
                extra_retouched_photos,
                days,
                self.expenses,
                self.drone,
            ),
    {
        let main_price: u64 = match headshot_type {
            HeadshotType::Large => {
                let billable = calc_hours(heads);
                let rate: u64 = (LARGE_HEADSHOT_HOURLY + 2 * ASSISTANT_RATE) * CENTS_PER_DOLLAR;
                let per: u64 = retouch_level.get_price_per();
                proof {
                    lemma_div_is_ordered(heads + 11, 0xffff_ffffu32 + 11, 12);
                    assert(billable <= 0x1555_5557);
                    lemma_mul_upper_bound(billable as int, 0x1555_5557, rate as int, 35500);
                    assert(per <= 5000);
                    lemma_mul_upper_bound(heads as int, 0xffff_ffff, per as int, 5000);
                }
                let hourly: u64 = (billable as u64) * rate;
                let per_person: u64 = (heads as u64) * per;
                let extra_retouch: u64 = (extra_retouched_photos as u64) * EXTRA_RETOUCH_PRICE;
                let editing_charge: u64 = if editing {
                    ON_SITE_EDITING_PRICE * (days as u64)
                } else {
                    0
                };
                hourly + per_person + extra_retouch + editing_charge
            },
            HeadshotType::Team => {
                let billable = calc_hours(heads);
                let rate: u64 = (TEAM_HEADSHOT_HOURLY + ASSISTANT_RATE) * CENTS_PER_DOLLAR;
                let per: u64 = retouch_level.get_price_per();
                proof {
                    lemma_div_is_ordered(heads + 11, 0xffff_ffffu32 + 11, 12);
                    assert(billable <= 0x1555_5557);
                    lemma_mul_upper_bound(billable as int, 0x1555_5557, rate as int, 24000);
                    assert(per <= 5000);
                    lemma_mul_upper_bound(heads as int, 0xffff_ffff, per as int, 5000);
                }
                let hourly: u64 = (billable as u64) * rate;
                let per_person: u64 = (heads as u64) * per;
                let extra_retouch: u64 = (extra_retouched_photos as u64) * EXTRA_RETOUCH_PRICE;
                let editing_charge: u64 = if editing {
                    ON_SITE_EDITING_PRICE * (days as u64)
                } else {
                    0
                };
                hourly + per_person + extra_retouch + editing_charge
            },
            HeadshotType::Small => SMALL_HEADSHOT_PRICE,
        };
        let expenses_charge: u64 = EXPENSES_PRICE * (self.expenses as u64);
        let drone_charge: u64 = if self.drone {
            DRONE_PRICE
        } else {
            0
        };
        main_price + expenses_charge + drone_charge
    }

    fn calc_conference(&self, hours: u32, extra_cost: u32) -> (price: u64)
        ensures
            price == spec_conference_price(hours, extra_cost, self.expenses, self.drone),
    {
        let base: u64 = CONFERENCE_HOURLY * (hours as u64);
        let drone_charge: u64 = if self.drone {
            DRONE_PRICE
        } else {
            0
        };
        let expenses_charge: u64 = EXPENSES_PRICE * (self.expenses as u64);
        base + drone_charge + expenses_charge + (extra_cost as u64)
    }
}

} // verus!
