//! Laws of the price calculation.
//!
//! Each public proof function states a property that holds of every input:
//! the price is never negative, an hourly shoot always costs at least the
//! photographer's time, the price never goes down when an input grows or an
//! add-on is switched on, and a half-day booking of zero halves is priced
//! from the flat additive charges alone.

use vstd::prelude::*;

use vstd::arithmetic::div_mod::lemma_div_is_ordered;
use vstd::arithmetic::mul::lemma_mul_inequality;

use crate::quote::HeadshotType;
use crate::quote::RetouchLevel;
use crate::quote::ShootType;
use crate::quote::spec_assistant_charge;
use crate::quote::spec_calc_hours;
use crate::quote::spec_conference_price;
use crate::quote::spec_drone_charge;
use crate::quote::spec_expenses_charge;
use crate::quote::spec_half_day_price;
use crate::quote::spec_headshot_main_price;
use crate::quote::spec_headshot_price;
use crate::quote::spec_hourly_price;
use crate::quote::spec_prep_charge;
use crate::quote::spec_price;
use crate::rates::Photographer;

verus! {

proof fn lemma_assistant_charge_nonneg(assistant_hours: u32, use_higher: bool)
    ensures
        spec_assistant_charge(assistant_hours, use_higher) >= 0,
{
    if use_higher {
        assert(spec_assistant_charge(assistant_hours, use_higher) == 50 * assistant_hours);
    } else {
        assert(spec_assistant_charge(assistant_hours, use_higher) == 40 * assistant_hours);
    }
}

proof fn lemma_headshot_main_price_nonneg(
    heads: u32,
    headshot_type: HeadshotType,
    retouch_level: RetouchLevel,
    editing: bool,
    extra_retouched_photos: u32,
    days: u32,
)
    ensures
        spec_headshot_main_price(
            heads,
            headshot_type,
            retouch_level,
            editing,
            extra_retouched_photos,
            days,
        ) >= 0,
{
    lemma_div_is_ordered(0, heads + 11, 12);
    let billable = spec_calc_hours(heads);
    assert(billable >= 1);
    match headshot_type {
        HeadshotType::Large => {
            lemma_mul_inequality(0, billable, 35500);
            lemma_mul_inequality(0, heads as int, retouch_level.spec_price_per());
        },
        HeadshotType::Team => {
            lemma_mul_inequality(0, billable, 24000);
            lemma_mul_inequality(0, heads as int, retouch_level.spec_price_per());
        },
        HeadshotType::Small => {},
    }
}

/// The total price is never negative, whatever the inputs.
pub proof fn lemma_price_nonneg(shoot: ShootType, expenses: u32, drone: bool)
    ensures
        spec_price(shoot, expenses, drone) >= 0,
{
    match shoot {
        ShootType::Hourly {
            hours,
            assistant_hours,
            use_higher_assistant_price,
            photographer,
            ..
        } => {
            lemma_mul_inequality(0, hours as int, photographer.spec_hourly());
            lemma_assistant_charge_nonneg(assistant_hours, use_higher_assistant_price);
        },
        ShootType::HalfDayBased {
            halves,
            assistant_hours,
            use_higher_assistant_price,
            photographer,
            ..
        } => {
            lemma_div_is_ordered(0, halves + 1, 2);
            lemma_div_is_ordered(0, halves as int, 2);
            lemma_mul_inequality(0, (halves + 1) / 2, photographer.spec_first_half_day());
            lemma_mul_inequality(0, halves as int / 2, photographer.spec_second_half_day());
            lemma_assistant_charge_nonneg(assistant_hours, use_higher_assistant_price);
        },
        ShootType::Headshot {
            heads,
            headshot_type,
            retouch_level,
            editing,
            extra_retouched_photos,
            days,
        } => {
            lemma_headshot_main_price_nonneg(
                heads,
                headshot_type,
                retouch_level,
                editing,
                extra_retouched_photos,
                days,
            );
        },
        ShootType::Conference { .. } => {},
    }
}

/// An hourly shoot costs at least the photographer's rate times the booked
/// hours: the add-on charges only ever raise the price.
pub proof fn lemma_hourly_price_at_least_base(
    hours: u32,
    image_prep: bool,
    assistant_hours: u32,
    photographer: Photographer,
    use_higher_prep_price: bool,
    use_higher_assistant_price: bool,
    expenses: u32,
    drone: bool,
)
    ensures
        spec_hourly_price(
            hours,
            image_prep,
            assistant_hours,
            photographer,
            use_higher_prep_price,
            use_higher_assistant_price,
            expenses,
            drone,
        ) >= photographer.spec_hourly() * hours,
{
    lemma_assistant_charge_nonneg(assistant_hours, use_higher_assistant_price);
}

/// The price never goes down when the number of billed expenses grows.
pub proof fn lemma_price_monotone_expenses(shoot: ShootType, e1: u32, e2: u32, drone: bool)
    requires
        e1 <= e2,
    ensures
        spec_price(shoot, e1, drone) <= spec_price(shoot, e2, drone),
{
}

/// Switching drone usage on never lowers the price.
pub proof fn lemma_price_monotone_drone(shoot: ShootType, expenses: u32)
    ensures
        spec_price(shoot, expenses, false) <= spec_price(shoot, expenses, true),
{
}

/// An hourly shoot's price never goes down when the booked hours grow.
pub proof fn lemma_hourly_price_monotone_hours(
    h1: u32,
    h2: u32,
    image_prep: bool,
    assistant_hours: u32,
    photographer: Photographer,
    use_higher_prep_price: bool,
    use_higher_assistant_price: bool,
    expenses: u32,
    drone: bool,
)
    requires
        h1 <= h2,
    ensures
        spec_hourly_price(
            h1,
            image_prep,
            assistant_hours,
            photographer,
            use_higher_prep_price,
            use_higher_assistant_price,
            expenses,
            drone,
        ) <= spec_hourly_price(
            h2,
            image_prep,
            assistant_hours,
            photographer,
            use_higher_prep_price,
            use_higher_assistant_price,
            expenses,
            drone,
        ),
{
    lemma_mul_inequality(h1 as int, h2 as int, photographer.spec_hourly());
}

/// A half-day based shoot's price never goes down when more half days are
/// booked.
pub proof fn lemma_half_day_price_monotone_halves(
    v1: u32,
    v2: u32,
    image_prep: bool,
    assistant_hours: u32,
    photographer: Photographer,
    use_higher_prep_price: bool,
    use_higher_assistant_price: bool,
    expenses: u32,
    drone: bool,
)
    requires
        v1 <= v2,
    ensures
        spec_half_day_price(
            v1,
            image_prep,
            assistant_hours,
            photographer,
            use_higher_prep_price,
            use_higher_assistant_price,
            expenses,
            drone,
        ) <= spec_half_day_price(
            v2,
            image_prep,
            assistant_hours,
            photographer,
            use_higher_prep_price,
            use_higher_assistant_price,
            expenses,
            drone,
        ),
{
    lemma_div_is_ordered(v1 + 1, v2 + 1, 2);
    lemma_div_is_ordered(v1 as int, v2 as int, 2);
    lemma_mul_inequality((v1 + 1) / 2, (v2 + 1) / 2, photographer.spec_first_half_day());
    lemma_mul_inequality(v1 as int / 2, v2 as int / 2, photographer.spec_second_half_day());
}

/// A headshot session's price never goes down when more people are
/// photographed.
pub proof fn lemma_headshot_price_monotone_heads(
    h1: u32,
    h2: u32,
    headshot_type: HeadshotType,
    retouch_level: RetouchLevel,
    editing: bool,
    extra_retouched_photos: u32,
    days: u32,
    expenses: u32,
    drone: bool,
)
    requires
        h1 <= h2,
    ensures
        spec_headshot_price(
            h1,
            headshot_type,
            retouch_level,
            editing,
            extra_retouched_photos,
            days,
            expenses,
            drone,
        ) <= spec_headshot_price(
            h2,
            headshot_type,
            retouch_level,
            editing,
            extra_retouched_photos,
            days,
            expenses,
            drone,
        ),
{
    lemma_div_is_ordered(h1 + 11, h2 + 11, 12);
    match headshot_type {
        HeadshotType::Large => {
            lemma_mul_inequality(spec_calc_hours(h1), spec_calc_hours(h2), 35500);
            lemma_mul_inequality(h1 as int, h2 as int, retouch_level.spec_price_per());
        },
        HeadshotType::Team => {
            lemma_mul_inequality(spec_calc_hours(h1), spec_calc_hours(h2), 24000);
            lemma_mul_inequality(h1 as int, h2 as int, retouch_level.spec_price_per());
        },
        HeadshotType::Small => {},
    }
}

/// Conference coverage never gets cheaper when it runs longer.
pub proof fn lemma_conference_price_monotone_hours(
    h1: u32,
    h2: u32,
    extra_cost: u32,
    expenses: u32,
    drone: bool,
)
    requires
        h1 <= h2,
    ensures
        spec_conference_price(h1, extra_cost, expenses, drone) <= spec_conference_price(
            h2,
            extra_cost,
            expenses,
            drone,
        ),
{
}

/// Switching image preparation on never lowers an hourly shoot's price.
pub proof fn lemma_hourly_price_monotone_image_prep(
    hours: u32,
    assistant_hours: u32,
    photographer: Photographer,
    use_higher_prep_price: bool,
    use_higher_assistant_price: bool,
    expenses: u32,
    drone: bool,
)
    ensures
        spec_hourly_price(
            hours,
            false,
            assistant_hours,
            photographer,
            use_higher_prep_price,
            use_higher_assistant_price,
            expenses,
            drone,
        ) <= spec_hourly_price(
            hours,
            true,
            assistant_hours,
            photographer,
            use_higher_prep_price,
            use_higher_assistant_price,
            expenses,
            drone,
        ),
{
}

/// Switching image preparation on never lowers a half-day based shoot's
/// price.
pub proof fn lemma_half_day_price_monotone_image_prep(
    halves: u32,
    assistant_hours: u32,
    photographer: Photographer,
    use_higher_prep_price: bool,
    use_higher_assistant_price: bool,
    expenses: u32,
    drone: bool,
)
    ensures
        spec_half_day_price(
            halves,
            false,
            assistant_hours,
            photographer,
            use_higher_prep_price,
            use_higher_assistant_price,
            expenses,
            drone,
        ) <= spec_half_day_price(
            halves,
            true,
            assistant_hours,
            photographer,
            use_higher_prep_price,
            use_higher_assistant_price,
            expenses,
            drone,
        ),
{
}

/// Switching on-site editing on never lowers a headshot session's price.
pub proof fn lemma_headshot_price_monotone_editing(
    heads: u32,
    headshot_type: HeadshotType,
    retouch_level: RetouchLevel,
    extra_retouched_photos: u32,
    days: u32,
    expenses: u32,
    drone: bool,
)
    ensures
        spec_headshot_price(
            heads,
            headshot_type,
            retouch_level,
            false,
            extra_retouched_photos,
            days,
            expenses,
            drone,
        ) <= spec_headshot_price(
            heads,
            headshot_type,
            retouch_level,
            true,
            extra_retouched_photos,
            days,
            expenses,
            drone,
        ),
{
}

/// A half-day based shoot with no half days booked is priced from the flat
/// additive charges alone: image preparation, drone, assistant time and
/// expenses; the half-day rates contribute nothing.
pub proof fn lemma_half_day_price_zero_halves(
    image_prep: bool,
    assistant_hours: u32,
    photographer: Photographer,
    use_higher_prep_price: bool,
    use_higher_assistant_price: bool,
    expenses: u32,
    drone: bool,
)
    ensures
        spec_half_day_price(
            0,
            image_prep,
            assistant_hours,
            photographer,
            use_higher_prep_price,
            use_higher_assistant_price,
            expenses,
            drone,
        ) == spec_prep_charge(image_prep, use_higher_prep_price) + spec_drone_charge(drone)
            + spec_assistant_charge(assistant_hours, use_higher_assistant_price)
            + spec_expenses_charge(expenses),
{
    assert((0u32 + 1) / 2 == 0);
    assert(0int / 2 == 0);
}

} // verus!
