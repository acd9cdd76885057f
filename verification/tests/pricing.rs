//! Tests of the price calculation.
//!
//! Money amounts are in cents and fractional working hours in hundredths of
//! an hour, so two booked hours are written 200 and a $550.00 price 55000.

use photo_quote::quote::CalcApp;
use photo_quote::quote::HeadshotType;
use photo_quote::quote::RetouchLevel;
use photo_quote::quote::ShootType;
use photo_quote::quote::calc_hours;
use photo_quote::rates::Photographer;

fn hourly(
    hours: u32,
    image_prep: bool,
    assistant_hours: u32,
    use_higher_prep_price: bool,
    use_higher_assistant_price: bool,
    photographer: Photographer,
    expenses: u32,
    drone: bool,
) -> CalcApp {
    CalcApp {
        shoot_type: ShootType::Hourly {
            hours,
            image_prep,
            assistant_hours,
            use_higher_prep_price,
            use_higher_assistant_price,
            photographer,
        },
        expenses,
        drone,
    }
}

fn half_day(
    halves: u32,
    image_prep: bool,
    assistant_hours: u32,
    use_higher_prep_price: bool,
    use_higher_assistant_price: bool,
    photographer: Photographer,
    expenses: u32,
    drone: bool,
) -> CalcApp {
    CalcApp {
        shoot_type: ShootType::HalfDayBased {
            halves,
            image_prep,
            assistant_hours,
            use_higher_prep_price,
            use_higher_assistant_price,
            photographer,
        },
        expenses,
        drone,
    }
}

fn headshot(
    heads: u32,
    headshot_type: HeadshotType,
    retouch_level: RetouchLevel,
    editing: bool,
    extra_retouched_photos: u32,
    days: u32,
    expenses: u32,
    drone: bool,
) -> CalcApp {
    CalcApp {
        shoot_type: ShootType::Headshot {
            heads,
            headshot_type,
            retouch_level,
            editing,
            extra_retouched_photos,
            days,
        },
        expenses,
        drone,
    }
}

fn conference(hours: u32, extra_cost: u32, expenses: u32, drone: bool) -> CalcApp {
    CalcApp { shoot_type: ShootType::Conference { hours, extra_cost }, expenses, drone }
}

#[test]
fn hourly_two_hours_ken_is_550_dollars() {
    // Two hours with Ken, nothing else: 2 x $275 = $550.00.
    let app = hourly(200, false, 0, false, false, Photographer::Ken, 0, false);
    assert_eq!(app.calc_price(), 55000);
}

#[test]
fn hourly_with_every_add_on() {
    // 1.5h x $275 + higher prep $100 + drone $150 + 2h x $50 assistant
    // + 3 expenses x $10 = $792.50.
    let app = hourly(150, true, 200, true, true, Photographer::Ken, 3, true);
    assert_eq!(app.calc_price(), 41250 + 10000 + 15000 + 10000 + 3000);
}

#[test]
fn hourly_rates_per_photographer() {
    let colin = hourly(100, false, 0, false, false, Photographer::Colin, 0, false);
    assert_eq!(colin.calc_price(), 22500);
    let team = hourly(100, false, 0, false, false, Photographer::Team, 0, false);
    assert_eq!(team.calc_price(), 15000);
}

#[test]
fn hourly_price_covers_photographer_time() {
    // The price is never below the photographer's rate times the hours.
    let app = hourly(100, true, 300, false, false, Photographer::Ken, 7, true);
    assert!(app.calc_price() >= 27500);
}

#[test]
fn half_day_three_halves_ken_is_4000_dollars() {
    // Three halves pair into two started days and one completed day:
    // 2 x $1500 + 1 x $1000 = $4000.00.
    let app = half_day(3, false, 0, false, false, Photographer::Ken, 0, false);
    assert_eq!(app.calc_price(), 400000);
}

#[test]
fn half_day_team_with_add_ons() {
    // 4 halves: 2 x $600 + 2 x $600, plus prep $50, 1h x $40 assistant and
    // 2 expenses.
    let app = half_day(4, true, 100, false, false, Photographer::Team, 2, false);
    assert_eq!(app.calc_price(), 240000 + 5000 + 4000 + 2000);
}

#[test]
fn half_day_zero_halves_is_flat_charges_only() {
    // With no halves booked only the flat additive charges remain.
    let app = half_day(0, false, 0, false, false, Photographer::Ken, 5, true);
    assert_eq!(app.calc_price(), 5000 + 15000);
}

#[test]
fn headshot_no_heads_large_is_one_billable_hour() {
    // No people still bills the set-up hour: 1 x ($275 + $80) = $355.00.
    let app = headshot(0, HeadshotType::Large, RetouchLevel::Discount, false, 0, 1, 0, false);
    assert_eq!(app.calc_price(), 35500);
}

#[test]
fn headshot_team_full_formula() {
    // 25 people: 4 billable hours x ($200 + $40), 25 x $20 retouching,
    // 2 extra photos x $20, 2 days of editing x $100, 1 expense, drone.
    let app = headshot(25, HeadshotType::Team, RetouchLevel::Corporate, true, 2, 2, 1, true);
    assert_eq!(app.calc_price(), 96000 + 50000 + 4000 + 20000 + 1000 + 15000);
}

#[test]
fn headshot_small_is_flat_price() {
    // A small session ignores the head count.
    let few = headshot(1, HeadshotType::Small, RetouchLevel::Full, false, 0, 1, 0, false);
    let many = headshot(999, HeadshotType::Small, RetouchLevel::Full, false, 0, 1, 0, false);
    assert_eq!(few.calc_price(), 40000);
    assert_eq!(many.calc_price(), 40000);
}

#[test]
fn conference_full_formula() {
    // 2.5h x $200 + drone + 2 expenses + $123.45 extra cost.
    let app = conference(250, 12345, 2, true);
    assert_eq!(app.calc_price(), 50000 + 15000 + 2000 + 12345);
}

#[test]
fn billable_hours_per_head_count() {
    assert_eq!(calc_hours(0), 1);
    assert_eq!(calc_hours(1), 2);
    assert_eq!(calc_hours(12), 2);
    assert_eq!(calc_hours(13), 3);
    assert_eq!(calc_hours(24), 3);
    assert_eq!(calc_hours(25), 4);
    assert_eq!(calc_hours(u32::MAX), 357913943);
}

#[test]
fn price_monotone_in_expenses() {
    let cheap = hourly(100, false, 0, false, false, Photographer::Ken, 2, false);
    let dear = hourly(100, false, 0, false, false, Photographer::Ken, 9, false);
    assert!(cheap.calc_price() <= dear.calc_price());
}

#[test]
fn price_monotone_in_quantities() {
    let short = hourly(100, false, 0, false, false, Photographer::Colin, 0, false);
    let long = hourly(300, false, 0, false, false, Photographer::Colin, 0, false);
    assert!(short.calc_price() <= long.calc_price());

    let few_halves = half_day(1, false, 0, false, false, Photographer::Team, 0, false);
    let more_halves = half_day(5, false, 0, false, false, Photographer::Team, 0, false);
    assert!(few_halves.calc_price() <= more_halves.calc_price());

    let few_heads = headshot(3, HeadshotType::Large, RetouchLevel::Student, false, 0, 1, 0, false);
    let more_heads =
        headshot(40, HeadshotType::Large, RetouchLevel::Student, false, 0, 1, 0, false);
    assert!(few_heads.calc_price() <= more_heads.calc_price());
}

#[test]
fn price_monotone_in_flags() {
    let plain = hourly(100, false, 100, false, false, Photographer::Ken, 1, false);
    let with_drone = hourly(100, false, 100, false, false, Photographer::Ken, 1, true);
    let with_prep = hourly(100, true, 100, false, false, Photographer::Ken, 1, false);
    assert!(plain.calc_price() <= with_drone.calc_price());
    assert!(plain.calc_price() <= with_prep.calc_price());

    let no_edit = headshot(10, HeadshotType::Team, RetouchLevel::Discount, false, 0, 3, 0, false);
    let edited = headshot(10, HeadshotType::Team, RetouchLevel::Discount, true, 0, 3, 0, false);
    assert!(no_edit.calc_price() <= edited.calc_price());
}

#[test]
fn retouch_prices_per_level() {
    assert_eq!(RetouchLevel::Student.get_price_per(), 500);
    assert_eq!(RetouchLevel::Discount.get_price_per(), 1000);
    assert_eq!(RetouchLevel::Corporate.get_price_per(), 2000);
    assert_eq!(RetouchLevel::Full.get_price_per(), 5000);
}

#[test]
fn photographer_rates() {
    assert_eq!(Photographer::Ken.get_hourly(), 275);
    assert_eq!(Photographer::Colin.get_hourly(), 225);
    assert_eq!(Photographer::Team.get_hourly(), 150);
    assert_eq!(Photographer::Ken.get_first_half_day(), 150000);
    assert_eq!(Photographer::Colin.get_first_half_day(), 150000);
    assert_eq!(Photographer::Team.get_first_half_day(), 60000);
    assert_eq!(Photographer::Ken.get_second_half_day(), 100000);
    assert_eq!(Photographer::Colin.get_second_half_day(), 100000);
    assert_eq!(Photographer::Team.get_second_half_day(), 60000);
}

#[test]
fn fresh_form_prices_at_zero() {
    let app = CalcApp::new();
    assert_eq!(app.expenses, 0);
    assert!(!app.drone);
    assert_eq!(app.calc_price(), 0);
}

#[test]
fn shoot_kinds_compare_by_kind() {
    let a = hourly(100, true, 50, true, true, Photographer::Colin, 0, false).shoot_type;
    let b = hourly(999, false, 0, false, false, Photographer::Ken, 0, false).shoot_type;
    assert!(a == b);

    let c = half_day(2, false, 0, false, false, Photographer::Ken, 0, false).shoot_type;
    assert!(a != c);

    // Conference coverages never compare equal, not even to themselves.
    let d = conference(100, 0, 0, false).shoot_type;
    let e = conference(100, 0, 0, false).shoot_type;
    assert!(d != e);
}

#[test]
fn labels_name_the_choices() {
    let st = hourly(0, false, 0, false, false, Photographer::Ken, 0, false).shoot_type;
    assert_eq!(st.label(), "Hourly");
    let hd = half_day(0, false, 0, false, false, Photographer::Ken, 0, false).shoot_type;
    assert_eq!(hd.label(), "Half Day");
    let hs = headshot(0, HeadshotType::Large, RetouchLevel::Student, false, 0, 1, 0, false)
        .shoot_type;
    assert_eq!(hs.label(), "Headshot");
    let cf = conference(0, 0, 0, false).shoot_type;
    assert_eq!(cf.label(), "Conference");

    assert_eq!(Photographer::Ken.label(), "Ken");
    assert_eq!(Photographer::Colin.label(), "Colin");
    assert_eq!(Photographer::Team.label(), "Team");

    assert_eq!(HeadshotType::Large.label(), "Large");
    assert_eq!(HeadshotType::Team.label(), "Team");
    assert_eq!(HeadshotType::Small.label(), "Small");

    assert_eq!(RetouchLevel::Student.label(), "Student");
    assert_eq!(RetouchLevel::Discount.label(), "Discount");
    assert_eq!(RetouchLevel::Corporate.label(), "Corporate/Under 20 People");
    assert_eq!(RetouchLevel::Full.label(), "Full Price/Special Needs");
}
