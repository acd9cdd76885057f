//! Price quoting for photography shoots.
//!
//! The library computes the total price of a shoot from the selected shoot
//! kind (hourly, half-day based, headshot session or conference coverage),
//! the chosen photographer, and a handful of add-ons.  All money amounts are
//! integer cents, and fractional working hours are integer hundredths of an
//! hour, so every computation is exact integer arithmetic.

pub mod laws;
pub mod quote;
pub mod rates;
