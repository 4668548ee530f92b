//! The expiry tags that the service knows.

use vstd::prelude::*;

verus! {

/// The paste never expires.
pub const NEVER: &'static str = "never";

/// The paste expires in an hour.
pub const ONE_HOUR: &'static str = "1h";

/// The paste expires in two hours.
pub const TWO_HOURS: &'static str = "2h";

/// The paste expires in ten hours.
pub const TEN_HOURS: &'static str = "10h";

/// The paste expires in a day.
pub const ONE_DAY: &'static str = "1d";

/// The paste expires in two days.
pub const TWO_DAYS: &'static str = "2d";

/// The paste expires in a week.
pub const ONE_WEEK: &'static str = "1w";

/// The paste expires in a month.
pub const ONE_MONTH: &'static str = "1m";

/// The paste expires in a year.
pub const ONE_YEAR: &'static str = "1y";

} // verus!
