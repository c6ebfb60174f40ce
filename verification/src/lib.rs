//! Daily office hours: is a time of day inside a configured window?
//!
//! A window is a pair of times of day, `start` and `finish`. It may cross
//! midnight (10pm to 6am). The crate answers whether an instant lies in the
//! window and enumerates the whole hours of the window. All times are naive
//! wall-clock times: no date, no time zone.
//!
//! Every function of this crate is verified against the mathematical model
//! in [`model`].

pub mod clock;
pub mod error;
pub mod hours;
pub mod iter;
pub mod laws;
pub mod model;
pub mod time;

pub use clock::Clock;
pub use error::OfficeHoursError;
pub use hours::OfficeHours;
pub use iter::{HoursIter, OfficeHoursIter};
pub use time::{FromNaiveTime, NaiveTime};
