//! Conversion between an instant on the wall clock and its canonical
//! timestamp: whole seconds since the epoch plus a fraction in nanoseconds
//! that is never negative.

pub mod duration;
pub mod error;
pub mod time_point;
pub mod timestamp;

pub use duration::Duration;
pub use error::TimestampError;
pub use time_point::TimePoint;
pub use timestamp::Timestamp;
