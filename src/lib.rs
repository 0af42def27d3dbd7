//! Simple time-series storage on top of Redis sorted sets.
//!
//! Each point of a series is one member of a sorted set: the member is a
//! MessagePack pair holding the timestamp and the encoded value, and the
//! member's score is the same timestamp in seconds.
//!
//! Time is kept as an integer count of nanoseconds since the Unix epoch.
//! The timestamp inside a member is that integer, so series whose members
//! hold floating-point seconds cannot be read back by this library.
//! Scores are decimal seconds, which the server holds as doubles: near the
//! present, neighbouring doubles lie about 238 ns apart, so a range narrower
//! than that may miss a point that lies in it to the nanosecond.

pub mod timestamp;
pub mod score;
pub mod entry;
pub mod error;
pub mod series;

pub use error::Error;
pub use score::Bound;
pub use series::TimeSeries;
pub use timestamp::{TimeValue, Timestamp};
