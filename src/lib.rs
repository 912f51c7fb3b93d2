//! Calendar dates anchored at UTC and paired with a resolved time zone offset.
pub mod calendar;
pub mod duration;
pub mod naive_date;
pub mod naive_time;
pub mod naive_datetime;
pub mod offset;
pub mod fixed;
pub mod datetime;
pub mod date;
