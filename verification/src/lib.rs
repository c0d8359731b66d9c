//! Verified core of a Python-facing date/time toolkit built on `jiff`.
//!
//! The modules hold the argument parsing, validation, arithmetic and text
//! formatting that sit between Python values and `jiff`; every call into
//! `jiff` goes through a small trusted wrapper with a stated contract.
pub mod compare;
pub mod text;
pub mod units;
pub mod offset;
pub mod signed_duration;
pub mod span;
pub mod date;
pub mod isoweek;
pub mod time;
pub mod datetime;
pub mod round;
pub mod difference;
pub mod timezone;
pub mod span_arith;
pub mod timestamp;
pub mod zoned;
pub mod elapsed;
pub mod shift;
pub mod zoned_shift;
pub mod zoned_text;
