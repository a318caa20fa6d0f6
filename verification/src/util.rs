//! Plain data that the waitlist hands around.

pub mod types;
