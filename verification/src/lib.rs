//! Fleet waitlist rules: fit checking, pilot badges and the default fleet layout.

pub mod data;
pub mod text;
pub mod typedb;
pub mod tdf;
pub mod util;
