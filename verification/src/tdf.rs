//! The doctrine rules of the fleet: tags and the fit checker.

pub mod fitcheck;
pub mod laws;
pub mod rules;
pub mod tags;
