//! The remote control of a session: what is enrolled, paired and reported.

pub mod enrollment;
pub mod error;
pub mod pairing;
pub mod persistence;
pub mod preview;
pub mod version;
