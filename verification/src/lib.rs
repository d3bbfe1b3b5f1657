//! Quota arithmetic, session pacing, route synthesis and request signing for
//! a mileage-tracking account, with every rule stated as a contract.
//!
//! All mileage quantities are fixed-point integers counted in millionths of a
//! unit, so that every rule is exact integer arithmetic.

pub mod account;
pub mod clock;
pub mod decimal;
pub mod digest;
pub mod error;
pub mod pipeline;
pub mod quota;
pub mod roundtrip;
pub mod route;
pub mod session;
