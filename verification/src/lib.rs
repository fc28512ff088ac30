//! A referral-commission settlement engine.
//!
//! Merchants register sellable programs, referrers attach tracked links to
//! those programs, and each sale is split atomically among a platform fee, a
//! referrer commission and a merchant remainder, with running statistics on
//! the referral link. Records are located by deterministic addresses derived
//! from seed tuples, so linkage can be re-validated at settlement time
//! without an index.

pub mod addresses;
pub mod errors;
pub mod fees;
pub mod records;
pub mod settlement;
