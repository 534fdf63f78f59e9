//! A compact semantic-version value type that packs its three numeric
//! fields (major, minor, patch) into a single 64-bit integer, with strict
//! field-width validation, per-field accessors and mutators, and textual
//! rendering; and the plain account records that sit around it.

pub mod account;
pub mod semver;
