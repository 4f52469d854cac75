//! A time-locked custody vault.
//!
//! An owner creates one vault, deposits funds into it, and may take the whole
//! balance out again once the unlock time has passed. The vault lives at an
//! address derived from the owner's identity, so no table of vaults is kept.

pub mod address;
pub mod error;
pub mod vault;
pub mod lifecycle;
