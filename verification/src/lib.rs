//! A per-owner counter: one record per owner, kept at an address derived from
//! the owner's identity, and changed only by that owner.

pub mod identity;
pub mod resolver;
pub mod counter;
pub mod program;
pub mod laws;
