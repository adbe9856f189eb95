//! Splitting a leaf into several: first a draft, then a plan, then its submission, and at last
//! the signatures.

pub mod finalize;
pub mod messages;
pub mod plan;
pub mod prepare;
