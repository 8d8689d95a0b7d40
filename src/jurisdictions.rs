//! Jurisdiction-specific checks.

pub mod eca;
