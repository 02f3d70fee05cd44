//! The cloud-masking algorithm and its validation rules.

pub mod mcm;
pub mod util;
