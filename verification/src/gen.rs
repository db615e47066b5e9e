//! The generators, one for each version.

pub use crate::hash_based::{v3, v5};
pub use crate::time_based::v1;
pub use crate::uuid_v4::v4;
