//! Identifiers of 128 bits as RFC 4122 describes them: random ones (version
//! 4), name-based ones (versions 3 and 5) and time-based ones (version 1),
//! their canonical text, and the fields that an identifier is made of.

pub mod clock;
pub mod constants;
pub mod entropy;
pub mod gen;
pub mod hash_based;
pub mod hex;
pub mod inspect;
pub mod octets;
pub mod text;
pub mod time_based;
pub mod uuid;
pub mod uuid_v4;
pub mod wellknown;

pub use crate::gen::{v1, v3, v4, v5};
pub use crate::uuid::Uuid;
