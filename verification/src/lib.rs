//! Generation engine for fixed-byte wrapper types.
//!
//! Given a structural description of a struct whose first field is a
//! fixed-length `u8` array, the engine parses the declarative configuration
//! attached to the type, validates the type's shape, resolves which
//! capability groups are enabled, and produces a plan of the interface
//! implementations to emit. A companion semantic model states what the
//! emitted implementations do, so that their laws can be proved here.

pub mod fixed_bytes;
pub mod model;
pub mod semantics;
pub mod utils;
