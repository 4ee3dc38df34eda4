//! Seeds for cryptographically secure generators.
//!
//! A seed is one 128-bit value. This crate holds the part of seeding that is a
//! matter of rules rather than of hardware: how a seed is read from sixteen
//! bytes, how a reproducible seed is derived from a context string, and which
//! of the entropy sources of a build is handed out on a given host.
//!
//! The entropy sources of the host themselves, and the one process-wide cell
//! that holds the configured context, are the caller's: this library says
//! which source to ask next, is told what it answered, and is handed the
//! cell's content.

pub mod custom_seeder;
pub mod primitives;
pub mod seed;
pub mod selection;

pub use custom_seeder::{set_custom_seeder, CustomSeeder, DEFAULT_CONTEXT};
pub use seed::{Seed, Seeder};
pub use selection::{
    new_seeder, select, BuildProfile, Capability, HostReport, NoCapabilityAvailable, SourceKind,
    Step,
};
