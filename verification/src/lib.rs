//! A uniform "append one item" capability over standard containers.
//!
//! The [`observe::Observe`] trait lets producer code feed items into any
//! conforming receiver through a single `update` operation, without knowing
//! which container kind the receiver is. Conformances are provided for the
//! standard sequence, map, set and string containers, each with a verified
//! contract that pins down the exact mutation one append performs.
//!
//! The [`laws`] module states and proves the general properties of the
//! conformances: strict growth and prefix stability for sequences,
//! idempotence for sets, last-write-wins for maps, and the agreement of
//! single-code-point and slice appends for strings.

pub mod laws;
pub mod observe;

pub use observe::Observe;
