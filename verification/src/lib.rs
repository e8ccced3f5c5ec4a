//! An updatable cell that always holds a non-null, reference-counted handle
//! to an immutable value.
//!
//! Two layers compose the library. [`link`] keeps the word that fuses the
//! published address with an in-flight reader count and a writer-busy flag,
//! and offers the primitive transitions on it. [`cell`] wraps one such word
//! together with the shared handle it publishes, and offers the high-level
//! operations: construct, `read`, `write`, `update`, `into_arc`, and the
//! address-identity predicates.

pub mod cell;
pub mod link;

pub use cell::RcuCellNonNull;
pub use link::Link;
pub use link::LinkState;
