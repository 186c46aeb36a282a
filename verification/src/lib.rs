//! A typed, key-indexed storage container.
//!
//! A container owns a table of values and one identifier generator.
//! Inserting a value yields a fresh [`key_gen::Key`]; any holder of that
//! key can resolve it to a [`owned_data::Ref`] handle, and any holder of a
//! handle can read or overwrite the stored value through the container.

pub mod key_gen;
pub mod owned_data;

pub use crate::key_gen::Key;
pub use crate::key_gen::KeyGen;
pub use crate::owned_data::OwnedData;
pub use crate::owned_data::Ref;
