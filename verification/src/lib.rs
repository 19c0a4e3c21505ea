//! A minimal multi-tenant document store.
//!
//! A [`record::Collection`] tracks how many live documents count against it and
//! which identity controls it; a [`record::Document`] holds a fixed 32-byte
//! content buffer and its own controlling identity. The four operation
//! handlers in [`handler`] validate ownership and allocation before mutating
//! anything, so every operation either applies completely or leaves its
//! records untouched. The counter law in [`law`] shows that under these
//! handlers a collection's count always equals the number of its live
//! documents.
//!
//! The host that persists records, authenticates signers, and routes
//! operations is not part of this crate: each handler works only on the
//! records handed to it, with the storage slot of a record modeled as an
//! `Option` that is `None` while the slot is unallocated.

pub mod encode;
pub mod error;
pub mod handler;
pub mod identity;
pub mod law;
pub mod record;
