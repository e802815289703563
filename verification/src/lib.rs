//! A class-registration and instance-lifecycle bridge between native types
//! and a plugin-hosting foreign runtime that drives objects through a table
//! of lifecycle callbacks.
//!
//! The bridge has four parts: an encoder that turns a logical class name into
//! the zero-terminated byte form the foreign ABI reads (`names`), the storage
//! that owns one native instance together with its reference count and the
//! handle of the foreign-side base object (`storage`), the builder that
//! assembles a class descriptor and submits it to the foreign class database
//! (`registry`), and the resolver that maps a virtual method name to an entry
//! point or to an explicit "not found" answer (`dispatch`). The `lifecycle`
//! module states the per-instance protocol as a state machine over call
//! traces and proves the laws every well-formed trace obeys; the `traits`
//! module holds the contract each bindable type's generated code satisfies.

pub mod dispatch;
pub mod lifecycle;
pub mod names;
pub mod registry;
pub mod storage;
pub mod traits;
