//! A verified model of an object-system interface-registration layer.
//!
//! A defining party describes a new interface (a unique name, a list of
//! prerequisite types, properties, signals and two lifecycle hooks).  This
//! library decides everything about such a registration that is decidable
//! in-process: name uniqueness against the type registry, the fresh type
//! identifier, the ordered trace of runtime actions (prerequisite
//! attachment, property installation, signal registration, hook calls) that
//! the surrounding runtime must perform, the one-shot caching of the result,
//! and the lookup of an interface's state on a live object.

pub mod descriptor;
pub mod instance;
pub mod prerequisite;
pub mod record;
pub mod registry;
pub mod types;
