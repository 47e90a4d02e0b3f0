//! A registry that stores heterogeneous raw resources in transformed form.
//!
//! Every value that passes through the registry is an opaque value of one
//! user-defined universe `V` (typically an enum with one variant per concrete
//! resource type) that reports the identity of its concrete type. Each raw type
//! is routed to one registered capability, which turns a raw value into a
//! transformed value; the store keeps the transformed values under a
//! `(raw type, id)` key, with ids drawn from one counter shared by all types.
pub mod capability;
pub mod opengl;
pub mod pile;
