//! A verified model of a CRUD service over a single `User` resource.
//!
//! The `user` module holds the record types that cross the service
//! boundary and the partial-update rule; the `store` module holds the
//! state of the resource collection and the four operations of the
//! service, each with an exact contract.

pub mod store;
pub mod user;
