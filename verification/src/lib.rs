//! Validation of index declarations against the structural capabilities of a
//! Postgres connector: which index algorithms exist, which operator classes
//! each algorithm accepts, and which native types each operator class accepts.
//!
//! The heart of the crate is [`validations`], which walks the indexes of a
//! model and appends a precisely worded diagnostic for every combination of
//! index algorithm, operator class, native type and field type that the
//! engine rejects. The rule tables live in [`capabilities`], the native-type
//! registry in [`registry`], and the message texts in [`messages`].
//!
//! [`order_by`] holds the small order-by model used by the query layer.

pub mod capabilities;
pub mod diagnostics;
pub mod messages;
pub mod order_by;
pub mod registry;
pub mod schema;
pub mod validations;
