//! A typed client facade over a dynamically-typed vector-index service object.
//!
//! The host hands application code an untyped binding slot that may hold a
//! genuine index binding, a partially-featured test double, or an invalid
//! value.  This crate holds the decision logic of the facade: classifying
//! such a value, synthesizing a `describe` operation for bare test objects,
//! and normalizing the evolving response schemas into one stable record.
//! The host boundary itself (the dynamic call mechanism) is modeled by
//! [`dynamic::DynValue`], the crate's own picture of a dynamic value.

pub mod details;
pub mod dynamic;
pub mod shim;
pub mod vectorize;

pub use details::{FieldId, IndexDetails, MapError, Mutation, VectorizeIndexDetails};
pub use dynamic::{DynObject, DynValue, Prop};
pub use shim::ShimSnapshot;
pub use vectorize::{BindError, BindingClass, CallError, DescribeStep, Vector, Vectorize};
