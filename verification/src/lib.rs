//! Core logic of an AWS AppSync Direct Lambda resolver generator: a directive
//! language with override resolution, a schema-driven declaration builder, the
//! runtime dispatch protocol (hook short-circuiting, order-preserving batch
//! collection, init-once client caching) and the subscription filter builder.
use vstd::prelude::*;

pub mod arguments;
pub mod assoc;
pub mod builder;
pub mod directives;
pub mod errors;
pub mod event;
pub mod filters;
pub mod identity;
pub mod jsontext;
pub mod options;
pub mod response;
pub mod runtime;
pub mod schema;
pub mod strutil;

verus! {

} // verus!
