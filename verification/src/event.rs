//! The inbound invocation event: the identity context, raw request data and
//! operation metadata handed to a resolver, generic over the operation union
//! the generation pipeline produces.
use crate::identity::AppsyncIdentity;
use std::collections::HashMap;
use vstd::prelude::*;

verus! {

/// Metadata about the operation being executed. `O` is the generated
/// operation union.
pub struct AppsyncEventInfo<O> {
    /// The operation tag of this invocation.
    pub operation: O,
    /// The raw selection set text.
    pub selection_set_graphql: String,
    /// The selected field paths.
    pub selection_set_list: Vec<String>,
    /// The variables of the operation.
    pub variables: HashMap<String, serde_json::Value>,
}

/// A complete invocation event handed to a resolver.
pub struct AppsyncEvent<O> {
    /// The authentication context.
    pub identity: AppsyncIdentity,
    /// The raw request context.
    pub request: serde_json::Value,
    /// The parent field's resolved value in nested resolvers.
    pub source: serde_json::Value,
    /// Metadata about the operation.
    pub info: AppsyncEventInfo<O>,
    /// The arguments passed to the field.
    pub args: serde_json::Value,
}

} // verus!
