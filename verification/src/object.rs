//! The schema-free object model: an opaque structured document with an
//! identity, observed on the watch stream without compile-time
//! knowledge of its schema.

use vstd::prelude::*;

verus! {

/// One node of a schema-free structured document: a scalar, a list, or
/// a record of named fields.
#[derive(Debug, PartialEq, Eq)]
pub enum Value {
    Null,
    Bool(bool),
    Int(i64),
    Text(String),
    List(Vec<Value>),
    Record(Vec<(String, Value)>),
}

/// The unique key of one object within a single resource type: its
/// namespace, when the type is namespaced, and its name.
#[derive(Debug, Clone, PartialEq, Eq)]
pub struct ResourceIdentity {
    pub namespace: Option<String>,
    pub name: String,
}

impl View for ResourceIdentity {
    type V = (Option<Seq<char>>, Seq<char>);

    open spec fn view(&self) -> (Option<Seq<char>>, Seq<char>) {
        (self.namespace.deep_view(), self.name@)
    }
}

impl ResourceIdentity {
    /// Whether two identities name the same object.
    pub fn key_eq(&self, other: &ResourceIdentity) -> (r: bool)
        ensures
            r == (self@ == other@),
    {
        let ns_eq = match (&self.namespace, &other.namespace) {
            (Option::None, Option::None) => true,
            (Option::Some(a), Option::Some(b)) => *a == *b,
            _ => false,
        };
        assert(ns_eq == (self.namespace.deep_view() == other.namespace.deep_view()));
        ns_eq && self.name == other.name
    }
}

/// One observed object: its identity, the field-ownership bookkeeping
/// the server attaches to it, and its remaining metadata, spec and
/// status content.
#[derive(Debug, PartialEq, Eq)]
pub struct Object {
    pub identity: ResourceIdentity,
    pub managed_fields: Option<Value>,
    pub content: Value,
}

} // verus!
