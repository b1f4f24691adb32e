//! Validating the requested watch scope against the resolved resource
//! descriptor, before any connection is opened.

use vstd::prelude::*;
use crate::resolver::ResourceDescriptor;

verus! {

/// The scope one watch connection is opened with.
#[derive(Debug, Clone, PartialEq, Eq)]
pub enum WatchTarget {
    /// Watch inside a single namespace.
    Namespaced(String),
    /// Watch a namespaced resource across all namespaces.
    AllNamespaces,
    /// Watch a cluster-scoped resource.
    ClusterScoped,
}

/// A fatal scope error, reported before any network call.
#[derive(Debug, Clone, Copy, PartialEq, Eq, Structural)]
pub enum ConfigurationError {
    /// A namespace and the global flag were both requested.
    ConflictingScope,
    /// The resource is namespaced but neither a namespace nor the
    /// global flag was requested.
    MissingNamespace,
}

/// The scope that a request (namespace argument, global flag) resolves
/// to against a descriptor with the given namespaced flag:
/// - namespace and global together conflict, whatever the descriptor;
/// - a resource that is not namespaced is always watched cluster-wide,
///   any namespace argument is ignored;
/// - a namespaced resource is watched across all namespaces when the
///   global flag is set, inside the given namespace when one is given,
///   and cannot be watched when neither is given.
pub open spec fn resolved_target(
    namespaced: bool,
    namespace: Option<String>,
    global: bool,
) -> Result<WatchTarget, ConfigurationError> {
    if namespace is Some && global {
        Err(ConfigurationError::ConflictingScope)
    } else if !namespaced {
        Ok(WatchTarget::ClusterScoped)
    } else if global {
        Ok(WatchTarget::AllNamespaces)
    } else if namespace is Some {
        Ok(WatchTarget::Namespaced(namespace.unwrap()))
    } else {
        Err(ConfigurationError::MissingNamespace)
    }
}

/// Combines the descriptor with the requested scope and rejects the
/// invalid combinations; evaluated before any watch is opened.
pub fn validate_target(
    descriptor: &ResourceDescriptor,
    namespace: Option<String>,
    global: bool,
) -> (r: Result<WatchTarget, ConfigurationError>)
    ensures
        r == resolved_target(descriptor.namespaced, namespace, global),
{
    if namespace.is_some() && global {
        Err(ConfigurationError::ConflictingScope)
    } else if !descriptor.namespaced {
        Ok(WatchTarget::ClusterScoped)
    } else if global {
        Ok(WatchTarget::AllNamespaces)
    } else {
        match namespace {
            Some(n) => Ok(WatchTarget::Namespaced(n)),
            None => Err(ConfigurationError::MissingNamespace),
        }
    }
}

/// Whether the requested scope conflicts on its own: a namespace
/// argument and the global flag together are rejected before anything
/// else is looked at, so the caller can fail before any network call.
pub fn conflicting_scope(namespace: &Option<String>, global: bool) -> (r: bool)
    ensures
        r == (namespace is Some && global),
        r ==> forall|namespaced: bool|
            resolved_target(namespaced, *namespace, global) == Err::<
                WatchTarget,
                ConfigurationError,
            >(ConfigurationError::ConflictingScope),
{
    namespace.is_some() && global
}

/// A namespace argument and the global flag together always fail
/// validation, whatever the descriptor says.
pub proof fn lemma_conflicting_scope(namespaced: bool, namespace: Option<String>, global: bool)
    requires
        namespace is Some,
        global,
    ensures
        resolved_target(namespaced, namespace, global)
            == Err::<WatchTarget, ConfigurationError>(ConfigurationError::ConflictingScope),
{
}

/// A namespaced descriptor with neither a namespace argument nor the
/// global flag always fails validation.
pub proof fn lemma_missing_namespace(namespace: Option<String>, global: bool)
    requires
        namespace is None,
        !global,
    ensures
        resolved_target(true, namespace, global)
            == Err::<WatchTarget, ConfigurationError>(ConfigurationError::MissingNamespace),
{
}

} // verus!
