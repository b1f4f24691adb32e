//! Typed partial specs for the project quota schemas, and the
//! deep-merge algebra that composes two partial specs of the same
//! schema field by field.
//!
//! `merge_from` follows merge-patch semantics: an optional scalar is
//! replaced when the patch supplies one and kept otherwise, a required
//! scalar is always replaced, and an optional composite recurses field
//! by field when both sides are present rather than replacing the node
//! wholesale. Merging is total: it is defined for every combination of
//! presence and absence and never fails.

use vstd::prelude::*;

verus! {

/// Merge of one optional scalar leaf: the patch value wins when
/// present, otherwise the base value is kept.
pub open spec fn merge_opt<T>(base: Option<T>, patch: Option<T>) -> Option<T> {
    if patch is Some {
        patch
    } else {
        base
    }
}

/// A patch that supplies a leaf overrides the base; a patch that omits
/// it leaves the base untouched (right-bias of the leaf merge).
pub proof fn lemma_merge_opt_right_bias<T>(base: Option<T>, patch: Option<T>)
    ensures
        patch is Some ==> merge_opt(base, patch) == patch,
        patch is None ==> merge_opt(base, patch) == base,
{
}

/// Resource-count and resource-amount bounds of one quota, every field
/// optional.
#[derive(Debug, Clone, PartialEq, Eq)]
#[verifier::ext_equal]
pub struct ResourceQuotaLimit {
    pub pods: Option<String>,
    pub services: Option<String>,
    pub replication_controllers: Option<String>,
    pub secrets: Option<String>,
    pub config_maps: Option<String>,
    pub persistent_volume_claims: Option<String>,
    pub services_node_ports: Option<String>,
    pub services_load_balancers: Option<String>,
    pub requests_cpu: Option<String>,
    pub requests_memory: Option<String>,
    pub requests_storage: Option<String>,
    pub limits_cpu: Option<String>,
    pub limits_memory: Option<String>,
}

impl ResourceQuotaLimit {
    /// Field-by-field merge of two quota limits: each leaf takes the
    /// patch value when the patch supplies one.
    pub open spec fn merged(self, other: Self) -> Self {
        ResourceQuotaLimit {
            pods: merge_opt(self.pods, other.pods),
            services: merge_opt(self.services, other.services),
            replication_controllers: merge_opt(
                self.replication_controllers,
                other.replication_controllers,
            ),
            secrets: merge_opt(self.secrets, other.secrets),
            config_maps: merge_opt(self.config_maps, other.config_maps),
            persistent_volume_claims: merge_opt(
                self.persistent_volume_claims,
                other.persistent_volume_claims,
            ),
            services_node_ports: merge_opt(self.services_node_ports, other.services_node_ports),
            services_load_balancers: merge_opt(
                self.services_load_balancers,
                other.services_load_balancers,
            ),
            requests_cpu: merge_opt(self.requests_cpu, other.requests_cpu),
            requests_memory: merge_opt(self.requests_memory, other.requests_memory),
            requests_storage: merge_opt(self.requests_storage, other.requests_storage),
            limits_cpu: merge_opt(self.limits_cpu, other.limits_cpu),
            limits_memory: merge_opt(self.limits_memory, other.limits_memory),
        }
    }

    /// Merges `other` onto `self`, field by field.
    pub fn merge_from(&mut self, other: Self)
        ensures
            *final(self) == old(self).merged(other),
    {
        if other.pods.is_some() {
            self.pods = other.pods;
        }
        if other.services.is_some() {
            self.services = other.services;
        }
        if other.replication_controllers.is_some() {
            self.replication_controllers = other.replication_controllers;
        }
        if other.secrets.is_some() {
            self.secrets = other.secrets;
        }
        if other.config_maps.is_some() {
            self.config_maps = other.config_maps;
        }
        if other.persistent_volume_claims.is_some() {
            self.persistent_volume_claims = other.persistent_volume_claims;
        }
        if other.services_node_ports.is_some() {
            self.services_node_ports = other.services_node_ports;
        }
        if other.services_load_balancers.is_some() {
            self.services_load_balancers = other.services_load_balancers;
        }
        if other.requests_cpu.is_some() {
            self.requests_cpu = other.requests_cpu;
        }
        if other.requests_memory.is_some() {
            self.requests_memory = other.requests_memory;
        }
        if other.requests_storage.is_some() {
            self.requests_storage = other.requests_storage;
        }
        if other.limits_cpu.is_some() {
            self.limits_cpu = other.limits_cpu;
        }
        if other.limits_memory.is_some() {
            self.limits_memory = other.limits_memory;
        }
        assert(*self =~= old(self).merged(other));
    }
}

/// Merge of one optional composite node: absent patch keeps the base,
/// absent base takes the patch wholesale, two present nodes recurse.
pub open spec fn merged_opt_limit(
    base: Option<ResourceQuotaLimit>,
    patch: Option<ResourceQuotaLimit>,
) -> Option<ResourceQuotaLimit> {
    match patch {
        None => base,
        Some(p) => match base {
            None => Some(p),
            Some(b) => Some(b.merged(p)),
        },
    }
}

/// Merges an optional quota limit in place, recursing when both sides
/// are present.
fn merge_opt_limit_from(base: &mut Option<ResourceQuotaLimit>, patch: Option<ResourceQuotaLimit>)
    ensures
        *final(base) == merged_opt_limit(*old(base), patch),
{
    if let Some(p) = patch {
        match base.take() {
            Some(mut b) => {
                b.merge_from(p);
                *base = Some(b);
            },
            None => {
                *base = Some(p);
            },
        }
    }
}

/// The default quota applied to each namespace of a project.
#[derive(Debug, Clone, PartialEq, Eq)]
#[verifier::ext_equal]
pub struct NamespaceResourceQuota {
    pub limit: Option<ResourceQuotaLimit>,
}

impl NamespaceResourceQuota {
    /// Field-by-field merge of two namespace quotas.
    pub open spec fn merged(self, other: Self) -> Self {
        NamespaceResourceQuota { limit: merged_opt_limit(self.limit, other.limit) }
    }

    /// Merges `other` onto `self`, recursing into the limit when both
    /// sides carry one.
    pub fn merge_from(&mut self, other: Self)
        ensures
            *final(self) == old(self).merged(other),
    {
        merge_opt_limit_from(&mut self.limit, other.limit);
    }
}

/// The quota of a whole project: the configured limit and the part of
/// it already used.
#[derive(Debug, Clone, PartialEq, Eq)]
#[verifier::ext_equal]
pub struct ProjectResourceQuota {
    pub limit: Option<ResourceQuotaLimit>,
    pub used_limit: Option<ResourceQuotaLimit>,
}

impl ProjectResourceQuota {
    /// Field-by-field merge of two project quotas.
    pub open spec fn merged(self, other: Self) -> Self {
        ProjectResourceQuota {
            limit: merged_opt_limit(self.limit, other.limit),
            used_limit: merged_opt_limit(self.used_limit, other.used_limit),
        }
    }

    /// Merges `other` onto `self`, recursing into each limit when both
    /// sides carry one.
    pub fn merge_from(&mut self, other: Self)
        ensures
            *final(self) == old(self).merged(other),
    {
        merge_opt_limit_from(&mut self.limit, other.limit);
        merge_opt_limit_from(&mut self.used_limit, other.used_limit);
    }
}

/// The default resource limit applied to each container of a project.
#[derive(Debug, Clone, PartialEq, Eq)]
#[verifier::ext_equal]
pub struct ContainerResourceLimit {
    pub requests_cpu: Option<String>,
    pub requests_memory: Option<String>,
    pub limits_cpu: Option<String>,
    pub limits_memory: Option<String>,
}

impl ContainerResourceLimit {
    /// Field-by-field merge of two container limits.
    pub open spec fn merged(self, other: Self) -> Self {
        ContainerResourceLimit {
            requests_cpu: merge_opt(self.requests_cpu, other.requests_cpu),
            requests_memory: merge_opt(self.requests_memory, other.requests_memory),
            limits_cpu: merge_opt(self.limits_cpu, other.limits_cpu),
            limits_memory: merge_opt(self.limits_memory, other.limits_memory),
        }
    }

    /// Merges `other` onto `self`, field by field.
    pub fn merge_from(&mut self, other: Self)
        ensures
            *final(self) == old(self).merged(other),
    {
        if other.requests_cpu.is_some() {
            self.requests_cpu = other.requests_cpu;
        }
        if other.requests_memory.is_some() {
            self.requests_memory = other.requests_memory;
        }
        if other.limits_cpu.is_some() {
            self.limits_cpu = other.limits_cpu;
        }
        if other.limits_memory.is_some() {
            self.limits_memory = other.limits_memory;
        }
        assert(*self =~= old(self).merged(other));
    }
}

/// The spec of one project custom resource.
#[derive(Debug, Clone, PartialEq, Eq)]
#[verifier::ext_equal]
pub struct ProjectSpec {
    pub display_name: Option<String>,
    pub description: String,
    pub cluster_name: Option<String>,
    pub resource_quota: Option<ProjectResourceQuota>,
    pub namespace_default_resource_quota: Option<NamespaceResourceQuota>,
    pub container_default_resource_limit: Option<ContainerResourceLimit>,
    pub enable_project_monitoring: bool,
}

/// Merge of the optional project quota node.
pub open spec fn merged_opt_project_quota(
    base: Option<ProjectResourceQuota>,
    patch: Option<ProjectResourceQuota>,
) -> Option<ProjectResourceQuota> {
    match patch {
        None => base,
        Some(p) => match base {
            None => Some(p),
            Some(b) => Some(b.merged(p)),
        },
    }
}

/// Merge of the optional namespace quota node.
pub open spec fn merged_opt_namespace_quota(
    base: Option<NamespaceResourceQuota>,
    patch: Option<NamespaceResourceQuota>,
) -> Option<NamespaceResourceQuota> {
    match patch {
        None => base,
        Some(p) => match base {
            None => Some(p),
            Some(b) => Some(b.merged(p)),
        },
    }
}

/// Merge of the optional container limit node.
pub open spec fn merged_opt_container_limit(
    base: Option<ContainerResourceLimit>,
    patch: Option<ContainerResourceLimit>,
) -> Option<ContainerResourceLimit> {
    match patch {
        None => base,
        Some(p) => match base {
            None => Some(p),
            Some(b) => Some(b.merged(p)),
        },
    }
}

impl ProjectSpec {
    /// Field-by-field merge of two project specs: optional scalars keep
    /// the patch value when present, the required scalars are always
    /// replaced, and composite nodes recurse.
    pub open spec fn merged(self, other: Self) -> Self {
        ProjectSpec {
            display_name: merge_opt(self.display_name, other.display_name),
            description: other.description,
            cluster_name: merge_opt(self.cluster_name, other.cluster_name),
            resource_quota: merged_opt_project_quota(self.resource_quota, other.resource_quota),
            namespace_default_resource_quota: merged_opt_namespace_quota(
                self.namespace_default_resource_quota,
                other.namespace_default_resource_quota,
            ),
            container_default_resource_limit: merged_opt_container_limit(
                self.container_default_resource_limit,
                other.container_default_resource_limit,
            ),
            enable_project_monitoring: other.enable_project_monitoring,
        }
    }

    /// Merges `other` onto `self`, field by field; the required
    /// `description` and `enable_project_monitoring` fields are always
    /// replaced.
    pub fn merge_from(&mut self, other: Self)
        ensures
            *final(self) == old(self).merged(other),
    {
        if other.display_name.is_some() {
            self.display_name = other.display_name;
        }
        self.description = other.description;
        if other.cluster_name.is_some() {
            self.cluster_name = other.cluster_name;
        }
        if let Some(p) = other.resource_quota {
            match self.resource_quota.take() {
                Some(mut b) => {
                    b.merge_from(p);
                    self.resource_quota = Some(b);
                },
                None => {
                    self.resource_quota = Some(p);
                },
            }
        }
        if let Some(p) = other.namespace_default_resource_quota {
            match self.namespace_default_resource_quota.take() {
                Some(mut b) => {
                    b.merge_from(p);
                    self.namespace_default_resource_quota = Some(b);
                },
                None => {
                    self.namespace_default_resource_quota = Some(p);
                },
            }
        }
        if let Some(p) = other.container_default_resource_limit {
            match self.container_default_resource_limit.take() {
                Some(mut b) => {
                    b.merge_from(p);
                    self.container_default_resource_limit = Some(b);
                },
                None => {
                    self.container_default_resource_limit = Some(p);
                },
            }
        }
        self.enable_project_monitoring = other.enable_project_monitoring;
        assert(*self =~= old(self).merged(other));
    }
}

/// Merging a partial spec onto itself changes nothing: the merge is
/// idempotent at every level of the schema.
pub proof fn lemma_merge_limit_idempotent(x: ResourceQuotaLimit)
    ensures
        x.merged(x) == x,
{
    assert(x.merged(x) =~= x);
}

/// Idempotence of the optional quota-limit node merge.
pub proof fn lemma_merge_opt_limit_idempotent(x: Option<ResourceQuotaLimit>)
    ensures
        merged_opt_limit(x, x) == x,
{
    if let Some(l) = x {
        lemma_merge_limit_idempotent(l);
    }
}

/// Idempotence of the namespace quota merge.
pub proof fn lemma_merge_namespace_quota_idempotent(x: NamespaceResourceQuota)
    ensures
        x.merged(x) == x,
{
    lemma_merge_opt_limit_idempotent(x.limit);
    assert(x.merged(x) =~= x);
}

/// Idempotence of the project quota merge.
pub proof fn lemma_merge_project_quota_idempotent(x: ProjectResourceQuota)
    ensures
        x.merged(x) == x,
{
    lemma_merge_opt_limit_idempotent(x.limit);
    lemma_merge_opt_limit_idempotent(x.used_limit);
    assert(x.merged(x) =~= x);
}

/// Idempotence of the container limit merge.
pub proof fn lemma_merge_container_limit_idempotent(x: ContainerResourceLimit)
    ensures
        x.merged(x) == x,
{
    assert(x.merged(x) =~= x);
}

/// Idempotence of the whole project spec merge.
pub proof fn lemma_merge_project_spec_idempotent(x: ProjectSpec)
    ensures
        x.merged(x) == x,
{
    if let Some(q) = x.resource_quota {
        lemma_merge_project_quota_idempotent(q);
    }
    if let Some(q) = x.namespace_default_resource_quota {
        lemma_merge_namespace_quota_idempotent(q);
    }
    if let Some(l) = x.container_default_resource_limit {
        lemma_merge_container_limit_idempotent(l);
    }
    assert(x.merged(x) =~= x);
}

} // verus!
