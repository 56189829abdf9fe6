//! The Argo CD API messages as the client receives them, holding the fields
//! that the client reads.  Every scalar field of the wire format is optional,
//! and repeated fields may be empty.
use std::collections::HashMap;
use vstd::prelude::*;

verus! {

/// `v1alpha1.Application`.
#[derive(Debug, Clone, PartialEq, Default)]
pub struct ProtoApplication {
    pub metadata: Option<ProtoObjectMeta>,
    pub spec: Option<ProtoApplicationSpec>,
    pub status: Option<ProtoApplicationStatus>,
    pub operation: Option<ProtoOperation>,
}

/// `v1alpha1.ApplicationList`: the answer to a list request.
#[derive(Debug, Clone, PartialEq, Default)]
pub struct ProtoApplicationList {
    pub items: Vec<ProtoApplication>,
}

/// `application.ApplicationQuery`: the request of a list or get call.
#[derive(Debug, Clone, PartialEq, Default)]
pub struct ProtoApplicationQuery {
    pub name: Option<String>,
    pub projects: Vec<String>,
}

/// `meta.v1.ObjectMeta`.
#[derive(Debug, Clone, PartialEq, Default)]
pub struct ProtoObjectMeta {
    pub name: Option<String>,
    pub namespace: Option<String>,
    pub self_link: Option<String>,
    pub uid: Option<String>,
    pub labels: HashMap<String, String>,
    pub annotations: HashMap<String, String>,
    pub resource_version: Option<String>,
    pub generation: Option<i64>,
    pub creation_timestamp: Option<ProtoTime>,
    pub deletion_timestamp: Option<ProtoTime>,
    pub finalizers: Vec<String>,
}

/// `meta.v1.Time`.
#[derive(Debug, Clone, Copy, PartialEq, Eq, Structural, Default)]
pub struct ProtoTime {
    pub seconds: Option<i64>,
    pub nanos: Option<i32>,
}

/// `v1alpha1.ApplicationSpec`.
#[derive(Debug, Clone, PartialEq, Default)]
pub struct ProtoApplicationSpec {
    pub project: Option<String>,
    pub source: Option<ProtoApplicationSource>,
    pub destination: Option<ProtoApplicationDestination>,
    pub revision_history_limit: Option<i64>,
    pub sources: Vec<ProtoApplicationSource>,
}

/// `v1alpha1.ApplicationSource`.
#[derive(Debug, Clone, PartialEq, Default)]
pub struct ProtoApplicationSource {
    pub repo_url: Option<String>,
    pub path: Option<String>,
    pub target_revision: Option<String>,
    pub chart: Option<String>,
    pub ref_: Option<String>,
    pub name: Option<String>,
    pub tag_prefix: Option<String>,
}

/// `v1alpha1.ApplicationDestination`.
#[derive(Debug, Clone, PartialEq, Default)]
pub struct ProtoApplicationDestination {
    pub server: Option<String>,
    pub namespace: Option<String>,
    pub name: Option<String>,
}

/// `v1alpha1.ApplicationStatus`.
#[derive(Debug, Clone, PartialEq, Default)]
pub struct ProtoApplicationStatus {
    pub sync: Option<ProtoSyncStatus>,
    pub health: Option<ProtoHealthStatus>,
    pub conditions: Vec<ProtoApplicationCondition>,
    pub reconciled_at: Option<ProtoTime>,
    pub observed_at: Option<ProtoTime>,
    pub source_type: Option<String>,
    pub summary: Option<ProtoApplicationSummary>,
    pub source_types: Vec<String>,
    pub controller_namespace: Option<String>,
    pub resource_health_source: Option<String>,
    pub operation_state: Option<ProtoOperationState>,
}

/// `v1alpha1.SyncStatus`.
#[derive(Debug, Clone, PartialEq, Default)]
pub struct ProtoSyncStatus {
    pub status: Option<String>,
}

/// `v1alpha1.HealthStatus`.
#[derive(Debug, Clone, PartialEq, Default)]
pub struct ProtoHealthStatus {
    pub status: Option<String>,
}

/// `v1alpha1.ApplicationSummary`.
#[derive(Debug, Clone, PartialEq, Default)]
pub struct ProtoApplicationSummary {
    pub external_ur_ls: Vec<String>,
    pub images: Vec<String>,
    pub is_app_of_apps: Option<bool>,
}

/// `v1alpha1.OperationState`.
#[derive(Debug, Clone, PartialEq, Default)]
pub struct ProtoOperationState {
    pub phase: Option<String>,
    pub message: Option<String>,
    pub retry_count: Option<i64>,
    pub started_at: Option<ProtoTime>,
    pub finished_at: Option<ProtoTime>,
    pub operation: Option<ProtoOperation>,
}

/// `v1alpha1.Operation`.
#[derive(Debug, Clone, PartialEq, Default)]
pub struct ProtoOperation {
    pub initiated_by: Option<ProtoOperationInitiator>,
    pub info: Vec<ProtoInfo>,
    pub retry: Option<ProtoRetryStrategy>,
}

/// `v1alpha1.RetryStrategy`.
#[derive(Debug, Clone, PartialEq, Default)]
pub struct ProtoRetryStrategy {
    pub limit: Option<i64>,
    pub refresh: Option<bool>,
}

/// `v1alpha1.OperationInitiator`.
#[derive(Debug, Clone, PartialEq, Default)]
pub struct ProtoOperationInitiator {
    pub username: Option<String>,
    pub automated: Option<bool>,
}

/// `v1alpha1.Info`.
#[derive(Debug, Clone, PartialEq, Default)]
pub struct ProtoInfo {
    pub name: Option<String>,
    pub value: Option<String>,
}

/// `v1alpha1.ApplicationCondition`.
#[derive(Debug, Clone, PartialEq, Default)]
pub struct ProtoApplicationCondition {
    pub type_: Option<String>,
    pub message: Option<String>,
    pub last_transition_time: Option<ProtoTime>,
}

} // verus!
