//! The application model that the client hands to its callers, and the
//! mathematical view of each model type.
use std::collections::HashMap;
use vstd::prelude::*;

verus! {

/// An Argo CD application, with the fields that callers read most often
/// lifted out of the nested metadata, spec and status.
#[derive(Debug, Clone)]
pub struct Application {
    pub metadata: ApplicationMetadata,
    pub spec: Option<ApplicationSpec>,
    pub status: Option<ApplicationStatus>,
    pub operation: Option<ApplicationOperation>,
    pub name: String,
    pub namespace: String,
    pub self_link: String,
    pub uid: String,
    pub project: String,
    pub health: HealthStatus,
    pub sync: SyncStatus,
    pub repo_url: String,
    pub path: String,
    pub target_revision: String,
    pub image: Option<String>,
    pub external_urls: Vec<String>,
    pub source_types: Vec<String>,
    pub is_app_of_apps: bool,
    pub source_type: String,
    pub controller_namespace: String,
    pub resource_health_source: String,
    pub revision_history_limit: Option<i64>,
}

#[derive(Debug, Clone, PartialEq)]
pub struct ApplicationMetadata {
    pub name: String,
    pub namespace: String,
    pub self_link: String,
    pub uid: String,
    pub labels: HashMap<String, String>,
    pub annotations: HashMap<String, String>,
    pub resource_version: String,
    pub generation: i64,
    pub creation_timestamp: Option<KubeTime>,
    pub deletion_timestamp: Option<KubeTime>,
    pub finalizers: Vec<String>,
}

#[derive(Debug, Clone, PartialEq)]
pub struct ApplicationSpec {
    pub project: String,
    pub source: Option<ApplicationSource>,
    pub destination: Option<ApplicationDestination>,
    pub revision_history_limit: Option<i64>,
    pub sources: Vec<ApplicationSource>,
}

#[derive(Debug, Clone, PartialEq)]
pub struct ApplicationSource {
    pub repo_url: String,
    pub path: String,
    pub target_revision: String,
    pub chart: String,
    pub ref_: String,
    pub name: String,
    pub tag_prefix: String,
}

#[derive(Debug, Clone, PartialEq)]
pub struct ApplicationDestination {
    pub server: String,
    pub namespace: String,
    pub name: String,
}

#[derive(Debug, Clone, PartialEq)]
pub struct ApplicationStatus {
    pub sync: SyncStatus,
    pub health: HealthStatus,
    pub conditions: Vec<ApplicationCondition>,
    pub reconciled_at: Option<KubeTime>,
    pub observed_at: Option<KubeTime>,
    pub source_type: String,
    pub summary: ApplicationSummary,
    pub source_types: Vec<String>,
    pub controller_namespace: String,
    pub resource_health_source: String,
    pub operation_state: Option<ApplicationOperationState>,
}

#[derive(Debug, Clone, PartialEq)]
pub struct ApplicationSummary {
    pub external_urls: Vec<String>,
    pub images: Vec<String>,
    pub is_app_of_apps: bool,
}

#[derive(Debug, Clone, PartialEq)]
pub struct ApplicationOperationState {
    pub phase: String,
    pub message: String,
    pub retry_count: Option<i64>,
    pub started_at: Option<KubeTime>,
    pub finished_at: Option<KubeTime>,
    pub operation: Option<ApplicationOperation>,
}

#[derive(Debug, Clone, PartialEq)]
pub struct ApplicationOperation {
    pub initiated_by: Option<OperationInitiator>,
    pub info: Vec<ApplicationInfo>,
    pub retry_limit: Option<i64>,
    pub retry_refresh: Option<bool>,
}

#[derive(Debug, Clone, PartialEq)]
pub struct OperationInitiator {
    pub username: String,
    pub automated: bool,
}

#[derive(Debug, Clone, PartialEq)]
pub struct ApplicationInfo {
    pub name: String,
    pub value: String,
}

#[derive(Debug, Clone, PartialEq)]
pub struct ApplicationCondition {
    pub type_: String,
    pub message: String,
    pub last_transition_time: Option<KubeTime>,
}

/// A Kubernetes timestamp: seconds and nanoseconds since the Unix epoch.
#[derive(Debug, Clone, Copy, PartialEq, Eq, Structural)]
pub struct KubeTime {
    pub seconds: Option<i64>,
    pub nanos: Option<i32>,
}

/// Health of an application as reported by Argo CD.
#[derive(Debug, Clone, Copy, PartialEq, Eq, Structural)]
pub enum HealthStatus {
    Healthy,
    Degraded,
    Progressing,
    Suspended,
    Missing,
    Unknown,
}

/// Sync state of an application as reported by Argo CD.
#[derive(Debug, Clone, Copy, PartialEq, Eq, Structural)]
pub enum SyncStatus {
    Synced,
    OutOfSync,
    Unknown,
}

/// The name under which Argo CD reports each health state.
pub open spec fn health_name(h: HealthStatus) -> Seq<char> {
    match h {
        HealthStatus::Healthy => "Healthy"@,
        HealthStatus::Degraded => "Degraded"@,
        HealthStatus::Progressing => "Progressing"@,
        HealthStatus::Suspended => "Suspended"@,
        HealthStatus::Missing => "Missing"@,
        HealthStatus::Unknown => "Unknown"@,
    }
}

/// The name under which Argo CD reports each sync state.
pub open spec fn sync_name(s: SyncStatus) -> Seq<char> {
    match s {
        SyncStatus::Synced => "Synced"@,
        SyncStatus::OutOfSync => "OutOfSync"@,
        SyncStatus::Unknown => "Unknown"@,
    }
}

impl HealthStatus {
    /// The display text of the health state.
    pub fn to_string(&self) -> (s: String)
        ensures
            s@ == health_name(*self),
    {
        match self {
            HealthStatus::Healthy => "Healthy".to_string(),
            HealthStatus::Degraded => "Degraded".to_string(),
            HealthStatus::Progressing => "Progressing".to_string(),
            HealthStatus::Suspended => "Suspended".to_string(),
            HealthStatus::Missing => "Missing".to_string(),
            HealthStatus::Unknown => "Unknown".to_string(),
        }
    }
}

impl SyncStatus {
    /// The display text of the sync state.
    pub fn to_string(&self) -> (s: String)
        ensures
            s@ == sync_name(*self),
    {
        match self {
            SyncStatus::Synced => "Synced".to_string(),
            SyncStatus::OutOfSync => "OutOfSync".to_string(),
            SyncStatus::Unknown => "Unknown".to_string(),
        }
    }
}

// ---------------------------------------------------------------------
// Views: each model value seen as plain mathematical data.
// ---------------------------------------------------------------------

pub struct ApplicationView {
    pub metadata: ApplicationMetadataView,
    pub spec: Option<ApplicationSpecView>,
    pub status: Option<ApplicationStatusView>,
    pub operation: Option<ApplicationOperationView>,
    pub name: Seq<char>,
    pub namespace: Seq<char>,
    pub self_link: Seq<char>,
    pub uid: Seq<char>,
    pub project: Seq<char>,
    pub health: HealthStatus,
    pub sync: SyncStatus,
    pub repo_url: Seq<char>,
    pub path: Seq<char>,
    pub target_revision: Seq<char>,
    pub image: Option<Seq<char>>,
    pub external_urls: Seq<Seq<char>>,
    pub source_types: Seq<Seq<char>>,
    pub is_app_of_apps: bool,
    pub source_type: Seq<char>,
    pub controller_namespace: Seq<char>,
    pub resource_health_source: Seq<char>,
    pub revision_history_limit: Option<i64>,
}

pub struct ApplicationMetadataView {
    pub name: Seq<char>,
    pub namespace: Seq<char>,
    pub self_link: Seq<char>,
    pub uid: Seq<char>,
    pub labels: Map<String, String>,
    pub annotations: Map<String, String>,
    pub resource_version: Seq<char>,
    pub generation: i64,
    pub creation_timestamp: Option<KubeTime>,
    pub deletion_timestamp: Option<KubeTime>,
    pub finalizers: Seq<Seq<char>>,
}

pub struct ApplicationSpecView {
    pub project: Seq<char>,
    pub source: Option<ApplicationSourceView>,
    pub destination: Option<ApplicationDestinationView>,
    pub revision_history_limit: Option<i64>,
    pub sources: Seq<ApplicationSourceView>,
}

pub struct ApplicationSourceView {
    pub repo_url: Seq<char>,
    pub path: Seq<char>,
    pub target_revision: Seq<char>,
    pub chart: Seq<char>,
    pub ref_: Seq<char>,
    pub name: Seq<char>,
    pub tag_prefix: Seq<char>,
}

pub struct ApplicationDestinationView {
    pub server: Seq<char>,
    pub namespace: Seq<char>,
    pub name: Seq<char>,
}

pub struct ApplicationStatusView {
    pub sync: SyncStatus,
    pub health: HealthStatus,
    pub conditions: Seq<ApplicationConditionView>,
    pub reconciled_at: Option<KubeTime>,
    pub observed_at: Option<KubeTime>,
    pub source_type: Seq<char>,
    pub summary: ApplicationSummaryView,
    pub source_types: Seq<Seq<char>>,
    pub controller_namespace: Seq<char>,
    pub resource_health_source: Seq<char>,
    pub operation_state: Option<ApplicationOperationStateView>,
}

pub struct ApplicationSummaryView {
    pub external_urls: Seq<Seq<char>>,
    pub images: Seq<Seq<char>>,
    pub is_app_of_apps: bool,
}

pub struct ApplicationOperationStateView {
    pub phase: Seq<char>,
    pub message: Seq<char>,
    pub retry_count: Option<i64>,
    pub started_at: Option<KubeTime>,
    pub finished_at: Option<KubeTime>,
    pub operation: Option<ApplicationOperationView>,
}

pub struct ApplicationOperationView {
    pub initiated_by: Option<OperationInitiatorView>,
    pub info: Seq<ApplicationInfoView>,
    pub retry_limit: Option<i64>,
    pub retry_refresh: Option<bool>,
}

pub struct OperationInitiatorView {
    pub username: Seq<char>,
    pub automated: bool,
}

pub struct ApplicationInfoView {
    pub name: Seq<char>,
    pub value: Seq<char>,
}

pub struct ApplicationConditionView {
    pub type_: Seq<char>,
    pub message: Seq<char>,
    pub last_transition_time: Option<KubeTime>,
}

impl DeepView for Application {
    type V = ApplicationView;

    open spec fn deep_view(&self) -> ApplicationView {
        ApplicationView {
            metadata: self.metadata.deep_view(),
            spec: self.spec.deep_view(),
            status: self.status.deep_view(),
            operation: self.operation.deep_view(),
            name: self.name@,
            namespace: self.namespace@,
            self_link: self.self_link@,
            uid: self.uid@,
            project: self.project@,
            health: self.health,
            sync: self.sync,
            repo_url: self.repo_url@,
            path: self.path@,
            target_revision: self.target_revision@,
            image: self.image.deep_view(),
            external_urls: self.external_urls.deep_view(),
            source_types: self.source_types.deep_view(),
            is_app_of_apps: self.is_app_of_apps,
            source_type: self.source_type@,
            controller_namespace: self.controller_namespace@,
            resource_health_source: self.resource_health_source@,
            revision_history_limit: self.revision_history_limit,
        }
    }
}

impl DeepView for ApplicationMetadata {
    type V = ApplicationMetadataView;

    open spec fn deep_view(&self) -> ApplicationMetadataView {
        ApplicationMetadataView {
            name: self.name@,
            namespace: self.namespace@,
            self_link: self.self_link@,
            uid: self.uid@,
            labels: self.labels@,
            annotations: self.annotations@,
            resource_version: self.resource_version@,
            generation: self.generation,
            creation_timestamp: self.creation_timestamp,
            deletion_timestamp: self.deletion_timestamp,
            finalizers: self.finalizers.deep_view(),
        }
    }
}

impl DeepView for ApplicationSpec {
    type V = ApplicationSpecView;

    open spec fn deep_view(&self) -> ApplicationSpecView {
        ApplicationSpecView {
            project: self.project@,
            source: self.source.deep_view(),
            destination: self.destination.deep_view(),
            revision_history_limit: self.revision_history_limit,
            sources: self.sources.deep_view(),
        }
    }
}

impl DeepView for ApplicationSource {
    type V = ApplicationSourceView;

    open spec fn deep_view(&self) -> ApplicationSourceView {
        ApplicationSourceView {
            repo_url: self.repo_url@,
            path: self.path@,
            target_revision: self.target_revision@,
            chart: self.chart@,
            ref_: self.ref_@,
            name: self.name@,
            tag_prefix: self.tag_prefix@,
        }
    }
}

impl DeepView for ApplicationDestination {
    type V = ApplicationDestinationView;

    open spec fn deep_view(&self) -> ApplicationDestinationView {
        ApplicationDestinationView {
            server: self.server@,
            namespace: self.namespace@,
            name: self.name@,
        }
    }
}

impl DeepView for ApplicationStatus {
    type V = ApplicationStatusView;

    open spec fn deep_view(&self) -> ApplicationStatusView {
        ApplicationStatusView {
            sync: self.sync,
            health: self.health,
            conditions: self.conditions.deep_view(),
            reconciled_at: self.reconciled_at,
            observed_at: self.observed_at,
            source_type: self.source_type@,
            summary: self.summary.deep_view(),
            source_types: self.source_types.deep_view(),
            controller_namespace: self.controller_namespace@,
            resource_health_source: self.resource_health_source@,
            operation_state: self.operation_state.deep_view(),
        }
    }
}

impl DeepView for ApplicationSummary {
    type V = ApplicationSummaryView;

    open spec fn deep_view(&self) -> ApplicationSummaryView {
        ApplicationSummaryView {
            external_urls: self.external_urls.deep_view(),
            images: self.images.deep_view(),
            is_app_of_apps: self.is_app_of_apps,
        }
    }
}

impl DeepView for ApplicationOperationState {
    type V = ApplicationOperationStateView;

    open spec fn deep_view(&self) -> ApplicationOperationStateView {
        ApplicationOperationStateView {
            phase: self.phase@,
            message: self.message@,
            retry_count: self.retry_count,
            started_at: self.started_at,
            finished_at: self.finished_at,
            operation: self.operation.deep_view(),
        }
    }
}

impl DeepView for ApplicationOperation {
    type V = ApplicationOperationView;

    open spec fn deep_view(&self) -> ApplicationOperationView {
        ApplicationOperationView {
            initiated_by: self.initiated_by.deep_view(),
            info: self.info.deep_view(),
            retry_limit: self.retry_limit,
            retry_refresh: self.retry_refresh,
        }
    }
}

impl DeepView for OperationInitiator {
    type V = OperationInitiatorView;

    open spec fn deep_view(&self) -> OperationInitiatorView {
        OperationInitiatorView { username: self.username@, automated: self.automated }
    }
}

impl DeepView for ApplicationInfo {
    type V = ApplicationInfoView;

    open spec fn deep_view(&self) -> ApplicationInfoView {
        ApplicationInfoView { name: self.name@, value: self.value@ }
    }
}

impl DeepView for ApplicationCondition {
    type V = ApplicationConditionView;

    open spec fn deep_view(&self) -> ApplicationConditionView {
        ApplicationConditionView {
            type_: self.type_@,
            message: self.message@,
            last_transition_time: self.last_transition_time,
        }
    }
}

} // verus!
