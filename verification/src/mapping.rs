//! What the client makes of each message it receives: the model value that
//! every API message maps to.
use crate::models::{
    ApplicationConditionView, ApplicationDestinationView, ApplicationInfoView,
    ApplicationMetadataView, ApplicationOperationStateView, ApplicationOperationView,
    ApplicationSourceView, ApplicationSpecView, ApplicationStatusView, ApplicationSummaryView,
    ApplicationView, HealthStatus, KubeTime, OperationInitiatorView, SyncStatus,
};
use crate::proto::{
    ProtoApplication, ProtoApplicationCondition, ProtoApplicationDestination,
    ProtoApplicationSource, ProtoApplicationSpec, ProtoApplicationStatus, ProtoApplicationSummary,
    ProtoInfo, ProtoObjectMeta, ProtoOperation, ProtoOperationInitiator, ProtoOperationState,
    ProtoTime,
};
use vstd::prelude::*;

verus! {

/// The text of an optional string field; an absent field reads as empty.
pub open spec fn text_or_empty(o: Option<String>) -> Seq<char> {
    match o {
        Some(s) => s@,
        None => Seq::empty(),
    }
}

pub open spec fn view_of_time(t: ProtoTime) -> KubeTime {
    KubeTime { seconds: t.seconds, nanos: t.nanos }
}

pub open spec fn view_of_opt_time(t: Option<ProtoTime>) -> Option<KubeTime> {
    match t {
        Some(t) => Some(view_of_time(t)),
        None => None,
    }
}

/// The health state that a reported name stands for; any other name,
/// whatever its case, is `Unknown`.
pub open spec fn health_from_name(s: Seq<char>) -> HealthStatus {
    if s == "Healthy"@ {
        HealthStatus::Healthy
    } else if s == "Degraded"@ {
        HealthStatus::Degraded
    } else if s == "Progressing"@ {
        HealthStatus::Progressing
    } else if s == "Suspended"@ {
        HealthStatus::Suspended
    } else if s == "Missing"@ {
        HealthStatus::Missing
    } else {
        HealthStatus::Unknown
    }
}

/// The sync state that a reported name stands for; any other name is `Unknown`.
pub open spec fn sync_from_name(s: Seq<char>) -> SyncStatus {
    if s == "Synced"@ {
        SyncStatus::Synced
    } else if s == "OutOfSync"@ {
        SyncStatus::OutOfSync
    } else {
        SyncStatus::Unknown
    }
}

/// The health of a status: its reported health name, or `Unknown` where none is reported.
pub open spec fn health_of_status(s: ProtoApplicationStatus) -> HealthStatus {
    match s.health {
        Some(h) => match h.status {
            Some(name) => health_from_name(name@),
            None => HealthStatus::Unknown,
        },
        None => HealthStatus::Unknown,
    }
}

/// The sync state of a status: its reported sync name, or `Unknown` where none is reported.
pub open spec fn sync_of_status(s: ProtoApplicationStatus) -> SyncStatus {
    match s.sync {
        Some(st) => match st.status {
            Some(name) => sync_from_name(name@),
            None => SyncStatus::Unknown,
        },
        None => SyncStatus::Unknown,
    }
}

pub open spec fn health_of(status: Option<ProtoApplicationStatus>) -> HealthStatus {
    match status {
        Some(s) => health_of_status(s),
        None => HealthStatus::Unknown,
    }
}

pub open spec fn sync_of(status: Option<ProtoApplicationStatus>) -> SyncStatus {
    match status {
        Some(s) => sync_of_status(s),
        None => SyncStatus::Unknown,
    }
}

/// Metadata with every field empty: what an application without metadata carries.
pub open spec fn empty_metadata_view() -> ApplicationMetadataView {
    ApplicationMetadataView {
        name: Seq::empty(),
        namespace: Seq::empty(),
        self_link: Seq::empty(),
        uid: Seq::empty(),
        labels: Map::empty(),
        annotations: Map::empty(),
        resource_version: Seq::empty(),
        generation: 0,
        creation_timestamp: None,
        deletion_timestamp: None,
        finalizers: Seq::empty(),
    }
}

pub open spec fn view_of_metadata(m: ProtoObjectMeta) -> ApplicationMetadataView {
    ApplicationMetadataView {
        name: text_or_empty(m.name),
        namespace: text_or_empty(m.namespace),
        self_link: text_or_empty(m.self_link),
        uid: text_or_empty(m.uid),
        labels: m.labels@,
        annotations: m.annotations@,
        resource_version: text_or_empty(m.resource_version),
        generation: match m.generation {
            Some(g) => g,
            None => 0,
        },
        creation_timestamp: view_of_opt_time(m.creation_timestamp),
        deletion_timestamp: view_of_opt_time(m.deletion_timestamp),
        finalizers: m.finalizers.deep_view(),
    }
}

pub open spec fn view_of_source(s: ProtoApplicationSource) -> ApplicationSourceView {
    ApplicationSourceView {
        repo_url: text_or_empty(s.repo_url),
        path: text_or_empty(s.path),
        target_revision: text_or_empty(s.target_revision),
        chart: text_or_empty(s.chart),
        ref_: text_or_empty(s.ref_),
        name: text_or_empty(s.name),
        tag_prefix: text_or_empty(s.tag_prefix),
    }
}

pub open spec fn view_of_destination(d: ProtoApplicationDestination) -> ApplicationDestinationView {
    ApplicationDestinationView {
        server: text_or_empty(d.server),
        namespace: text_or_empty(d.namespace),
        name: text_or_empty(d.name),
    }
}

pub open spec fn view_of_app_spec(s: ProtoApplicationSpec) -> ApplicationSpecView {
    ApplicationSpecView {
        project: text_or_empty(s.project),
        source: match s.source {
            Some(src) => Some(view_of_source(src)),
            None => None,
        },
        destination: match s.destination {
            Some(d) => Some(view_of_destination(d)),
            None => None,
        },
        revision_history_limit: s.revision_history_limit,
        sources: s.sources@.map_values(|src: ProtoApplicationSource| view_of_source(src)),
    }
}

pub open spec fn view_of_summary(s: ProtoApplicationSummary) -> ApplicationSummaryView {
    ApplicationSummaryView {
        external_urls: s.external_ur_ls.deep_view(),
        images: s.images.deep_view(),
        is_app_of_apps: match s.is_app_of_apps {
            Some(b) => b,
            None => false,
        },
    }
}

/// The summary of a status that reports none: no URLs, no images, not an app of apps.
pub open spec fn empty_summary_view() -> ApplicationSummaryView {
    ApplicationSummaryView {
        external_urls: Seq::empty(),
        images: Seq::empty(),
        is_app_of_apps: false,
    }
}

pub open spec fn view_of_initiator(i: ProtoOperationInitiator) -> OperationInitiatorView {
    OperationInitiatorView {
        username: text_or_empty(i.username),
        automated: match i.automated {
            Some(b) => b,
            None => false,
        },
    }
}

pub open spec fn view_of_info(i: ProtoInfo) -> ApplicationInfoView {
    ApplicationInfoView { name: text_or_empty(i.name), value: text_or_empty(i.value) }
}

pub open spec fn view_of_operation(o: ProtoOperation) -> ApplicationOperationView {
    ApplicationOperationView {
        initiated_by: match o.initiated_by {
            Some(i) => Some(view_of_initiator(i)),
            None => None,
        },
        info: o.info@.map_values(|i: ProtoInfo| view_of_info(i)),
        retry_limit: match o.retry {
            Some(r) => r.limit,
            None => None,
        },
        retry_refresh: match o.retry {
            Some(r) => r.refresh,
            None => None,
        },
    }
}

pub open spec fn view_of_operation_state(s: ProtoOperationState) -> ApplicationOperationStateView {
    ApplicationOperationStateView {
        phase: text_or_empty(s.phase),
        message: text_or_empty(s.message),
        retry_count: s.retry_count,
        started_at: view_of_opt_time(s.started_at),
        finished_at: view_of_opt_time(s.finished_at),
        operation: match s.operation {
            Some(o) => Some(view_of_operation(o)),
            None => None,
        },
    }
}

pub open spec fn view_of_condition(c: ProtoApplicationCondition) -> ApplicationConditionView {
    ApplicationConditionView {
        type_: text_or_empty(c.type_),
        message: text_or_empty(c.message),
        last_transition_time: view_of_opt_time(c.last_transition_time),
    }
}

pub open spec fn view_of_status(s: ProtoApplicationStatus) -> ApplicationStatusView {
    ApplicationStatusView {
        sync: sync_of_status(s),
        health: health_of_status(s),
        conditions: s.conditions@.map_values(|c: ProtoApplicationCondition| view_of_condition(c)),
        reconciled_at: view_of_opt_time(s.reconciled_at),
        observed_at: view_of_opt_time(s.observed_at),
        source_type: text_or_empty(s.source_type),
        summary: match s.summary {
            Some(sm) => view_of_summary(sm),
            None => empty_summary_view(),
        },
        source_types: s.source_types.deep_view(),
        controller_namespace: text_or_empty(s.controller_namespace),
        resource_health_source: text_or_empty(s.resource_health_source),
        operation_state: match s.operation_state {
            Some(st) => Some(view_of_operation_state(st)),
            None => None,
        },
    }
}

/// The source of an application's spec, where it has a spec and the spec a source.
pub open spec fn primary_source(app: ProtoApplication) -> Option<ProtoApplicationSource> {
    match app.spec {
        Some(s) => s.source,
        None => None,
    }
}

/// The summary of an application's status, where it has a status and the status a summary.
pub open spec fn reported_summary(app: ProtoApplication) -> Option<ProtoApplicationSummary> {
    match app.status {
        Some(s) => s.summary,
        None => None,
    }
}

/// A text field of the metadata, empty where there is no metadata.
pub open spec fn metadata_text(app: ProtoApplication, field: spec_fn(ProtoObjectMeta) -> Option<String>) -> Seq<char> {
    match app.metadata {
        Some(m) => text_or_empty(field(m)),
        None => Seq::empty(),
    }
}

/// A text field of the status, empty where there is no status.
pub open spec fn status_text(app: ProtoApplication, field: spec_fn(ProtoApplicationStatus) -> Option<String>) -> Seq<char> {
    match app.status {
        Some(s) => text_or_empty(field(s)),
        None => Seq::empty(),
    }
}

/// A text field of the primary source, empty where there is none.
pub open spec fn source_text(app: ProtoApplication, field: spec_fn(ProtoApplicationSource) -> Option<String>) -> Seq<char> {
    match primary_source(app) {
        Some(src) => text_or_empty(field(src)),
        None => Seq::empty(),
    }
}

pub open spec fn view_of_application(app: ProtoApplication) -> ApplicationView {
    ApplicationView {
        metadata: match app.metadata {
            Some(m) => view_of_metadata(m),
            None => empty_metadata_view(),
        },
        spec: match app.spec {
            Some(s) => Some(view_of_app_spec(s)),
            None => None,
        },
        status: match app.status {
            Some(s) => Some(view_of_status(s)),
            None => None,
        },
        operation: match app.operation {
            Some(o) => Some(view_of_operation(o)),
            None => None,
        },
        name: metadata_text(app, |m: ProtoObjectMeta| m.name),
        namespace: metadata_text(app, |m: ProtoObjectMeta| m.namespace),
        self_link: metadata_text(app, |m: ProtoObjectMeta| m.self_link),
        uid: metadata_text(app, |m: ProtoObjectMeta| m.uid),
        project: match app.spec {
            Some(s) => text_or_empty(s.project),
            None => Seq::empty(),
        },
        health: health_of(app.status),
        sync: sync_of(app.status),
        repo_url: source_text(app, |s: ProtoApplicationSource| s.repo_url),
        path: source_text(app, |s: ProtoApplicationSource| s.path),
        target_revision: source_text(app, |s: ProtoApplicationSource| s.target_revision),
        image: match reported_summary(app) {
            Some(sm) => if sm.images@.len() > 0 {
                Some(sm.images@[0]@)
            } else {
                None
            },
            None => None,
        },
        external_urls: match reported_summary(app) {
            Some(sm) => sm.external_ur_ls.deep_view(),
            None => Seq::empty(),
        },
        source_types: match app.status {
            Some(s) => s.source_types.deep_view(),
            None => Seq::empty(),
        },
        is_app_of_apps: match reported_summary(app) {
            Some(sm) => match sm.is_app_of_apps {
                Some(b) => b,
                None => false,
            },
            None => false,
        },
        source_type: status_text(app, |s: ProtoApplicationStatus| s.source_type),
        controller_namespace: status_text(app, |s: ProtoApplicationStatus| s.controller_namespace),
        resource_health_source: status_text(app, |s: ProtoApplicationStatus| s.resource_health_source),
        revision_history_limit: match app.spec {
            Some(s) => s.revision_history_limit,
            None => None,
        },
    }
}

} // verus!
