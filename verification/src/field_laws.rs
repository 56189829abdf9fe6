//! What each conversion does with each reported field, stated directly in
//! terms of the message it reads: every converted field comes from the
//! field of the same name, an absent text reads as empty, an absent flag
//! as false, and lists keep their length and order.
use crate::mapping::{
    view_of_app_spec, view_of_application, view_of_condition, view_of_destination, view_of_info,
    view_of_initiator, view_of_metadata, view_of_operation, view_of_operation_state,
    view_of_source, view_of_status, view_of_summary, view_of_time,
};
use crate::models::{health_name, sync_name, HealthStatus, KubeTime, SyncStatus};
use crate::proto::{
    ProtoApplication, ProtoApplicationCondition, ProtoApplicationDestination,
    ProtoApplicationSource, ProtoApplicationSpec, ProtoApplicationStatus, ProtoApplicationSummary,
    ProtoInfo, ProtoObjectMeta, ProtoOperation, ProtoOperationInitiator, ProtoOperationState,
    ProtoTime,
};
use vstd::prelude::*;

verus! {

/// `out` is the reported text, or empty where none is reported.
pub open spec fn text_read_as(reported: Option<String>, out: Seq<char>) -> bool {
    match reported {
        Some(t) => out == t@,
        None => out.len() == 0,
    }
}

/// `out` is the reported flag, or false where none is reported.
pub open spec fn flag_read_as(reported: Option<bool>, out: bool) -> bool {
    out == (reported == Some(true))
}

/// `out` holds the reported seconds and nanoseconds, or is absent with the report.
pub open spec fn time_read_as(reported: Option<ProtoTime>, out: Option<KubeTime>) -> bool {
    match reported {
        Some(t) => out matches Some(k) && k.seconds == t.seconds && k.nanos == t.nanos,
        None => out is None,
    }
}

/// `out` holds the reported strings, in order.
pub open spec fn texts_read_as(reported: Vec<String>, out: Seq<Seq<char>>) -> bool {
    &&& out.len() == reported@.len()
    &&& forall|i: int| 0 <= i < out.len() ==> #[trigger] out[i] == reported@[i]@
}

/// The health name a status reports, if any.
pub open spec fn reported_health(s: ProtoApplicationStatus) -> Option<Seq<char>> {
    match s.health {
        Some(h) => match h.status {
            Some(n) => Some(n@),
            None => None,
        },
        None => None,
    }
}

/// The sync name a status reports, if any.
pub open spec fn reported_sync(s: ProtoApplicationStatus) -> Option<Seq<char>> {
    match s.sync {
        Some(st) => match st.status {
            Some(n) => Some(n@),
            None => None,
        },
        None => None,
    }
}

/// `out` is the health state whose name is reported; `Unknown` where no
/// name of a known state is reported.
pub open spec fn health_read_as(reported: Option<Seq<char>>, out: HealthStatus) -> bool {
    &&& (out == HealthStatus::Healthy <==> reported == Some(health_name(HealthStatus::Healthy)))
    &&& (out == HealthStatus::Degraded <==> reported == Some(health_name(HealthStatus::Degraded)))
    &&& (out == HealthStatus::Progressing <==> reported == Some(
        health_name(HealthStatus::Progressing),
    ))
    &&& (out == HealthStatus::Suspended <==> reported == Some(
        health_name(HealthStatus::Suspended),
    ))
    &&& (out == HealthStatus::Missing <==> reported == Some(health_name(HealthStatus::Missing)))
}

/// `out` is the sync state whose name is reported; `Unknown` where no name
/// of a known state is reported.
pub open spec fn sync_read_as(reported: Option<Seq<char>>, out: SyncStatus) -> bool {
    &&& (out == SyncStatus::Synced <==> reported == Some(sync_name(SyncStatus::Synced)))
    &&& (out == SyncStatus::OutOfSync <==> reported == Some(sync_name(SyncStatus::OutOfSync)))
}

/// A timestamp keeps its seconds and nanoseconds.
pub proof fn lemma_time_fields(t: ProtoTime)
    ensures
        view_of_time(t).seconds == t.seconds,
        view_of_time(t).nanos == t.nanos,
{
}

/// Each field of a source comes from the reported field of the same name.
pub proof fn lemma_source_fields(s: ProtoApplicationSource)
    ensures
        text_read_as(s.repo_url, view_of_source(s).repo_url),
        text_read_as(s.path, view_of_source(s).path),
        text_read_as(s.target_revision, view_of_source(s).target_revision),
        text_read_as(s.chart, view_of_source(s).chart),
        text_read_as(s.ref_, view_of_source(s).ref_),
        text_read_as(s.name, view_of_source(s).name),
        text_read_as(s.tag_prefix, view_of_source(s).tag_prefix),
{
}

/// Each field of a destination comes from the reported field of the same name.
pub proof fn lemma_destination_fields(d: ProtoApplicationDestination)
    ensures
        text_read_as(d.server, view_of_destination(d).server),
        text_read_as(d.namespace, view_of_destination(d).namespace),
        text_read_as(d.name, view_of_destination(d).name),
{
}

/// An info entry keeps its name and value.
pub proof fn lemma_info_fields(i: ProtoInfo)
    ensures
        text_read_as(i.name, view_of_info(i).name),
        text_read_as(i.value, view_of_info(i).value),
{
}

/// An initiator keeps its user name, and is automated only where it reports
/// being automated.
pub proof fn lemma_initiator_fields(i: ProtoOperationInitiator)
    ensures
        text_read_as(i.username, view_of_initiator(i).username),
        flag_read_as(i.automated, view_of_initiator(i).automated),
{
}

/// A condition keeps its type, its message and its transition time.
pub proof fn lemma_condition_fields(c: ProtoApplicationCondition)
    ensures
        text_read_as(c.type_, view_of_condition(c).type_),
        text_read_as(c.message, view_of_condition(c).message),
        time_read_as(c.last_transition_time, view_of_condition(c).last_transition_time),
{
}

/// A summary keeps its URLs and images in order, and marks an app of apps
/// only where the report says so.
pub proof fn lemma_summary_fields(s: ProtoApplicationSummary)
    ensures
        texts_read_as(s.external_ur_ls, view_of_summary(s).external_urls),
        texts_read_as(s.images, view_of_summary(s).images),
        flag_read_as(s.is_app_of_apps, view_of_summary(s).is_app_of_apps),
{
}

/// An operation keeps its initiator, its info entries in order, and the
/// limit and refresh flag of its retry strategy.
pub proof fn lemma_operation_fields(o: ProtoOperation)
    ensures
        match o.initiated_by {
            Some(i) => view_of_operation(o).initiated_by == Some(view_of_initiator(i)),
            None => view_of_operation(o).initiated_by is None,
        },
        view_of_operation(o).info.len() == o.info@.len(),
        forall|k: int|
            0 <= k < o.info@.len() ==> #[trigger] view_of_operation(o).info[k] == view_of_info(
                o.info@[k],
            ),
        view_of_operation(o).retry_limit == (match o.retry {
            Some(r) => r.limit,
            None => None,
        }),
        view_of_operation(o).retry_refresh == (match o.retry {
            Some(r) => r.refresh,
            None => None,
        }),
{
}

/// An operation state keeps its phase, message, retry count, times and operation.
pub proof fn lemma_operation_state_fields(s: ProtoOperationState)
    ensures
        text_read_as(s.phase, view_of_operation_state(s).phase),
        text_read_as(s.message, view_of_operation_state(s).message),
        view_of_operation_state(s).retry_count == s.retry_count,
        time_read_as(s.started_at, view_of_operation_state(s).started_at),
        time_read_as(s.finished_at, view_of_operation_state(s).finished_at),
        match s.operation {
            Some(o) => view_of_operation_state(s).operation == Some(view_of_operation(o)),
            None => view_of_operation_state(s).operation is None,
        },
{
}

/// Metadata keeps every reported field: texts, labels, annotations, the
/// generation (0 where none), each timestamp from its own field, and the
/// finalizers in order.
pub proof fn lemma_metadata_fields(m: ProtoObjectMeta)
    ensures
        text_read_as(m.name, view_of_metadata(m).name),
        text_read_as(m.namespace, view_of_metadata(m).namespace),
        text_read_as(m.self_link, view_of_metadata(m).self_link),
        text_read_as(m.uid, view_of_metadata(m).uid),
        view_of_metadata(m).labels == m.labels@,
        view_of_metadata(m).annotations == m.annotations@,
        text_read_as(m.resource_version, view_of_metadata(m).resource_version),
        view_of_metadata(m).generation == (match m.generation {
            Some(g) => g,
            None => 0,
        }),
        time_read_as(m.creation_timestamp, view_of_metadata(m).creation_timestamp),
        time_read_as(m.deletion_timestamp, view_of_metadata(m).deletion_timestamp),
        texts_read_as(m.finalizers, view_of_metadata(m).finalizers),
{
}

/// A spec keeps its project, its source and destination, its history limit,
/// and its sources in order.
pub proof fn lemma_spec_fields(s: ProtoApplicationSpec)
    ensures
        text_read_as(s.project, view_of_app_spec(s).project),
        match s.source {
            Some(src) => view_of_app_spec(s).source == Some(view_of_source(src)),
            None => view_of_app_spec(s).source is None,
        },
        match s.destination {
            Some(d) => view_of_app_spec(s).destination == Some(view_of_destination(d)),
            None => view_of_app_spec(s).destination is None,
        },
        view_of_app_spec(s).revision_history_limit == s.revision_history_limit,
        view_of_app_spec(s).sources.len() == s.sources@.len(),
        forall|k: int|
            0 <= k < s.sources@.len() ==> #[trigger] view_of_app_spec(s).sources[k]
                == view_of_source(s.sources@[k]),
{
}

/// A status reads its health and sync state from the names it reports,
/// keeps its conditions in order, its times, texts and source types, uses
/// the reported summary (an empty one where none is reported), and keeps
/// its operation state.
pub proof fn lemma_status_fields(s: ProtoApplicationStatus)
    ensures
        health_read_as(reported_health(s), view_of_status(s).health),
        sync_read_as(reported_sync(s), view_of_status(s).sync),
        view_of_status(s).conditions.len() == s.conditions@.len(),
        forall|k: int|
            0 <= k < s.conditions@.len() ==> #[trigger] view_of_status(s).conditions[k]
                == view_of_condition(s.conditions@[k]),
        time_read_as(s.reconciled_at, view_of_status(s).reconciled_at),
        time_read_as(s.observed_at, view_of_status(s).observed_at),
        text_read_as(s.source_type, view_of_status(s).source_type),
        match s.summary {
            Some(sm) => view_of_status(s).summary == view_of_summary(sm),
            None => {
                &&& view_of_status(s).summary.external_urls.len() == 0
                &&& view_of_status(s).summary.images.len() == 0
                &&& !view_of_status(s).summary.is_app_of_apps
            },
        },
        texts_read_as(s.source_types, view_of_status(s).source_types),
        text_read_as(s.controller_namespace, view_of_status(s).controller_namespace),
        text_read_as(s.resource_health_source, view_of_status(s).resource_health_source),
        match s.operation_state {
            Some(st) => view_of_status(s).operation_state == Some(view_of_operation_state(st)),
            None => view_of_status(s).operation_state is None,
        },
{
    reveal_strlit("Healthy");
    reveal_strlit("Degraded");
    reveal_strlit("Progressing");
    reveal_strlit("Suspended");
    reveal_strlit("Missing");
    reveal_strlit("Synced");
    reveal_strlit("OutOfSync");
    assert("Degraded"@[0] != "Healthy"@[0]);
    assert("Progressing"@[0] != "Healthy"@[0]);
    assert("Suspended"@[0] != "Healthy"@[0]);
    assert("Missing"@[0] != "Healthy"@[0]);
    assert("Progressing"@[0] != "Degraded"@[0]);
    assert("Suspended"@[0] != "Degraded"@[0]);
    assert("Missing"@[0] != "Degraded"@[0]);
    assert("Suspended"@[0] != "Progressing"@[0]);
    assert("Missing"@[0] != "Progressing"@[0]);
    assert("Missing"@[0] != "Suspended"@[0]);
    assert("OutOfSync"@[0] != "Synced"@[0]);
}

/// An application keeps its metadata (all fields empty where none is
/// reported), spec, status and operation, and lifts each top-level field
/// from the reported field it names.
pub proof fn lemma_application_fields(app: ProtoApplication)
    ensures
        match app.metadata {
            Some(m) => {
                &&& view_of_application(app).metadata == view_of_metadata(m)
                &&& text_read_as(m.name, view_of_application(app).name)
                &&& text_read_as(m.namespace, view_of_application(app).namespace)
                &&& text_read_as(m.self_link, view_of_application(app).self_link)
                &&& text_read_as(m.uid, view_of_application(app).uid)
            },
            None => {
                let md = view_of_application(app).metadata;
                &&& md.name.len() == 0 && md.namespace.len() == 0
                &&& md.self_link.len() == 0 && md.uid.len() == 0
                &&& md.labels.dom().len() == 0 && md.annotations.dom().len() == 0
                &&& md.resource_version.len() == 0 && md.generation == 0
                &&& md.creation_timestamp is None && md.deletion_timestamp is None
                &&& md.finalizers.len() == 0
                &&& view_of_application(app).name.len() == 0
                &&& view_of_application(app).namespace.len() == 0
                &&& view_of_application(app).self_link.len() == 0
                &&& view_of_application(app).uid.len() == 0
            },
        },
        match app.spec {
            Some(s) => {
                &&& view_of_application(app).spec == Some(view_of_app_spec(s))
                &&& text_read_as(s.project, view_of_application(app).project)
                &&& view_of_application(app).revision_history_limit == s.revision_history_limit
                &&& match s.source {
                    Some(src) => {
                        &&& text_read_as(src.repo_url, view_of_application(app).repo_url)
                        &&& text_read_as(src.path, view_of_application(app).path)
                        &&& text_read_as(
                            src.target_revision,
                            view_of_application(app).target_revision,
                        )
                    },
                    None => {
                        &&& view_of_application(app).repo_url.len() == 0
                        &&& view_of_application(app).path.len() == 0
                        &&& view_of_application(app).target_revision.len() == 0
                    },
                }
            },
            None => {
                &&& view_of_application(app).spec is None
                &&& view_of_application(app).project.len() == 0
                &&& view_of_application(app).revision_history_limit is None
                &&& view_of_application(app).repo_url.len() == 0
                &&& view_of_application(app).path.len() == 0
                &&& view_of_application(app).target_revision.len() == 0
            },
        },
        match app.status {
            Some(s) => {
                &&& view_of_application(app).status == Some(view_of_status(s))
                &&& health_read_as(reported_health(s), view_of_application(app).health)
                &&& sync_read_as(reported_sync(s), view_of_application(app).sync)
                &&& texts_read_as(s.source_types, view_of_application(app).source_types)
                &&& text_read_as(s.source_type, view_of_application(app).source_type)
                &&& text_read_as(
                    s.controller_namespace,
                    view_of_application(app).controller_namespace,
                )
                &&& text_read_as(
                    s.resource_health_source,
                    view_of_application(app).resource_health_source,
                )
                &&& match s.summary {
                    Some(sm) => {
                        &&& flag_read_as(sm.is_app_of_apps, view_of_application(app).is_app_of_apps)
                        &&& texts_read_as(sm.external_ur_ls, view_of_application(app).external_urls)
                        &&& view_of_application(app).image == (if sm.images@.len() > 0 {
                            Some(sm.images@[0]@)
                        } else {
                            None
                        })
                    },
                    None => {
                        &&& !view_of_application(app).is_app_of_apps
                        &&& view_of_application(app).external_urls.len() == 0
                        &&& view_of_application(app).image is None
                    },
                }
            },
            None => {
                &&& view_of_application(app).status is None
                &&& view_of_application(app).health == HealthStatus::Unknown
                &&& view_of_application(app).sync == SyncStatus::Unknown
                &&& view_of_application(app).source_types.len() == 0
                &&& view_of_application(app).source_type.len() == 0
                &&& view_of_application(app).controller_namespace.len() == 0
                &&& view_of_application(app).resource_health_source.len() == 0
                &&& !view_of_application(app).is_app_of_apps
                &&& view_of_application(app).external_urls.len() == 0
                &&& view_of_application(app).image is None
            },
        },
        match app.operation {
            Some(o) => view_of_application(app).operation == Some(view_of_operation(o)),
            None => view_of_application(app).operation is None,
        },
{
    match app.status {
        Some(s) => lemma_status_fields(s),
        None => {},
    }
    match app.metadata {
        Some(m) => {},
        None => {
            let md = view_of_application(app).metadata;
            assert(md.labels.dom() =~= Set::empty());
            assert(md.annotations.dom() =~= Set::empty());
        },
    }
}

} // verus!
