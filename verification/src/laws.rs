//! Properties that hold of the conversions as a whole.
use crate::mapping::{
    empty_metadata_view, empty_summary_view, health_from_name, sync_from_name, view_of_application,
    view_of_metadata, view_of_summary,
};
use crate::models::{health_name, sync_name, ApplicationView, HealthStatus, SyncStatus};
use crate::proto::{ProtoApplication, ProtoApplicationSummary, ProtoObjectMeta};
use vstd::prelude::*;

verus! {

/// The fields that an application lifts to its top level agree with the
/// nested metadata, spec and status they come from; where a part is missing,
/// the lifted fields take the values that the missing part stands for.
pub open spec fn lifted_fields_agree(v: ApplicationView) -> bool {
    &&& v.name == v.metadata.name
    &&& v.namespace == v.metadata.namespace
    &&& v.self_link == v.metadata.self_link
    &&& v.uid == v.metadata.uid
    &&& v.project == (match v.spec {
        Some(s) => s.project,
        None => Seq::empty(),
    })
    &&& v.revision_history_limit == (match v.spec {
        Some(s) => s.revision_history_limit,
        None => None,
    })
    &&& v.repo_url == (match v.spec {
        Some(s) => match s.source {
            Some(src) => src.repo_url,
            None => Seq::empty(),
        },
        None => Seq::empty(),
    })
    &&& v.path == (match v.spec {
        Some(s) => match s.source {
            Some(src) => src.path,
            None => Seq::empty(),
        },
        None => Seq::empty(),
    })
    &&& v.target_revision == (match v.spec {
        Some(s) => match s.source {
            Some(src) => src.target_revision,
            None => Seq::empty(),
        },
        None => Seq::empty(),
    })
    &&& v.health == (match v.status {
        Some(s) => s.health,
        None => HealthStatus::Unknown,
    })
    &&& v.sync == (match v.status {
        Some(s) => s.sync,
        None => SyncStatus::Unknown,
    })
    &&& v.image == (match v.status {
        Some(s) => if s.summary.images.len() > 0 {
            Some(s.summary.images[0])
        } else {
            None
        },
        None => None,
    })
    &&& v.external_urls == (match v.status {
        Some(s) => s.summary.external_urls,
        None => Seq::empty(),
    })
    &&& v.is_app_of_apps == (match v.status {
        Some(s) => s.summary.is_app_of_apps,
        None => false,
    })
    &&& v.source_types == (match v.status {
        Some(s) => s.source_types,
        None => Seq::empty(),
    })
    &&& v.source_type == (match v.status {
        Some(s) => s.source_type,
        None => Seq::empty(),
    })
    &&& v.controller_namespace == (match v.status {
        Some(s) => s.controller_namespace,
        None => Seq::empty(),
    })
    &&& v.resource_health_source == (match v.status {
        Some(s) => s.resource_health_source,
        None => Seq::empty(),
    })
}

/// Every converted application is self-consistent: its top-level fields
/// repeat what its metadata, spec and status say.
pub proof fn lemma_lifted_fields_agree(app: ProtoApplication)
    ensures
        lifted_fields_agree(view_of_application(app)),
{
}

/// Printing a health state and reading the text back gives the same state.
pub proof fn lemma_health_name_round_trip(h: HealthStatus)
    ensures
        health_from_name(health_name(h)) == h,
{
    reveal_strlit("Healthy");
    reveal_strlit("Degraded");
    reveal_strlit("Progressing");
    reveal_strlit("Suspended");
    reveal_strlit("Missing");
    reveal_strlit("Unknown");
    assert("Degraded"@[0] != "Healthy"@[0]);
    assert("Progressing"@[0] != "Healthy"@[0]);
    assert("Suspended"@[0] != "Healthy"@[0]);
    assert("Missing"@[0] != "Healthy"@[0]);
    assert("Unknown"@[0] != "Healthy"@[0]);
    assert("Progressing"@[0] != "Degraded"@[0]);
    assert("Suspended"@[0] != "Degraded"@[0]);
    assert("Missing"@[0] != "Degraded"@[0]);
    assert("Unknown"@[0] != "Degraded"@[0]);
    assert("Suspended"@[0] != "Progressing"@[0]);
    assert("Missing"@[0] != "Progressing"@[0]);
    assert("Unknown"@[0] != "Progressing"@[0]);
    assert("Missing"@[0] != "Suspended"@[0]);
    assert("Unknown"@[0] != "Suspended"@[0]);
    assert("Unknown"@[0] != "Missing"@[0]);
}

/// A reported health name that is recognised prints back as the same text.
pub proof fn lemma_recognised_health_name_prints_back(s: Seq<char>)
    requires
        health_from_name(s) != HealthStatus::Unknown,
    ensures
        health_name(health_from_name(s)) == s,
{
    reveal_strlit("Healthy");
    reveal_strlit("Degraded");
    reveal_strlit("Progressing");
    reveal_strlit("Suspended");
    reveal_strlit("Missing");
    reveal_strlit("Unknown");
    assert("Degraded"@[0] != "Healthy"@[0]);
    assert("Progressing"@[0] != "Healthy"@[0]);
    assert("Suspended"@[0] != "Healthy"@[0]);
    assert("Missing"@[0] != "Healthy"@[0]);
    assert("Unknown"@[0] != "Healthy"@[0]);
    assert("Progressing"@[0] != "Degraded"@[0]);
    assert("Suspended"@[0] != "Degraded"@[0]);
    assert("Missing"@[0] != "Degraded"@[0]);
    assert("Unknown"@[0] != "Degraded"@[0]);
    assert("Suspended"@[0] != "Progressing"@[0]);
    assert("Missing"@[0] != "Progressing"@[0]);
    assert("Unknown"@[0] != "Progressing"@[0]);
    assert("Missing"@[0] != "Suspended"@[0]);
    assert("Unknown"@[0] != "Suspended"@[0]);
    assert("Unknown"@[0] != "Missing"@[0]);
}

/// Printing a sync state and reading the text back gives the same state.
pub proof fn lemma_sync_name_round_trip(s: SyncStatus)
    ensures
        sync_from_name(sync_name(s)) == s,
{
    reveal_strlit("Synced");
    reveal_strlit("OutOfSync");
    reveal_strlit("Unknown");
    assert("OutOfSync"@[0] != "Synced"@[0]);
    assert("Unknown"@[0] != "Synced"@[0]);
    assert("Unknown"@[0] != "OutOfSync"@[0]);
}

/// A reported sync name that is recognised prints back as the same text.
pub proof fn lemma_recognised_sync_name_prints_back(s: Seq<char>)
    requires
        sync_from_name(s) != SyncStatus::Unknown,
    ensures
        sync_name(sync_from_name(s)) == s,
{
    reveal_strlit("Synced");
    reveal_strlit("OutOfSync");
    reveal_strlit("Unknown");
    assert("OutOfSync"@[0] != "Synced"@[0]);
    assert("Unknown"@[0] != "Synced"@[0]);
    assert("Unknown"@[0] != "OutOfSync"@[0]);
}

/// An application without metadata carries the same metadata as one whose
/// metadata has no field set.
pub proof fn lemma_missing_metadata_reads_as_unset(m: ProtoObjectMeta)
    requires
        m.name is None,
        m.namespace is None,
        m.self_link is None,
        m.uid is None,
        m.labels@ == Map::<String, String>::empty(),
        m.annotations@ == Map::<String, String>::empty(),
        m.resource_version is None,
        m.generation is None,
        m.creation_timestamp is None,
        m.deletion_timestamp is None,
        m.finalizers@.len() == 0,
    ensures
        view_of_metadata(m) == empty_metadata_view(),
{
    assert(m.finalizers.deep_view() =~= Seq::<Seq<char>>::empty());
}

/// A status without a summary carries the same summary as one whose summary
/// has no field set.
pub proof fn lemma_missing_summary_reads_as_unset(s: ProtoApplicationSummary)
    requires
        s.external_ur_ls@.len() == 0,
        s.images@.len() == 0,
        s.is_app_of_apps is None,
    ensures
        view_of_summary(s) == empty_summary_view(),
{
    assert(s.external_ur_ls.deep_view() =~= Seq::<Seq<char>>::empty());
    assert(s.images.deep_view() =~= Seq::<Seq<char>>::empty());
}

} // verus!
