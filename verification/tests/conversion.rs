use argocd_client::client::ArgoClient;
use argocd_client::models::{
    Application, ApplicationMetadata, ApplicationSummary, HealthStatus, KubeTime, SyncStatus,
};
use argocd_client::proto::{
    ProtoApplication, ProtoApplicationCondition, ProtoApplicationDestination,
    ProtoApplicationSource, ProtoApplicationSpec, ProtoApplicationStatus, ProtoApplicationSummary,
    ProtoHealthStatus, ProtoInfo, ProtoObjectMeta, ProtoOperation, ProtoOperationInitiator,
    ProtoOperationState, ProtoRetryStrategy, ProtoSyncStatus, ProtoTime,
};
use std::collections::HashMap;

fn s(t: &str) -> Option<String> {
    Some(t.to_string())
}

fn status_with(health: Option<&str>, sync: Option<&str>) -> ProtoApplicationStatus {
    ProtoApplicationStatus {
        health: Some(ProtoHealthStatus { status: health.map(|h| h.to_string()) }),
        sync: Some(ProtoSyncStatus { status: sync.map(|h| h.to_string()) }),
        ..Default::default()
    }
}

fn full_application() -> ProtoApplication {
    let mut labels = HashMap::new();
    labels.insert("team".to_string(), "platform".to_string());
    ProtoApplication {
        metadata: Some(ProtoObjectMeta {
            name: s("guestbook"),
            namespace: s("argocd"),
            self_link: s("/apis/guestbook"),
            uid: s("1234-abcd"),
            labels,
            resource_version: s("42"),
            generation: Some(7),
            creation_timestamp: Some(ProtoTime { seconds: Some(1700000000), nanos: Some(5) }),
            finalizers: vec!["resources-finalizer.argocd.argoproj.io".to_string()],
            ..Default::default()
        }),
        spec: Some(ProtoApplicationSpec {
            project: s("default"),
            source: Some(ProtoApplicationSource {
                repo_url: s("https://github.com/argoproj/argocd-example-apps"),
                path: s("guestbook"),
                target_revision: s("HEAD"),
                ..Default::default()
            }),
            destination: Some(ProtoApplicationDestination {
                server: s("https://kubernetes.default.svc"),
                namespace: s("guestbook"),
                name: None,
            }),
            revision_history_limit: Some(10),
            sources: vec![
                ProtoApplicationSource { repo_url: s("repo-a"), chart: s("chart-a"), ..Default::default() },
                ProtoApplicationSource { repo_url: s("repo-b"), ref_: s("values"), ..Default::default() },
            ],
        }),
        status: Some(ProtoApplicationStatus {
            health: Some(ProtoHealthStatus { status: s("Healthy") }),
            sync: Some(ProtoSyncStatus { status: s("OutOfSync") }),
            conditions: vec![ProtoApplicationCondition {
                type_: s("SyncError"),
                message: s("boom"),
                last_transition_time: Some(ProtoTime { seconds: Some(10), nanos: None }),
            }],
            source_type: s("Kustomize"),
            summary: Some(ProtoApplicationSummary {
                external_ur_ls: vec!["https://guestbook.example.com".to_string()],
                images: vec!["nginx:1.25".to_string(), "redis:7".to_string()],
                is_app_of_apps: Some(true),
            }),
            source_types: vec!["Kustomize".to_string(), "Helm".to_string()],
            controller_namespace: s("argocd"),
            resource_health_source: s("appTree"),
            ..Default::default()
        }),
        operation: Some(ProtoOperation {
            initiated_by: Some(ProtoOperationInitiator { username: s("admin"), automated: None }),
            info: vec![ProtoInfo { name: s("reason"), value: s("manual") }],
            retry: Some(ProtoRetryStrategy { limit: Some(5), refresh: Some(true) }),
        }),
    }
}

#[test]
fn health_names_are_recognised() {
    let cases = [
        ("Healthy", HealthStatus::Healthy),
        ("Degraded", HealthStatus::Degraded),
        ("Progressing", HealthStatus::Progressing),
        ("Suspended", HealthStatus::Suspended),
        ("Missing", HealthStatus::Missing),
        ("Unknown", HealthStatus::Unknown),
    ];
    for (name, expected) in cases {
        let st = status_with(Some(name), None);
        assert_eq!(ArgoClient::map_health(Some(&st)), expected);
    }
}

#[test]
fn unrecognised_health_is_unknown() {
    for name in ["healthy", "HEALTHY", "", "Healthy ", "Broken"] {
        let st = status_with(Some(name), None);
        assert_eq!(ArgoClient::map_health(Some(&st)), HealthStatus::Unknown);
    }
    assert_eq!(ArgoClient::map_health(None), HealthStatus::Unknown);
    assert_eq!(ArgoClient::map_health(Some(&status_with(None, None))), HealthStatus::Unknown);
    assert_eq!(
        ArgoClient::map_health(Some(&ProtoApplicationStatus::default())),
        HealthStatus::Unknown
    );
}

#[test]
fn sync_names_are_recognised() {
    let st = status_with(None, Some("Synced"));
    assert_eq!(ArgoClient::map_sync(Some(&st)), SyncStatus::Synced);
    let st = status_with(None, Some("OutOfSync"));
    assert_eq!(ArgoClient::map_sync(Some(&st)), SyncStatus::OutOfSync);
    let st = status_with(None, Some("outofsync"));
    assert_eq!(ArgoClient::map_sync(Some(&st)), SyncStatus::Unknown);
    assert_eq!(ArgoClient::map_sync(None), SyncStatus::Unknown);
    assert_eq!(ArgoClient::map_sync(Some(&status_with(Some("Healthy"), None))), SyncStatus::Unknown);
}

#[test]
fn status_names_print_and_read_back() {
    let all = [
        HealthStatus::Healthy,
        HealthStatus::Degraded,
        HealthStatus::Progressing,
        HealthStatus::Suspended,
        HealthStatus::Missing,
        HealthStatus::Unknown,
    ];
    let texts = ["Healthy", "Degraded", "Progressing", "Suspended", "Missing", "Unknown"];
    for (h, t) in all.iter().zip(texts.iter()) {
        assert_eq!(h.to_string(), *t);
        let st = status_with(Some(&h.to_string()), None);
        assert_eq!(ArgoClient::map_health(Some(&st)), *h);
    }
    for (sy, t) in [
        (SyncStatus::Synced, "Synced"),
        (SyncStatus::OutOfSync, "OutOfSync"),
        (SyncStatus::Unknown, "Unknown"),
    ] {
        assert_eq!(sy.to_string(), t);
        let st = status_with(None, Some(&sy.to_string()));
        assert_eq!(ArgoClient::map_sync(Some(&st)), sy);
    }
}

#[test]
fn empty_application_reads_as_blank() {
    let app = ArgoClient::map_application(&ProtoApplication::default());
    assert_eq!(app.metadata, ArgoClient::empty_metadata());
    assert!(app.spec.is_none());
    assert!(app.status.is_none());
    assert!(app.operation.is_none());
    assert_eq!(app.name, "");
    assert_eq!(app.namespace, "");
    assert_eq!(app.self_link, "");
    assert_eq!(app.uid, "");
    assert_eq!(app.project, "");
    assert_eq!(app.health, HealthStatus::Unknown);
    assert_eq!(app.sync, SyncStatus::Unknown);
    assert_eq!(app.repo_url, "");
    assert_eq!(app.path, "");
    assert_eq!(app.target_revision, "");
    assert_eq!(app.image, None);
    assert!(app.external_urls.is_empty());
    assert!(app.source_types.is_empty());
    assert!(!app.is_app_of_apps);
    assert_eq!(app.source_type, "");
    assert_eq!(app.controller_namespace, "");
    assert_eq!(app.resource_health_source, "");
    assert_eq!(app.revision_history_limit, None);
}

#[test]
fn empty_metadata_has_nothing_set() {
    let m = ArgoClient::empty_metadata();
    assert_eq!(m.name, "");
    assert_eq!(m.namespace, "");
    assert_eq!(m.self_link, "");
    assert_eq!(m.uid, "");
    assert!(m.labels.is_empty());
    assert!(m.annotations.is_empty());
    assert_eq!(m.resource_version, "");
    assert_eq!(m.generation, 0);
    assert_eq!(m.creation_timestamp, None);
    assert_eq!(m.deletion_timestamp, None);
    assert!(m.finalizers.is_empty());
    assert_eq!(ArgoClient::map_metadata(&ProtoObjectMeta::default()), m);
}

#[test]
fn full_application_is_converted() {
    let app: Application = ArgoClient::map_application(&full_application());
    assert_eq!(app.name, "guestbook");
    assert_eq!(app.namespace, "argocd");
    assert_eq!(app.self_link, "/apis/guestbook");
    assert_eq!(app.uid, "1234-abcd");
    assert_eq!(app.project, "default");
    assert_eq!(app.health, HealthStatus::Healthy);
    assert_eq!(app.sync, SyncStatus::OutOfSync);
    assert_eq!(app.repo_url, "https://github.com/argoproj/argocd-example-apps");
    assert_eq!(app.path, "guestbook");
    assert_eq!(app.target_revision, "HEAD");
    assert_eq!(app.image, Some("nginx:1.25".to_string()));
    assert_eq!(app.external_urls, vec!["https://guestbook.example.com".to_string()]);
    assert_eq!(app.source_types, vec!["Kustomize".to_string(), "Helm".to_string()]);
    assert!(app.is_app_of_apps);
    assert_eq!(app.source_type, "Kustomize");
    assert_eq!(app.controller_namespace, "argocd");
    assert_eq!(app.resource_health_source, "appTree");
    assert_eq!(app.revision_history_limit, Some(10));

    let meta = &app.metadata;
    assert_eq!(meta.labels.get("team").map(|v| v.as_str()), Some("platform"));
    assert_eq!(meta.resource_version, "42");
    assert_eq!(meta.generation, 7);
    assert_eq!(meta.creation_timestamp, Some(KubeTime { seconds: Some(1700000000), nanos: Some(5) }));
    assert_eq!(meta.finalizers, vec!["resources-finalizer.argocd.argoproj.io".to_string()]);

    let spec = app.spec.as_ref().unwrap();
    assert_eq!(spec.sources.len(), 2);
    assert_eq!(spec.sources[0].repo_url, "repo-a");
    assert_eq!(spec.sources[0].chart, "chart-a");
    assert_eq!(spec.sources[1].repo_url, "repo-b");
    assert_eq!(spec.sources[1].ref_, "values");
    assert_eq!(spec.sources[1].chart, "");
    let dest = spec.destination.as_ref().unwrap();
    assert_eq!(dest.server, "https://kubernetes.default.svc");
    assert_eq!(dest.name, "");

    let status = app.status.as_ref().unwrap();
    assert_eq!(status.health, app.health);
    assert_eq!(status.sync, app.sync);
    assert_eq!(status.conditions.len(), 1);
    assert_eq!(status.conditions[0].type_, "SyncError");
    assert_eq!(status.conditions[0].last_transition_time, Some(KubeTime { seconds: Some(10), nanos: None }));
    assert_eq!(status.summary.images, vec!["nginx:1.25".to_string(), "redis:7".to_string()]);

    let op = app.operation.as_ref().unwrap();
    let init = op.initiated_by.as_ref().unwrap();
    assert_eq!(init.username, "admin");
    assert!(!init.automated);
    assert_eq!(op.info[0].name, "reason");
    assert_eq!(op.info[0].value, "manual");
    assert_eq!(op.retry_limit, Some(5));
    assert_eq!(op.retry_refresh, Some(true));
}

#[test]
fn lifted_fields_repeat_nested_ones() {
    let app = ArgoClient::map_application(&full_application());
    assert_eq!(app.name, app.metadata.name);
    assert_eq!(app.namespace, app.metadata.namespace);
    assert_eq!(app.uid, app.metadata.uid);
    let spec = app.spec.as_ref().unwrap();
    assert_eq!(app.project, spec.project);
    assert_eq!(app.repo_url, spec.source.as_ref().unwrap().repo_url);
    assert_eq!(app.revision_history_limit, spec.revision_history_limit);
    let status = app.status.as_ref().unwrap();
    assert_eq!(app.image.as_ref(), status.summary.images.first());
    assert_eq!(app.external_urls, status.summary.external_urls);
    assert_eq!(app.is_app_of_apps, status.summary.is_app_of_apps);
    assert_eq!(app.source_types, status.source_types);
    assert_eq!(app.controller_namespace, status.controller_namespace);
}

#[test]
fn status_without_summary_has_empty_summary() {
    let st = ProtoApplicationStatus { source_type: s("Helm"), ..Default::default() };
    let status = ArgoClient::map_status(&st);
    assert_eq!(
        status.summary,
        ApplicationSummary { external_urls: vec![], images: vec![], is_app_of_apps: false }
    );
    assert_eq!(status.source_type, "Helm");
    assert_eq!(status.health, HealthStatus::Unknown);
    assert_eq!(status.sync, SyncStatus::Unknown);
    assert_eq!(ArgoClient::map_summary(&ProtoApplicationSummary::default()), status.summary);
}

#[test]
fn image_is_absent_without_images() {
    let mut proto = full_application();
    proto.status.as_mut().unwrap().summary.as_mut().unwrap().images.clear();
    let app = ArgoClient::map_application(&proto);
    assert_eq!(app.image, None);
    let mut proto = full_application();
    proto.status.as_mut().unwrap().summary = None;
    let app = ArgoClient::map_application(&proto);
    assert_eq!(app.image, None);
    assert!(app.external_urls.is_empty());
    assert!(!app.is_app_of_apps);
    assert_eq!(app.source_type, "Kustomize");
}

#[test]
fn missing_source_leaves_source_fields_empty() {
    let mut proto = full_application();
    proto.spec.as_mut().unwrap().source = None;
    let app = ArgoClient::map_application(&proto);
    assert_eq!(app.repo_url, "");
    assert_eq!(app.path, "");
    assert_eq!(app.target_revision, "");
    assert_eq!(app.project, "default");
}

#[test]
fn list_keeps_order_and_count() {
    let mut a = ProtoApplication::default();
    a.metadata = Some(ProtoObjectMeta { name: s("first"), ..Default::default() });
    let mut b = ProtoApplication::default();
    b.metadata = Some(ProtoObjectMeta { name: s("second"), ..Default::default() });
    let apps = ArgoClient::map_application_list(&vec![a, b, full_application()]);
    assert_eq!(apps.len(), 3);
    assert_eq!(apps[0].name, "first");
    assert_eq!(apps[1].name, "second");
    assert_eq!(apps[2].name, "guestbook");
    assert!(ArgoClient::map_application_list(&vec![]).is_empty());
}

#[test]
fn operation_state_is_converted() {
    let st = ProtoOperationState {
        phase: s("Running"),
        message: None,
        retry_count: Some(2),
        started_at: Some(ProtoTime { seconds: Some(1), nanos: Some(2) }),
        finished_at: None,
        operation: Some(ProtoOperation::default()),
    };
    let out = ArgoClient::map_operation_state(&st);
    assert_eq!(out.phase, "Running");
    assert_eq!(out.message, "");
    assert_eq!(out.retry_count, Some(2));
    assert_eq!(out.started_at, Some(KubeTime { seconds: Some(1), nanos: Some(2) }));
    assert_eq!(out.finished_at, None);
    let op = out.operation.unwrap();
    assert!(op.initiated_by.is_none());
    assert!(op.info.is_empty());
    assert_eq!(op.retry_limit, None);
    assert_eq!(op.retry_refresh, None);
}

#[test]
fn initiator_and_time_are_converted() {
    let i = ArgoClient::map_initiator(&ProtoOperationInitiator { username: None, automated: Some(true) });
    assert_eq!(i.username, "");
    assert!(i.automated);
    let t = ArgoClient::map_time(&ProtoTime { seconds: Some(-5), nanos: Some(999) });
    assert_eq!(t, KubeTime { seconds: Some(-5), nanos: Some(999) });
    let d = ArgoClient::map_destination(&ProtoApplicationDestination::default());
    assert_eq!((d.server.as_str(), d.namespace.as_str(), d.name.as_str()), ("", "", ""));
    let c = ArgoClient::map_condition(&ProtoApplicationCondition::default());
    assert_eq!(c.type_, "");
    assert_eq!(c.last_transition_time, None);
    let s0 = ArgoClient::map_spec(&ProtoApplicationSpec::default());
    assert_eq!(s0.project, "");
    assert!(s0.sources.is_empty());
    assert!(s0.source.is_none());
}

#[test]
fn metadata_keeps_annotations() {
    let mut annotations = HashMap::new();
    annotations.insert("a".to_string(), "1".to_string());
    annotations.insert("b".to_string(), "2".to_string());
    let meta = ProtoObjectMeta { annotations: annotations.clone(), ..Default::default() };
    let m: ApplicationMetadata = ArgoClient::map_metadata(&meta);
    assert_eq!(m.annotations, annotations);
    assert!(m.labels.is_empty());
}
