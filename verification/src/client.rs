//! The Argo CD client: its connection settings, the requests it sends, and
//! the conversion of every API message it receives into the model.
use crate::mapping::{
    empty_metadata_view, health_from_name, health_of_status, sync_from_name, sync_of_status,
    view_of_app_spec, view_of_application, view_of_condition, view_of_destination, view_of_info,
    view_of_initiator, view_of_metadata, view_of_operation, view_of_operation_state,
    view_of_source, view_of_status, view_of_summary, view_of_time,
};
use crate::models::{
    Application, ApplicationCondition, ApplicationDestination, ApplicationInfo,
    ApplicationMetadata, ApplicationOperation, ApplicationOperationState, ApplicationSource,
    ApplicationSpec, ApplicationStatus, ApplicationSummary, HealthStatus, KubeTime,
    OperationInitiator, SyncStatus,
};
use crate::proto::{
    ProtoApplication, ProtoApplicationCondition, ProtoApplicationDestination,
    ProtoApplicationQuery, ProtoApplicationSource, ProtoApplicationSpec, ProtoApplicationStatus,
    ProtoApplicationSummary, ProtoInfo, ProtoObjectMeta, ProtoOperation, ProtoOperationInitiator, ProtoOperationState,
    ProtoTime,
};
use crate::text::{copy_texts, owned_text, str_equals};
use std::collections::HashMap;
use vstd::prelude::*;
use vstd::string::StringExecFns;

verus! {

/// A client of one Argo CD server, authenticated by a bearer token.
pub struct ArgoClient {
    url: String,
    token: String,
}

/// The settings of a client, as plain text.
pub struct ArgoClientView {
    pub url: Seq<char>,
    pub token: Seq<char>,
}

impl View for ArgoClient {
    type V = ArgoClientView;

    closed spec fn view(&self) -> ArgoClientView {
        ArgoClientView { url: self.url@, token: self.token@ }
    }
}

/// The value of the `authorization` header that carries a token.
pub open spec fn bearer_value(token: Seq<char>) -> Seq<char> {
    "Bearer "@ + token
}

/// `anyhow::Error`, the error of the client's calls; opaque here.
#[verifier::external_type_specification]
#[verifier::external_body]
pub struct ExAnyhowError(anyhow::Error);

/// `rustls::crypto::CryptoProvider`, carried from its maker to its installation; opaque here.
#[verifier::external_type_specification]
#[verifier::external_body]
pub struct ExCryptoProvider(rustls::crypto::CryptoProvider);

/// Calls `rustls::crypto::ring::default_provider`, which builds the
/// crypto provider backed by *ring*; nothing is stated of the value.
#[verifier::external_body]
fn ring_default_provider() -> rustls::crypto::CryptoProvider {
    rustls::crypto::ring::default_provider()
}

/// Calls `CryptoProvider::install_default`, which makes the provider the
/// process-wide default unless one was installed before; which of the two
/// happened is not reported, as the client goes on either way.
#[verifier::external_body]
fn install_default_provider(provider: rustls::crypto::CryptoProvider) {
    let _ = provider.install_default();
}

impl ArgoClient {
    /// A client of the server at `url` that authenticates with `token`.
    /// It also installs the *ring* crypto provider as the process default
    /// for TLS, where no default was installed yet.
    pub fn new(url: &str, token: &str) -> (r: Result<ArgoClient, anyhow::Error>)
        ensures
            r is Ok,
            r matches Ok(c) ==> c@.url == url@ && c@.token == token@,
    {
        install_default_provider(ring_default_provider());
        Ok(ArgoClient { url: url.to_string(), token: token.to_string() })
    }

    /// The server's address.
    pub fn url(&self) -> (r: &str)
        ensures
            r@ == self@.url,
    {
        self.url.as_str()
    }

    /// The value of the `authorization` header of every request: `Bearer `
    /// followed by the token.
    pub fn authorization_value(&self) -> (r: String)
        ensures
            r@ == bearer_value(self@.token),
    {
        let mut value = String::from_str("Bearer ");
        value.append(self.token.as_str());
        value
    }

    /// The metadata entries that every request carries, in the order they
    /// are set: the bearer token, then the gRPC-web marker.
    pub fn request_headers(&self) -> (r: Vec<(String, String)>)
        ensures
            r.deep_view() == seq![
                ("authorization"@, bearer_value(self@.token)),
                ("x-grpc-web"@, "1"@),
            ],
    {
        let mut headers: Vec<(String, String)> = Vec::new();
        headers.push((String::from_str("authorization"), self.authorization_value()));
        headers.push((String::from_str("x-grpc-web"), String::from_str("1")));
        assert(headers.deep_view() =~= seq![
            ("authorization"@, bearer_value(self@.token)),
            ("x-grpc-web"@, "1"@),
        ]);
        headers
    }

    /// The query of a list request: every application, of every project.
    pub fn list_query() -> (r: ProtoApplicationQuery)
        ensures
            r.name is None,
            r.projects@.len() == 0,
    {
        ProtoApplicationQuery { name: None, projects: Vec::new() }
    }

    /// The query of a get request: the application called `name`.
    pub fn get_query(name: &str) -> (r: ProtoApplicationQuery)
        ensures
            r.name matches Some(n) && n@ == name@,
            r.projects@.len() == 0,
    {
        ProtoApplicationQuery { name: Some(name.to_string()), projects: Vec::new() }
    }

    /// A timestamp, field for field.
    pub fn map_time(time: &ProtoTime) -> (r: KubeTime)
        ensures
            r == view_of_time(*time),
    {
        KubeTime { seconds: time.seconds, nanos: time.nanos }
    }

    fn map_opt_time(time: &Option<ProtoTime>) -> (r: Option<KubeTime>)
        ensures
            r == crate::mapping::view_of_opt_time(*time),
    {
        match time {
            Some(t) => Some(Self::map_time(t)),
            None => None,
        }
    }

    /// The health that a status reports; `Unknown` without a status, without a
    /// reported health, or for a name that is not one of the known states.
    pub fn map_health(status: Option<&ProtoApplicationStatus>) -> (r: HealthStatus)
        ensures
            r == (match status {
                Some(s) => health_of_status(*s),
                None => HealthStatus::Unknown,
            }),
    {
        match status {
            Some(s) => match &s.health {
                Some(h) => match &h.status {
                    Some(name) => health_from_text(name.as_str()),
                    None => HealthStatus::Unknown,
                },
                None => HealthStatus::Unknown,
            },
            None => HealthStatus::Unknown,
        }
    }

    /// The sync state that a status reports; `Unknown` without a status, without
    /// a reported state, or for a name that is not one of the known states.
    pub fn map_sync(status: Option<&ProtoApplicationStatus>) -> (r: SyncStatus)
        ensures
            r == (match status {
                Some(s) => sync_of_status(*s),
                None => SyncStatus::Unknown,
            }),
    {
        match status {
            Some(s) => match &s.sync {
                Some(st) => match &st.status {
                    Some(name) => sync_from_text(name.as_str()),
                    None => SyncStatus::Unknown,
                },
                None => SyncStatus::Unknown,
            },
            None => SyncStatus::Unknown,
        }
    }

    /// A source, with every absent text read as empty.
    pub fn map_source(source: &ProtoApplicationSource) -> (r: ApplicationSource)
        ensures
            r.deep_view() == view_of_source(*source),
    {
        ApplicationSource {
            repo_url: owned_text(&source.repo_url),
            path: owned_text(&source.path),
            target_revision: owned_text(&source.target_revision),
            chart: owned_text(&source.chart),
            ref_: owned_text(&source.ref_),
            name: owned_text(&source.name),
            tag_prefix: owned_text(&source.tag_prefix),
        }
    }

    /// A destination, with every absent text read as empty.
    pub fn map_destination(destination: &ProtoApplicationDestination) -> (r: ApplicationDestination)
        ensures
            r.deep_view() == view_of_destination(*destination),
    {
        ApplicationDestination {
            server: owned_text(&destination.server),
            namespace: owned_text(&destination.namespace),
            name: owned_text(&destination.name),
        }
    }

    /// An info entry, with every absent text read as empty.
    pub fn map_info(info: &ProtoInfo) -> (r: ApplicationInfo)
        ensures
            r.deep_view() == view_of_info(*info),
    {
        ApplicationInfo { name: owned_text(&info.name), value: owned_text(&info.value) }
    }

    /// The initiator of an operation; an unreported `automated` reads as false.
    pub fn map_initiator(initiator: &ProtoOperationInitiator) -> (r: OperationInitiator)
        ensures
            r.deep_view() == view_of_initiator(*initiator),
    {
        OperationInitiator {
            username: owned_text(&initiator.username),
            automated: match initiator.automated {
                Some(b) => b,
                None => false,
            },
        }
    }

    /// A condition, with every absent text read as empty.
    pub fn map_condition(condition: &ProtoApplicationCondition) -> (r: ApplicationCondition)
        ensures
            r.deep_view() == view_of_condition(*condition),
    {
        ApplicationCondition {
            type_: owned_text(&condition.type_),
            message: owned_text(&condition.message),
            last_transition_time: Self::map_opt_time(&condition.last_transition_time),
        }
    }

    /// A summary; an unreported app-of-apps flag reads as false.
    pub fn map_summary(summary: &ProtoApplicationSummary) -> (r: ApplicationSummary)
        ensures
            r.deep_view() == view_of_summary(*summary),
    {
        ApplicationSummary {
            external_urls: copy_texts(&summary.external_ur_ls),
            images: copy_texts(&summary.images),
            is_app_of_apps: match summary.is_app_of_apps {
                Some(b) => b,
                None => false,
            },
        }
    }

    /// An operation, its info entries in order, and the limit and refresh flag
    /// of its retry strategy where it has one.
    pub fn map_operation(operation: &ProtoOperation) -> (r: ApplicationOperation)
        ensures
            r.deep_view() == view_of_operation(*operation),
    {
        let mut info: Vec<ApplicationInfo> = Vec::new();
        let n = operation.info.len();
        for i in 0..n
            invariant
                n == operation.info@.len(),
                info@.len() == i,
                forall|j: int|
                    0 <= j < i ==> #[trigger] info@[j].deep_view() == view_of_info(
                        operation.info@[j],
                    ),
        {
            info.push(Self::map_info(&operation.info[i]));
        }
        assert(info.deep_view() =~= operation.info@.map_values(|x: ProtoInfo| view_of_info(x)));
        ApplicationOperation {
            initiated_by: match &operation.initiated_by {
                Some(i) => Some(Self::map_initiator(i)),
                None => None,
            },
            info,
            retry_limit: match &operation.retry {
                Some(retry) => retry.limit,
                None => None,
            },
            retry_refresh: match &operation.retry {
                Some(retry) => retry.refresh,
                None => None,
            },
        }
    }

    /// The state of an operation, with every absent text read as empty.
    pub fn map_operation_state(state: &ProtoOperationState) -> (r: ApplicationOperationState)
        ensures
            r.deep_view() == view_of_operation_state(*state),
    {
        ApplicationOperationState {
            phase: owned_text(&state.phase),
            message: owned_text(&state.message),
            retry_count: state.retry_count,
            started_at: Self::map_opt_time(&state.started_at),
            finished_at: Self::map_opt_time(&state.finished_at),
            operation: match &state.operation {
                Some(o) => Some(Self::map_operation(o)),
                None => None,
            },
        }
    }

    /// A spec, with its sources converted in order.
    pub fn map_spec(spec: &ProtoApplicationSpec) -> (r: ApplicationSpec)
        ensures
            r.deep_view() == view_of_app_spec(*spec),
    {
        let mut sources: Vec<ApplicationSource> = Vec::new();
        let n = spec.sources.len();
        for i in 0..n
            invariant
                n == spec.sources@.len(),
                sources@.len() == i,
                forall|j: int|
                    0 <= j < i ==> #[trigger] sources@[j].deep_view() == view_of_source(
                        spec.sources@[j],
                    ),
        {
            sources.push(Self::map_source(&spec.sources[i]));
        }
        assert(sources.deep_view() =~= spec.sources@.map_values(
            |x: ProtoApplicationSource| view_of_source(x),
        ));
        ApplicationSpec {
            project: owned_text(&spec.project),
            source: match &spec.source {
                Some(s) => Some(Self::map_source(s)),
                None => None,
            },
            destination: match &spec.destination {
                Some(d) => Some(Self::map_destination(d)),
                None => None,
            },
            revision_history_limit: spec.revision_history_limit,
            sources,
        }
    }

    /// The metadata of an application that reports none: every field empty.
    pub fn empty_metadata() -> (r: ApplicationMetadata)
        ensures
            r.deep_view() == empty_metadata_view(),
    {
        let finalizers: Vec<String> = Vec::new();
        let r = ApplicationMetadata {
            name: String::new(),
            namespace: String::new(),
            self_link: String::new(),
            uid: String::new(),
            labels: HashMap::new(),
            annotations: HashMap::new(),
            resource_version: String::new(),
            generation: 0,
            creation_timestamp: None,
            deletion_timestamp: None,
            finalizers,
        };
        assert(r.finalizers.deep_view() =~= Seq::<Seq<char>>::empty());
        r
    }

    /// Metadata, with absent texts read as empty and an absent generation as 0.
    pub fn map_metadata(meta: &ProtoObjectMeta) -> (r: ApplicationMetadata)
        ensures
            r.deep_view() == view_of_metadata(*meta),
    {
        ApplicationMetadata {
            name: owned_text(&meta.name),
            namespace: owned_text(&meta.namespace),
            self_link: owned_text(&meta.self_link),
            uid: owned_text(&meta.uid),
            labels: meta.labels.clone(),
            annotations: meta.annotations.clone(),
            resource_version: owned_text(&meta.resource_version),
            generation: match meta.generation {
                Some(g) => g,
                None => 0,
            },
            creation_timestamp: Self::map_opt_time(&meta.creation_timestamp),
            deletion_timestamp: Self::map_opt_time(&meta.deletion_timestamp),
            finalizers: copy_texts(&meta.finalizers),
        }
    }

    /// A status: its health and sync state read from their names, conditions
    /// in order, and an empty summary where none is reported.
    pub fn map_status(status: &ProtoApplicationStatus) -> (r: ApplicationStatus)
        ensures
            r.deep_view() == view_of_status(*status),
    {
        let mut conditions: Vec<ApplicationCondition> = Vec::new();
        let n = status.conditions.len();
        for i in 0..n
            invariant
                n == status.conditions@.len(),
                conditions@.len() == i,
                forall|j: int|
                    0 <= j < i ==> #[trigger] conditions@[j].deep_view() == view_of_condition(
                        status.conditions@[j],
                    ),
        {
            conditions.push(Self::map_condition(&status.conditions[i]));
        }
        assert(conditions.deep_view() =~= status.conditions@.map_values(
            |c: ProtoApplicationCondition| view_of_condition(c),
        ));
        let summary = match &status.summary {
            Some(s) => Self::map_summary(s),
            None => {
                let s = ApplicationSummary {
                    external_urls: Vec::new(),
                    images: Vec::new(),
                    is_app_of_apps: false,
                };
                assert(s.external_urls.deep_view() =~= Seq::<Seq<char>>::empty());
                assert(s.images.deep_view() =~= Seq::<Seq<char>>::empty());
                s
            },
        };
        ApplicationStatus {
            sync: Self::map_sync(Some(status)),
            health: Self::map_health(Some(status)),
            conditions,
            reconciled_at: Self::map_opt_time(&status.reconciled_at),
            observed_at: Self::map_opt_time(&status.observed_at),
            source_type: owned_text(&status.source_type),
            summary,
            source_types: copy_texts(&status.source_types),
            controller_namespace: owned_text(&status.controller_namespace),
            resource_health_source: owned_text(&status.resource_health_source),
            operation_state: match &status.operation_state {
                Some(st) => Some(Self::map_operation_state(st)),
                None => None,
            },
        }
    }

    /// An application, with its most-read fields lifted out of the metadata,
    /// spec and status; see `laws::lemma_lifted_fields_agree`.
    pub fn map_application(app: &ProtoApplication) -> (r: Application)
        ensures
            r.deep_view() == view_of_application(*app),
    {
        let status = app.status.as_ref();
        let metadata = match &app.metadata {
            Some(m) => Self::map_metadata(m),
            None => Self::empty_metadata(),
        };
        let (name, namespace, self_link, uid) = match &app.metadata {
            Some(m) => (
                owned_text(&m.name),
                owned_text(&m.namespace),
                owned_text(&m.self_link),
                owned_text(&m.uid),
            ),
            None => (String::new(), String::new(), String::new(), String::new()),
        };
        let (project, revision_history_limit) = match &app.spec {
            Some(s) => (owned_text(&s.project), s.revision_history_limit),
            None => (String::new(), None),
        };
        let source = match &app.spec {
            Some(s) => s.source.as_ref(),
            None => None,
        };
        let (repo_url, path, target_revision) = match source {
            Some(src) => (
                owned_text(&src.repo_url),
                owned_text(&src.path),
                owned_text(&src.target_revision),
            ),
            None => (String::new(), String::new(), String::new()),
        };
        let summary = match status {
            Some(s) => s.summary.as_ref(),
            None => None,
        };
        let (image, external_urls, is_app_of_apps) = match summary {
            Some(sm) => {
                let image = if sm.images.len() > 0 {
                    Some(sm.images[0].clone())
                } else {
                    None
                };
                let flag = match sm.is_app_of_apps {
                    Some(b) => b,
                    None => false,
                };
                (image, copy_texts(&sm.external_ur_ls), flag)
            },
            None => {
                let urls: Vec<String> = Vec::new();
                assert(urls.deep_view() =~= Seq::<Seq<char>>::empty());
                (None, urls, false)
            },
        };
        let (source_types, source_type, controller_namespace, resource_health_source) =
            match status {
            Some(s) => (
                copy_texts(&s.source_types),
                owned_text(&s.source_type),
                owned_text(&s.controller_namespace),
                owned_text(&s.resource_health_source),
            ),
            None => {
                let types: Vec<String> = Vec::new();
                assert(types.deep_view() =~= Seq::<Seq<char>>::empty());
                (types, String::new(), String::new(), String::new())
            },
        };
        Application {
            metadata,
            spec: match &app.spec {
                Some(s) => Some(Self::map_spec(s)),
                None => None,
            },
            status: match status {
                Some(s) => Some(Self::map_status(s)),
                None => None,
            },
            operation: match &app.operation {
                Some(o) => Some(Self::map_operation(o)),
                None => None,
            },
            name,
            namespace,
            self_link,
            uid,
            project,
            health: Self::map_health(status),
            sync: Self::map_sync(status),
            repo_url,
            path,
            target_revision,
            image,
            external_urls,
            source_types,
            is_app_of_apps,
            source_type,
            controller_namespace,
            resource_health_source,
            revision_history_limit,
        }
    }

    /// The applications of a list answer, each converted, in the order received.
    pub fn map_application_list(items: &Vec<ProtoApplication>) -> (r: Vec<Application>)
        ensures
            r.deep_view() == items@.map_values(|a: ProtoApplication| view_of_application(a)),
    {
        let mut apps: Vec<Application> = Vec::new();
        let n = items.len();
        for i in 0..n
            invariant
                n == items@.len(),
                apps@.len() == i,
                forall|j: int|
                    0 <= j < i ==> #[trigger] apps@[j].deep_view() == view_of_application(
                        items@[j],
                    ),
        {
            apps.push(Self::map_application(&items[i]));
        }
        assert(apps.deep_view() =~= items@.map_values(
            |a: ProtoApplication| view_of_application(a),
        ));
        apps
    }
}

/// The health state named by a reported text.
fn health_from_text(name: &str) -> (r: HealthStatus)
    ensures
        r == health_from_name(name@),
{
    if str_equals(name, "Healthy") {
        HealthStatus::Healthy
    } else if str_equals(name, "Degraded") {
        HealthStatus::Degraded
    } else if str_equals(name, "Progressing") {
        HealthStatus::Progressing
    } else if str_equals(name, "Suspended") {
        HealthStatus::Suspended
    } else if str_equals(name, "Missing") {
        HealthStatus::Missing
    } else {
        HealthStatus::Unknown
    }
}

/// The sync state named by a reported text.
fn sync_from_text(name: &str) -> (r: SyncStatus)
    ensures
        r == sync_from_name(name@),
{
    if str_equals(name, "Synced") {
        SyncStatus::Synced
    } else if str_equals(name, "OutOfSync") {
        SyncStatus::OutOfSync
    } else {
        SyncStatus::Unknown
    }
}

} // verus!
