use vstd::prelude::*;
use crate::manifest::{Manifest, ManifestView};
use crate::stored::{StoredManifest, StoredManifestView};

verus! {

/// How a put request ended.
#[derive(Clone, Copy, PartialEq, Eq, Structural, Debug)]
pub enum PutResult {
    Error,
    Created,
    NewVersion,
}

/// How a request that reads a model ended.
#[derive(Clone, Copy, PartialEq, Eq, Structural, Debug)]
pub enum GetResult {
    Error,
    Success,
    NotFound,
}

/// How a delete request ended.
#[derive(Clone, Copy, PartialEq, Eq, Structural, Debug)]
pub enum DeleteResult {
    Deleted,
    Error,
    Noop,
}

/// How a deploy or undeploy request ended.
#[derive(Clone, Copy, PartialEq, Eq, Structural, Debug)]
pub enum DeployResult {
    Error,
    Acknowledged,
    NotFound,
}

/// How a status request ended.
#[derive(Clone, Copy, PartialEq, Eq, Structural, Debug)]
pub enum StatusResult {
    Error,
    Okay,
    NotFound,
}

/// The state that the status log reports of a model.
#[derive(Clone, Copy, PartialEq, Eq, Structural, Debug)]
pub enum StatusType {
    Waiting,
    Undeployed,
    Reconciling,
    Deployed,
    Failed,
    Unhealthy,
}

/// One entry of the status log.
#[derive(PartialEq, Eq, Debug)]
pub struct StatusInfo {
    pub status_type: StatusType,
    pub message: String,
}

/// A `StatusInfo` as a mathematical value.
pub struct StatusInfoView {
    pub status_type: StatusType,
    pub message: Seq<char>,
}

impl StatusInfoView {
    /// The status of a model of which the log says nothing.
    pub open spec fn undeployed() -> Self {
        StatusInfoView { status_type: StatusType::Undeployed, message: Seq::empty() }
    }
}

/// The status of one component of a model.
#[derive(PartialEq, Eq, Debug)]
pub struct ComponentStatus {
    pub name: String,
    pub component_type: String,
    pub info: StatusInfo,
}

/// A `ComponentStatus` as a mathematical value.
pub struct ComponentStatusView {
    pub name: Seq<char>,
    pub component_type: Seq<char>,
    pub info: StatusInfoView,
}

/// The status of a model: the version it speaks of, the log's entry, and the
/// status of its components.
#[derive(PartialEq, Eq, Debug)]
pub struct Status {
    pub version: String,
    pub info: StatusInfo,
    pub components: Vec<ComponentStatus>,
}

/// A `Status` as a mathematical value.
pub struct StatusView {
    pub version: Seq<char>,
    pub info: StatusInfoView,
    pub components: Seq<ComponentStatusView>,
}

/// What a listing of the lattice says of one model.
#[derive(PartialEq, Eq, Debug)]
pub struct ModelSummary {
    pub name: String,
    pub version: String,
    pub description: Option<String>,
    pub deployed_version: Option<String>,
    pub status: StatusType,
    pub status_message: Option<String>,
}

/// A `ModelSummary` as a mathematical value.
pub struct ModelSummaryView {
    pub name: Seq<char>,
    pub version: Seq<char>,
    pub description: Option<Seq<char>>,
    pub deployed_version: Option<Seq<char>>,
    pub status: StatusType,
    pub status_message: Option<Seq<char>>,
}

/// One version of a model and whether it is the deployed one.
#[derive(PartialEq, Eq, Debug)]
pub struct VersionInfo {
    pub version: String,
    pub deployed: bool,
}

/// A `VersionInfo` as a mathematical value.
pub struct VersionInfoView {
    pub version: Seq<char>,
    pub deployed: bool,
}

/// The answer to a request.
#[derive(PartialEq, Eq, Debug)]
#[allow(inconsistent_fields)]
pub enum Reply {
    /// The request failed before an answer of its own kind could be made.
    Error { message: String },
    Put { result: PutResult, name: String, current_version: String, total_versions: usize, message: String },
    Get { result: GetResult, message: String, manifest: Option<Manifest> },
    Models { models: Vec<ModelSummary> },
    Versions { result: GetResult, message: String, versions: Vec<VersionInfo> },
    Delete { result: DeleteResult, message: String, undeploy: bool },
    Deploy { result: DeployResult, message: String },
    Status { result: StatusResult, message: String, status: Option<Status> },
}

/// A `Reply` as a mathematical value.
#[allow(inconsistent_fields)]
pub enum ReplyView {
    Error { message: Seq<char> },
    Put {
        result: PutResult,
        name: Seq<char>,
        current_version: Seq<char>,
        total_versions: nat,
        message: Seq<char>,
    },
    Get { result: GetResult, message: Seq<char>, manifest: Option<ManifestView> },
    Models { models: Seq<ModelSummaryView> },
    Versions { result: GetResult, message: Seq<char>, versions: Seq<VersionInfoView> },
    Delete { result: DeleteResult, message: Seq<char>, undeploy: bool },
    Deploy { result: DeployResult, message: Seq<char> },
    Status { result: StatusResult, message: Seq<char>, status: Option<StatusView> },
}

/// What the caller of a request handler is to do next. The caller carries it
/// out and hands the outcome back as an `Event`.
#[derive(PartialEq, Eq, Debug)]
#[allow(inconsistent_fields)]
pub enum Action {
    /// Read the model `name` from the store.
    Fetch { name: String },
    /// List the models of the lattice.
    List,
    /// Write `model` to the store, on condition that the stored revision is
    /// still `revision`.
    Store { model: StoredManifest, revision: u64 },
    /// Remove the model `name` from the store.
    Delete { name: String },
    /// Tell the reconcilers that `manifest` is deployed.
    NotifyDeployed { manifest: Manifest },
    /// Tell the reconcilers that the model `name` is undeployed.
    NotifyUndeployed { name: String },
    /// Read the last message on `subject` of the status log.
    ReadStatus { subject: String },
    /// Send `reply`; the request is then done.
    Reply { reply: Reply },
    /// Nothing: the request was answered before.
    Idle,
}

/// An `Action` as a mathematical value.
#[allow(inconsistent_fields)]
pub enum ActionView {
    Fetch { name: Seq<char> },
    List,
    Store { model: StoredManifestView, revision: u64 },
    Delete { name: Seq<char> },
    NotifyDeployed { manifest: ManifestView },
    NotifyUndeployed { name: Seq<char> },
    ReadStatus { subject: Seq<char> },
    Reply { reply: ReplyView },
    Idle,
}

/// What happened: a request came in, or an `Action` was carried out.
#[allow(inconsistent_fields)]
#[derive(PartialEq, Eq, Debug)]
pub enum Event {
    /// A request came in with this payload.
    Request { payload: Vec<u8> },
    /// A put request came in, and its payload is this manifest.
    Manifest { manifest: Manifest },
    /// A put request came in, and its payload is no manifest; `reason` says
    /// why.
    Unparsed { reason: String },
    /// The store holds the model, at this revision.
    Fetched { model: StoredManifest, revision: u64 },
    /// The store holds no such model.
    Absent,
    /// The models of the lattice.
    Listed { models: Vec<ModelSummary> },
    /// The model was written.
    Stored,
    /// The model was removed.
    Deleted,
    /// The reconcilers were told.
    Notified,
    /// The last message of the status log on the subject has this payload.
    Status { payload: String },
    /// The action could not be carried out.
    Failed,
}

/// An `Event` as a mathematical value.
#[allow(inconsistent_fields)]
pub enum EventView {
    Request { payload: Seq<u8> },
    Manifest { manifest: ManifestView },
    Unparsed { reason: Seq<char> },
    Fetched { model: StoredManifestView, revision: u64 },
    Absent,
    Listed { models: Seq<ModelSummaryView> },
    Stored,
    Deleted,
    Notified,
    Status { payload: Seq<char> },
    Failed,
}

impl View for StatusInfo {
    type V = StatusInfoView;

    open spec fn view(&self) -> StatusInfoView {
        StatusInfoView { status_type: self.status_type, message: self.message@ }
    }
}

impl DeepView for StatusInfo {
    type V = StatusInfoView;

    open spec fn deep_view(&self) -> StatusInfoView {
        self@
    }
}

impl View for ComponentStatus {
    type V = ComponentStatusView;

    open spec fn view(&self) -> ComponentStatusView {
        ComponentStatusView {
            name: self.name@,
            component_type: self.component_type@,
            info: self.info@,
        }
    }
}

impl DeepView for ComponentStatus {
    type V = ComponentStatusView;

    open spec fn deep_view(&self) -> ComponentStatusView {
        self@
    }
}

impl View for Status {
    type V = StatusView;

    open spec fn view(&self) -> StatusView {
        StatusView {
            version: self.version@,
            info: self.info@,
            components: self.components.deep_view(),
        }
    }
}

impl DeepView for Status {
    type V = StatusView;

    open spec fn deep_view(&self) -> StatusView {
        self@
    }
}

impl View for ModelSummary {
    type V = ModelSummaryView;

    open spec fn view(&self) -> ModelSummaryView {
        ModelSummaryView {
            name: self.name@,
            version: self.version@,
            description: self.description.deep_view(),
            deployed_version: self.deployed_version.deep_view(),
            status: self.status,
            status_message: self.status_message.deep_view(),
        }
    }
}

impl DeepView for ModelSummary {
    type V = ModelSummaryView;

    open spec fn deep_view(&self) -> ModelSummaryView {
        self@
    }
}

impl View for VersionInfo {
    type V = VersionInfoView;

    open spec fn view(&self) -> VersionInfoView {
        VersionInfoView { version: self.version@, deployed: self.deployed }
    }
}

impl DeepView for VersionInfo {
    type V = VersionInfoView;

    open spec fn deep_view(&self) -> VersionInfoView {
        self@
    }
}

impl View for Reply {
    type V = ReplyView;

    open spec fn view(&self) -> ReplyView {
        match self {
            Reply::Error { message } => ReplyView::Error { message: message@ },
            Reply::Put { result, name, current_version, total_versions, message } => ReplyView::Put {
                result: *result,
                name: name@,
                current_version: current_version@,
                total_versions: *total_versions as nat,
                message: message@,
            },
            Reply::Get { result, message, manifest } => ReplyView::Get {
                result: *result,
                message: message@,
                manifest: manifest.deep_view(),
            },
            Reply::Models { models } => ReplyView::Models { models: models.deep_view() },
            Reply::Versions { result, message, versions } => ReplyView::Versions {
                result: *result,
                message: message@,
                versions: versions.deep_view(),
            },
            Reply::Delete { result, message, undeploy } => ReplyView::Delete {
                result: *result,
                message: message@,
                undeploy: *undeploy,
            },
            Reply::Deploy { result, message } => ReplyView::Deploy {
                result: *result,
                message: message@,
            },
            Reply::Status { result, message, status } => ReplyView::Status {
                result: *result,
                message: message@,
                status: status.deep_view(),
            },
        }
    }
}

impl View for Action {
    type V = ActionView;

    open spec fn view(&self) -> ActionView {
        match self {
            Action::Fetch { name } => ActionView::Fetch { name: name@ },
            Action::List => ActionView::List,
            Action::Store { model, revision } => ActionView::Store {
                model: model@,
                revision: *revision,
            },
            Action::Delete { name } => ActionView::Delete { name: name@ },
            Action::NotifyDeployed { manifest } => ActionView::NotifyDeployed {
                manifest: manifest@,
            },
            Action::NotifyUndeployed { name } => ActionView::NotifyUndeployed { name: name@ },
            Action::ReadStatus { subject } => ActionView::ReadStatus { subject: subject@ },
            Action::Reply { reply } => ActionView::Reply { reply: reply@ },
            Action::Idle => ActionView::Idle,
        }
    }
}

impl View for Event {
    type V = EventView;

    open spec fn view(&self) -> EventView {
        match self {
            Event::Request { payload } => EventView::Request { payload: payload@ },
            Event::Manifest { manifest } => EventView::Manifest { manifest: manifest@ },
            Event::Unparsed { reason } => EventView::Unparsed { reason: reason@ },
            Event::Fetched { model, revision } => EventView::Fetched {
                model: model@,
                revision: *revision,
            },
            Event::Absent => EventView::Absent,
            Event::Listed { models } => EventView::Listed { models: models.deep_view() },
            Event::Stored => EventView::Stored,
            Event::Deleted => EventView::Deleted,
            Event::Notified => EventView::Notified,
            Event::Status { payload } => EventView::Status { payload: payload@ },
            Event::Failed => EventView::Failed,
        }
    }
}

/// The reply that reports a failure with `message`.
pub open spec fn error_reply(message: Seq<char>) -> ActionView {
    ActionView::Reply { reply: ReplyView::Error { message } }
}

} // verus!
