use vstd::prelude::*;
use crate::api::{
    error_reply, Action, ActionView, ComponentStatus, Event, EventView, ModelSummary,
    ModelSummaryView, Reply, ReplyView, Status, StatusInfo, StatusInfoView, StatusResult,
    StatusType, StatusView,
};
use crate::codec::{decode_status, decoded_status};
use crate::handler::{msg_not_found, not_found_message, storage_error, Handler, STORAGE_ERROR};

verus! {

/// How far a status request has come.
#[derive(PartialEq, Eq, Debug)]
pub enum StatusState {
    /// The request has not come in.
    Start,
    /// The model is being read.
    AwaitModel,
    /// The status log is being read for the model, whose newest version is
    /// `version`.
    AwaitStatus { version: String },
    /// The request is answered.
    Done,
}

/// A `StatusState` as a mathematical value.
pub enum StatusStateView {
    Start,
    AwaitModel,
    AwaitStatus { version: Seq<char> },
    Done,
}

impl View for StatusState {
    type V = StatusStateView;

    open spec fn view(&self) -> StatusStateView {
        match self {
            StatusState::Start => StatusStateView::Start,
            StatusState::AwaitModel => StatusStateView::AwaitModel,
            StatusState::AwaitStatus { version } => StatusStateView::AwaitStatus {
                version: version@,
            },
            StatusState::Done => StatusStateView::Done,
        }
    }
}

/// How far a request for the models of the lattice has come.
#[derive(PartialEq, Eq, Debug)]
pub enum ListState {
    /// The request has not come in.
    Start,
    /// The models are being listed.
    AwaitList,
    /// The status log is being read for `models[next]`; the models before it
    /// have their status already.
    AwaitStatus { models: Vec<ModelSummary>, next: usize },
    /// The request is answered.
    Done,
}

/// A `ListState` as a mathematical value.
pub enum ListStateView {
    Start,
    AwaitList,
    AwaitStatus { models: Seq<ModelSummaryView>, next: nat },
    Done,
}

impl View for ListState {
    type V = ListStateView;

    open spec fn view(&self) -> ListStateView {
        match self {
            ListState::Start => ListStateView::Start,
            ListState::AwaitList => ListStateView::AwaitList,
            ListState::AwaitStatus { models, next } => ListStateView::AwaitStatus {
                models: models.deep_view(),
                next: *next as nat,
            },
            ListState::Done => ListStateView::Done,
        }
    }
}

/// The subject of the status log that carries the status of the model `name`
/// of the lattice `lattice`.
pub open spec fn status_subject(lattice: Seq<char>, name: Seq<char>) -> Seq<char> {
    "wadm.status."@ + lattice + "."@ + name
}

/// That the status of the model `name` was read.
pub open spec fn msg_status(name: Seq<char>) -> Seq<char> {
    "Successfully fetched status for model "@ + name
}

/// The status that `event` brings from the status log: the entry in the
/// message that was read, and none where no message was read or where it
/// holds no entry.
pub open spec fn manifest_status(event: EventView) -> Option<StatusInfoView> {
    match event {
        EventView::Status { payload } => decoded_status(payload),
        _ => None,
    }
}

/// `summary` with the status `status` laid over it; without a status the
/// model counts as undeployed.
pub open spec fn with_status(summary: ModelSummaryView, status: Option<StatusInfoView>) -> ModelSummaryView {
    match status {
        Some(info) => ModelSummaryView {
            status: info.status_type,
            status_message: Some(info.message),
            ..summary
        },
        None => ModelSummaryView {
            status: StatusType::Undeployed,
            status_message: None,
            ..summary
        },
    }
}

/// The reply to a status request.
pub open spec fn status_reply(result: StatusResult, message: Seq<char>, status: Option<StatusView>) -> ActionView {
    ActionView::Reply { reply: ReplyView::Status { result, message, status } }
}

/// What a status step asks of its input: a stored model has a version.
pub open spec fn status_ready(state: StatusStateView, event: EventView) -> bool {
    state is AwaitModel ==> (event matches EventView::Fetched { model, .. } ==> model.versions.len()
        > 0)
}

/// One step of a status request for the model `name` of the lattice
/// `lattice`: the state after `event`, and what is to be done next. The
/// status is that of the log; a model of which the log says nothing counts
/// as undeployed. Of the single components the reply says nothing: their
/// list is empty.
pub open spec fn status_step(
    lattice: Seq<char>,
    name: Seq<char>,
    state: StatusStateView,
    event: EventView,
) -> (StatusStateView, ActionView) {
    match state {
        StatusStateView::Start => match event {
            EventView::Request { payload } => (
                StatusStateView::AwaitModel,
                ActionView::Fetch { name },
            ),
            _ => (StatusStateView::Start, ActionView::Idle),
        },
        StatusStateView::AwaitModel => match event {
            EventView::Fetched { model, revision } => (
                StatusStateView::AwaitStatus { version: model.versions.last().version },
                ActionView::ReadStatus { subject: status_subject(lattice, name) },
            ),
            EventView::Absent => (
                StatusStateView::Done,
                status_reply(StatusResult::NotFound, msg_not_found(name), None),
            ),
            _ => (StatusStateView::Done, error_reply(STORAGE_ERROR@)),
        },
        StatusStateView::AwaitStatus { version } => (
            StatusStateView::Done,
            status_reply(
                StatusResult::Okay,
                msg_status(name),
                Some(
                    StatusView {
                        version,
                        info: match manifest_status(event) {
                            Some(info) => info,
                            None => StatusInfoView::undeployed(),
                        },
                        components: Seq::empty(),
                    },
                ),
            ),
        ),
        StatusStateView::Done => (StatusStateView::Done, ActionView::Idle),
    }
}

/// The step of a listing once the models before `models[next]` have their
/// status: the log is read for the next model, or, after the last, the
/// models are the reply.
pub open spec fn list_scan(lattice: Seq<char>, models: Seq<ModelSummaryView>, next: nat) -> (
    ListStateView,
    ActionView,
) {
    if next < models.len() {
        (
            ListStateView::AwaitStatus { models, next },
            ActionView::ReadStatus { subject: status_subject(lattice, models[next as int].name) },
        )
    } else {
        (ListStateView::Done, ActionView::Reply { reply: ReplyView::Models { models } })
    }
}

/// One step of a request for the models of the lattice `lattice`: the state
/// after `event`, and what is to be done next. Each model of the store's
/// listing gets the status that the log has for it.
pub open spec fn list_step(lattice: Seq<char>, state: ListStateView, event: EventView) -> (
    ListStateView,
    ActionView,
) {
    match state {
        ListStateView::Start => match event {
            EventView::Request { payload } => (ListStateView::AwaitList, ActionView::List),
            _ => (ListStateView::Start, ActionView::Idle),
        },
        ListStateView::AwaitList => match event {
            EventView::Listed { models } => list_scan(lattice, models, 0),
            _ => (ListStateView::Done, error_reply(STORAGE_ERROR@)),
        },
        ListStateView::AwaitStatus { models, next } => if next < models.len() {
            list_scan(
                lattice,
                models.update(next as int, with_status(models[next as int], manifest_status(event))),
                next + 1,
            )
        } else {
            list_scan(lattice, models, next)
        },
        ListStateView::Done => (ListStateView::Done, ActionView::Idle),
    }
}

/// Writes the subject of the status log for the model `name` of the lattice
/// `lattice`.
pub fn subject_of(lattice: &str, name: &str) -> (res: String)
    ensures
        res@ == status_subject(lattice@, name@),
{
    let mut subject = String::from_str("wadm.status.");
    subject.append(lattice);
    subject.append(".");
    subject.append(name);
    subject
}

/// A copy of `text`.
fn copy_text(text: &Option<String>) -> (res: Option<String>)
    ensures
        res.deep_view() == text.deep_view(),
{
    match text {
        Some(t) => Some(t.clone()),
        None => None,
    }
}

/// Lays `status` over `summary`.
fn overlay(summary: &ModelSummary, status: Option<StatusInfo>) -> (res: ModelSummary)
    ensures
        res@ == with_status(summary@, status.deep_view()),
{
    let (status, status_message) = match status {
        Some(info) => (info.status_type, Some(info.message)),
        None => (StatusType::Undeployed, None),
    };
    ModelSummary {
        name: summary.name.clone(),
        version: summary.version.clone(),
        description: copy_text(&summary.description),
        deployed_version: copy_text(&summary.deployed_version),
        status,
        status_message,
    }
}

impl Handler {
    /// The status that `event` brings from the status log.
    pub fn get_manifest_status(event: &Event) -> (res: Option<StatusInfo>)
        ensures
            res.deep_view() == manifest_status(event@),
    {
        match event {
            Event::Status { payload } => decode_status(payload.as_str()),
            _ => None,
        }
    }

    /// Handles a request for the status of the model `name` of the lattice
    /// `lattice_id`, step by step.
    pub fn model_status(&self, lattice_id: &str, name: &str, state: StatusState, event: Event) -> (res: (
        StatusState,
        Action,
    ))
        requires
            status_ready(state@, event@),
        ensures
            (res.0@, res.1@) == status_step(lattice_id@, name@, state@, event@),
    {
        match state {
            StatusState::Start => match event {
                Event::Request { payload: _ } => (
                    StatusState::AwaitModel,
                    Action::Fetch { name: String::from_str(name) },
                ),
                _ => (StatusState::Start, Action::Idle),
            },
            StatusState::AwaitModel => match event {
                Event::Fetched { model, revision: _ } => (
                    StatusState::AwaitStatus { version: String::from_str(model.current_version()) },
                    Action::ReadStatus { subject: subject_of(lattice_id, name) },
                ),
                Event::Absent => (
                    StatusState::Done,
                    Action::Reply {
                        reply: Reply::Status {
                            result: StatusResult::NotFound,
                            message: not_found_message(name),
                            status: None,
                        },
                    },
                ),
                _ => (StatusState::Done, storage_error()),
            },
            StatusState::AwaitStatus { version } => {
                let info = match Self::get_manifest_status(&event) {
                    Some(info) => info,
                    None => StatusInfo { status_type: StatusType::Undeployed, message: String::new() },
                };
                let mut message = String::from_str("Successfully fetched status for model ");
                message.append(name);
                let components: Vec<ComponentStatus> = Vec::new();
                assert(components.deep_view() =~= Seq::empty());
                (
                    StatusState::Done,
                    Action::Reply {
                        reply: Reply::Status {
                            result: StatusResult::Okay,
                            message,
                            status: Some(Status { version, info, components }),
                        },
                    },
                )
            },
            StatusState::Done => (StatusState::Done, Action::Idle),
        }
    }

    /// Reads the status log for the next model of a listing, or, after the
    /// last, replies with the models.
    fn list_scan(lattice_id: &str, models: Vec<ModelSummary>, next: usize) -> (res: (
        ListState,
        Action,
    ))
        ensures
            (res.0@, res.1@) == list_scan(lattice_id@, models.deep_view(), next as nat),
    {
        if next < models.len() {
            let subject = subject_of(lattice_id, models[next].name.as_str());
            (ListState::AwaitStatus { models, next }, Action::ReadStatus { subject })
        } else {
            (ListState::Done, Action::Reply { reply: Reply::Models { models } })
        }
    }

    /// Handles a request for the models of the lattice `lattice_id`, step by
    /// step.
    pub fn list_models(&self, lattice_id: &str, state: ListState, event: Event) -> (res: (
        ListState,
        Action,
    ))
        ensures
            (res.0@, res.1@) == list_step(lattice_id@, state@, event@),
    {
        match state {
            ListState::Start => match event {
                Event::Request { payload: _ } => (ListState::AwaitList, Action::List),
                _ => (ListState::Start, Action::Idle),
            },
            ListState::AwaitList => match event {
                Event::Listed { models } => Self::list_scan(lattice_id, models, 0),
                _ => (ListState::Done, storage_error()),
            },
            ListState::AwaitStatus { models, next } => {
                if next < models.len() {
                    let mut models = models;
                    let ghost before = models.deep_view();
                    let updated = overlay(&models[next], Self::get_manifest_status(&event));
                    models.set(next, updated);
                    assert(models.deep_view() =~= before.update(next as int, updated@));
                    Self::list_scan(lattice_id, models, next + 1)
                } else {
                    Self::list_scan(lattice_id, models, next)
                }
            },
            ListState::Done => (ListState::Done, Action::Idle),
        }
    }
}

} // verus!
