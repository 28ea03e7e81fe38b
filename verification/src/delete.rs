use vstd::prelude::*;
use crate::api::{error_reply, Action, ActionView, DeleteResult, Event, EventView, Reply, ReplyView};
use crate::codec::{decode_delete_request, delete_request_of, request_view, VersionRequest};
use crate::handler::{Handler, STORAGE_ERROR};
use crate::stored::StoredManifestView;

verus! {

/// How far a delete request has come.
#[allow(inconsistent_fields)]
#[derive(PartialEq, Eq, Debug)]
pub enum DeleteState {
    /// The request has not come in.
    Start,
    /// The model is being read, to delete `version` of it.
    AwaitModel { version: String },
    /// The model is being written without `version`; `undeploy` says whether
    /// that was the deployed version.
    AwaitStore { version: String, undeploy: bool },
    /// The model is being removed: after its last version was deleted
    /// (`last`), or as a whole.
    AwaitRemoval { last: bool },
    /// The reconcilers are being told; the reply is made already.
    AwaitNotify { result: DeleteResult, message: String, undeploy: bool },
    /// The request is answered.
    Done,
}

/// A `DeleteState` as a mathematical value.
#[allow(inconsistent_fields)]
pub enum DeleteStateView {
    Start,
    AwaitModel { version: Seq<char> },
    AwaitStore { version: Seq<char>, undeploy: bool },
    AwaitRemoval { last: bool },
    AwaitNotify { result: DeleteResult, message: Seq<char>, undeploy: bool },
    Done,
}

impl View for DeleteState {
    type V = DeleteStateView;

    open spec fn view(&self) -> DeleteStateView {
        match self {
            DeleteState::Start => DeleteStateView::Start,
            DeleteState::AwaitModel { version } => DeleteStateView::AwaitModel {
                version: version@,
            },
            DeleteState::AwaitStore { version, undeploy } => DeleteStateView::AwaitStore {
                version: version@,
                undeploy: *undeploy,
            },
            DeleteState::AwaitRemoval { last } => DeleteStateView::AwaitRemoval { last: *last },
            DeleteState::AwaitNotify { result, message, undeploy } => DeleteStateView::AwaitNotify {
                result: *result,
                message: message@,
                undeploy: *undeploy,
            },
            DeleteState::Done => DeleteStateView::Done,
        }
    }
}

/// What a reply says where the reconcilers could not be told of a delete.
pub const DELETE_NOTIFY_ERROR: &'static str =
    "Error notifying processors of newly undeployed manifest on delete. This is likely a transient error, so please retry the request. Please note that the response will say it is a noop, but will notify the processors";

/// That the body of a delete request could not be read, and why.
pub open spec fn msg_bad_delete_request(reason: Seq<char>) -> Seq<char> {
    "Unable to parse delete model request: "@ + reason
}

/// That `version` of the model `name` was deleted.
pub open spec fn msg_deleted_version(version: Seq<char>, name: Seq<char>) -> Seq<char> {
    "Successfully deleted version "@ + version + " of model "@ + name
}

/// That the last version of the model `name` was deleted.
pub open spec fn msg_deleted_last(name: Seq<char>) -> Seq<char> {
    "Successfully deleted last version of model "@ + name
}

/// That the model `name` was deleted.
pub open spec fn msg_deleted_model(name: Seq<char>) -> Seq<char> {
    "Successfully deleted model "@ + name
}

/// That the model has no version `version`.
pub open spec fn msg_version_missing(version: Seq<char>) -> Seq<char> {
    "Model version "@ + version + " doesn't exist"@
}

/// That there is no model `name`.
pub open spec fn msg_model_missing(name: Seq<char>) -> Seq<char> {
    "Model "@ + name + " doesn't exist"@
}

/// The reply to a delete request.
pub open spec fn delete_reply(result: DeleteResult, message: Seq<char>, undeploy: bool) -> ActionView {
    ActionView::Reply { reply: ReplyView::Delete { result, message, undeploy } }
}

/// The step once the outcome of a delete of the model `name` is decided. The
/// reconcilers are told first where the delete undeploys, and where nothing
/// was deleted, in case they were not told before; else the reply is sent.
pub open spec fn delete_conclude(
    name: Seq<char>,
    result: DeleteResult,
    message: Seq<char>,
    undeploy: bool,
) -> (DeleteStateView, ActionView) {
    if undeploy || result == DeleteResult::Noop {
        (
            DeleteStateView::AwaitNotify { result, message, undeploy },
            ActionView::NotifyUndeployed { name },
        )
    } else {
        (DeleteStateView::Done, delete_reply(result, message, undeploy))
    }
}

/// The step after a delete request with the body `request` came in for the
/// model `name`: with a version the model is read, without one it is
/// removed as a whole.
pub open spec fn delete_requested(name: Seq<char>, request: Result<Option<Seq<char>>, Seq<char>>) -> (
    DeleteStateView,
    ActionView,
) {
    match request {
        Ok(Some(version)) => (DeleteStateView::AwaitModel { version }, ActionView::Fetch { name }),
        Ok(None) => (DeleteStateView::AwaitRemoval { last: false }, ActionView::Delete { name }),
        Err(reason) => (DeleteStateView::Done, error_reply(msg_bad_delete_request(reason))),
    }
}

/// The step once the model `name` is read, to delete `version` of it. Where
/// the model has the version and others beside, it is written without it;
/// where that was its only version, the model is removed; where it has not
/// the version, nothing is deleted.
pub open spec fn delete_fetched(
    name: Seq<char>,
    version: Seq<char>,
    model: StoredManifestView,
    revision: u64,
) -> (DeleteStateView, ActionView) {
    if !model.has_version(version) {
        delete_conclude(name, DeleteResult::Noop, msg_version_missing(version), false)
    } else if model.delete_version(version).versions.len() > 0 {
        (
            DeleteStateView::AwaitStore {
                version,
                undeploy: model.deployed_version == Some(version),
            },
            ActionView::Store { model: model.delete_version(version), revision },
        )
    } else {
        (DeleteStateView::AwaitRemoval { last: true }, ActionView::Delete { name })
    }
}

/// One step of a delete request for the model `name`: the state after
/// `event`, and what is to be done next.
pub open spec fn delete_step(name: Seq<char>, state: DeleteStateView, event: EventView) -> (
    DeleteStateView,
    ActionView,
) {
    match state {
        DeleteStateView::Start => match event {
            EventView::Request { payload } => delete_requested(name, delete_request_of(payload)),
            _ => (DeleteStateView::Start, ActionView::Idle),
        },
        DeleteStateView::AwaitModel { version } => match event {
            EventView::Fetched { model, revision } => delete_fetched(name, version, model, revision),
            EventView::Absent => delete_conclude(
                name,
                DeleteResult::Noop,
                msg_model_missing(name),
                false,
            ),
            _ => (DeleteStateView::Done, delete_reply(DeleteResult::Error, STORAGE_ERROR@, false)),
        },
        DeleteStateView::AwaitStore { version, undeploy } => match event {
            EventView::Stored => delete_conclude(
                name,
                DeleteResult::Deleted,
                msg_deleted_version(version, name),
                undeploy,
            ),
            _ => (DeleteStateView::Done, delete_reply(DeleteResult::Error, STORAGE_ERROR@, false)),
        },
        DeleteStateView::AwaitRemoval { last } => match event {
            EventView::Deleted => delete_conclude(
                name,
                DeleteResult::Deleted,
                if last {
                    msg_deleted_last(name)
                } else {
                    msg_deleted_model(name)
                },
                true,
            ),
            _ => (DeleteStateView::Done, delete_reply(DeleteResult::Error, STORAGE_ERROR@, false)),
        },
        DeleteStateView::AwaitNotify { result, message, undeploy } => match event {
            EventView::Notified => (DeleteStateView::Done, delete_reply(result, message, undeploy)),
            _ => (
                DeleteStateView::Done,
                delete_reply(DeleteResult::Error, DELETE_NOTIFY_ERROR@, false),
            ),
        },
        DeleteStateView::Done => (DeleteStateView::Done, ActionView::Idle),
    }
}

/// The reply to a delete request that the store made fail.
fn delete_failed() -> (res: (DeleteState, Action))
    ensures
        (res.0@, res.1@) == (
            DeleteStateView::Done,
            delete_reply(DeleteResult::Error, STORAGE_ERROR@, false),
        ),
{
    (
        DeleteState::Done,
        Action::Reply {
            reply: Reply::Delete {
                result: DeleteResult::Error,
                message: String::from_str(STORAGE_ERROR),
                undeploy: false,
            },
        },
    )
}

impl Handler {
    /// The step once the outcome of a delete is decided: the reconcilers are
    /// told, or the reply is sent.
    fn delete_conclude(name: &str, result: DeleteResult, message: String, undeploy: bool) -> (res: (
        DeleteState,
        Action,
    ))
        ensures
            (res.0@, res.1@) == delete_conclude(name@, result, message@, undeploy),
    {
        let noop = match result {
            DeleteResult::Noop => true,
            _ => false,
        };
        if undeploy || noop {
            (
                DeleteState::AwaitNotify { result, message, undeploy },
                Action::NotifyUndeployed { name: String::from_str(name) },
            )
        } else {
            (DeleteState::Done, Action::Reply { reply: Reply::Delete { result, message, undeploy } })
        }
    }

    /// The step after a delete request with the body `request` came in for
    /// the model `name`.
    pub fn delete_requested(name: &str, request: VersionRequest) -> (res: (DeleteState, Action))
        ensures
            (res.0@, res.1@) == delete_requested(name@, request_view(request)),
    {
        match request {
            Ok(Some(version)) => (
                DeleteState::AwaitModel { version },
                Action::Fetch { name: String::from_str(name) },
            ),
            Ok(None) => (
                DeleteState::AwaitRemoval { last: false },
                Action::Delete { name: String::from_str(name) },
            ),
            Err(reason) => {
                let mut message = String::from_str("Unable to parse delete model request: ");
                message.append(reason.as_str());
                (DeleteState::Done, Action::Reply { reply: Reply::Error { message } })
            },
        }
    }

    /// Handles a request to delete the model `name`, or one version of it,
    /// step by step. Deleting the last version removes the model. The reply
    /// says whether the delete undeploys: it does where the deployed version
    /// or the whole model went. The reconcilers are then told before the
    /// reply is sent, and also where nothing was deleted.
    pub fn delete_model(&self, name: &str, state: DeleteState, event: Event) -> (res: (
        DeleteState,
        Action,
    ))
        ensures
            (res.0@, res.1@) == delete_step(name@, state@, event@),
    {
        match state {
            DeleteState::Start => match event {
                Event::Request { payload } => Self::delete_requested(
                    name,
                    decode_delete_request(payload.as_slice()),
                ),
                _ => (DeleteState::Start, Action::Idle),
            },
            DeleteState::AwaitModel { version } => match event {
                Event::Fetched { model, revision } => {
                    let mut model = model;
                    let undeploy = model.is_deployed(version.as_str());
                    if !model.delete_version(version.as_str()) {
                        let mut message = String::from_str("Model version ");
                        message.append(version.as_str());
                        message.append(" doesn't exist");
                        Self::delete_conclude(name, DeleteResult::Noop, message, false)
                    } else if !model.is_empty() {
                        (
                            DeleteState::AwaitStore { version, undeploy },
                            Action::Store { model, revision },
                        )
                    } else {
                        (
                            DeleteState::AwaitRemoval { last: true },
                            Action::Delete { name: String::from_str(name) },
                        )
                    }
                },
                Event::Absent => {
                    let mut message = String::from_str("Model ");
                    message.append(name);
                    message.append(" doesn't exist");
                    Self::delete_conclude(name, DeleteResult::Noop, message, false)
                },
                _ => delete_failed(),
            },
            DeleteState::AwaitStore { version, undeploy } => match event {
                Event::Stored => {
                    let mut message = String::from_str("Successfully deleted version ");
                    message.append(version.as_str());
                    message.append(" of model ");
                    message.append(name);
                    Self::delete_conclude(name, DeleteResult::Deleted, message, undeploy)
                },
                _ => delete_failed(),
            },
            DeleteState::AwaitRemoval { last } => match event {
                Event::Deleted => {
                    let mut message = if last {
                        String::from_str("Successfully deleted last version of model ")
                    } else {
                        String::from_str("Successfully deleted model ")
                    };
                    message.append(name);
                    Self::delete_conclude(name, DeleteResult::Deleted, message, true)
                },
                _ => delete_failed(),
            },
            DeleteState::AwaitNotify { result, message, undeploy } => match event {
                Event::Notified => (
                    DeleteState::Done,
                    Action::Reply { reply: Reply::Delete { result, message, undeploy } },
                ),
                _ => (
                    DeleteState::Done,
                    Action::Reply {
                        reply: Reply::Delete {
                            result: DeleteResult::Error,
                            message: String::from_str(DELETE_NOTIFY_ERROR),
                            undeploy: false,
                        },
                    },
                ),
            },
            DeleteState::Done => (DeleteState::Done, Action::Idle),
        }
    }
}

} // verus!
