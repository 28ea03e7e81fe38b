use vstd::prelude::*;
use crate::api::{error_reply, Action, ActionView, DeployResult, Event, EventView, Reply};
use crate::codec::{decode_undeploy_request, undeploy_request_of};
use crate::deploy::{deploy_reply, msg_bad_deploy_request};
use crate::handler::{msg_not_found, not_found_message, storage_error, Handler, STORAGE_ERROR};

verus! {

/// How far an undeploy request has come.
#[derive(PartialEq, Eq, Debug)]
pub enum UndeployState {
    /// The request has not come in.
    Start,
    /// The model is being read.
    AwaitModel,
    /// The model is being written with no version deployed.
    AwaitStore,
    /// The reconcilers are being told; `message` is what the reply will say.
    AwaitNotify { message: String },
    /// The request is answered.
    Done,
}

/// An `UndeployState` as a mathematical value.
pub enum UndeployStateView {
    Start,
    AwaitModel,
    AwaitStore,
    AwaitNotify { message: Seq<char> },
    Done,
}

impl View for UndeployState {
    type V = UndeployStateView;

    open spec fn view(&self) -> UndeployStateView {
        match self {
            UndeployState::Start => UndeployStateView::Start,
            UndeployState::AwaitModel => UndeployStateView::AwaitModel,
            UndeployState::AwaitStore => UndeployStateView::AwaitStore,
            UndeployState::AwaitNotify { message } => UndeployStateView::AwaitNotify {
                message: message@,
            },
            UndeployState::Done => UndeployStateView::Done,
        }
    }
}

/// What a reply says where the reconcilers could not be told of an undeploy.
pub const UNDEPLOY_NOTIFY_ERROR: &'static str =
    "Error notifying processors of undeployed manifest. This is likely a transient error, so please retry the request";

/// That the model `name` was undeployed.
pub open spec fn msg_undeployed(name: Seq<char>) -> Seq<char> {
    "Successfully undeployed model "@ + name
}

/// That the model `name` had no version deployed.
pub open spec fn msg_already_undeployed(name: Seq<char>) -> Seq<char> {
    "Model "@ + name + " was already undeployed"@
}

/// The step after an undeploy request came in for the model `name`, `fault`
/// being why its body could not be read: the model is read unless there is
/// such a fault.
pub open spec fn undeploy_requested(name: Seq<char>, fault: Option<Seq<char>>) -> (
    UndeployStateView,
    ActionView,
) {
    match fault {
        Some(reason) => (UndeployStateView::Done, error_reply(msg_bad_deploy_request(reason))),
        None => (UndeployStateView::AwaitModel, ActionView::Fetch { name }),
    }
}

/// One step of an undeploy request for the model `name`: the state after
/// `event`, and what is to be done next. The reconcilers are told whenever
/// the model is left with no version deployed, also where none was deployed
/// before.
pub open spec fn undeploy_step(name: Seq<char>, state: UndeployStateView, event: EventView) -> (
    UndeployStateView,
    ActionView,
) {
    match state {
        UndeployStateView::Start => match event {
            EventView::Request { payload } => undeploy_requested(
                name,
                if payload.len() == 0 {
                    None
                } else {
                    undeploy_request_of(payload)
                },
            ),
            _ => (UndeployStateView::Start, ActionView::Idle),
        },
        UndeployStateView::AwaitModel => match event {
            EventView::Fetched { model, revision } => if model.deployed_version is Some {
                (
                    UndeployStateView::AwaitStore,
                    ActionView::Store { model: model.undeploy(), revision },
                )
            } else {
                (
                    UndeployStateView::AwaitNotify { message: msg_already_undeployed(name) },
                    ActionView::NotifyUndeployed { name },
                )
            },
            EventView::Absent => (
                UndeployStateView::Done,
                deploy_reply(DeployResult::NotFound, msg_not_found(name)),
            ),
            _ => (UndeployStateView::Done, error_reply(STORAGE_ERROR@)),
        },
        UndeployStateView::AwaitStore => match event {
            EventView::Stored => (
                UndeployStateView::AwaitNotify { message: msg_undeployed(name) },
                ActionView::NotifyUndeployed { name },
            ),
            _ => (UndeployStateView::Done, deploy_reply(DeployResult::Error, STORAGE_ERROR@)),
        },
        UndeployStateView::AwaitNotify { message } => match event {
            EventView::Notified => (
                UndeployStateView::Done,
                deploy_reply(DeployResult::Acknowledged, message),
            ),
            _ => (
                UndeployStateView::Done,
                deploy_reply(DeployResult::Error, UNDEPLOY_NOTIFY_ERROR@),
            ),
        },
        UndeployStateView::Done => (UndeployStateView::Done, ActionView::Idle),
    }
}

impl Handler {
    /// The step after an undeploy request came in for the model `name`,
    /// `fault` being why its body could not be read.
    pub fn undeploy_requested(name: &str, fault: Option<String>) -> (res: (UndeployState, Action))
        ensures
            (res.0@, res.1@) == undeploy_requested(name@, fault.deep_view()),
    {
        match fault {
            Some(reason) => {
                let mut message = String::from_str("Unable to parse deploy model request: ");
                message.append(reason.as_str());
                (UndeployState::Done, Action::Reply { reply: Reply::Error { message } })
            },
            None => (UndeployState::AwaitModel, Action::Fetch { name: String::from_str(name) }),
        }
    }

    /// Handles a request to undeploy the model `name`, step by step. The
    /// model is written only where a version was deployed; the reconcilers
    /// are told in either case, and the reply acknowledges.
    pub fn undeploy_model(&self, name: &str, state: UndeployState, event: Event) -> (res: (
        UndeployState,
        Action,
    ))
        ensures
            (res.0@, res.1@) == undeploy_step(name@, state@, event@),
    {
        match state {
            UndeployState::Start => match event {
                Event::Request { payload } => {
                    let fault = if payload.len() == 0 {
                        None
                    } else {
                        decode_undeploy_request(payload.as_slice())
                    };
                    Self::undeploy_requested(name, fault)
                },
                _ => (UndeployState::Start, Action::Idle),
            },
            UndeployState::AwaitModel => match event {
                Event::Fetched { model, revision } => {
                    let mut model = model;
                    if model.undeploy() {
                        (UndeployState::AwaitStore, Action::Store { model, revision })
                    } else {
                        let mut message = String::from_str("Model ");
                        message.append(name);
                        message.append(" was already undeployed");
                        (
                            UndeployState::AwaitNotify { message },
                            Action::NotifyUndeployed { name: String::from_str(name) },
                        )
                    }
                },
                Event::Absent => (
                    UndeployState::Done,
                    Action::Reply {
                        reply: Reply::Deploy {
                            result: DeployResult::NotFound,
                            message: not_found_message(name),
                        },
                    },
                ),
                _ => (UndeployState::Done, storage_error()),
            },
            UndeployState::AwaitStore => match event {
                Event::Stored => {
                    let mut message = String::from_str("Successfully undeployed model ");
                    message.append(name);
                    (
                        UndeployState::AwaitNotify { message },
                        Action::NotifyUndeployed { name: String::from_str(name) },
                    )
                },
                _ => (
                    UndeployState::Done,
                    Action::Reply {
                        reply: Reply::Deploy {
                            result: DeployResult::Error,
                            message: String::from_str(STORAGE_ERROR),
                        },
                    },
                ),
            },
            UndeployState::AwaitNotify { message } => match event {
                Event::Notified => (
                    UndeployState::Done,
                    Action::Reply {
                        reply: Reply::Deploy { result: DeployResult::Acknowledged, message },
                    },
                ),
                _ => (
                    UndeployState::Done,
                    Action::Reply {
                        reply: Reply::Deploy {
                            result: DeployResult::Error,
                            message: String::from_str(UNDEPLOY_NOTIFY_ERROR),
                        },
                    },
                ),
            },
            UndeployState::Done => (UndeployState::Done, Action::Idle),
        }
    }
}

} // verus!
