use vstd::prelude::*;
use crate::api::{
    error_reply, Action, ActionView, Event, EventView, GetResult, Reply, ReplyView, VersionInfo,
    VersionInfoView,
};
use crate::codec::{decode_get_request, get_request_of, request_view, VersionRequest};
use crate::handler::{msg_not_found, not_found_message, storage_error, Handler, STORAGE_ERROR};
use crate::manifest::ManifestView;
use crate::stored::{StoredManifest, StoredManifestView};

verus! {

/// How far a get request has come.
#[derive(PartialEq, Eq, Debug)]
pub enum GetState {
    /// The request has not come in.
    Start,
    /// The model is being read, for `version` or, without one, the newest.
    AwaitModel { version: Option<String> },
    /// The request is answered.
    Done,
}

/// A `GetState` as a mathematical value.
pub enum GetStateView {
    Start,
    AwaitModel { version: Option<Seq<char>> },
    Done,
}

impl View for GetState {
    type V = GetStateView;

    open spec fn view(&self) -> GetStateView {
        match self {
            GetState::Start => GetStateView::Start,
            GetState::AwaitModel { version } => GetStateView::AwaitModel {
                version: version.deep_view(),
            },
            GetState::Done => GetStateView::Done,
        }
    }
}

/// How far a request for the versions of a model has come.
#[derive(Clone, Copy, PartialEq, Eq, Structural, Debug)]
pub enum VersionsState {
    /// The request has not come in.
    Start,
    /// The model is being read.
    AwaitModel,
    /// The request is answered.
    Done,
}

/// That the body of a get request could not be read, and why.
pub open spec fn msg_bad_get_request(reason: Seq<char>) -> Seq<char> {
    "Unable to parse get model request: "@ + reason
}

/// That `version` of the model `name` was read.
pub open spec fn msg_fetched_version(name: Seq<char>, version: Seq<char>) -> Seq<char> {
    "Successfully fetched model "@ + name + " "@ + version
}

/// That the newest version of the model `name` was read.
pub open spec fn msg_fetched(name: Seq<char>) -> Seq<char> {
    "Successfully fetched model "@ + name
}

/// That the model `name` has no version `version`.
pub open spec fn msg_no_such_version(name: Seq<char>, version: Seq<char>) -> Seq<char> {
    "Model "@ + name + " with version "@ + version + " doesn't exist"@
}

/// That the versions of the model `name` were read.
pub open spec fn msg_fetched_versions(name: Seq<char>) -> Seq<char> {
    "Successfully fetched versions for model "@ + name
}

/// The reply to a get request.
pub open spec fn get_reply(result: GetResult, message: Seq<char>, manifest: Option<ManifestView>) -> ActionView {
    ActionView::Reply { reply: ReplyView::Get { result, message, manifest } }
}

/// The reply to a request for the versions of a model.
pub open spec fn versions_reply(
    result: GetResult,
    message: Seq<char>,
    versions: Seq<VersionInfoView>,
) -> ActionView {
    ActionView::Reply { reply: ReplyView::Versions { result, message, versions } }
}

/// The versions of `model`, oldest first, each with the mark of the deployed
/// one.
pub open spec fn version_infos(model: StoredManifestView) -> Seq<VersionInfoView> {
    Seq::new(
        model.versions.len(),
        |i: int|
            VersionInfoView {
                version: model.versions[i].version,
                deployed: model.deployed_version == Some(model.versions[i].version),
            },
    )
}

/// The step after a get request with the body `request` came in for the
/// model `name`.
pub open spec fn get_requested(name: Seq<char>, request: Result<Option<Seq<char>>, Seq<char>>) -> (
    GetStateView,
    ActionView,
) {
    match request {
        Ok(version) => (GetStateView::AwaitModel { version }, ActionView::Fetch { name }),
        Err(reason) => (GetStateView::Done, error_reply(msg_bad_get_request(reason))),
    }
}

/// The reply once the model `name` is read: the manifest of `version`, or,
/// without a version, the newest manifest.
pub open spec fn get_fetched(name: Seq<char>, version: Option<Seq<char>>, model: StoredManifestView) -> ActionView {
    match version {
        Some(v) => match model.get_version(v) {
            Some(manifest) => get_reply(
                GetResult::Success,
                msg_fetched_version(name, v),
                Some(manifest),
            ),
            None => get_reply(GetResult::NotFound, msg_no_such_version(name, v), None),
        },
        None => get_reply(GetResult::Success, msg_fetched(name), Some(model.versions.last())),
    }
}

/// What a get step asks of its input: a stored model of which the newest
/// version is wanted has a version.
pub open spec fn get_ready(state: GetStateView, event: EventView) -> bool {
    state matches GetStateView::AwaitModel { version: None } ==> (event matches EventView::Fetched {
        model,
        ..
    } ==> model.versions.len() > 0)
}

/// One step of a get request for the model `name`: the state after `event`,
/// and what is to be done next.
pub open spec fn get_step(name: Seq<char>, state: GetStateView, event: EventView) -> (
    GetStateView,
    ActionView,
) {
    match state {
        GetStateView::Start => match event {
            EventView::Request { payload } => get_requested(
                name,
                if payload.len() == 0 {
                    Ok(None)
                } else {
                    get_request_of(payload)
                },
            ),
            _ => (GetStateView::Start, ActionView::Idle),
        },
        GetStateView::AwaitModel { version } => match event {
            EventView::Fetched { model, revision } => (
                GetStateView::Done,
                get_fetched(name, version, model),
            ),
            EventView::Absent => (
                GetStateView::Done,
                get_reply(GetResult::NotFound, msg_not_found(name), None),
            ),
            _ => (GetStateView::Done, error_reply(STORAGE_ERROR@)),
        },
        GetStateView::Done => (GetStateView::Done, ActionView::Idle),
    }
}

/// One step of a request for the versions of the model `name`: the state
/// after `event`, and what is to be done next. The versions are listed in
/// the order in which they were put.
pub open spec fn versions_step(name: Seq<char>, state: VersionsState, event: EventView) -> (
    VersionsState,
    ActionView,
) {
    match state {
        VersionsState::Start => match event {
            EventView::Request { payload } => (
                VersionsState::AwaitModel,
                ActionView::Fetch { name },
            ),
            _ => (VersionsState::Start, ActionView::Idle),
        },
        VersionsState::AwaitModel => match event {
            EventView::Fetched { model, revision } => (
                VersionsState::Done,
                versions_reply(GetResult::Success, msg_fetched_versions(name), version_infos(model)),
            ),
            EventView::Absent => (
                VersionsState::Done,
                versions_reply(GetResult::NotFound, msg_not_found(name), Seq::empty()),
            ),
            _ => (VersionsState::Done, error_reply(STORAGE_ERROR@)),
        },
        VersionsState::Done => (VersionsState::Done, ActionView::Idle),
    }
}

/// Lists the versions of `model` with the mark of the deployed one.
fn version_infos_of(model: &StoredManifest) -> (res: Vec<VersionInfo>)
    ensures
        res.deep_view() == version_infos(model@),
{
    let versions = model.all_versions();
    let mut out: Vec<VersionInfo> = Vec::new();
    let mut i: usize = 0;
    assert(versions.deep_view().len() == model@.versions.len());
    while i < versions.len()
        invariant
            i <= versions.len(),
            versions.len() == model@.versions.len(),
            versions.deep_view() == model@.version_strings(),
            out.len() == i,
            forall|k: int| 0 <= k < i ==> (#[trigger] out[k])@ == version_infos(model@)[k],
        decreases versions.len() - i,
    {
        assert(model@.version_strings()[i as int] == model@.versions[i as int].version);
        assert(versions.deep_view()[i as int] == versions[i as int]@);
        let deployed = model.is_deployed(versions[i].as_str());
        out.push(VersionInfo { version: versions[i].clone(), deployed });
        i += 1;
    }
    assert(out.deep_view() =~= version_infos(model@));
    out
}

impl Handler {
    /// The step after a get request with the body `request` came in for the
    /// model `name`.
    pub fn get_requested(name: &str, request: VersionRequest) -> (res: (GetState, Action))
        ensures
            (res.0@, res.1@) == get_requested(name@, request_view(request)),
    {
        match request {
            Ok(version) => (
                GetState::AwaitModel { version },
                Action::Fetch { name: String::from_str(name) },
            ),
            Err(reason) => {
                let mut message = String::from_str("Unable to parse get model request: ");
                message.append(reason.as_str());
                (GetState::Done, Action::Reply { reply: Reply::Error { message } })
            },
        }
    }

    /// Handles a request to get a manifest of the model `name`, step by
    /// step: that of the version that the request names, or the newest.
    pub fn get_model(&self, name: &str, state: GetState, event: Event) -> (res: (GetState, Action))
        requires
            get_ready(state@, event@),
        ensures
            (res.0@, res.1@) == get_step(name@, state@, event@),
    {
        match state {
            GetState::Start => match event {
                Event::Request { payload } => {
                    let request = if payload.len() == 0 {
                        Ok(None)
                    } else {
                        decode_get_request(payload.as_slice())
                    };
                    Self::get_requested(name, request)
                },
                _ => (GetState::Start, Action::Idle),
            },
            GetState::AwaitModel { version } => match event {
                Event::Fetched { model, revision: _ } => {
                    let reply = match version {
                        Some(v) => match model.get_version(v.as_str()) {
                            Some(manifest) => {
                                let mut message = String::from_str("Successfully fetched model ");
                                message.append(name);
                                message.append(" ");
                                message.append(v.as_str());
                                Reply::Get {
                                    result: GetResult::Success,
                                    message,
                                    manifest: Some(manifest.clone()),
                                }
                            },
                            None => {
                                let mut message = String::from_str("Model ");
                                message.append(name);
                                message.append(" with version ");
                                message.append(v.as_str());
                                message.append(" doesn't exist");
                                Reply::Get { result: GetResult::NotFound, message, manifest: None }
                            },
                        },
                        None => {
                            let mut message = String::from_str("Successfully fetched model ");
                            message.append(name);
                            Reply::Get {
                                result: GetResult::Success,
                                message,
                                manifest: Some(model.get_current().clone()),
                            }
                        },
                    };
                    (GetState::Done, Action::Reply { reply })
                },
                Event::Absent => (
                    GetState::Done,
                    Action::Reply {
                        reply: Reply::Get {
                            result: GetResult::NotFound,
                            message: not_found_message(name),
                            manifest: None,
                        },
                    },
                ),
                _ => (GetState::Done, storage_error()),
            },
            GetState::Done => (GetState::Done, Action::Idle),
        }
    }

    /// Handles a request for the versions of the model `name`, step by step.
    pub fn list_versions(&self, name: &str, state: VersionsState, event: Event) -> (res: (
        VersionsState,
        Action,
    ))
        ensures
            (res.0, res.1@) == versions_step(name@, state, event@),
    {
        match state {
            VersionsState::Start => match event {
                Event::Request { payload: _ } => (
                    VersionsState::AwaitModel,
                    Action::Fetch { name: String::from_str(name) },
                ),
                _ => (VersionsState::Start, Action::Idle),
            },
            VersionsState::AwaitModel => match event {
                Event::Fetched { model, revision: _ } => {
                    let mut message = String::from_str("Successfully fetched versions for model ");
                    message.append(name);
                    (
                        VersionsState::Done,
                        Action::Reply {
                            reply: Reply::Versions {
                                result: GetResult::Success,
                                message,
                                versions: version_infos_of(&model),
                            },
                        },
                    )
                },
                Event::Absent => {
                    let versions: Vec<VersionInfo> = Vec::new();
                    assert(versions.deep_view() =~= Seq::empty());
                    (
                        VersionsState::Done,
                        Action::Reply {
                            reply: Reply::Versions {
                                result: GetResult::NotFound,
                                message: not_found_message(name),
                                versions,
                            },
                        },
                    )
                },
                _ => (VersionsState::Done, storage_error()),
            },
            VersionsState::Done => (VersionsState::Done, Action::Idle),
        }
    }
}

} // verus!
