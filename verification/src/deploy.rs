use vstd::prelude::*;
use crate::api::{
    error_reply, Action, ActionView, DeployResult, Event, EventView, ModelSummary,
    ModelSummaryView, Reply, ReplyView,
};
use crate::codec::{decode_deploy_request, deploy_request_of, request_view, VersionRequest};
use crate::handler::{msg_not_found, not_found_message, storage_error, Handler, STORAGE_ERROR};
use crate::image::{image_ref, parse_image_ref};
use crate::manifest::{Component, ComponentKind, ComponentView, Manifest, ManifestView};
use crate::stored::{StoredManifest, StoredManifestView};

verus! {

/// A provider image that a deployed manifest of the lattice uses.
#[derive(PartialEq, Eq, Debug)]
pub struct ProviderRef {
    pub repository: String,
    pub version: String,
    /// The name of the model whose deployed manifest uses the image.
    pub source: String,
}

/// A `ProviderRef` as a mathematical value.
pub struct ProviderRefView {
    pub repository: Seq<char>,
    pub version: Seq<char>,
    pub source: Seq<char>,
}

impl View for ProviderRef {
    type V = ProviderRefView;

    open spec fn view(&self) -> ProviderRefView {
        ProviderRefView {
            repository: self.repository@,
            version: self.version@,
            source: self.source@,
        }
    }
}

impl DeepView for ProviderRef {
    type V = ProviderRefView;

    open spec fn deep_view(&self) -> ProviderRefView {
        self@
    }
}

/// How far a deploy request has come.
#[allow(inconsistent_fields)]
#[derive(PartialEq, Eq, Debug)]
pub enum DeployState {
    /// The request has not come in.
    Start,
    /// The model is being read.
    AwaitModel { version: Option<String> },
    /// The models of the lattice are being listed.
    AwaitList { version: Option<String>, model: StoredManifest, revision: u64 },
    /// The model `peers[next]` is being read for the provider images of its
    /// deployed manifest; `refs` are those of the models before it.
    AwaitPeer {
        version: Option<String>,
        model: StoredManifest,
        revision: u64,
        peers: Vec<String>,
        next: usize,
        refs: Vec<ProviderRef>,
    },
    /// The model is being written with `manifest` deployed.
    AwaitStore { manifest: Manifest },
    /// The reconcilers are being told that `version` is deployed.
    AwaitNotify { version: String },
    /// The request is answered.
    Done,
}

/// A `DeployState` as a mathematical value.
#[allow(inconsistent_fields)]
pub enum DeployStateView {
    Start,
    AwaitModel { version: Option<Seq<char>> },
    AwaitList { version: Option<Seq<char>>, model: StoredManifestView, revision: u64 },
    AwaitPeer {
        version: Option<Seq<char>>,
        model: StoredManifestView,
        revision: u64,
        peers: Seq<Seq<char>>,
        next: nat,
        refs: Seq<ProviderRefView>,
    },
    AwaitStore { manifest: ManifestView },
    AwaitNotify { version: Seq<char> },
    Done,
}

impl View for DeployState {
    type V = DeployStateView;

    open spec fn view(&self) -> DeployStateView {
        match self {
            DeployState::Start => DeployStateView::Start,
            DeployState::AwaitModel { version } => DeployStateView::AwaitModel {
                version: version.deep_view(),
            },
            DeployState::AwaitList { version, model, revision } => DeployStateView::AwaitList {
                version: version.deep_view(),
                model: model@,
                revision: *revision,
            },
            DeployState::AwaitPeer { version, model, revision, peers, next, refs } => {
                DeployStateView::AwaitPeer {
                    version: version.deep_view(),
                    model: model@,
                    revision: *revision,
                    peers: peers.deep_view(),
                    next: *next as nat,
                    refs: refs.deep_view(),
                }
            },
            DeployState::AwaitStore { manifest } => DeployStateView::AwaitStore {
                manifest: manifest@,
            },
            DeployState::AwaitNotify { version } => DeployStateView::AwaitNotify {
                version: version@,
            },
            DeployState::Done => DeployStateView::Done,
        }
    }
}

/// What a reply says where the reconcilers could not be told of a deploy.
pub const DEPLOY_NOTIFY_ERROR: &'static str =
    "Error notifying processors of newly deployed manifest. This is likely a transient error, so please retry the request";

/// That the body of a deploy request could not be read, and why.
pub open spec fn msg_bad_deploy_request(reason: Seq<char>) -> Seq<char> {
    "Unable to parse deploy model request: "@ + reason
}

/// That the model `name` has not the version that was to be deployed.
pub open spec fn msg_no_version(name: Seq<char>) -> Seq<char> {
    "Model with the name "@ + name + " does not have the specified version to deploy"@
}

/// That the provider `image` is deployed in another version by the model
/// `source`.
pub open spec fn msg_conflict(image: Seq<char>, source: Seq<char>) -> Seq<char> {
    "Provider "@ + image + " is already deployed with a different version in "@ + source + "."@
}

/// That `version` of the model `name` was deployed.
pub open spec fn msg_deployed(name: Seq<char>, version: Seq<char>) -> Seq<char> {
    "Successfully deployed model "@ + name + " "@ + version
}

/// The reply to a deploy or undeploy request.
pub open spec fn deploy_reply(result: DeployResult, message: Seq<char>) -> ActionView {
    ActionView::Reply { reply: ReplyView::Deploy { result, message } }
}

/// The names of the listed models that have a deployed version, in the order
/// of the listing.
pub open spec fn deployed_names(models: Seq<ModelSummaryView>) -> Seq<Seq<char>>
    decreases models.len(),
{
    if models.len() == 0 {
        Seq::empty()
    } else {
        let before = deployed_names(models.drop_last());
        if models.last().deployed_version is Some {
            before.push(models.last().name)
        } else {
            before
        }
    }
}

/// The provider images among `components`, in their order: the image of each
/// capability whose image reference has a repository and a version.
pub open spec fn capability_refs(components: Seq<ComponentView>, source: Seq<char>) -> Seq<
    ProviderRefView,
>
    decreases components.len(),
{
    if components.len() == 0 {
        Seq::empty()
    } else {
        let before = capability_refs(components.drop_last(), source);
        let c = components.last();
        match image_ref(c.image) {
            Some(parts) if c.kind == ComponentKind::Capability => before.push(
                ProviderRefView { repository: parts.0, version: parts.1, source },
            ),
            _ => before,
        }
    }
}

/// The provider images that the model `peer` contributes to the admission of
/// a deploy of the model `name`: those of its deployed manifest, and none
/// where it is the model `name` itself.
pub open spec fn peer_refs(peer: StoredManifestView, name: Seq<char>) -> Seq<ProviderRefView> {
    if peer.name() != name {
        match peer.get_deployed() {
            Some(manifest) => capability_refs(manifest.components, peer.name()),
            None => Seq::empty(),
        }
    } else {
        Seq::empty()
    }
}

/// The entry of `refs` for `repository`: the last one, as a later entry
/// replaces an earlier one for the same repository.
pub open spec fn lookup_ref(refs: Seq<ProviderRefView>, repository: Seq<char>) -> Option<
    ProviderRefView,
>
    decreases refs.len(),
{
    if refs.len() == 0 {
        None
    } else if refs.last().repository == repository {
        Some(refs.last())
    } else {
        lookup_ref(refs.drop_last(), repository)
    }
}

/// What speaks against deploying the component `c` beside `refs`: it is a
/// capability whose image is deployed in another version.
pub open spec fn component_conflict(c: ComponentView, refs: Seq<ProviderRefView>) -> Option<
    Seq<char>,
> {
    match image_ref(c.image) {
        Some(parts) if c.kind == ComponentKind::Capability => match lookup_ref(refs, parts.0) {
            Some(existing) if existing.version != parts.1 => Some(
                msg_conflict(c.image, existing.source),
            ),
            _ => None,
        },
        _ => None,
    }
}

/// The conflict of the first component from `start` on that has one.
pub open spec fn conflict_from(
    components: Seq<ComponentView>,
    refs: Seq<ProviderRefView>,
    start: int,
) -> Option<Seq<char>>
    decreases components.len() - start,
{
    if start < 0 || start >= components.len() {
        None
    } else {
        match component_conflict(components[start], refs) {
            Some(message) => Some(message),
            None => conflict_from(components, refs, start + 1),
        }
    }
}

/// The step after a deploy request with the body `request` came in for the
/// model `name`.
pub open spec fn deploy_requested(name: Seq<char>, request: Result<Option<Seq<char>>, Seq<char>>) -> (
    DeployStateView,
    ActionView,
) {
    match request {
        Ok(version) => (DeployStateView::AwaitModel { version }, ActionView::Fetch { name }),
        Err(reason) => (DeployStateView::Done, error_reply(msg_bad_deploy_request(reason))),
    }
}

/// The step once the provider images of the models before `peers[next]` are
/// known: the next model is read, or, after the last, the deploy is admitted
/// or refused.
pub open spec fn deploy_scan(
    name: Seq<char>,
    version: Option<Seq<char>>,
    model: StoredManifestView,
    revision: u64,
    peers: Seq<Seq<char>>,
    next: nat,
    refs: Seq<ProviderRefView>,
) -> (DeployStateView, ActionView) {
    if next < peers.len() {
        (
            DeployStateView::AwaitPeer { version, model, revision, peers, next, refs },
            ActionView::Fetch { name: peers[next as int] },
        )
    } else {
        deploy_admit(name, version, model, revision, refs)
    }
}

/// The step once all provider images of the lattice are known. The deploy is
/// refused where the model has not the version, or where a capability of the
/// manifest uses an image that `refs` has in another version. Else the model
/// is written with the version deployed.
pub open spec fn deploy_admit(
    name: Seq<char>,
    version: Option<Seq<char>>,
    model: StoredManifestView,
    revision: u64,
    refs: Seq<ProviderRefView>,
) -> (DeployStateView, ActionView) {
    if !model.can_deploy(version) {
        (DeployStateView::Done, deploy_reply(DeployResult::Error, msg_no_version(name)))
    } else {
        let staged = model.get_version(model.deploy_target(version)->0)->0;
        match conflict_from(staged.components, refs, 0) {
            Some(message) => (DeployStateView::Done, error_reply(message)),
            None => (
                DeployStateView::AwaitStore { manifest: staged },
                ActionView::Store { model: model.deploy(version), revision },
            ),
        }
    }
}

/// One step of a deploy request for the model `name`: the state after
/// `event`, and what is to be done next.
pub open spec fn deploy_step(name: Seq<char>, state: DeployStateView, event: EventView) -> (
    DeployStateView,
    ActionView,
) {
    match state {
        DeployStateView::Start => match event {
            EventView::Request { payload } => deploy_requested(
                name,
                if payload.len() == 0 {
                    Ok(None)
                } else {
                    deploy_request_of(payload)
                },
            ),
            _ => (DeployStateView::Start, ActionView::Idle),
        },
        DeployStateView::AwaitModel { version } => match event {
            EventView::Fetched { model, revision } => (
                DeployStateView::AwaitList { version, model, revision },
                ActionView::List,
            ),
            EventView::Absent => (
                DeployStateView::Done,
                deploy_reply(DeployResult::NotFound, msg_not_found(name)),
            ),
            _ => (DeployStateView::Done, error_reply(STORAGE_ERROR@)),
        },
        DeployStateView::AwaitList { version, model, revision } => match event {
            EventView::Listed { models } => if model.can_deploy(version) {
                deploy_scan(
                    name,
                    version,
                    model,
                    revision,
                    deployed_names(models),
                    0,
                    Seq::empty(),
                )
            } else {
                (DeployStateView::Done, deploy_reply(DeployResult::Error, msg_no_version(name)))
            },
            _ => (DeployStateView::Done, error_reply(STORAGE_ERROR@)),
        },
        DeployStateView::AwaitPeer { version, model, revision, peers, next, refs } => {
            let after = if next < peers.len() {
                next + 1
            } else {
                next
            };
            match event {
                EventView::Fetched { model: peer, revision: _ } => deploy_scan(
                    name,
                    version,
                    model,
                    revision,
                    peers,
                    after as nat,
                    refs + peer_refs(peer, name),
                ),
                EventView::Absent => deploy_scan(
                    name,
                    version,
                    model,
                    revision,
                    peers,
                    after as nat,
                    refs,
                ),
                _ => (DeployStateView::Done, error_reply(STORAGE_ERROR@)),
            }
        },
        DeployStateView::AwaitStore { manifest } => match event {
            EventView::Stored => (
                DeployStateView::AwaitNotify { version: manifest.version },
                ActionView::NotifyDeployed { manifest },
            ),
            _ => (DeployStateView::Done, deploy_reply(DeployResult::Error, STORAGE_ERROR@)),
        },
        DeployStateView::AwaitNotify { version } => match event {
            EventView::Notified => (
                DeployStateView::Done,
                deploy_reply(DeployResult::Acknowledged, msg_deployed(name, version)),
            ),
            _ => (DeployStateView::Done, deploy_reply(DeployResult::Error, DEPLOY_NOTIFY_ERROR@)),
        },
        DeployStateView::Done => (DeployStateView::Done, ActionView::Idle),
    }
}

/// Writes `msg_no_version`.
fn no_version_message(name: &str) -> (res: String)
    ensures
        res@ == msg_no_version(name@),
{
    let mut message = String::from_str("Model with the name ");
    message.append(name);
    message.append(" does not have the specified version to deploy");
    message
}

/// Writes `msg_conflict`.
fn conflict_message(image: &str, source: &str) -> (res: String)
    ensures
        res@ == msg_conflict(image@, source@),
{
    let mut message = String::from_str("Provider ");
    message.append(image);
    message.append(" is already deployed with a different version in ");
    message.append(source);
    message.append(".");
    message
}

/// Collects the names of the listed models that have a deployed version.
fn deployed_names_of(models: &Vec<ModelSummary>) -> (res: Vec<String>)
    ensures
        res.deep_view() == deployed_names(models.deep_view()),
{
    let ghost all = models.deep_view();
    let mut out: Vec<String> = Vec::new();
    let mut i: usize = 0;
    assert(all.take(0) =~= Seq::empty());
    assert(out.deep_view() =~= Seq::empty());
    while i < models.len()
        invariant
            i <= models.len(),
            all == models.deep_view(),
            out.deep_view() == deployed_names(all.take(i as int)),
        decreases models.len() - i,
    {
        let ghost before = out.deep_view();
        assert(all.take(i + 1).drop_last() =~= all.take(i as int));
        assert(all.take(i + 1).last() == models[i as int]@);
        if models[i].deployed_version.is_some() {
            out.push(models[i].name.clone());
            assert(out.deep_view() =~= before.push(models[i as int]@.name));
        }
        i += 1;
    }
    assert(all.take(i as int) =~= all);
    out
}

/// Appends to `refs` the provider images among `components`.
fn push_capability_refs(refs: &mut Vec<ProviderRef>, components: &Vec<Component>, source: &str)
    ensures
        final(refs).deep_view() == old(refs).deep_view() + capability_refs(
            components.deep_view(),
            source@,
        ),
{
    let ghost all = components.deep_view();
    let ghost base = refs.deep_view();
    let mut i: usize = 0;
    assert(all.take(0) =~= Seq::empty());
    assert(refs.deep_view() =~= base + capability_refs(all.take(0), source@));
    while i < components.len()
        invariant
            i <= components.len(),
            all == components.deep_view(),
            refs.deep_view() == base + capability_refs(all.take(i as int), source@),
        decreases components.len() - i,
    {
        let ghost before = refs.deep_view();
        let ghost found = capability_refs(all.take(i as int), source@);
        assert(all.take(i + 1).drop_last() =~= all.take(i as int));
        assert(all.take(i + 1).last() == components[i as int]@);
        let c = &components[i];
        match c.kind {
            ComponentKind::Capability => {
                match parse_image_ref(c.image.as_str()) {
                    Some((repository, version)) => {
                        let entry = ProviderRef {
                            repository,
                            version,
                            source: String::from_str(source),
                        };
                        refs.push(entry);
                        assert(refs.deep_view() =~= before.push(entry@));
                        assert(before.push(entry@) =~= base + found.push(entry@));
                    },
                    None => {},
                }
            },
            ComponentKind::Component => {},
        }
        i += 1;
    }
    assert(all.take(i as int) =~= all);
}

/// Appends to `refs` what the model `peer` contributes to the admission of a
/// deploy of the model `name`.
fn push_peer_refs(refs: &mut Vec<ProviderRef>, peer: &StoredManifest, name: &str)
    ensures
        final(refs).deep_view() == old(refs).deep_view() + peer_refs(peer@, name@),
{
    let ghost base = refs.deep_view();
    let peer_name = String::from_str(peer.name());
    let wanted = String::from_str(name);
    if peer_name != wanted {
        match peer.get_deployed() {
            Some(manifest) => {
                push_capability_refs(refs, &manifest.components, peer_name.as_str());
                return ;
            },
            None => {},
        }
    }
    assert(base + Seq::<ProviderRefView>::empty() =~= base);
}

/// Finds the entry of `refs` for `repository`.
fn find_ref<'a>(refs: &'a Vec<ProviderRef>, repository: &String) -> (res: Option<&'a ProviderRef>)
    ensures
        res.deep_view() == lookup_ref(refs.deep_view(), repository@),
{
    let ghost all = refs.deep_view();
    let mut i: usize = refs.len();
    assert(all.take(i as int) =~= all);
    while i > 0
        invariant
            i <= refs.len(),
            all == refs.deep_view(),
            lookup_ref(all, repository@) == lookup_ref(all.take(i as int), repository@),
        decreases i,
    {
        assert(all.take(i as int).drop_last() =~= all.take(i - 1));
        assert(all.take(i as int).last() == refs[i - 1]@);
        if refs[i - 1].repository == *repository {
            return Some(&refs[i - 1]);
        }
        i -= 1;
    }
    None
}

/// Finds what speaks against deploying `c` beside `refs`.
fn conflict_of(c: &Component, refs: &Vec<ProviderRef>) -> (res: Option<String>)
    ensures
        res.deep_view() == component_conflict(c@, refs.deep_view()),
{
    match c.kind {
        ComponentKind::Capability => match parse_image_ref(c.image.as_str()) {
            Some((repository, version)) => match find_ref(refs, &repository) {
                Some(existing) => {
                    if existing.version != version {
                        Some(conflict_message(c.image.as_str(), existing.source.as_str()))
                    } else {
                        None
                    }
                },
                None => None,
            },
            None => None,
        },
        ComponentKind::Component => None,
    }
}

/// Finds the conflict of the first of `components` that has one.
fn first_conflict(components: &Vec<Component>, refs: &Vec<ProviderRef>) -> (res: Option<String>)
    ensures
        res.deep_view() == conflict_from(components.deep_view(), refs.deep_view(), 0),
{
    let mut i: usize = 0;
    while i < components.len()
        invariant
            i <= components.len(),
            conflict_from(components.deep_view(), refs.deep_view(), 0) == conflict_from(
                components.deep_view(),
                refs.deep_view(),
                i as int,
            ),
        decreases components.len() - i,
    {
        match conflict_of(&components[i], refs) {
            Some(message) => {
                return Some(message);
            },
            None => {},
        }
        i += 1;
    }
    None
}

impl Handler {
    /// The step after a deploy request with the body `request` came in for
    /// the model `name`: the model is read, or the request is refused as
    /// unreadable.
    pub fn deploy_requested(name: &str, request: VersionRequest) -> (res: (DeployState, Action))
        ensures
            (res.0@, res.1@) == deploy_requested(name@, request_view(request)),
    {
        match request {
            Ok(version) => (
                DeployState::AwaitModel { version },
                Action::Fetch { name: String::from_str(name) },
            ),
            Err(reason) => {
                let mut message = String::from_str("Unable to parse deploy model request: ");
                message.append(reason.as_str());
                (DeployState::Done, Action::Reply { reply: Reply::Error { message } })
            },
        }
    }

    /// Admits or refuses the deploy once all provider images are known.
    fn deploy_admit(
        name: &str,
        version: Option<String>,
        model: StoredManifest,
        revision: u64,
        refs: Vec<ProviderRef>,
    ) -> (res: (DeployState, Action))
        ensures
            (res.0@, res.1@) == deploy_admit(
                name@,
                version.deep_view(),
                model@,
                revision,
                refs.deep_view(),
            ),
    {
        let mut model = model;
        let ghost before = model@;
        if !model.deploy(version) {
            return (
                DeployState::Done,
                Action::Reply {
                    reply: Reply::Deploy {
                        result: DeployResult::Error,
                        message: no_version_message(name),
                    },
                },
            );
        }
        let staged = match model.get_deployed() {
            Some(manifest) => manifest.clone(),
            None => {
                return (
                    DeployState::Done,
                    Action::Reply {
                        reply: Reply::Deploy {
                            result: DeployResult::Error,
                            message: no_version_message(name),
                        },
                    },
                );
            },
        };
        proof {
            let target = before.deploy_target(version.deep_view())->0;
            assert(model@.get_deployed() == before.get_version(target));
        }
        match first_conflict(&staged.components, &refs) {
            Some(message) => (DeployState::Done, Action::Reply { reply: Reply::Error { message } }),
            None => (DeployState::AwaitStore { manifest: staged }, Action::Store { model, revision }),
        }
    }

    /// Reads the next model of the lattice, or, after the last, admits or
    /// refuses the deploy.
    fn deploy_scan(
        name: &str,
        version: Option<String>,
        model: StoredManifest,
        revision: u64,
        peers: Vec<String>,
        next: usize,
        refs: Vec<ProviderRef>,
    ) -> (res: (DeployState, Action))
        ensures
            (res.0@, res.1@) == deploy_scan(
                name@,
                version.deep_view(),
                model@,
                revision,
                peers.deep_view(),
                next as nat,
                refs.deep_view(),
            ),
    {
        if next < peers.len() {
            let peer = peers[next].clone();
            (
                DeployState::AwaitPeer { version, model, revision, peers, next, refs },
                Action::Fetch { name: peer },
            )
        } else {
            Self::deploy_admit(name, version, model, revision, refs)
        }
    }

    /// Handles a request to deploy a version of the model `name`, step by
    /// step. The request names the version, or none, or `latest` for the
    /// newest. The deploy is refused where another model of the lattice has
    /// deployed a provider image of the manifest in another version. Once
    /// the model is written, the reconcilers are told, and the reply
    /// acknowledges.
    pub fn deploy_model(&self, name: &str, state: DeployState, event: Event) -> (res: (
        DeployState,
        Action,
    ))
        ensures
            (res.0@, res.1@) == deploy_step(name@, state@, event@),
    {
        match state {
            DeployState::Start => match event {
                Event::Request { payload } => {
                    let request = if payload.len() == 0 {
                        Ok(None)
                    } else {
                        decode_deploy_request(payload.as_slice())
                    };
                    Self::deploy_requested(name, request)
                },
                _ => (DeployState::Start, Action::Idle),
            },
            DeployState::AwaitModel { version } => match event {
                Event::Fetched { model, revision } => (
                    DeployState::AwaitList { version, model, revision },
                    Action::List,
                ),
                Event::Absent => (
                    DeployState::Done,
                    Action::Reply {
                        reply: Reply::Deploy {
                            result: DeployResult::NotFound,
                            message: not_found_message(name),
                        },
                    },
                ),
                _ => (DeployState::Done, storage_error()),
            },
            DeployState::AwaitList { version, model, revision } => match event {
                Event::Listed { models } => {
                    if model.can_deploy(&version) {
                        let peers = deployed_names_of(&models);
                        let refs: Vec<ProviderRef> = Vec::new();
                        assert(refs.deep_view() =~= Seq::empty());
                        Self::deploy_scan(name, version, model, revision, peers, 0, refs)
                    } else {
                        (
                            DeployState::Done,
                            Action::Reply {
                                reply: Reply::Deploy {
                                    result: DeployResult::Error,
                                    message: no_version_message(name),
                                },
                            },
                        )
                    }
                },
                _ => (DeployState::Done, storage_error()),
            },
            DeployState::AwaitPeer { version, model, revision, peers, next, refs } => {
                let after = if next < peers.len() {
                    next + 1
                } else {
                    next
                };
                match event {
                    Event::Fetched { model: peer, revision: _ } => {
                        let mut refs = refs;
                        push_peer_refs(&mut refs, &peer, name);
                        Self::deploy_scan(name, version, model, revision, peers, after, refs)
                    },
                    Event::Absent => Self::deploy_scan(
                        name,
                        version,
                        model,
                        revision,
                        peers,
                        after,
                        refs,
                    ),
                    _ => (DeployState::Done, storage_error()),
                }
            },
            DeployState::AwaitStore { manifest } => match event {
                Event::Stored => (
                    DeployState::AwaitNotify { version: manifest.version.clone() },
                    Action::NotifyDeployed { manifest },
                ),
                _ => (
                    DeployState::Done,
                    Action::Reply {
                        reply: Reply::Deploy {
                            result: DeployResult::Error,
                            message: String::from_str(STORAGE_ERROR),
                        },
                    },
                ),
            },
            DeployState::AwaitNotify { version } => match event {
                Event::Notified => {
                    let mut message = String::from_str("Successfully deployed model ");
                    message.append(name);
                    message.append(" ");
                    message.append(version.as_str());
                    (
                        DeployState::Done,
                        Action::Reply {
                            reply: Reply::Deploy { result: DeployResult::Acknowledged, message },
                        },
                    )
                },
                _ => (
                    DeployState::Done,
                    Action::Reply {
                        reply: Reply::Deploy {
                            result: DeployResult::Error,
                            message: String::from_str(DEPLOY_NOTIFY_ERROR),
                        },
                    },
                ),
            },
            DeployState::Done => (DeployState::Done, Action::Idle),
        }
    }
}

} // verus!
