use vstd::prelude::*;
use crate::api::{error_reply, Action, ActionView, Event, EventView, PutResult, Reply, ReplyView};
use crate::codec::{debug_text, debug_text_of, trimmed, trimmed_of};
use crate::handler::{storage_error, Handler, STORAGE_ERROR};
use crate::manifest::{Manifest, ManifestView};
use crate::schema::{schema_findings_of, Schema};
use crate::stored::{StoredManifest, StoredManifestView};
use crate::text::{join, joined};
use crate::validation::{
    is_valid_manifest_name, manifest_name, validate_manifest, validation_error, version_errors,
    version_faults, ValidationError,
};

verus! {

/// How far a put request has come.
#[allow(inconsistent_fields)]
#[derive(PartialEq, Eq, Debug)]
pub enum PutState {
    /// The request has not come in.
    Start,
    /// The model that `manifest` names is being read, to take the manifest
    /// as a new version.
    AwaitModel { manifest: Manifest },
    /// The model is being written; the reply is made already.
    AwaitStore {
        result: PutResult,
        name: String,
        current_version: String,
        total_versions: usize,
        message: String,
    },
    /// The request is answered.
    Done,
}

/// A `PutState` as a mathematical value.
#[allow(inconsistent_fields)]
pub enum PutStateView {
    Start,
    AwaitModel { manifest: ManifestView },
    AwaitStore {
        result: PutResult,
        name: Seq<char>,
        current_version: Seq<char>,
        total_versions: nat,
        message: Seq<char>,
    },
    Done,
}

impl View for PutState {
    type V = PutStateView;

    open spec fn view(&self) -> PutStateView {
        match self {
            PutState::Start => PutStateView::Start,
            PutState::AwaitModel { manifest } => PutStateView::AwaitModel { manifest: manifest@ },
            PutState::AwaitStore { result, name, current_version, total_versions, message } => {
                PutStateView::AwaitStore {
                    result: *result,
                    name: name@,
                    current_version: current_version@,
                    total_versions: *total_versions as nat,
                    message: message@,
                }
            },
            PutState::Done => PutStateView::Done,
        }
    }
}

/// The notation of the payload of a put request.
#[derive(Clone, Copy, PartialEq, Eq, Structural, Debug)]
pub enum PayloadFormat {
    Json,
    Yaml,
}

/// The content type that announces a payload in YAML.
pub const YAML_CONTENT_TYPE: &'static str = "application/yaml";

/// The notation of a payload that was sent with the content type
/// `content_type`: YAML where the type says so, and JSON else.
pub open spec fn format_of(content_type: Option<Seq<char>>) -> PayloadFormat {
    if content_type == Some(YAML_CONTENT_TYPE@) {
        PayloadFormat::Yaml
    } else {
        PayloadFormat::Json
    }
}

/// Decides in which notation the payload of a put request is to be read.
pub fn payload_format(content_type: Option<&str>) -> (res: PayloadFormat)
    ensures
        res == format_of(content_type.deep_view()),
{
    match content_type {
        Some(given) => {
            if String::from_str(given) == String::from_str(YAML_CONTENT_TYPE) {
                PayloadFormat::Yaml
            } else {
                PayloadFormat::Json
            }
        },
        None => PayloadFormat::Json,
    }
}

/// That the payload of a put request is no manifest, and why.
pub open spec fn msg_bad_manifest(reason: Seq<char>) -> Seq<char> {
    "Unable to parse manifest: "@ + reason
}

/// That the version of a manifest is refused, with the reasons.
pub open spec fn msg_bad_version(faults: Seq<Seq<char>>) -> Seq<char> {
    "invalid manifest version, errors: "@ + debug_text_of(joined(faults, "\n"@))
}

/// That the name of a manifest is refused.
pub open spec fn msg_bad_name(name: Seq<char>) -> Seq<char> {
    "Manifest name "@ + name
        + " contains invalid characters. Manifest names can only contain alphanumeric characters, dashes, and underscores."@
}

/// That the model has the version already.
pub open spec fn msg_version_exists(version: Seq<char>) -> Seq<char> {
    "Manifest version "@ + version + " already exists"@
}

/// That the manifest was taken as `version` of the model `name`.
pub open spec fn msg_put(name: Seq<char>, version: Seq<char>) -> Seq<char> {
    "Successfully put manifest "@ + name + " "@ + version
}

/// The step after a put request with `manifest` came in, `name` being the
/// manifest's name without the white space around it. The request is refused
/// where the version is not allowed, where `name` is no manifest name, and
/// where the manifest's name has white space around it, so that it is not
/// the name under which the model is kept; else the model of that name is
/// read.
pub open spec fn put_named(manifest: ManifestView, name: Seq<char>) -> (PutStateView, ActionView) {
    if version_faults(manifest.version).len() > 0 {
        (PutStateView::Done, error_reply(msg_bad_version(version_faults(manifest.version))))
    } else if !manifest_name(name) {
        (PutStateView::Done, error_reply(msg_bad_name(name)))
    } else if manifest.name != name {
        (PutStateView::Done, error_reply(msg_bad_name(manifest.name)))
    } else {
        (PutStateView::AwaitModel { manifest }, ActionView::Fetch { name })
    }
}

/// What the manifest `m` breaks under `schema`, which is the text of the
/// schema, or the reason why there is no schema; that reason is then what
/// every manifest breaks.
pub open spec fn put_fault(schema: Result<Seq<char>, Seq<char>>, m: ManifestView) -> Option<
    Seq<char>,
> {
    match schema {
        Ok(text) => validation_error(m, schema_findings_of(text, m.document)),
        Err(reason) => Some(reason),
    }
}

/// The schema, or the reason why there is none, as a mathematical value.
pub open spec fn schema_view(schema: Result<Schema, String>) -> Result<Seq<char>, Seq<char>> {
    match schema {
        Ok(compiled) => Ok(compiled@),
        Err(reason) => Err(reason@),
    }
}

/// The step once the model that `manifest` names is read and the manifest is
/// validated, `fault` being what the manifest breaks. The request is refused
/// where the manifest breaks a rule or the model has its version already,
/// and the model is then not written. Else the model is written with the
/// manifest as its newest version.
pub open spec fn put_checked(
    manifest: ManifestView,
    model: StoredManifestView,
    revision: u64,
    fault: Option<Seq<char>>,
) -> (PutStateView, ActionView) {
    match fault {
        Some(message) => (PutStateView::Done, error_reply(message)),
        None => if model.has_version(manifest.version) {
            (PutStateView::Done, error_reply(msg_version_exists(manifest.version)))
        } else {
            (
                PutStateView::AwaitStore {
                    result: if model.versions.len() == 0 {
                        PutResult::Created
                    } else {
                        PutResult::NewVersion
                    },
                    name: manifest.name,
                    current_version: manifest.version,
                    total_versions: model.versions.len() + 1,
                    message: msg_put(manifest.name, manifest.version),
                },
                ActionView::Store { model: model.add_version(manifest), revision },
            )
        },
    }
}

/// One step of a put request, with manifests held to `schema`: the state
/// after `event`, and what is to be done next.
pub open spec fn put_step(
    schema: Result<Seq<char>, Seq<char>>,
    state: PutStateView,
    event: EventView,
) -> (PutStateView, ActionView) {
    match state {
        PutStateView::Start => match event {
            EventView::Manifest { manifest } => put_named(manifest, trimmed_of(manifest.name)),
            EventView::Unparsed { reason } => (
                PutStateView::Done,
                error_reply(msg_bad_manifest(reason)),
            ),
            _ => (PutStateView::Start, ActionView::Idle),
        },
        PutStateView::AwaitModel { manifest } => match event {
            EventView::Fetched { model, revision } => put_checked(
                manifest,
                model,
                revision,
                put_fault(schema, manifest),
            ),
            EventView::Absent => put_checked(
                manifest,
                StoredManifestView::empty(),
                0,
                put_fault(schema, manifest),
            ),
            _ => (PutStateView::Done, error_reply(STORAGE_ERROR@)),
        },
        PutStateView::AwaitStore { result, name, current_version, total_versions, message } => {
            match event {
                EventView::Stored => (
                    PutStateView::Done,
                    ActionView::Reply {
                        reply: ReplyView::Put {
                            result,
                            name,
                            current_version,
                            total_versions,
                            message,
                        },
                    },
                ),
                _ => (PutStateView::Done, error_reply(STORAGE_ERROR@)),
            }
        },
        PutStateView::Done => (PutStateView::Done, ActionView::Idle),
    }
}

impl Handler {
    /// The step after a put request with `manifest` came in, `name` being
    /// the manifest's name without the white space around it.
    pub fn put_named(manifest: Manifest, name: String) -> (res: (PutState, Action))
        ensures
            (res.0@, res.1@) == put_named(manifest@, name@),
    {
        let faults = version_errors(manifest.version.as_str());
        if faults.len() > 0 {
            let mut message = String::from_str("invalid manifest version, errors: ");
            message.append(debug_text(join(&faults, "\n").as_str()).as_str());
            return (PutState::Done, Action::Reply { reply: Reply::Error { message } });
        }
        if !is_valid_manifest_name(name.as_str()) {
            return (PutState::Done, Action::Reply { reply: Reply::Error { message: bad_name(&name) } });
        }
        if manifest.name != name {
            return (
                PutState::Done,
                Action::Reply { reply: Reply::Error { message: bad_name(&manifest.name) } },
            );
        }
        (PutState::AwaitModel { manifest }, Action::Fetch { name })
    }

    /// The step once the model that `manifest` names is read and the
    /// manifest is validated, with `verdict` as the outcome of the
    /// validation.
    pub fn put_checked(
        manifest: Manifest,
        model: StoredManifest,
        revision: u64,
        verdict: Result<(), ValidationError>,
    ) -> (res: (PutState, Action))
        ensures
            (res.0@, res.1@) == put_checked(
                manifest@,
                model@,
                revision,
                match verdict {
                    Ok(_) => None,
                    Err(e) => Some(e.message@),
                },
            ),
    {
        match verdict {
            Err(e) => {
                return (PutState::Done, Action::Reply { reply: Reply::Error { message: e.message } });
            },
            Ok(_) => {},
        }
        let mut model = model;
        let result = if model.is_empty() {
            PutResult::Created
        } else {
            PutResult::NewVersion
        };
        let name = manifest.name.clone();
        let current_version = manifest.version.clone();
        let mut message = String::from_str("Successfully put manifest ");
        message.append(name.as_str());
        message.append(" ");
        message.append(current_version.as_str());
        if !model.add_version(manifest) {
            let mut message = String::from_str("Manifest version ");
            message.append(current_version.as_str());
            message.append(" already exists");
            return (PutState::Done, Action::Reply { reply: Reply::Error { message } });
        }
        let total_versions = model.count();
        (
            PutState::AwaitStore { result, name, current_version, total_versions, message },
            Action::Store { model, revision },
        )
    }

    /// Judges `manifest` under `schema`; without a schema, the reason why
    /// there is none is what the manifest breaks.
    fn put_verdict(schema: &Result<Schema, String>, manifest: &Manifest) -> (res: Result<
        (),
        ValidationError,
    >)
        ensures
            put_fault(schema_view(*schema), manifest@) == match res {
                Ok(_) => None,
                Err(e) => Some(e.message@),
            },
    {
        match schema {
            Ok(compiled) => validate_manifest(compiled, manifest),
            Err(reason) => Err(ValidationError { message: reason.clone() }),
        }
    }

    /// Handles a request to put a manifest, step by step. The manifest is
    /// refused where its version or its name is not allowed, where it breaks
    /// `schema` or another rule of validation, and where the model has its
    /// version already; the model is then not written. Else it becomes the
    /// newest version of the model that is named after it, and the reply
    /// says whether that created the model. `schema` is the compiled schema,
    /// or the reason why it could not be compiled, which is then reported
    /// for every manifest that comes as far as validation.
    pub fn put_model(&self, schema: &Result<Schema, String>, state: PutState, event: Event) -> (res: (
        PutState,
        Action,
    ))
        ensures
            (res.0@, res.1@) == put_step(schema_view(*schema), state@, event@),
    {
        match state {
            PutState::Start => match event {
                Event::Manifest { manifest } => {
                    let name = trimmed(manifest.name.as_str());
                    Self::put_named(manifest, name)
                },
                Event::Unparsed { reason } => {
                    let mut message = String::from_str("Unable to parse manifest: ");
                    message.append(reason.as_str());
                    (PutState::Done, Action::Reply { reply: Reply::Error { message } })
                },
                _ => (PutState::Start, Action::Idle),
            },
            PutState::AwaitModel { manifest } => match event {
                Event::Fetched { model, revision } => {
                    let verdict = Self::put_verdict(schema, &manifest);
                    Self::put_checked(manifest, model, revision, verdict)
                },
                Event::Absent => {
                    let verdict = Self::put_verdict(schema, &manifest);
                    Self::put_checked(manifest, StoredManifest::new(), 0, verdict)
                },
                _ => (PutState::Done, storage_error()),
            },
            PutState::AwaitStore { result, name, current_version, total_versions, message } => {
                match event {
                    Event::Stored => (
                        PutState::Done,
                        Action::Reply {
                            reply: Reply::Put {
                                result,
                                name,
                                current_version,
                                total_versions,
                                message,
                            },
                        },
                    ),
                    _ => (PutState::Done, storage_error()),
                }
            },
            PutState::Done => (PutState::Done, Action::Idle),
        }
    }
}

/// Writes `msg_bad_name`.
fn bad_name(name: &String) -> (res: String)
    ensures
        res@ == msg_bad_name(name@),
{
    let mut message = String::from_str("Manifest name ");
    message.append(name.as_str());
    message.append(
        " contains invalid characters. Manifest names can only contain alphanumeric characters, dashes, and underscores.",
    );
    message
}

} // verus!
