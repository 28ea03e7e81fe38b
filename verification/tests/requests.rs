use std::collections::BTreeMap;

use wadm::api::{
    Action, DeleteResult, DeployResult, Event, GetResult, ModelSummary, PutResult, Reply, Status,
    StatusInfo, StatusResult, StatusType, VersionInfo,
};
use wadm::delete::DeleteState;
use wadm::deploy::DeployState;
use wadm::get::{GetState, VersionsState};
use wadm::handler::{Handler, Publication};
use wadm::manifest::{Component, ComponentKind, Manifest};
use wadm::put::{payload_format, PayloadFormat, PutState};
use wadm::schema::Schema;
use wadm::status::{subject_of, ListState, StatusState};
use wadm::stored::StoredManifest;
use wadm::undeploy::UndeployState;

const SCHEMA: &str = r#"{
  "$schema": "http://json-schema.org/draft-07/schema#",
  "type": "object",
  "required": ["metadata", "spec"]
}"#;

const LATTICE: &str = "default";

/// A store, a status log and reconcilers, all in memory.
struct Lattice {
    handler: Handler,
    store: BTreeMap<String, (StoredManifest, u64)>,
    statuses: BTreeMap<String, String>,
    deployed: Vec<(String, String)>,
    undeployed: Vec<String>,
    store_fails: bool,
    notifier_fails: bool,
    writes: usize,
}

impl Lattice {
    fn new() -> Self {
        Lattice {
            handler: Handler::new(),
            store: BTreeMap::new(),
            statuses: BTreeMap::new(),
            deployed: vec![],
            undeployed: vec![],
            store_fails: false,
            notifier_fails: false,
            writes: 0,
        }
    }

    fn summaries(&self) -> Vec<ModelSummary> {
        self.store
            .iter()
            .map(|(name, (model, _))| ModelSummary {
                name: name.clone(),
                version: model.current_version().to_string(),
                description: None,
                deployed_version: model.deployed_version().map(|v| v.to_string()),
                status: StatusType::Undeployed,
                status_message: None,
            })
            .collect()
    }

    fn perform(&mut self, action: Action) -> Result<Event, Reply> {
        Ok(match action {
            Action::Reply { reply } => return Err(reply),
            Action::Idle => panic!("nothing to do before the reply"),
            Action::Fetch { name } => {
                if self.store_fails {
                    Event::Failed
                } else {
                    match self.store.get(&name) {
                        Some((model, revision)) => {
                            Event::Fetched { model: model.clone(), revision: *revision }
                        }
                        None => Event::Absent,
                    }
                }
            }
            Action::List => {
                if self.store_fails {
                    Event::Failed
                } else {
                    Event::Listed { models: self.summaries() }
                }
            }
            Action::Store { model, revision } => {
                let current = self.store.get(model.name()).map(|row| row.1).unwrap_or(0);
                if self.store_fails || current != revision {
                    Event::Failed
                } else {
                    self.writes += 1;
                    self.store.insert(model.name().to_string(), (model, revision + 1));
                    Event::Stored
                }
            }
            Action::Delete { name } => {
                if self.store_fails {
                    Event::Failed
                } else {
                    self.writes += 1;
                    self.store.remove(&name);
                    Event::Deleted
                }
            }
            Action::NotifyDeployed { manifest } => {
                if self.notifier_fails {
                    Event::Failed
                } else {
                    self.deployed.push((manifest.name, manifest.version));
                    Event::Notified
                }
            }
            Action::NotifyUndeployed { name } => {
                if self.notifier_fails {
                    Event::Failed
                } else {
                    self.undeployed.push(name);
                    Event::Notified
                }
            }
            Action::ReadStatus { subject } => match self.statuses.get(&subject) {
                Some(payload) => Event::Status { payload: payload.clone() },
                None => Event::Failed,
            },
        })
    }

    fn drive<S>(
        &mut self,
        start: S,
        first: Event,
        step: impl Fn(&Handler, S, Event) -> (S, Action),
    ) -> (S, Reply) {
        let (mut state, mut action) = step(&self.handler, start, first);
        loop {
            match self.perform(action) {
                Err(reply) => return (state, reply),
                Ok(event) => {
                    let next = step(&self.handler, state, event);
                    state = next.0;
                    action = next.1;
                }
            }
        }
    }

    fn put(&mut self, manifest: Manifest) -> Reply {
        let schema = schema();
        let (state, reply) = self.drive(PutState::Start, Event::Manifest { manifest }, |h, s, e| {
            h.put_model(&schema, s, e)
        });
        assert_eq!(state, PutState::Done);
        reply
    }

    fn get(&mut self, name: &str, payload: &str) -> Reply {
        self.drive(GetState::Start, request(payload), |h, s, e| h.get_model(name, s, e)).1
    }

    fn versions(&mut self, name: &str) -> Reply {
        self.drive(VersionsState::Start, request(""), |h, s, e| h.list_versions(name, s, e)).1
    }

    fn delete(&mut self, name: &str, payload: &str) -> Reply {
        let (state, reply) = self
            .drive(DeleteState::Start, request(payload), |h, s, e| h.delete_model(name, s, e));
        assert_eq!(state, DeleteState::Done);
        reply
    }

    fn deploy(&mut self, name: &str, payload: &str) -> Reply {
        let (state, reply) = self
            .drive(DeployState::Start, request(payload), |h, s, e| h.deploy_model(name, s, e));
        assert_eq!(state, DeployState::Done);
        reply
    }

    fn undeploy(&mut self, name: &str, payload: &str) -> Reply {
        self.drive(UndeployState::Start, request(payload), |h, s, e| h.undeploy_model(name, s, e))
            .1
    }

    fn status(&mut self, name: &str) -> Reply {
        self.drive(StatusState::Start, request(""), |h, s, e| h.model_status(LATTICE, name, s, e))
            .1
    }

    fn list(&mut self) -> Reply {
        self.drive(ListState::Start, request(""), |h, s, e| h.list_models(LATTICE, s, e)).1
    }

    fn log_status(&mut self, name: &str, json: &str) {
        let payload = base64::Engine::encode(&base64::engine::general_purpose::STANDARD, json);
        self.statuses.insert(format!("wadm.status.{LATTICE}.{name}"), payload);
    }
}

fn schema() -> Result<Schema, String> {
    Ok(Schema::compile(SCHEMA).expect("the schema compiles"))
}

fn request(payload: &str) -> Event {
    Event::Request { payload: payload.as_bytes().to_vec() }
}

fn provider(name: &str, image: &str) -> Component {
    Component {
        name: name.to_string(),
        kind: ComponentKind::Capability,
        id: None,
        image: image.to_string(),
        link_targets: vec![],
    }
}

fn manifest_with(name: &str, version: &str, components: Vec<Component>) -> Manifest {
    Manifest {
        name: name.to_string(),
        version: version.to_string(),
        labels: vec![],
        annotations: vec![],
        components,
        document: format!(
            "{{\"metadata\":{{\"name\":\"{name}\",\"annotations\":{{\"version\":\"{version}\"}}}},\"spec\":{{\"components\":[]}}}}"
        ),
    }
}

fn manifest(name: &str, version: &str) -> Manifest {
    manifest_with(name, version, vec![])
}

fn error(message: &str) -> Reply {
    Reply::Error { message: message.to_string() }
}

fn deploy_reply(result: DeployResult, message: &str) -> Reply {
    Reply::Deploy { result, message: message.to_string() }
}

fn delete_reply(result: DeleteResult, message: &str, undeploy: bool) -> Reply {
    Reply::Delete { result, message: message.to_string(), undeploy }
}

#[test]
fn put_creates_a_model() {
    let mut lattice = Lattice::new();
    assert_eq!(
        lattice.put(manifest("app", "v1")),
        Reply::Put {
            result: PutResult::Created,
            name: "app".to_string(),
            current_version: "v1".to_string(),
            total_versions: 1,
            message: "Successfully put manifest app v1".to_string(),
        }
    );
    let (model, revision) = lattice.store.get("app").expect("the model is stored");
    assert_eq!(model.all_versions(), vec!["v1"]);
    assert_eq!(*revision, 1);
    assert_eq!(
        lattice.put(manifest("app", "v2")),
        Reply::Put {
            result: PutResult::NewVersion,
            name: "app".to_string(),
            current_version: "v2".to_string(),
            total_versions: 2,
            message: "Successfully put manifest app v2".to_string(),
        }
    );
}

#[test]
fn put_of_a_taken_version_is_refused() {
    let mut lattice = Lattice::new();
    lattice.put(manifest("app", "v1"));
    let before = lattice.store.clone();
    let writes = lattice.writes;
    assert_eq!(lattice.put(manifest("app", "v1")), error("Manifest version v1 already exists"));
    assert_eq!(lattice.store, before);
    assert_eq!(lattice.writes, writes);
}

#[test]
fn put_with_a_bad_name_is_refused() {
    let mut lattice = Lattice::new();
    let reply = lattice.put(manifest("bad name!", "v1"));
    assert_eq!(
        reply,
        error("Manifest name bad name! contains invalid characters. Manifest names can only contain alphanumeric characters, dashes, and underscores.")
    );
    assert!(lattice.store.is_empty());
    assert_eq!(lattice.writes, 0);
}

#[test]
fn put_reads_the_model_under_the_manifests_name() {
    let handler = Handler::new();
    let m = manifest("app", "v1");
    let (state, action) =
        handler.put_model(&schema(), PutState::Start, Event::Manifest { manifest: m.clone() });
    assert_eq!(action, Action::Fetch { name: "app".to_string() });
    assert_eq!(state, PutState::AwaitModel { manifest: m });
}

#[test]
fn put_refuses_a_name_with_white_space_around_it() {
    let mut lattice = Lattice::new();
    assert_eq!(
        lattice.put(manifest("  app\t\n", "v1")),
        error("Manifest name   app\t\n contains invalid characters. Manifest names can only contain alphanumeric characters, dashes, and underscores.")
    );
    // a name of white space alone is judged by what is left of it
    assert_eq!(
        lattice.put(manifest("   ", "v1")),
        error("Manifest name  contains invalid characters. Manifest names can only contain alphanumeric characters, dashes, and underscores.")
    );
    assert!(lattice.store.is_empty());
}

#[test]
fn put_without_a_schema_reports_why_there_is_none() {
    let handler = Handler::new();
    let broken: Result<Schema, String> = Schema::compile("{");
    assert!(broken.is_err());
    // the payload, the version and the name are judged first
    let (_, action) =
        handler.put_model(&broken, PutState::Start, Event::Unparsed { reason: "bad".to_string() });
    assert_eq!(action, Action::Reply { reply: error("Unable to parse manifest: bad") });
    let (_, action) = handler.put_model(
        &broken,
        PutState::Start,
        Event::Manifest { manifest: manifest("bad name!", "v1") },
    );
    assert_eq!(
        action,
        Action::Reply {
            reply: error("Manifest name bad name! contains invalid characters. Manifest names can only contain alphanumeric characters, dashes, and underscores.")
        }
    );
    let (state, action) = handler.put_model(
        &broken,
        PutState::Start,
        Event::Manifest { manifest: manifest("app", "v1") },
    );
    assert_eq!(action, Action::Fetch { name: "app".to_string() });
    let (state, action) = handler.put_model(&broken, state, Event::Absent);
    assert_eq!(state, PutState::Done);
    assert_eq!(
        action,
        Action::Reply {
            reply: error("Unable to parse JSON schema: EOF while parsing an object at line 1 column 1")
        }
    );
}

#[test]
fn put_keeps_one_name_in_the_model() {
    let mut lattice = Lattice::new();
    lattice.put(manifest("app", "v1"));
    lattice.put(manifest("app", "v2"));
    let (model, _) = &lattice.store["app"];
    assert_eq!(model.name(), "app");
    let (manifests, _) = model.clone().into_parts();
    assert!(manifests.iter().all(|m| m.name == "app"));
}

#[test]
fn put_of_version_latest_is_refused() {
    let mut lattice = Lattice::new();
    assert_eq!(
        lattice.put(manifest("app", "latest")),
        error("invalid manifest version, errors: \"latest is not allowed in wadm\"")
    );
    assert!(lattice.store.is_empty());
    // the version is judged before the name
    assert_eq!(
        lattice.put(manifest("bad name!", "latest")),
        error("invalid manifest version, errors: \"latest is not allowed in wadm\"")
    );
}

#[test]
fn put_of_an_unreadable_payload_is_refused() {
    let mut lattice = Lattice::new();
    let (state, reply) = lattice.drive(
        PutState::Start,
        Event::Unparsed { reason: "expected value".to_string() },
        |h, s, e| h.put_model(&schema(), s, e),
    );
    assert_eq!(state, PutState::Done);
    assert_eq!(reply, error("Unable to parse manifest: expected value"));
}

#[test]
fn put_of_an_invalid_manifest_is_refused() {
    let mut lattice = Lattice::new();
    let mut m = manifest("app", "v1");
    m.document = "{}".to_string();
    assert_eq!(
        lattice.put(m),
        error("Validation Error: \nShould be able to parse object at:  \nShould be able to parse object at:  \nPlease check for missing or incorrect elements")
    );
    let mut m = manifest("app", "v1");
    m.components = vec![provider("p", "ghcr.io/p:1"), provider("p", "ghcr.io/p:1")];
    assert_eq!(lattice.put(m), error("Duplicate component name in manifest: p"));
    assert!(lattice.store.is_empty());
}

#[test]
fn put_reports_store_failures() {
    let mut lattice = Lattice::new();
    lattice.store_fails = true;
    assert_eq!(lattice.put(manifest("app", "v1")), error("Internal storage error"));
    lattice.store_fails = false;
    // a write on a stale revision fails
    let handler = Handler::new();
    let (state, action) =
        handler.put_model(&schema(), PutState::Start, Event::Manifest { manifest: manifest("app", "v1") });
    assert_eq!(action, Action::Fetch { name: "app".to_string() });
    let (state, action) = handler.put_model(&schema(), state, Event::Absent);
    match &action {
        Action::Store { model, revision } => {
            assert_eq!(model.all_versions(), vec!["v1"]);
            assert_eq!(*revision, 0);
        }
        other => panic!("unexpected action {other:?}"),
    }
    let (state, action) = handler.put_model(&schema(), state, Event::Failed);
    assert_eq!(state, PutState::Done);
    assert_eq!(action, Action::Reply { reply: error("Internal storage error") });
    assert_eq!(
        handler.put_model(&schema(), state, Event::Stored),
        (PutState::Done, Action::Idle)
    );
}

#[test]
fn get_gives_a_version_or_the_newest() {
    let mut lattice = Lattice::new();
    lattice.put(manifest("app", "v1"));
    lattice.put(manifest("app", "v2"));
    assert_eq!(
        lattice.get("app", ""),
        Reply::Get {
            result: GetResult::Success,
            message: "Successfully fetched model app".to_string(),
            manifest: Some(manifest("app", "v2")),
        }
    );
    assert_eq!(
        lattice.get("app", "{}"),
        Reply::Get {
            result: GetResult::Success,
            message: "Successfully fetched model app".to_string(),
            manifest: Some(manifest("app", "v2")),
        }
    );
    assert_eq!(
        lattice.get("app", "{\"version\":\"v1\"}"),
        Reply::Get {
            result: GetResult::Success,
            message: "Successfully fetched model app v1".to_string(),
            manifest: Some(manifest("app", "v1")),
        }
    );
    assert_eq!(
        lattice.get("app", "{\"version\":\"v3\"}"),
        Reply::Get {
            result: GetResult::NotFound,
            message: "Model app with version v3 doesn't exist".to_string(),
            manifest: None,
        }
    );
    assert_eq!(
        lattice.get("other", ""),
        Reply::Get {
            result: GetResult::NotFound,
            message: "Model with the name other not found".to_string(),
            manifest: None,
        }
    );
}

#[test]
fn get_refuses_an_unreadable_request() {
    let mut lattice = Lattice::new();
    assert_eq!(
        lattice.get("app", "nonsense"),
        error("Unable to parse get model request: Error(\"expected ident\", line: 1, column: 2)")
    );
    assert_eq!(
        lattice.get("app", "{\"version\":1}"),
        error("Unable to parse get model request: Error(\"invalid type: integer `1`, expected a string\", line: 1, column: 13)")
    );
    lattice.store_fails = true;
    assert_eq!(lattice.get("app", ""), error("Internal storage error"));
}

#[test]
fn versions_are_listed_in_the_order_of_puts() {
    let mut lattice = Lattice::new();
    for v in ["v3", "v1", "v2"] {
        lattice.put(manifest("app", v));
    }
    lattice.put(manifest("app", "v1"));
    lattice.deploy("app", "{\"version\":\"v1\"}");
    let info = |version: &str, deployed: bool| VersionInfo { version: version.to_string(), deployed };
    assert_eq!(
        lattice.versions("app"),
        Reply::Versions {
            result: GetResult::Success,
            message: "Successfully fetched versions for model app".to_string(),
            versions: vec![info("v3", false), info("v1", true), info("v2", false)],
        }
    );
    assert_eq!(
        lattice.versions("other"),
        Reply::Versions {
            result: GetResult::NotFound,
            message: "Model with the name other not found".to_string(),
            versions: vec![],
        }
    );
}

#[test]
fn delete_then_get_is_not_found() {
    let mut lattice = Lattice::new();
    lattice.put(manifest("app", "v1"));
    lattice.put(manifest("app", "v2"));
    lattice.deploy("app", "{\"version\":\"v2\"}");
    assert_eq!(
        lattice.delete("app", "{\"version\":\"v2\"}"),
        delete_reply(DeleteResult::Deleted, "Successfully deleted version v2 of model app", true)
    );
    assert_eq!(lattice.undeployed, vec!["app"]);
    assert_eq!(
        lattice.get("app", "{\"version\":\"v2\"}"),
        Reply::Get {
            result: GetResult::NotFound,
            message: "Model app with version v2 doesn't exist".to_string(),
            manifest: None,
        }
    );
    assert_eq!(
        lattice.versions("app"),
        Reply::Versions {
            result: GetResult::Success,
            message: "Successfully fetched versions for model app".to_string(),
            versions: vec![VersionInfo { version: "v1".to_string(), deployed: false }],
        }
    );
}

#[test]
fn delete_of_a_version_that_is_not_deployed_tells_nobody() {
    let mut lattice = Lattice::new();
    lattice.put(manifest("app", "v1"));
    lattice.put(manifest("app", "v2"));
    lattice.deploy("app", "{\"version\":\"v2\"}");
    assert_eq!(
        lattice.delete("app", "{\"version\":\"v1\"}"),
        delete_reply(DeleteResult::Deleted, "Successfully deleted version v1 of model app", false)
    );
    assert!(lattice.undeployed.is_empty());
    assert_eq!(lattice.store["app"].0.deployed_version(), Some("v2"));
}

#[test]
fn delete_of_the_last_version_removes_the_model() {
    let mut lattice = Lattice::new();
    lattice.put(manifest("M", "v1"));
    lattice.deploy("M", "");
    assert_eq!(
        lattice.delete("M", "{\"version\":\"v1\"}"),
        delete_reply(DeleteResult::Deleted, "Successfully deleted last version of model M", true)
    );
    assert!(!lattice.store.contains_key("M"));
    assert_eq!(lattice.undeployed, vec!["M"]);
}

#[test]
fn delete_without_version_removes_the_model() {
    let mut lattice = Lattice::new();
    lattice.put(manifest("app", "v1"));
    lattice.put(manifest("app", "v2"));
    for payload in ["{}", "{\"version\":null}"] {
        assert_eq!(
            lattice.delete("app", payload),
            delete_reply(DeleteResult::Deleted, "Successfully deleted model app", true)
        );
        assert!(lattice.store.is_empty());
    }
    assert_eq!(lattice.undeployed, vec!["app", "app"]);
}

#[test]
fn delete_of_nothing_is_a_noop_that_still_notifies() {
    let mut lattice = Lattice::new();
    lattice.put(manifest("app", "v1"));
    assert_eq!(
        lattice.delete("app", "{\"version\":\"v9\"}"),
        delete_reply(DeleteResult::Noop, "Model version v9 doesn't exist", false)
    );
    assert_eq!(
        lattice.delete("other", "{\"version\":\"v1\"}"),
        delete_reply(DeleteResult::Noop, "Model other doesn't exist", false)
    );
    assert_eq!(lattice.undeployed, vec!["app", "other"]);
    assert_eq!(lattice.store["app"].0.all_versions(), vec!["v1"]);
}

#[test]
fn delete_reports_failures() {
    let mut lattice = Lattice::new();
    lattice.put(manifest("app", "v1"));
    assert_eq!(
        lattice.delete("app", ""),
        error("Unable to parse delete model request: Error(\"EOF while parsing a value\", line: 1, column: 0)")
    );
    lattice.store_fails = true;
    assert_eq!(
        lattice.delete("app", "{\"version\":\"v1\"}"),
        delete_reply(DeleteResult::Error, "Internal storage error", false)
    );
    assert_eq!(
        lattice.delete("app", "{}"),
        delete_reply(DeleteResult::Error, "Internal storage error", false)
    );
    assert!(lattice.undeployed.is_empty());
    lattice.store_fails = false;
    lattice.notifier_fails = true;
    assert_eq!(
        lattice.delete("app", "{\"version\":\"v1\"}"),
        delete_reply(
            DeleteResult::Error,
            "Error notifying processors of newly undeployed manifest on delete. This is likely a transient error, so please retry the request. Please note that the response will say it is a noop, but will notify the processors",
            false
        )
    );
    // the store is ahead of the reconcilers: the model is gone
    assert!(lattice.store.is_empty());
}

#[test]
fn delete_of_the_last_version_reports_a_failed_removal() {
    let handler = Handler::new();
    let mut model = StoredManifest::new();
    model.add_version(manifest("app", "v1"));
    let (state, action) = handler.delete_model(
        "app",
        DeleteState::AwaitModel { version: "v1".to_string() },
        Event::Fetched { model, revision: 4 },
    );
    assert_eq!(state, DeleteState::AwaitRemoval { last: true });
    assert_eq!(action, Action::Delete { name: "app".to_string() });
    assert_eq!(
        handler.delete_model("app", state, Event::Failed),
        (
            DeleteState::Done,
            Action::Reply {
                reply: delete_reply(DeleteResult::Error, "Internal storage error", false)
            }
        )
    );
}

#[test]
fn deploy_marks_the_version_and_tells_the_reconcilers() {
    let mut lattice = Lattice::new();
    lattice.put(manifest("app", "v1"));
    lattice.put(manifest("app", "v2"));
    assert_eq!(
        lattice.deploy("app", "{\"version\":\"v1\"}"),
        deploy_reply(DeployResult::Acknowledged, "Successfully deployed model app v1")
    );
    assert_eq!(lattice.store["app"].0.deployed_version(), Some("v1"));
    for payload in ["", "{}", "{\"version\":\"latest\"}"] {
        assert_eq!(
            lattice.deploy("app", payload),
            deploy_reply(DeployResult::Acknowledged, "Successfully deployed model app v2")
        );
        assert_eq!(lattice.store["app"].0.deployed_version(), Some("v2"));
    }
    let told: Vec<(String, String)> = ["v1", "v2", "v2", "v2"]
        .iter()
        .map(|v| ("app".to_string(), v.to_string()))
        .collect();
    assert_eq!(lattice.deployed, told);
}

#[test]
fn deploy_twice_is_acknowledged_twice() {
    let mut lattice = Lattice::new();
    lattice.put(manifest("app", "v1"));
    let first = lattice.deploy("app", "{\"version\":\"v1\"}");
    let model = lattice.store["app"].0.clone();
    let second = lattice.deploy("app", "{\"version\":\"v1\"}");
    assert_eq!(first, second);
    assert_eq!(second, deploy_reply(DeployResult::Acknowledged, "Successfully deployed model app v1"));
    assert_eq!(lattice.store["app"].0, model);
    assert_eq!(lattice.deployed.len(), 2);
}

#[test]
fn deploy_of_an_absent_version_changes_nothing() {
    let mut lattice = Lattice::new();
    lattice.put(manifest("app", "v1"));
    let before = lattice.store.clone();
    let writes = lattice.writes;
    assert_eq!(
        lattice.deploy("app", "{\"version\":\"v9\"}"),
        deploy_reply(
            DeployResult::Error,
            "Model with the name app does not have the specified version to deploy"
        )
    );
    assert_eq!(lattice.store, before);
    assert_eq!(lattice.writes, writes);
    assert!(lattice.deployed.is_empty());
    assert_eq!(
        lattice.deploy("other", ""),
        deploy_reply(DeployResult::NotFound, "Model with the name other not found")
    );
}

#[test]
fn deploy_is_refused_on_a_provider_conflict() {
    let mut lattice = Lattice::new();
    lattice.put(manifest_with("A", "v1", vec![provider("prov", "ghcr.io/prov:1.0")]));
    assert_eq!(
        lattice.deploy("A", ""),
        deploy_reply(DeployResult::Acknowledged, "Successfully deployed model A v1")
    );
    lattice.put(manifest_with("B", "v1", vec![provider("prov", "ghcr.io/prov:2.0")]));
    let reply = lattice.deploy("B", "");
    assert_eq!(
        reply,
        error("Provider ghcr.io/prov:2.0 is already deployed with a different version in A.")
    );
    assert_eq!(lattice.store["B"].0.deployed_version(), None);
    assert_eq!(lattice.deployed, vec![("A".to_string(), "v1".to_string())]);
}

#[test]
fn deploy_beside_the_same_provider_version_is_admitted() {
    let mut lattice = Lattice::new();
    lattice.put(manifest_with("A", "v1", vec![provider("prov", "ghcr.io/prov:1.0")]));
    lattice.deploy("A", "");
    lattice.put(manifest_with(
        "B",
        "v1",
        vec![provider("prov", "ghcr.io/prov:1.0"), provider("other", "no-version")],
    ));
    assert_eq!(
        lattice.deploy("B", ""),
        deploy_reply(DeployResult::Acknowledged, "Successfully deployed model B v1")
    );
}

#[test]
fn deploy_of_an_upgrade_is_admitted() {
    let mut lattice = Lattice::new();
    lattice.put(manifest_with("A", "v1", vec![provider("prov", "ghcr.io/prov:1.0")]));
    lattice.deploy("A", "");
    lattice.put(manifest_with("A", "v2", vec![provider("prov", "ghcr.io/prov:2.0")]));
    assert_eq!(
        lattice.deploy("A", ""),
        deploy_reply(DeployResult::Acknowledged, "Successfully deployed model A v2")
    );
    // a model that is stored but not deployed is no obstacle either
    lattice.put(manifest_with("C", "v1", vec![provider("prov", "ghcr.io/prov:3.0")]));
    lattice.put(manifest_with("D", "v1", vec![provider("prov", "ghcr.io/prov:2.0")]));
    assert_eq!(
        lattice.deploy("D", ""),
        deploy_reply(DeployResult::Acknowledged, "Successfully deployed model D v1")
    );
    // a component that is no capability is not looked at
    let mut component = provider("prov", "ghcr.io/prov:9.9");
    component.kind = ComponentKind::Component;
    lattice.put(manifest_with("E", "v1", vec![component]));
    assert_eq!(
        lattice.deploy("E", ""),
        deploy_reply(DeployResult::Acknowledged, "Successfully deployed model E v1")
    );
}

#[test]
fn deploy_reports_failures() {
    let mut lattice = Lattice::new();
    lattice.put(manifest("app", "v1"));
    assert_eq!(
        lattice.deploy("app", "[]"),
        error("Unable to parse deploy model request: Error(\"invalid length 0, expected struct DeployModelRequest with 1 element\", line: 1, column: 2)")
    );
    lattice.store_fails = true;
    assert_eq!(lattice.deploy("app", ""), error("Internal storage error"));
    lattice.store_fails = false;
    lattice.notifier_fails = true;
    assert_eq!(
        lattice.deploy("app", ""),
        deploy_reply(
            DeployResult::Error,
            "Error notifying processors of newly deployed manifest. This is likely a transient error, so please retry the request"
        )
    );
    assert_eq!(lattice.store["app"].0.deployed_version(), Some("v1"));
}

#[test]
fn deploy_does_not_notify_when_the_write_fails() {
    let handler = Handler::new();
    let m = manifest("app", "v1");
    let state = DeployState::AwaitStore { manifest: m.clone() };
    assert_eq!(
        handler.deploy_model("app", state, Event::Failed),
        (
            DeployState::Done,
            Action::Reply { reply: deploy_reply(DeployResult::Error, "Internal storage error") }
        )
    );
    let state = DeployState::AwaitStore { manifest: m.clone() };
    assert_eq!(
        handler.deploy_model("app", state, Event::Stored),
        (
            DeployState::AwaitNotify { version: "v1".to_string() },
            Action::NotifyDeployed { manifest: m }
        )
    );
}

#[test]
fn undeploy_twice_is_acknowledged_and_notified_twice() {
    let mut lattice = Lattice::new();
    lattice.put(manifest("app", "v1"));
    lattice.deploy("app", "");
    assert_eq!(
        lattice.undeploy("app", ""),
        deploy_reply(DeployResult::Acknowledged, "Successfully undeployed model app")
    );
    assert_eq!(lattice.store["app"].0.deployed_version(), None);
    let writes = lattice.writes;
    assert_eq!(
        lattice.undeploy("app", "{}"),
        deploy_reply(DeployResult::Acknowledged, "Model app was already undeployed")
    );
    assert_eq!(lattice.writes, writes);
    assert_eq!(lattice.undeployed, vec!["app", "app"]);
}

#[test]
fn undeploy_reports_failures() {
    let mut lattice = Lattice::new();
    assert_eq!(
        lattice.undeploy("app", ""),
        deploy_reply(DeployResult::NotFound, "Model with the name app not found")
    );
    assert_eq!(
        lattice.undeploy("app", "7"),
        error("Unable to parse deploy model request: Error(\"invalid type: integer `7`, expected struct UndeployModelRequest\", line: 1, column: 1)")
    );
    lattice.put(manifest("app", "v1"));
    lattice.deploy("app", "");
    lattice.notifier_fails = true;
    assert_eq!(
        lattice.undeploy("app", ""),
        deploy_reply(
            DeployResult::Error,
            "Error notifying processors of undeployed manifest. This is likely a transient error, so please retry the request"
        )
    );
    lattice.notifier_fails = false;
    lattice.deploy("app", "");
    lattice.store_fails = true;
    assert_eq!(lattice.undeploy("app", ""), error("Internal storage error"));
    let handler = Handler::new();
    assert_eq!(
        handler.undeploy_model("app", UndeployState::AwaitStore, Event::Failed),
        (
            UndeployState::Done,
            Action::Reply { reply: deploy_reply(DeployResult::Error, "Internal storage error") }
        )
    );
}

#[test]
fn status_is_read_from_the_log() {
    let mut lattice = Lattice::new();
    lattice.put(manifest("app", "v1"));
    lattice.put(manifest("app", "v2"));
    let status = |status_type: StatusType, message: &str| Reply::Status {
        result: StatusResult::Okay,
        message: "Successfully fetched status for model app".to_string(),
        status: Some(Status {
            version: "v2".to_string(),
            info: StatusInfo { status_type, message: message.to_string() },
            components: vec![],
        }),
    };
    assert_eq!(lattice.status("app"), status(StatusType::Undeployed, ""));
    lattice.log_status("app", "{\"type\":\"deployed\",\"message\":\"all good\"}");
    assert_eq!(lattice.status("app"), status(StatusType::Deployed, "all good"));
    lattice.log_status("app", "{\"type\":\"failed\"}");
    assert_eq!(lattice.status("app"), status(StatusType::Failed, ""));
    lattice.log_status("app", "{\"type\":\"no such type\"}");
    assert_eq!(lattice.status("app"), status(StatusType::Undeployed, ""));
    lattice.statuses.insert("wadm.status.default.app".to_string(), "not base64!".to_string());
    assert_eq!(lattice.status("app"), status(StatusType::Undeployed, ""));
    assert_eq!(
        lattice.status("other"),
        Reply::Status {
            result: StatusResult::NotFound,
            message: "Model with the name other not found".to_string(),
            status: None,
        }
    );
    lattice.store_fails = true;
    assert_eq!(lattice.status("app"), error("Internal storage error"));
}

#[test]
fn status_of_every_kind_is_read() {
    let payload = |json: &str| Event::Status {
        payload: base64::Engine::encode(&base64::engine::general_purpose::STANDARD, json),
    };
    for (word, status_type) in [
        ("waiting", StatusType::Waiting),
        ("undeployed", StatusType::Undeployed),
        ("reconciling", StatusType::Reconciling),
        ("compensating", StatusType::Reconciling),
        ("deployed", StatusType::Deployed),
        ("ready", StatusType::Deployed),
        ("failed", StatusType::Failed),
        ("unhealthy", StatusType::Unhealthy),
    ] {
        assert_eq!(
            Handler::get_manifest_status(&payload(&format!("{{\"type\":\"{word}\",\"message\":\"m\"}}"))),
            Some(StatusInfo { status_type, message: "m".to_string() })
        );
    }
    assert_eq!(Handler::get_manifest_status(&Event::Failed), None);
    assert_eq!(Handler::get_manifest_status(&Event::Notified), None);
    assert_eq!(
        Handler::get_manifest_status(&Event::Status { payload: "{\"type\":\"deployed\"}".to_string() }),
        None
    );
}

#[test]
fn status_subject_names_lattice_and_model() {
    assert_eq!(subject_of("default", "app"), "wadm.status.default.app");
    assert_eq!(subject_of("", ""), "wadm.status..");
}

#[test]
fn models_are_listed_with_their_status() {
    let mut lattice = Lattice::new();
    lattice.put(manifest("a", "v1"));
    lattice.put(manifest("b", "v1"));
    lattice.put(manifest("c", "v1"));
    lattice.deploy("b", "");
    lattice.log_status("b", "{\"type\":\"reconciling\",\"message\":\"working\"}");
    lattice.log_status("c", "garbage");
    let summary = |name: &str, deployed: Option<&str>, status, message: Option<&str>| ModelSummary {
        name: name.to_string(),
        version: "v1".to_string(),
        description: None,
        deployed_version: deployed.map(|v| v.to_string()),
        status,
        status_message: message.map(|m| m.to_string()),
    };
    assert_eq!(
        lattice.list(),
        Reply::Models {
            models: vec![
                summary("a", None, StatusType::Undeployed, None),
                summary("b", Some("v1"), StatusType::Reconciling, Some("working")),
                summary("c", None, StatusType::Undeployed, None),
            ]
        }
    );
    let mut empty = Lattice::new();
    assert_eq!(empty.list(), Reply::Models { models: vec![] });
    empty.store_fails = true;
    assert_eq!(empty.list(), error("Internal storage error"));
}

#[test]
fn list_overwrites_the_status_of_the_listing() {
    let handler = Handler::new();
    let listed = ModelSummary {
        name: "a".to_string(),
        version: "v1".to_string(),
        description: Some("about".to_string()),
        deployed_version: Some("v1".to_string()),
        status: StatusType::Deployed,
        status_message: Some("old".to_string()),
    };
    let (state, action) =
        handler.list_models(LATTICE, ListState::AwaitList, Event::Listed { models: vec![listed] });
    assert_eq!(action, Action::ReadStatus { subject: "wadm.status.default.a".to_string() });
    let (state, action) = handler.list_models(LATTICE, state, Event::Failed);
    assert_eq!(state, ListState::Done);
    assert_eq!(
        action,
        Action::Reply {
            reply: Reply::Models {
                models: vec![ModelSummary {
                    name: "a".to_string(),
                    version: "v1".to_string(),
                    description: Some("about".to_string()),
                    deployed_version: Some("v1".to_string()),
                    status: StatusType::Undeployed,
                    status_message: None,
                }]
            }
        }
    );
}

#[test]
fn a_request_is_awaited_and_answered_once() {
    let handler = Handler::new();
    assert_eq!(handler.put_model(&schema(), PutState::Start, Event::Stored), (PutState::Start, Action::Idle));
    assert_eq!(
        handler.get_model("app", GetState::Start, Event::Absent),
        (GetState::Start, Action::Idle)
    );
    assert_eq!(
        handler.deploy_model("app", DeployState::Done, request("")),
        (DeployState::Done, Action::Idle)
    );
    assert_eq!(
        handler.delete_model("app", DeleteState::Done, request("{}")),
        (DeleteState::Done, Action::Idle)
    );
    assert_eq!(
        handler.undeploy_model("app", UndeployState::Done, Event::Notified),
        (UndeployState::Done, Action::Idle)
    );
    assert_eq!(
        handler.list_versions("app", VersionsState::Done, Event::Absent),
        (VersionsState::Done, Action::Idle)
    );
    assert_eq!(
        handler.model_status(LATTICE, "app", StatusState::Done, Event::Absent),
        (StatusState::Done, Action::Idle)
    );
    assert_eq!(
        handler.list_models(LATTICE, ListState::Done, Event::Absent),
        (ListState::Done, Action::Idle)
    );
}

#[test]
fn replies_are_published_on_the_reply_subject() {
    let handler = Handler::new();
    assert_eq!(
        handler.send_reply(Some("_INBOX.1".to_string()), vec![1, 2, 3]),
        Some(Publication { subject: "_INBOX.1".to_string(), payload: vec![1, 2, 3] })
    );
    assert_eq!(handler.send_reply(None, vec![1, 2, 3]), None);
    assert_eq!(
        handler.send_error(Some("_INBOX.1".to_string()), "it \"failed\"".to_string()),
        Some(Publication {
            subject: "_INBOX.1".to_string(),
            payload: b"{\"message\":\"it \\\"failed\\\"\",\"result\":\"error\"}".to_vec(),
        })
    );
    assert_eq!(handler.send_error(None, "it failed".to_string()), None);
}

#[test]
fn payload_is_yaml_only_where_the_content_type_says_so() {
    assert_eq!(payload_format(Some("application/yaml")), PayloadFormat::Yaml);
    assert_eq!(payload_format(Some("application/json")), PayloadFormat::Json);
    assert_eq!(payload_format(Some("Application/YAML")), PayloadFormat::Json);
    assert_eq!(payload_format(Some("")), PayloadFormat::Json);
    assert_eq!(payload_format(None), PayloadFormat::Json);
}
