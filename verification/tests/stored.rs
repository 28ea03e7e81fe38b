use wadm::manifest::Manifest;
use wadm::stored::StoredManifest;

fn manifest(name: &str, version: &str) -> Manifest {
    Manifest {
        name: name.to_string(),
        version: version.to_string(),
        labels: vec![],
        annotations: vec![],
        components: vec![],
        document: format!("{{\"name\":\"{name}\",\"version\":\"{version}\"}}"),
    }
}

fn model(versions: &[&str]) -> StoredManifest {
    let mut model = StoredManifest::new();
    for v in versions {
        assert!(model.add_version(manifest("app", v)));
    }
    model
}

#[test]
fn new_model_is_empty() {
    let model = StoredManifest::new();
    assert!(model.is_empty());
    assert_eq!(model.count(), 0);
    assert_eq!(model.name(), "");
    assert_eq!(model.deployed_version(), None);
    assert_eq!(model.all_versions(), Vec::<String>::new());
    assert_eq!(StoredManifest::default(), model);
}

#[test]
fn add_version_appends_in_order() {
    let model = model(&["v1", "v2", "v3"]);
    assert_eq!(model.count(), 3);
    assert!(!model.is_empty());
    assert_eq!(model.all_versions(), vec!["v1", "v2", "v3"]);
    assert_eq!(model.current_version(), "v3");
    assert_eq!(model.get_current(), &manifest("app", "v3"));
    assert_eq!(model.name(), "app");
}

#[test]
fn add_version_refuses_a_taken_version() {
    let mut model = model(&["v1", "v2"]);
    let before = model.clone();
    assert!(!model.add_version(manifest("app", "v1")));
    assert_eq!(model, before);
    assert_eq!(model.all_versions(), vec!["v1", "v2"]);
}

#[test]
fn put_then_get_gives_the_manifest() {
    let mut model = model(&["v1"]);
    let m = manifest("app", "v2");
    assert!(model.add_version(m.clone()));
    assert_eq!(model.get_version("v2"), Some(&m));
    assert_eq!(model.get_version("v3"), None);
}

#[test]
fn delete_version_removes_the_manifest() {
    let mut model = model(&["v1", "v2", "v3"]);
    assert!(model.delete_version("v2"));
    assert_eq!(model.all_versions(), vec!["v1", "v3"]);
    assert_eq!(model.get_version("v2"), None);
    assert!(!model.delete_version("v2"));
    assert_eq!(model.all_versions(), vec!["v1", "v3"]);
}

#[test]
fn delete_of_deployed_version_clears_the_mark() {
    let mut model = model(&["v1", "v2"]);
    assert!(model.deploy(Some("v1".to_string())));
    assert!(model.is_deployed("v1"));
    assert!(model.delete_version("v1"));
    assert_eq!(model.deployed_version(), None);
    assert!(!model.is_deployed("v2"));
    assert_eq!(model.get_deployed(), None);
}

#[test]
fn delete_of_other_version_keeps_the_mark() {
    let mut model = model(&["v1", "v2"]);
    assert!(model.deploy(Some("v2".to_string())));
    assert!(model.delete_version("v1"));
    assert_eq!(model.deployed_version(), Some("v2"));
    assert_eq!(model.get_deployed(), Some(&manifest("app", "v2")));
}

#[test]
fn put_delete_get_is_not_found() {
    let mut model = model(&["v1"]);
    assert!(model.add_version(manifest("app", "v2")));
    assert!(model.delete_version("v2"));
    assert_eq!(model.get_version("v2"), None);
}

#[test]
fn deploy_without_version_takes_the_newest() {
    let mut model = model(&["v1", "v2"]);
    assert!(model.can_deploy(&None));
    assert!(model.deploy(None));
    assert_eq!(model.deployed_version(), Some("v2"));
    let mut other = self::model(&["v1", "v2"]);
    assert!(other.deploy(Some("latest".to_string())));
    assert_eq!(other.deployed_version(), Some("v2"));
}

#[test]
fn deploy_of_absent_version_changes_nothing() {
    let mut model = model(&["v1", "v2"]);
    assert!(model.deploy(Some("v1".to_string())));
    let before = model.clone();
    assert!(!model.can_deploy(&Some("v9".to_string())));
    assert!(!model.deploy(Some("v9".to_string())));
    assert_eq!(model, before);
    let mut empty = StoredManifest::new();
    assert!(!empty.deploy(None));
    assert!(!empty.deploy(Some("latest".to_string())));
    assert_eq!(empty, StoredManifest::new());
}

#[test]
fn deploy_twice_is_deploy_once() {
    let mut model = model(&["v1", "v2"]);
    assert!(model.deploy(Some("v1".to_string())));
    let once = model.clone();
    assert!(model.deploy(Some("v1".to_string())));
    assert_eq!(model, once);
}

#[test]
fn undeploy_twice_is_undeploy_once() {
    let mut model = model(&["v1"]);
    assert!(model.deploy(None));
    assert!(model.undeploy());
    assert_eq!(model.deployed_version(), None);
    let once = model.clone();
    assert!(!model.undeploy());
    assert_eq!(model, once);
}

#[test]
fn from_parts_checks_the_parts() {
    let parts = vec![manifest("app", "v1"), manifest("app", "v2")];
    let model = StoredManifest::from_parts(parts.clone(), Some("v2".to_string())).unwrap();
    assert_eq!(model.all_versions(), vec!["v1", "v2"]);
    assert_eq!(model.deployed_version(), Some("v2"));
    assert_eq!(model.clone().into_parts(), (parts.clone(), Some("v2".to_string())));
    assert!(StoredManifest::from_parts(parts.clone(), None).is_some());
    // a deployed version that is no version
    assert_eq!(StoredManifest::from_parts(parts, Some("v3".to_string())), None);
    // two manifests with one version
    let twice = vec![manifest("app", "v1"), manifest("app", "v2"), manifest("app", "v1")];
    assert_eq!(StoredManifest::from_parts(twice, None), None);
    assert_eq!(StoredManifest::from_parts(vec![], Some("v1".to_string())), None);
    assert_eq!(StoredManifest::from_parts(vec![], None), Some(StoredManifest::new()));
}
