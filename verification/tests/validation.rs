use wadm::manifest::{Component, ComponentKind, Label, Manifest};
use wadm::schema::Schema;
use wadm::validation::{
    check_manifest, is_valid_manifest_name, validate_manifest, ValidationError,
};
use wadm::schema::PathSegment;

const SCHEMA: &str = r#"{
  "$schema": "http://json-schema.org/draft-07/schema#",
  "type": "object",
  "required": ["apiVersion", "kind", "metadata", "spec"],
  "properties": {
    "metadata": { "type": "object", "required": ["name"] },
    "spec": {
      "type": "object",
      "required": ["components"],
      "properties": {
        "components": {
          "type": "array",
          "items": {
            "type": "object",
            "required": ["name", "type", "properties"],
            "properties": {
              "name": { "type": "string" },
              "type": { "enum": ["component", "capability", "actor"] }
            }
          }
        }
      }
    }
  }
}"#;

fn schema() -> Schema {
    Schema::compile(SCHEMA).expect("the schema compiles")
}

fn component(name: &str, id: Option<&str>, targets: &[&str]) -> Component {
    Component {
        name: name.to_string(),
        kind: ComponentKind::Component,
        id: id.map(|s| s.to_string()),
        image: format!("ghcr.io/{name}:0.1.0"),
        link_targets: targets.iter().map(|t| t.to_string()).collect(),
    }
}

fn capability(name: &str, id: Option<&str>) -> Component {
    Component {
        name: name.to_string(),
        kind: ComponentKind::Capability,
        id: id.map(|s| s.to_string()),
        image: format!("ghcr.io/{name}:0.1.0"),
        link_targets: vec![],
    }
}

fn document(components: &[Component]) -> String {
    let items: Vec<String> = components
        .iter()
        .map(|c| {
            let kind = match c.kind {
                ComponentKind::Component => "component",
                ComponentKind::Capability => "capability",
            };
            format!(
                "{{\"name\":\"{}\",\"type\":\"{}\",\"properties\":{{\"image\":\"{}\"}}}}",
                c.name, kind, c.image
            )
        })
        .collect();
    format!(
        "{{\"apiVersion\":\"core.oam.dev/v1beta1\",\"kind\":\"Application\",\"metadata\":{{\"name\":\"app\"}},\"spec\":{{\"components\":[{}]}}}}",
        items.join(",")
    )
}

fn manifest(components: Vec<Component>) -> Manifest {
    Manifest {
        name: "app".to_string(),
        version: "v1".to_string(),
        labels: vec![],
        annotations: vec![Label { key: "version".to_string(), value: "v1".to_string() }],
        document: document(&components),
        components,
    }
}

fn error_of(manifest: &Manifest) -> String {
    match validate_manifest(&schema(), manifest) {
        Ok(()) => panic!("the manifest should have been refused"),
        Err(e) => e.message,
    }
}

#[test]
fn test_manifest_validation() {
    let correct_manifest = manifest(vec![
        component("echo", Some("echo-id"), &["httpserver"]),
        capability("httpserver", Some("http-id")),
    ]);
    assert!(validate_manifest(&schema(), &correct_manifest).is_ok());

    let mut incorrect = manifest(vec![component("echo", None, &[])]);
    incorrect.document = "{\"apiVersion\":\"core.oam.dev/v1beta1\",\"kind\":\"Application\",\"metadata\":{\"name\":\"app\"},\"spec\":{\"components\":[{\"name\":\"echo\",\"type\":\"unknown\",\"properties\":{}}]}}".to_string();
    match validate_manifest(&schema(), &incorrect) {
        Ok(()) => panic!("Should have detected incorrect component"),
        Err(e) => {
            assert!(e
                .message
                .contains("Should be able to parse object at: spec/components/ at index: 0"))
        }
    }

    let duplicate_component =
        manifest(vec![component("echo", None, &[]), capability("echo", None)]);
    match validate_manifest(&schema(), &duplicate_component) {
        Ok(()) => panic!("Should have detected duplicate component"),
        Err(e) => assert!(e.message.contains("Duplicate component name in manifest")),
    }

    let duplicate_id1 = manifest(vec![
        component("echo", Some("same"), &[]),
        capability("httpserver", Some("same")),
    ]);
    match validate_manifest(&schema(), &duplicate_id1) {
        Ok(()) => {
            panic!("Should have detected duplicate component ID in provider properties")
        }
        Err(e) => assert!(e.message.contains("Duplicate component identifier in manifest")),
    }

    let duplicate_id2 = manifest(vec![
        capability("httpserver", Some("same")),
        component("echo", Some("same"), &[]),
    ]);
    match validate_manifest(&schema(), &duplicate_id2) {
        Ok(()) => panic!("Should have detected duplicate component ID in actor properties"),
        Err(e) => assert!(e.message.contains("Duplicate component identifier in manifest")),
    }

    let duplicate_linkdef = manifest(vec![
        component("echo", None, &["httpserver", "httpserver"]),
        capability("httpserver", None),
    ]);
    match validate_manifest(&schema(), &duplicate_linkdef) {
        Ok(()) => panic!("Should have detected duplicate linkdef"),
        Err(e) => assert!(e.message.contains("Duplicate target")),
    }

    let missing_capability_component = manifest(vec![component("echo", None, &["httpserver"])]);
    match validate_manifest(&schema(), &missing_capability_component) {
        Ok(()) => panic!("Should have detected missing capability component"),
        Err(e) => assert!(e
            .message
            .contains("The following capability component(s) are missing from the manifest: ")),
    }
}

#[test]
fn manifest_name_long_image_ref() {
    let mut long = component("echo", None, &["httpserver"]);
    long.image = format!("ghcr.io/{}:0.1.0", "segment/".repeat(64));
    let mut provider = capability("httpserver", None);
    provider.image = format!("ghcr.io/{}:0.1.0", "provider/".repeat(64));
    let m = manifest(vec![long, provider]);
    assert_eq!(validate_manifest(&schema(), &m), Ok(()));
}

#[test]
fn schema_report_lists_every_violation() {
    let paths = vec![
        vec![
            PathSegment::Property("spec".to_string()),
            PathSegment::Property("components".to_string()),
            PathSegment::Index(10),
        ],
        vec![],
        vec![PathSegment::Keyword("required".to_string()), PathSegment::Index(0)],
        vec![PathSegment::Index(123), PathSegment::Property("a".to_string())],
    ];
    let m = manifest(vec![]);
    assert_eq!(
        check_manifest(&m, Ok(paths)),
        Err(ValidationError {
            message: "Validation Error: \nShould be able to parse object at: spec/components/ at index: 10 \nShould be able to parse object at:  \nShould be able to parse object at: required/ at index: 0 \nShould be able to parse object at:  at index: 123/a \nPlease check for missing or incorrect elements".to_string()
        })
    );
}

#[test]
fn schema_violation_is_reported_with_its_path() {
    let mut m = manifest(vec![component("echo", None, &[]), component("other", None, &[])]);
    m.document = "{\"apiVersion\":\"core.oam.dev/v1beta1\",\"kind\":\"Application\",\"metadata\":{\"name\":\"app\"},\"spec\":{\"components\":[{\"name\":\"echo\",\"type\":\"component\",\"properties\":{}},{\"name\":\"other\",\"type\":\"component\"}]}}".to_string();
    assert_eq!(
        error_of(&m),
        "Validation Error: \nShould be able to parse object at: spec/components/ at index: 1 \nPlease check for missing or incorrect elements"
    );
}

#[test]
fn document_that_is_no_json_is_refused() {
    let mut m = manifest(vec![]);
    m.document = "{ not json".to_string();
    assert_eq!(error_of(&m), "key must be a string at line 1 column 3");
    assert_eq!(
        check_manifest(&m, Err("no JSON".to_string())),
        Err(ValidationError { message: "no JSON".to_string() })
    );
}

#[test]
fn schema_comes_before_the_other_rules() {
    let mut m = manifest(vec![component("echo", None, &[]), component("echo", None, &[])]);
    m.document = "{}".to_string();
    assert!(error_of(&m).starts_with("Validation Error: \n"));
}

#[test]
fn labels_and_annotations_are_checked() {
    let mut m = manifest(vec![]);
    m.labels = vec![Label { key: "my_prefix/app-name".to_string(), value: "x".to_string() }];
    assert_eq!(
        error_of(&m),
        "Condition failed: `manifest.metadata.labels.iter().all(valid_oam_label)`"
    );
    let mut m = manifest(vec![]);
    m.annotations.push(Label { key: "bad key".to_string(), value: "x".to_string() });
    assert_eq!(
        error_of(&m),
        "Condition failed: `manifest.metadata.annotations.iter().all(valid_oam_label)`"
    );
    // labels come before annotations
    m.labels = vec![Label { key: "".to_string(), value: "x".to_string() }];
    assert_eq!(
        error_of(&m),
        "Condition failed: `manifest.metadata.labels.iter().all(valid_oam_label)`"
    );
}

#[test]
fn first_broken_rule_is_named() {
    let m = manifest(vec![
        component("a", Some("x"), &["b", "b"]),
        component("a", Some("x"), &[]),
    ]);
    // the first component breaks the rule on links before the second repeats its name
    assert_eq!(
        error_of(&m),
        "Duplicate target b for component a linkdef trait in manifest"
    );
    let m = manifest(vec![component("a", Some("x"), &[]), component("a", Some("x"), &[])]);
    assert_eq!(error_of(&m), "Duplicate component name in manifest: a");
    let m = manifest(vec![component("a", Some("x"), &[]), capability("b", Some("x"))]);
    assert_eq!(error_of(&m), "Duplicate component identifier in manifest: x");
    let m = manifest(vec![component("a", None, &[]), capability("b", None)]);
    assert_eq!(validate_manifest(&schema(), &m), Ok(()));
}

#[test]
fn missing_link_targets_are_listed_once_in_order() {
    let m = manifest(vec![
        component("a", None, &["z", "b", "y"]),
        component("b", None, &["y", "a", "x"]),
    ]);
    assert_eq!(
        error_of(&m),
        "The following capability component(s) are missing from the manifest:  [\"z\", \"y\", \"x\"]"
    );
    // the same target from two components is no duplicate
    let m = manifest(vec![
        component("a", None, &["c"]),
        component("b", None, &["c"]),
        capability("c", None),
    ]);
    assert_eq!(validate_manifest(&schema(), &m), Ok(()));
}

#[test]
fn validation_gives_the_same_verdict_again() {
    let good = manifest(vec![component("a", None, &[])]);
    let bad = manifest(vec![component("a", None, &["missing"])]);
    let s = schema();
    assert_eq!(validate_manifest(&s, &good), validate_manifest(&s, &good));
    assert_eq!(validate_manifest(&s, &bad), validate_manifest(&s, &bad));
    assert_eq!(validate_manifest(&s, &bad), validate_manifest(&schema(), &bad));
}

#[test]
fn manifest_names() {
    for valid in ["mymanifest", "my-manifest", "my_manifest", "mymanifest-v2-v3-final", "A1"] {
        assert!(is_valid_manifest_name(valid));
    }
    for invalid in ["my.manifest", "my manifest", "", "bad name!", " app", "caf\u{e9}"] {
        assert!(!is_valid_manifest_name(invalid));
    }
}

#[test]
fn schema_that_is_no_schema_is_refused() {
    let syntax = Schema::compile("{").err().expect("no JSON");
    assert!(syntax.starts_with("Unable to parse JSON schema: "), "{syntax}");
    assert_eq!(
        syntax,
        "Unable to parse JSON schema: EOF while parsing an object at line 1 column 1"
    );
    let rules = Schema::compile("{\"type\": 5}").err().expect("no schema");
    assert!(!rules.starts_with("Unable to parse JSON schema: "), "{rules}");
}

#[test]
fn schema_with_a_reference_is_refused() {
    let refused =
        "Unable to compile JSON schema: references (`$ref`) and unicode escapes are not supported";
    for text in [
        "{\"$ref\": \"#\"}",
        "{\"properties\": {\"a\": {\"$ref\": \"#/definitions/a\"}}, \"definitions\": {\"a\": {}}}",
        "{\"\\u0024ref\": \"#\"}",
        "{\"description\": \"no $ref here\"}",
        "$ref",
    ] {
        assert_eq!(Schema::compile(text).err(), Some(refused.to_string()), "{text}");
        assert!(!Schema::is_reference_free(text));
    }
    for text in ["{}", "{\"$schema\": \"http://json-schema.org/draft-07/schema#\"}", "{\"pattern\": \"^\\\\d+$\"}", "$re", ""] {
        assert!(Schema::is_reference_free(text), "{text}");
    }
    assert!(Schema::compile("{\"pattern\": \"^\\\\d+$\"}").is_ok());
}

#[test]
fn missing_link_targets_are_quoted_and_escaped() {
    let m = manifest(vec![component("a", None, &["say \"hi\"", "tab\there"])]);
    assert_eq!(
        error_of(&m),
        "The following capability component(s) are missing from the manifest:  [\"say \\\"hi\\\"\", \"tab\\there\"]"
    );
}
