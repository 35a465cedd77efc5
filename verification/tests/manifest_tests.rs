use wsinstall::manifest::{parse_manifest, Manifest, ManifestError};

#[test]
fn full_manifest_is_read() {
    let text = r#"{
        "name": "pkga",
        "workspaces": ["packages/*", "tools/*"],
        "dependencies": {"foo": "^1.0.0"},
        "devDependencies": {"bar": "2.0.0"}
    }"#;
    let m = parse_manifest(text).unwrap();
    assert_eq!(m.name, Some(String::from("pkga")));
    assert_eq!(m.workspaces, vec![String::from("packages/*"), String::from("tools/*")]);
    assert_eq!(m.dependencies, vec![String::from("foo")]);
    assert_eq!(m.dev_dependencies, vec![String::from("bar")]);
}

#[test]
fn absent_fields_get_defaults() {
    let m = parse_manifest("{}").unwrap();
    let empty: Vec<String> = Vec::new();
    assert_eq!(m.name, None);
    assert_eq!(m.workspaces, empty);
    assert_eq!(m.dependencies, empty);
    assert_eq!(m.dev_dependencies, empty);
}

#[test]
fn dependency_names_are_the_keys() {
    let text = r#"{"dependencies": {"alpha": "1", "beta": "2"}}"#;
    let m = parse_manifest(text).unwrap();
    assert!(m.dependencies.contains(&String::from("alpha")));
    assert!(m.dependencies.contains(&String::from("beta")));
    assert_eq!(m.dependencies.len(), 2);
}

#[test]
fn union_of_dependency_fields() {
    let text = r#"{"dependencies": {"foo": "1"}, "devDependencies": {"bar": "2"}}"#;
    let m = parse_manifest(text).unwrap();
    assert_eq!(m.all_dependencies(), vec![String::from("foo"), String::from("bar")]);
}

#[test]
fn malformed_text_is_a_syntax_error() {
    assert_eq!(parse_manifest("not json at all"), Err(ManifestError::Syntax));
}

#[test]
fn empty_text_is_a_syntax_error() {
    assert_eq!(parse_manifest(""), Err(ManifestError::Syntax));
}

#[test]
fn name_of_wrong_shape_is_rejected() {
    assert_eq!(parse_manifest(r#"{"name": 7}"#), Err(ManifestError::NameNotString));
}

#[test]
fn workspaces_of_wrong_shape_is_rejected() {
    assert_eq!(
        parse_manifest(r#"{"workspaces": "packages/*"}"#),
        Err(ManifestError::WorkspacesNotStrings)
    );
    assert_eq!(
        parse_manifest(r#"{"workspaces": ["packages/*", 3]}"#),
        Err(ManifestError::WorkspacesNotStrings)
    );
}

#[test]
fn dependencies_of_wrong_shape_is_rejected() {
    assert_eq!(
        parse_manifest(r#"{"dependencies": ["foo"]}"#),
        Err(ManifestError::DependenciesNotObject)
    );
}

#[test]
fn dev_dependencies_of_wrong_shape_is_rejected() {
    assert_eq!(
        parse_manifest(r#"{"devDependencies": 4}"#),
        Err(ManifestError::DevDependenciesNotObject)
    );
}

#[test]
fn manifest_values_can_be_built_directly() {
    let m = Manifest {
        name: Some(String::from("p")),
        workspaces: Vec::new(),
        dependencies: vec![String::from("foo")],
        dev_dependencies: Vec::new(),
    };
    assert_eq!(m.all_dependencies(), vec![String::from("foo")]);
}
