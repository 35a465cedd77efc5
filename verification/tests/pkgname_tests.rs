use wsinstall::pkgname::extract_package_name;

#[test]
fn name_with_tag_keeps_name() {
    assert_eq!(extract_package_name("lodash@4.0.0"), Some(String::from("lodash")));
}

#[test]
fn name_without_tag_is_unchanged() {
    assert_eq!(extract_package_name("lodash"), Some(String::from("lodash")));
}

#[test]
fn scoped_name_with_tag_keeps_scope() {
    assert_eq!(extract_package_name("@scope/pkg@1.2.3"), Some(String::from("@scope/pkg")));
}

#[test]
fn scoped_name_without_tag_is_unchanged() {
    assert_eq!(extract_package_name("@scope/pkg"), Some(String::from("@scope/pkg")));
}

#[test]
fn empty_identifier_has_no_name() {
    assert_eq!(extract_package_name(""), None);
}

#[test]
fn lone_at_is_its_own_name() {
    assert_eq!(extract_package_name("@"), Some(String::from("@")));
}
