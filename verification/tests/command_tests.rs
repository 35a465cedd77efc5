use wsinstall::command::{build_install_command, plan_install, InstallPlan};

#[test]
fn one_dependant_gives_the_scoped_install_command() {
    let names = vec![String::from("pkgA")];
    let plan = plan_install(&names, "lodash@4.0.0");
    assert_eq!(plan, InstallPlan::Run(String::from("npm install -w pkgA lodash@4.0.0")));
}

#[test]
fn each_dependant_gets_its_own_flag() {
    let names = vec![String::from("a"), String::from("b")];
    assert_eq!(build_install_command(&names, "lodash"), String::from("npm install -w a -w b lodash"));
}

#[test]
fn no_dependants_means_nothing_to_run() {
    let names: Vec<String> = Vec::new();
    assert_eq!(plan_install(&names, "lodash@4.0.0"), InstallPlan::NoDependants);
}

#[test]
fn the_package_identifier_is_passed_as_given() {
    let names = vec![String::from("w")];
    assert_eq!(
        build_install_command(&names, "@scope/pkg@next"),
        String::from("npm install -w w @scope/pkg@next")
    );
}
