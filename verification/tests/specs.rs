//! The spec value types: package selectors, feature selections, name and
//! type selectors, and the run arguments they derive.

use seacan::test::{NameSpec, TestFn, TestFnType, TypeSpec};
use seacan::{FeatureSpec, PackageSpec};

#[test]
fn package_spec_reprs() {
    assert_eq!(PackageSpec::Any.as_repr(), "*");
    assert_eq!(PackageSpec::name("ws_member").as_repr(), "ws_member");
    let id = PackageSpec::Id("path+file:///x/seacan#0.1.0".to_string());
    assert_eq!(id.as_repr(), "path+file:///x/seacan#0.1.0");
    assert_eq!(PackageSpec::Any.into_repr(), "*");
    assert_eq!(PackageSpec::name("a").into_repr(), "a");
}

#[test]
fn features_subset_args() {
    let fs = FeatureSpec::new(vec!["alpha".to_string(), "beta".to_string()]);
    assert_eq!(fs.to_args(), vec!["--features".to_string(), "alpha,beta".to_string()]);
}

#[test]
fn features_single_arg() {
    let fs = FeatureSpec::new(vec!["non_default_feature".to_string()]);
    assert_eq!(fs.to_args(), vec!["--features".to_string(), "non_default_feature".to_string()]);
}

#[test]
fn features_default_only_is_silent() {
    assert_eq!(FeatureSpec::default_only().to_args(), Vec::<String>::new());
    assert_eq!(FeatureSpec::new(Vec::new()).to_args(), Vec::<String>::new());
}

#[test]
fn features_none_only_disables_default() {
    assert_eq!(FeatureSpec::none().to_args(), vec!["--no-default-features".to_string()]);
}

#[test]
fn features_no_default_with_list() {
    let fs = FeatureSpec::new_no_default(vec!["alpha".to_string()]);
    assert_eq!(
        fs.to_args(),
        vec![
            "--features".to_string(),
            "alpha".to_string(),
            "--no-default-features".to_string()
        ]
    );
}

#[test]
fn features_all() {
    assert_eq!(FeatureSpec::all().to_args(), vec!["--all-features".to_string()]);
}

#[test]
fn features_append() {
    let mut fs = FeatureSpec::default_only();
    fs.feature("alpha".to_string());
    fs.feature("beta".to_string());
    assert_eq!(fs.to_args(), vec!["--features".to_string(), "alpha,beta".to_string()]);
    let mut all = FeatureSpec::all();
    all.feature("ignored".to_string());
    assert_eq!(all.to_args(), vec!["--all-features".to_string()]);
}

#[test]
fn name_spec_run_args() {
    assert_eq!(
        NameSpec::exact("test_a").run_args(),
        vec!["--exact".to_string(), "test_a".to_string()]
    );
    assert_eq!(NameSpec::substring("in_lib").run_args(), vec!["in_lib".to_string()]);
    assert_eq!(NameSpec::Any.run_args(), Vec::<String>::new());
    assert_eq!(
        NameSpec::exact_run_args("test_b".to_string()),
        vec!["--exact".to_string(), "test_b".to_string()]
    );
}

#[test]
fn test_fn_run_args() {
    let t = TestFn { name: "test_in_example_1".to_string(), test_type: TestFnType::Test };
    assert_eq!(t.run_args(), vec!["--exact".to_string(), "test_in_example_1".to_string()]);
}

#[test]
fn test_fn_type_labels() {
    assert_eq!(TestFnType::Test.as_str(), "test");
    assert_eq!(TestFnType::Bench.as_str(), "bench");
}

#[test]
fn type_spec_selectors() {
    assert_eq!(TypeSpec::Lib.selector_args(), vec!["--lib".to_string()]);
    assert_eq!(
        TypeSpec::bin("bin_2").selector_args(),
        vec!["--bin".to_string(), "bin_2".to_string()]
    );
    assert_eq!(TypeSpec::Bins.selector_args(), vec!["--bins".to_string()]);
    assert_eq!(
        TypeSpec::integration("integration_tests_1").selector_args(),
        vec!["--test".to_string(), "integration_tests_1".to_string()]
    );
    assert_eq!(
        TypeSpec::Integrations.selector_args(),
        vec!["--test".to_string(), "*".to_string()]
    );
    assert_eq!(
        TypeSpec::example("example_1").selector_args(),
        vec!["--example".to_string(), "example_1".to_string()]
    );
    assert_eq!(TypeSpec::Examples.selector_args(), vec!["--examples".to_string()]);
    assert_eq!(TypeSpec::Doc.selector_args(), vec!["--doc".to_string()]);
    assert_eq!(TypeSpec::All.selector_args(), Vec::<String>::new());
}
