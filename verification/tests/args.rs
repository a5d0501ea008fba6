//! The argument vectors built for the toolchain.

use seacan::bin;
use seacan::test::{Compiler, NameSpec, TypeSpec};
use seacan::{FeatureSpec, PackageSpec};

const MSG_FORMAT: &str = "--message-format=json-diagnostic-rendered-ansi";

#[test]
fn bin_default_args() {
    let c = bin::Compiler::bin("hello_world");
    assert_eq!(
        c.args(),
        vec![
            "build".to_string(),
            MSG_FORMAT.to_string(),
            "--package".to_string(),
            "*".to_string(),
            "--bin".to_string(),
            "hello_world".to_string()
        ]
    );
}

#[test]
fn bin_full_args() {
    let mut c = bin::Compiler::bin("hello_world");
    c.workspace("samples/hello_world")
        .package(PackageSpec::name("hello_world"))
        .features(FeatureSpec::new(vec!["non_default_feature".to_string()]))
        .release(true)
        .target_dir("custom_target");
    assert_eq!(
        c.args(),
        vec![
            "build".to_string(),
            MSG_FORMAT.to_string(),
            "--package".to_string(),
            "hello_world".to_string(),
            "--features".to_string(),
            "non_default_feature".to_string(),
            "--release".to_string(),
            "--target-dir".to_string(),
            "custom_target".to_string(),
            "--bin".to_string(),
            "hello_world".to_string()
        ]
    );
    assert_eq!(c.workspace.as_deref(), Some("samples/hello_world"));
}

#[test]
fn example_args() {
    let c = bin::Compiler::example("example_1");
    assert_eq!(
        c.args(),
        vec![
            "build".to_string(),
            MSG_FORMAT.to_string(),
            "--package".to_string(),
            "*".to_string(),
            "--example".to_string(),
            "example_1".to_string()
        ]
    );
}

#[test]
fn release_omitted_matches_disabled() {
    let omitted = bin::Compiler::bin("hello_world");
    let mut disabled = bin::Compiler::bin("hello_world");
    disabled.release(false);
    assert_eq!(omitted.args(), disabled.args());
    let mut enabled = bin::Compiler::bin("hello_world");
    enabled.release(true);
    assert!(enabled.args().contains(&"--release".to_string()));
    assert!(!omitted.args().contains(&"--release".to_string()));
}

#[test]
fn test_default_args() {
    let c = Compiler::new(NameSpec::Any, TypeSpec::Lib);
    assert_eq!(
        c.args(),
        vec![
            "test".to_string(),
            "--no-run".to_string(),
            MSG_FORMAT.to_string(),
            "--package".to_string(),
            "*".to_string(),
            "--lib".to_string()
        ]
    );
}

#[test]
fn test_full_args() {
    let mut c = Compiler::new(
        NameSpec::exact("test_frobs_baz"),
        TypeSpec::integration("frob_*"),
    );
    c.workspace("samples/hello_world")
        .package(PackageSpec::name("ws_member"))
        .features(FeatureSpec::none())
        .release(true)
        .target_dir("elsewhere");
    assert_eq!(
        c.args(),
        vec![
            "test".to_string(),
            "--no-run".to_string(),
            MSG_FORMAT.to_string(),
            "--package".to_string(),
            "ws_member".to_string(),
            "--no-default-features".to_string(),
            "--release".to_string(),
            "--target-dir".to_string(),
            "elsewhere".to_string(),
            "--test".to_string(),
            "frob_*".to_string()
        ]
    );
}

#[test]
fn test_all_selector_adds_nothing() {
    let c = Compiler::new(NameSpec::Any, TypeSpec::All);
    assert_eq!(
        c.args(),
        vec![
            "test".to_string(),
            "--no-run".to_string(),
            MSG_FORMAT.to_string(),
            "--package".to_string(),
            "*".to_string()
        ]
    );
}

#[test]
fn list_args_by_policy() {
    let exact = Compiler::new(NameSpec::exact("test_a"), TypeSpec::Lib);
    assert_eq!(
        exact.list_args(),
        vec![
            "--list".to_string(),
            "--format=terse".to_string(),
            "--exact".to_string(),
            "test_a".to_string()
        ]
    );
    let sub = Compiler::new(NameSpec::substring("in_lib"), TypeSpec::Lib);
    assert_eq!(
        sub.list_args(),
        vec![
            "--list".to_string(),
            "--format=terse".to_string(),
            "in_lib".to_string()
        ]
    );
    let any = Compiler::new(NameSpec::Any, TypeSpec::Lib);
    assert_eq!(
        any.list_args(),
        vec!["--list".to_string(), "--format=terse".to_string()]
    );
}
