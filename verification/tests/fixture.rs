//! The test functions the discovery fixture workspace declares: the bodies
//! are empty on purpose, since only their names and feature gating matter to
//! the engine that lists them.

#[test]
fn test_in_lib_1() {}

#[test]
fn test_in_lib_2() {}

#[test]
fn test_default_feature() {}

#[test]
fn test_non_default_feature() {}
