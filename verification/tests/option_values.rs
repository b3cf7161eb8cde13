use rens::cli_options;
use rens::cli_options::GlobalOrNumbered;
use rens::file::RenameTarget;
use rens::options::confirmations::{ConfirmOption, Confirmations, OverrideOption};
use rens::options::pattern;
use rens::options::recursion::Recursion;
use rens::strategy::Strategy;

#[test]
fn test_target() {
    assert_eq!(RenameTarget::from_value("."), None);

    assert_eq!(RenameTarget::from_value("both"), Some(RenameTarget::Both));

    assert_eq!(
        RenameTarget::from_value("extension"),
        Some(RenameTarget::Extension)
    );

    assert_eq!(RenameTarget::from_value("stem"), Some(RenameTarget::Stem));

    assert_eq!(RenameTarget::default(), RenameTarget::Both);
}

#[test]
fn confirmations_test_default_values() {
    let confirmations = Confirmations::default();
    assert_eq!(confirmations.allow_override, OverrideOption::Ask);
    assert_eq!(confirmations.confirm, ConfirmOption::Each);
}

#[test]
fn test_allow_override() {
    assert_eq!(
        OverrideOption::from_value("ask"),
        Some(OverrideOption::Ask)
    );

    assert_eq!(
        OverrideOption::from_value("allow"),
        Some(OverrideOption::Allow)
    );

    assert_eq!(
        OverrideOption::from_value("deny"),
        Some(OverrideOption::Deny)
    );

    assert_eq!(OverrideOption::from_value("maybe"), None);
}

#[test]
fn test_confirm() {
    assert_eq!(ConfirmOption::from_value("each"), Some(ConfirmOption::Each));

    assert_eq!(ConfirmOption::from_value("once"), Some(ConfirmOption::Once));

    assert_eq!(
        ConfirmOption::from_value("never"),
        Some(ConfirmOption::Never)
    );

    assert_eq!(ConfirmOption::from_value("always"), None);
}

#[test]
fn pattern_test_default_values() {
    let options = pattern::Options::default();
    assert!(!options.case_insensitive);
    assert_eq!(options.occurence, None);
}

#[test]
fn pattern_test_case_sensitive() {
    let options = pattern::Options { case_insensitive: true, occurence: None };
    assert!(options.case_insensitive);

    let strategy = Strategy::from_literal("foo", "x".to_string(), options.case_insensitive, None)
        .unwrap();
    assert!(strategy.is_match("FOO"));
}

#[test]
fn pattern_test_occurence() {
    // A zero count would mean "all" already; the interface only takes
    // positive counts.
    assert!(std::num::NonZeroUsize::try_from(0usize).is_err());

    let options = pattern::Options { case_insensitive: false, occurence: Some(5) };
    assert_eq!(options.occurence, Some(5));

    let strategy =
        Strategy::from_literal("a", "b".to_string(), false, options.occurence).unwrap();
    assert_eq!(strategy.limit(), 5);
}

#[test]
fn recursion_test_default_values() {
    let recursion = Recursion::default();
    assert!(!recursion.recursive);
    assert_eq!(recursion.depth, None);
    assert!(!recursion.allow_hidden);

    let old = cli_options::Recursion::default();
    assert!(!old.recursive);
    assert_eq!(old.depth, 1);
    assert!(!old.allow_hidden);
}

#[test]
fn recursion_test_recursive_flag() {
    assert!(Recursion::resolve(false, None, true).recursive);
}

#[test]
fn recursion_test_depth() {
    let recursion = Recursion::resolve(false, Some(5), false);
    assert_eq!(recursion.depth, Some(5));
    assert!(recursion.recursive);
}

#[test]
fn recursion_test_allow_hidden() {
    assert!(Recursion::resolve(true, None, false).allow_hidden);
}

#[test]
fn mode_test_default_values() {
    let options = cli_options::PatternOptions::default();
    assert!(!options.case_insensitive);
    assert_eq!(options.occurence, None);
}

#[test]
fn mode_test_case_sensitive() {
    let options = cli_options::PatternOptions { case_insensitive: true, occurence: None };
    assert!(options.case_insensitive);
}

#[test]
fn mode_test_occurence() {
    let options = cli_options::PatternOptions { case_insensitive: false, occurence: Some(5) };
    assert_eq!(options.occurence, Some(5));
}

#[test]
fn global_or_numbered_limits() {
    assert_eq!(GlobalOrNumbered::default(), GlobalOrNumbered::Global);
    assert_eq!(GlobalOrNumbered::Global.limit(), 0);
    assert_eq!(GlobalOrNumbered::Numbered(7).limit(), 7);
}

#[test]
fn recursion_to_policy_carries_fields() {
    let recursion = Recursion::resolve(true, Some(3), false);
    let policy = recursion.to_policy(true);
    assert!(policy.recursive);
    assert_eq!(policy.depth_limit, Some(3));
    assert!(policy.include_hidden);
    assert!(policy.honor_ignore_files);
}
