use rens::file::{File, Name, RenameTarget};
use rens::path_ext::Kind;
use rens::rens_target::RensTarget;
use rens::file_name::FileName;
use rens::strategy::Strategy;

#[test]
fn literal_strategy_replaces_all_by_default() {
    let strategy = Strategy::from_literal("a", "b".to_string(), false, None).unwrap();
    assert_eq!(strategy.limit(), 0);
    assert_eq!(strategy.apply("banana").as_str(), "bbnbnb");
}

#[test]
fn literal_strategy_honors_occurrence() {
    let strategy = Strategy::from_literal("a", "b".to_string(), false, Some(2)).unwrap();
    assert_eq!(strategy.limit(), 2);
    assert_eq!(strategy.apply("banana").as_str(), "bbnbna");
}

#[test]
fn literal_strategy_escapes_metacharacters() {
    let strategy = Strategy::from_literal("f.o", "x".to_string(), false, None).unwrap();
    assert!(strategy.is_match("f.o"));
    assert!(!strategy.is_match("fxo"));
    assert_eq!(strategy.apply("fxo").as_str(), "fxo");
}

#[test]
fn literal_strategy_matches_itself() {
    for pattern in ["f.o*", "a+b", "[x]", "(y)", "^z$", "", "plain"] {
        for case_insensitive in [false, true] {
            let strategy =
                Strategy::from_literal(pattern, "x".to_string(), case_insensitive, None).unwrap();
            assert!(strategy.is_match(pattern), "escaped {pattern:?} must match itself");
        }
    }
}

#[test]
fn regex_strategy_rejects_bad_source() {
    let err = Strategy::from_regex_source("[", "x".to_string(), false, None).unwrap_err();
    assert_eq!(err.pattern.as_str(), "[");
}

#[test]
fn regex_strategy_case_insensitive() {
    let strategy = Strategy::from_regex_source("foo", "x".to_string(), true, None).unwrap();
    assert!(strategy.is_match("FOO"));
    let strict = Strategy::from_regex_source("foo", "x".to_string(), false, None).unwrap();
    assert!(!strict.is_match("FOO"));
}

#[test]
fn regex_strategy_backreferences() {
    let strategy =
        Strategy::from_regex_source("(ab)c", "${1}d".to_string(), false, None).unwrap();
    let name = Name::new("abc".to_string(), None);
    let renamed = name.to_renamed(&strategy, RenameTarget::Stem);
    assert_eq!(renamed.stem().as_str(), "abd");
}

#[test]
fn stem_target_keeps_extension() {
    let strategy = Strategy::from_literal("file", "doc".to_string(), false, None).unwrap();
    let name = Name::new("file".to_string(), Some("txt".to_string()));
    let renamed = name.to_renamed(&strategy, RenameTarget::Stem);
    assert_eq!(renamed.stem().as_str(), "doc");
    assert_eq!(renamed.extension().as_deref(), Some("txt"));
}

#[test]
fn extension_target_keeps_stem() {
    let strategy = Strategy::from_literal("txt", "md".to_string(), false, None).unwrap();
    let name = Name::new("file".to_string(), Some("txt".to_string()));
    let renamed = name.to_renamed(&strategy, RenameTarget::Extension);
    assert_eq!(renamed.stem().as_str(), "file");
    assert_eq!(renamed.extension().as_deref(), Some("md"));
}

#[test]
fn extension_target_without_extension_is_noop() {
    let strategy = Strategy::from_literal("README", "CHANGES".to_string(), false, None).unwrap();
    let name = Name::new("README".to_string(), None);
    let renamed = name.to_renamed(&strategy, RenameTarget::Extension);
    assert_eq!(renamed.stem().as_str(), "README");
    assert!(renamed.extension().is_none());
}

#[test]
fn both_target_resplits_at_last_dot() {
    let name = Name::new("archive.tar".to_string(), Some("gz".to_string()));

    let first_dot = Strategy::from_literal(".", "_".to_string(), false, Some(1)).unwrap();
    let renamed = name.to_renamed(&first_dot, RenameTarget::Both);
    assert_eq!(renamed.stem().as_str(), "archive_tar");
    assert_eq!(renamed.extension().as_deref(), Some("gz"));

    let all_dots = Strategy::from_literal(".", "_".to_string(), false, None).unwrap();
    let renamed = name.to_renamed(&all_dots, RenameTarget::Both);
    assert_eq!(renamed.stem().as_str(), "archive_tar_gz");
    assert!(renamed.extension().is_none());
}

#[test]
fn both_target_can_introduce_extension() {
    let strategy = Strategy::from_literal("_", ".".to_string(), false, None).unwrap();
    let name = Name::new("notes_txt".to_string(), None);
    let renamed = name.to_renamed(&strategy, RenameTarget::Both);
    assert_eq!(renamed.stem().as_str(), "notes");
    assert_eq!(renamed.extension().as_deref(), Some("txt"));
}

#[test]
fn both_target_display_is_substitution() {
    let strategy = Strategy::from_literal(".", "_".to_string(), false, None).unwrap();
    let name = Name::new("a.b".to_string(), Some("c".to_string()));
    let renamed = name.to_renamed(&strategy, RenameTarget::Both);
    assert_eq!(renamed.to_string(), strategy.apply(&name.to_string()));
}

#[test]
fn needs_rename_iff_name_changes() {
    let file = File::from_path("./file.txt", Kind::File).unwrap();

    let changing = Strategy::from_literal("file", "doc".to_string(), false, None).unwrap();
    assert!(file.needs_rename(&changing, RenameTarget::Both));

    let unmatched = Strategy::from_literal("zzz", "doc".to_string(), false, None).unwrap();
    assert!(!file.needs_rename(&unmatched, RenameTarget::Both));

    let identity = Strategy::from_literal("file", "file".to_string(), false, None).unwrap();
    assert!(!file.needs_rename(&identity, RenameTarget::Both));
}

#[test]
fn renamed_path_joins_parent() {
    let file = File::from_path("./dir/file.txt", Kind::File).unwrap();
    let strategy = Strategy::from_literal("file", "doc".to_string(), false, None).unwrap();
    assert_eq!(
        file.renamed_name(&strategy, RenameTarget::Both).to_string(),
        "doc.txt"
    );
    assert_eq!(
        file.renamed_path(&strategy, RenameTarget::Both).as_str(),
        "./dir/doc.txt"
    );
}

#[test]
fn rens_target_paths_and_prompt() {
    let target = RensTarget {
        path: "./dir/file.txt".to_string(),
        filename: FileName::new("file".to_string(), Some("txt".to_string())),
        renamed: FileName::new("doc".to_string(), Some("md".to_string())),
        target_dir: "./dir".to_string(),
    };
    assert_eq!(target.original_path().as_str(), "./dir/file.txt");
    assert_eq!(target.renamed_path().as_str(), "./dir/doc.md");
    assert_eq!(
        target.rename_prompt().as_str(),
        "./dir/file.txt -> ./dir/doc.md"
    );
}

#[test]
fn sed_strategy_drives_rename() {
    let strategy = rens::SedPattern::from_str("/_/./g").unwrap().export();
    let name = FileName::new("a_b_c".to_string(), None);
    let renamed = name.to_renamed(&strategy, RenameTarget::Both);
    assert_eq!(renamed.stem().as_str(), "a.b");
    assert_eq!(renamed.extension().as_deref(), Some("c"));
}
