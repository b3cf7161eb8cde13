use rens::sed_pattern::{Error, SedPattern};

#[test]
fn test_valid_pattern_with_options() {
    let sed_pattern = SedPattern::from_str("/foo/bar/g").unwrap();

    assert_eq!(sed_pattern.pattern().as_str(), "foo");
    assert_eq!(sed_pattern.with().as_str(), "bar");
    assert_eq!(sed_pattern.limit(), 0);
}

#[test]
fn test_valid_pattern_with_various_separators() {
    for separator in ['x', ';', '/'] {
        let pat = format!("{separator}foo{separator}bar{separator}gi");
        let sed_pattern = SedPattern::from_str(&pat).unwrap();

        assert_eq!(sed_pattern.pattern().as_str(), "foo");
        assert_eq!(sed_pattern.with().as_str(), "bar");
        assert_eq!(sed_pattern.limit(), 0);
    }
}

#[test]
fn test_empty_segments() {
    SedPattern::from_str("/foo//").unwrap();
    SedPattern::from_str("///").unwrap();
    SedPattern::from_str("//ee/").unwrap();
    SedPattern::from_str("///g").unwrap();
}

#[test]
fn test_pattern_with_escaped_separator() {
    let sed_pattern = SedPattern::from_str("/foo\\/bar/baz/").unwrap();

    assert_eq!(sed_pattern.pattern().as_str(), "foo/bar");
    assert_eq!(sed_pattern.with().as_str(), "baz");
    assert_eq!(sed_pattern.limit(), 0);
}

#[test]
fn test_replacement_with_escaped_separator() {
    let sed_pattern = SedPattern::from_str("/foo/bar\\/baz/").unwrap();

    assert_eq!(sed_pattern.pattern().as_str(), "foo");
    assert_eq!(sed_pattern.with().as_str(), "bar/baz");
    assert_eq!(sed_pattern.limit(), 0);
}

#[test]
fn test_special_characters() {
    let sed_pattern = SedPattern::from_str("/f.o*/bar/g").unwrap();

    assert_eq!(sed_pattern.pattern().as_str(), "f.o*",);
    assert_eq!(sed_pattern.with().as_str(), "bar",);
    assert_eq!(sed_pattern.limit(), 0);
    let strategy = sed_pattern.export();
    assert!(strategy.is_match("foooooooo"));
}

#[test]
fn test_empty_input_pattern() {
    assert!(
        matches!(SedPattern::from_str(""), Err(Error::Empty)),
        "Expected Error::Empty"
    );
}

#[test]
fn test_missing_segment() {
    for pat in ["//", "/", "/foo/", "/foo\\/", "/foo/bar\\/"] {
        let res = SedPattern::from_str(pat);
        assert!(
            matches!(res, Err(Error::MissingSegment)),
            "Expected Error::MissingSegment, got {res:#?} for {pat}"
        );
    }
}

#[test]
fn test_unknown_flag_character() {
    let res = SedPattern::from_str("/foo/bar/Q");
    match res {
        Err(Error::Flag(e)) => {
            assert_eq!(e, rens::sed_pattern::flag::Error::UnknownFlag('Q'))
        },
        other => panic!("Expected Error::Flag, got {other:#?}"),
    }
}

#[test]
fn test_separator_x_case_insensitive() {
    let sed_pattern = SedPattern::from_str("xfooxbarxgi").unwrap();
    assert_eq!(sed_pattern.pattern().as_str(), "foo");
    assert_eq!(sed_pattern.with().as_str(), "bar");
    assert_eq!(sed_pattern.limit(), 0);
    let strategy = sed_pattern.export();
    assert!(strategy.is_match("FOO"));
}

#[test]
fn test_rejected_pattern_segment() {
    let res = SedPattern::from_str("/[/x/");
    match res {
        Err(Error::Regex(e)) => assert_eq!(e.pattern.as_str(), "["),
        other => panic!("Expected Error::Regex, got {other:#?}"),
    }
}

#[test]
fn test_numbered_limit_applies() {
    let strategy = SedPattern::from_str("/a/b/2").unwrap().export();
    assert_eq!(strategy.limit(), 2);
    assert_eq!(strategy.apply("banana").as_str(), "bbnbna");
}

#[test]
fn test_last_occurrence_flag_wins() {
    let strategy = SedPattern::from_str("/a/b/3g").unwrap().export();
    assert_eq!(strategy.limit(), 0);
    let strategy = SedPattern::from_str("/a/b/g3/").unwrap_err();
    assert!(matches!(strategy, Error::Flag(_)));
    let strategy = SedPattern::from_str("/a/b/g3").unwrap().export();
    assert_eq!(strategy.limit(), 3);
}

#[test]
fn test_last_case_flag_wins() {
    let sensitive = SedPattern::from_str("/FOO/x/iI").unwrap().export();
    assert!(!sensitive.is_match("foo"));
    let insensitive = SedPattern::from_str("/FOO/x/Ii").unwrap().export();
    assert!(insensitive.is_match("foo"));
}

#[test]
fn test_swap_greed_flag() {
    let lazy = SedPattern::from_str("/<.*>/X/U").unwrap().export();
    assert_eq!(lazy.apply("<a><b>").as_str(), "XX");
    let greedy = SedPattern::from_str("/<.*>/X/").unwrap().export();
    assert_eq!(greedy.apply("<a><b>").as_str(), "X");
}

#[test]
fn test_ignore_whitespace_flag() {
    let spaced = SedPattern::from_str("/a b/c/x").unwrap().export();
    assert_eq!(spaced.apply("ab").as_str(), "c");
}

#[test]
fn test_multi_digit_limit() {
    let strategy = SedPattern::from_str("/a/b/12").unwrap().export();
    assert_eq!(strategy.limit(), 12);
}
