use rens::sed_pattern::flag::{char_to_digit, Error, Flag};

#[test]
fn test_mixed_flags() {
    let chars: Vec<char> = "i12g34U".chars().collect();
    let flags = Flag::list_from_chars(&chars).unwrap();
    assert_eq!(
        flags,
        vec![
            Flag::CaseInsensitive,
            Flag::Numbered(12),
            Flag::Global,
            Flag::Numbered(34),
            Flag::GreedySwap,
        ]
    );
}

#[test]
fn test_invalid_flag() {
    let chars: Vec<char> = "iX".chars().collect();
    let result = Flag::list_from_chars(&chars);
    assert_eq!(result.unwrap_err(), Error::UnknownFlag('X'));
}

#[test]
fn test_empty_input() {
    let chars: Vec<char> = "".chars().collect();
    let flags = Flag::list_from_chars(&chars).unwrap();
    assert!(flags.is_empty());
}

#[test]
fn test_single_digit_run() {
    let chars: Vec<char> = "5".chars().collect();
    let flags = Flag::list_from_chars(&chars).unwrap();
    assert_eq!(flags, vec![Flag::Numbered(5)]);
}

#[test]
fn test_long_digit_run_is_one_flag() {
    let chars: Vec<char> = "123x".chars().collect();
    let flags = Flag::list_from_chars(&chars).unwrap();
    assert_eq!(flags, vec![Flag::Numbered(123), Flag::IgnoreWhitespaces]);
}

#[test]
fn test_char_to_digit_values() {
    assert_eq!(char_to_digit('0'), 0);
    assert_eq!(char_to_digit('7'), 7);
    assert_eq!(char_to_digit('9'), 9);
}

#[test]
fn test_huge_digit_run_saturates() {
    let chars: Vec<char> = "99999999999999999999999999".chars().collect();
    let flags = Flag::list_from_chars(&chars).unwrap();
    assert_eq!(flags, vec![Flag::Numbered(usize::MAX)]);
}
