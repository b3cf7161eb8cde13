pub mod flag;

use vstd::prelude::*;
use vstd::slice::slice_subrange;

use crate::sed_pattern::flag::{spec_parse_flags, Flag};
use crate::strategy::{build_check, regex_build_ok, PatternError, Strategy, StrategyV};
use crate::text::{chars_vec, string_from_chars};

verus! {

/// One segment of a sed expression, read from position `i` up to the next
/// un-escaped separator. A backslash directly before the separator escapes
/// it; any other backslash is kept as it stands. Yields the segment's text
/// and the position just past the closing separator, or nothing when the
/// input ends before a closing separator is found.
pub open spec fn spec_parse_segment(s: Seq<char>, sep: char, i: int) -> Option<(Seq<char>, int)>
    decreases s.len() - i,
    when 0 <= i <= s.len()
{
    if i >= s.len() {
        None
    } else if s[i] == '\\' && i + 1 < s.len() && s[i + 1] == sep {
        match spec_parse_segment(s, sep, i + 2) {
            Some(r) => Some((seq![sep] + r.0, r.1)),
            None => None,
        }
    } else if s[i] == sep {
        Some((Seq::<char>::empty(), i + 1))
    } else {
        match spec_parse_segment(s, sep, i + 1) {
            Some(r) => Some((seq![s[i]] + r.0, r.1)),
            None => None,
        }
    }
}

pub proof fn lemma_parse_segment_bounds(s: Seq<char>, sep: char, i: int)
    requires
        0 <= i <= s.len(),
    ensures
        match spec_parse_segment(s, sep, i) {
            Some(r) => i < r.1 <= s.len(),
            None => true,
        },
    decreases s.len() - i,
{
    if i >= s.len() {
    } else if s[i] == '\\' && i + 1 < s.len() && s[i + 1] == sep {
        lemma_parse_segment_bounds(s, sep, i + 2);
    } else if s[i] == sep {
    } else {
        lemma_parse_segment_bounds(s, sep, i + 1);
    }
}

/// How a whole sed expression parses, before the pattern is handed to the
/// regex engine.
pub ghost enum SedParse {
    /// The input was empty: not even a separator could be read.
    Empty,
    /// The input ended before both segments were closed.
    MissingSegment,
    /// The flag tail held this unrecognized character.
    BadFlag(char),
    /// Pattern source, replacement source and flag list.
    Parsed { pattern: Seq<char>, with: Seq<char>, flags: Seq<Flag> },
}

/// The outcome of parsing a sed expression: the first character is the
/// separator, then come exactly two separator-closed segments, and the rest
/// is the flag tail.
pub open spec fn spec_parse_sed(s: Seq<char>) -> SedParse {
    if s.len() == 0 {
        SedParse::Empty
    } else {
        let sep = s[0];
        match spec_parse_segment(s, sep, 1) {
            None => SedParse::MissingSegment,
            Some((pattern, j)) => match spec_parse_segment(s, sep, j) {
                None => SedParse::MissingSegment,
                Some((with, k)) => match spec_parse_flags(s.skip(k)) {
                    Ok(flags) => SedParse::Parsed { pattern, with, flags },
                    Err(c) => SedParse::BadFlag(c),
                },
            },
        }
    }
}

/// The regex options and occurrence limit that a flag list denotes, applied
/// left to right so that the last flag of a category wins. Without flags:
/// case sensitive, normal greediness, no free-whitespace mode, limit 0
/// (replace all matches).
pub ghost struct SedOptions {
    pub case_insensitive: bool,
    pub swap_greed: bool,
    pub ignore_whitespace: bool,
    pub limit: nat,
}

pub open spec fn spec_fold_flags(flags: Seq<Flag>) -> SedOptions
    decreases flags.len(),
{
    if flags.len() == 0 {
        SedOptions { case_insensitive: false, swap_greed: false, ignore_whitespace: false, limit: 0 }
    } else {
        let prev = spec_fold_flags(flags.drop_last());
        match flags.last() {
            Flag::CaseInsensitive => SedOptions { case_insensitive: true, ..prev },
            Flag::CaseSensitive => SedOptions { case_insensitive: false, ..prev },
            Flag::Global => SedOptions { limit: 0, ..prev },
            Flag::Numbered(n) => SedOptions { limit: n as nat, ..prev },
            Flag::GreedySwap => SedOptions { swap_greed: true, ..prev },
            Flag::IgnoreWhitespaces => SedOptions { ignore_whitespace: true, ..prev },
        }
    }
}

/// Failure of sed-expression parsing or of compiling its pattern.
#[derive(Debug)]
pub enum Error {
    /// The input was empty.
    Empty,
    /// The input ended before both segments were closed.
    MissingSegment,
    /// The regex engine rejected the pattern segment.
    Regex(PatternError),
    /// The flag tail held an unrecognized character.
    Flag(flag::Error),
}

/// A fully parsed and compiled sed expression: pattern source, replacement,
/// the options its flags configured, and the occurrence limit.
#[derive(Debug)]
pub struct SedPattern {
    pattern: String,
    case_insensitive: bool,
    swap_greed: bool,
    ignore_whitespace: bool,
    with: String,
    limit: usize,
}

impl View for SedPattern {
    type V = StrategyV;

    closed spec fn view(&self) -> StrategyV {
        StrategyV {
            pattern: self.pattern@,
            case_insensitive: self.case_insensitive,
            swap_greed: self.swap_greed,
            ignore_whitespace: self.ignore_whitespace,
            with: self.with@,
            limit: self.limit as nat,
        }
    }
}

impl SedPattern {
    /// Every `SedPattern` holds a pattern that the regex engine accepts.
    #[verifier::type_invariant]
    spec fn compiled(self) -> bool {
        self@.wf()
    }

    /// Parses a sed expression `<sep><pattern><sep><replacement><sep><flags>`
    /// and compiles its pattern under the options the flags configure.
    pub fn from_str(input: &str) -> (r: Result<SedPattern, Error>)
        ensures
            match spec_parse_sed(input@) {
                SedParse::Empty => r matches Err(Error::Empty),
                SedParse::MissingSegment => r matches Err(Error::MissingSegment),
                SedParse::BadFlag(c) => r matches Err(Error::Flag(flag::Error::UnknownFlag(c))),
                SedParse::Parsed { pattern, with, flags } => {
                    let o = spec_fold_flags(flags);
                    if regex_build_ok(pattern, o.case_insensitive, o.swap_greed, o.ignore_whitespace) {
                        r matches Ok(p) && p@ == (StrategyV {
                            pattern,
                            case_insensitive: o.case_insensitive,
                            swap_greed: o.swap_greed,
                            ignore_whitespace: o.ignore_whitespace,
                            with,
                            limit: o.limit,
                        })
                    } else {
                        r matches Err(Error::Regex(e)) && e.pattern@ == pattern
                    }
                },
            },
    {
        let chars = chars_vec(input);
        if chars.len() == 0 {
            return Err(Error::Empty);
        }
        let sep = chars[0];
        let (pattern_chars, j) = match parse_segment(&chars, sep, 1) {
            Some(r) => r,
            None => {
                return Err(Error::MissingSegment);
            },
        };
        proof {
            lemma_parse_segment_bounds(chars@, sep, 1);
        }
        let (with_chars, k) = match parse_segment(&chars, sep, j) {
            Some(r) => r,
            None => {
                return Err(Error::MissingSegment);
            },
        };
        proof {
            lemma_parse_segment_bounds(chars@, sep, j as int);
        }
        let tail = slice_subrange(chars.as_slice(), k, chars.len());
        proof {
            assert(tail@ == chars@.skip(k as int));
        }
        let flags = match Flag::list_from_chars(tail) {
            Ok(fs) => fs,
            Err(e) => {
                return Err(Error::Flag(e));
            },
        };
        let (case_insensitive, swap_greed, ignore_whitespace, limit) = fold_flags(&flags);
        let pattern = string_from_chars(pattern_chars.as_slice());
        let with = string_from_chars(with_chars.as_slice());
        if build_check(pattern.as_str(), case_insensitive, swap_greed, ignore_whitespace) {
            Ok(
                SedPattern {
                    pattern,
                    case_insensitive,
                    swap_greed,
                    ignore_whitespace,
                    with,
                    limit,
                },
            )
        } else {
            Err(Error::Regex(PatternError { pattern }))
        }
    }

    /// Hands the parsed expression over as a rename strategy.
    pub fn export(self) -> (s: Strategy)
        ensures
            s@ == self@,
    {
        proof {
            use_type_invariant(&self);
        }
        Strategy::from_checked_parts(
            self.pattern,
            self.case_insensitive,
            self.swap_greed,
            self.ignore_whitespace,
            self.with,
            self.limit,
        )
    }

    /// The pattern source the expression carried.
    pub fn pattern(&self) -> (r: &String)
        ensures
            r@ == self@.pattern,
    {
        &self.pattern
    }

    /// The replacement text the expression carried.
    pub fn with(&self) -> (r: &String)
        ensures
            r@ == self@.with,
    {
        &self.with
    }

    /// The occurrence limit the flags configured; 0 means "replace all".
    pub fn limit(&self) -> (r: usize)
        ensures
            r as nat == self@.limit,
    {
        self.limit
    }
}

/// Reads one separator-closed segment starting at `start`.
fn parse_segment(chars: &Vec<char>, sep: char, start: usize) -> (r: Option<(Vec<char>, usize)>)
    requires
        start <= chars@.len(),
    ensures
        match r {
            Some(seg_end) => {
                &&& start < seg_end.1 <= chars@.len()
                &&& spec_parse_segment(chars@, sep, start as int) == Some(
                    (seg_end.0@, seg_end.1 as int),
                )
            },
            None => spec_parse_segment(chars@, sep, start as int) is None,
        },
{
    let mut buf: Vec<char> = Vec::new();
    let mut i: usize = start;
    proof {
        match spec_parse_segment(chars@, sep, start as int) {
            Some(r2) => {
                assert(Seq::<char>::empty() + r2.0 =~= r2.0);
            },
            None => {},
        }
    }
    loop
        invariant
            start <= i <= chars@.len(),
            spec_parse_segment(chars@, sep, start as int) == (match spec_parse_segment(
                chars@,
                sep,
                i as int,
            ) {
                Some(r2) => Some::<(Seq<char>, int)>((buf@ + r2.0, r2.1)),
                None => None::<(Seq<char>, int)>,
            }),
        decreases chars@.len() - i,
    {
        if i >= chars.len() {
            return None;
        }
        let c = chars[i];
        if c == '\\' && i + 1 < chars.len() && chars[i + 1] == sep {
            let ghost prev = buf@;
            buf.push(sep);
            proof {
                match spec_parse_segment(chars@, sep, i + 2 as int) {
                    Some(r2) => {
                        assert(prev + (seq![sep] + r2.0) =~= buf@ + r2.0);
                    },
                    None => {},
                }
            }
            i = i + 2;
        } else if c == sep {
            proof {
                assert(buf@ + Seq::<char>::empty() =~= buf@);
            }
            return Some((buf, i + 1));
        } else {
            let ghost prev = buf@;
            buf.push(c);
            proof {
                match spec_parse_segment(chars@, sep, i + 1 as int) {
                    Some(r2) => {
                        assert(prev + (seq![c] + r2.0) =~= buf@ + r2.0);
                    },
                    None => {},
                }
            }
            i = i + 1;
        }
    }
}

/// Applies a flag list left to right onto the default options.
fn fold_flags(flags: &Vec<Flag>) -> (r: (bool, bool, bool, usize))
    ensures
        ({
            let o = spec_fold_flags(flags@);
            r.0 == o.case_insensitive && r.1 == o.swap_greed && r.2 == o.ignore_whitespace && r.3
                as nat == o.limit
        }),
{
    let mut case_insensitive: bool = false;
    let mut swap_greed: bool = false;
    let mut ignore_whitespace: bool = false;
    let mut limit: usize = 0;
    let mut i: usize = 0;
    proof {
        assert(flags@.take(0) =~= Seq::<Flag>::empty());
    }
    while i < flags.len()
        invariant
            i <= flags@.len(),
            ({
                let o = spec_fold_flags(flags@.take(i as int));
                case_insensitive == o.case_insensitive && swap_greed == o.swap_greed
                    && ignore_whitespace == o.ignore_whitespace && limit as nat == o.limit
            }),
        decreases flags@.len() - i,
    {
        proof {
            assert(flags@.take(i + 1 as int).drop_last() =~= flags@.take(i as int));
            assert(flags@.take(i + 1 as int).last() == flags@[i as int]);
        }
        match flags[i] {
            Flag::CaseInsensitive => {
                case_insensitive = true;
            },
            Flag::CaseSensitive => {
                case_insensitive = false;
            },
            Flag::Global => {
                limit = 0;
            },
            Flag::Numbered(n) => {
                limit = n;
            },
            Flag::GreedySwap => {
                swap_greed = true;
            },
            Flag::IgnoreWhitespaces => {
                ignore_whitespace = true;
            },
        }
        i = i + 1;
    }
    proof {
        assert(flags@.take(flags@.len() as int) =~= flags@);
    }
    (case_insensitive, swap_greed, ignore_whitespace, limit)
}

} // verus!
