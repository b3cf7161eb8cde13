use vstd::prelude::*;

verus! {

/// Whether `regex::RegexBuilder::build` accepts a pattern compiled with the
/// given options.
pub uninterp spec fn regex_build_ok(
    pattern: Seq<char>,
    case_insensitive: bool,
    swap_greed: bool,
    ignore_whitespace: bool,
) -> bool;

/// The text that `regex::Regex::replacen` produces when the regex compiled
/// from `pattern` under the given options rewrites `haystack`, replacing at
/// most `limit` matches (every match when `limit` is zero) with `rep`.
pub uninterp spec fn regex_replacen(
    pattern: Seq<char>,
    case_insensitive: bool,
    swap_greed: bool,
    ignore_whitespace: bool,
    haystack: Seq<char>,
    limit: nat,
    rep: Seq<char>,
) -> Seq<char>;

/// Whether `regex::Regex::is_match` finds a match of the regex compiled from
/// `pattern` under the given options anywhere in `haystack`.
pub uninterp spec fn regex_is_match(
    pattern: Seq<char>,
    case_insensitive: bool,
    swap_greed: bool,
    ignore_whitespace: bool,
    haystack: Seq<char>,
) -> bool;

/// The pattern that `regex::escape` produces for a piece of text.
pub uninterp spec fn regex_escaped(text: Seq<char>) -> Seq<char>;

/// Relies on `regex::RegexBuilder::build`: whether a pattern compiles is a
/// function of the pattern text and the configured options alone.
#[verifier::external_body]
pub(crate) fn build_check(
    pattern: &str,
    case_insensitive: bool,
    swap_greed: bool,
    ignore_whitespace: bool,
) -> (ok: bool)
    ensures
        ok == regex_build_ok(pattern@, case_insensitive, swap_greed, ignore_whitespace),
{
    regex::RegexBuilder::new(pattern)
        .case_insensitive(case_insensitive)
        .swap_greed(swap_greed)
        .ignore_whitespace(ignore_whitespace)
        .build()
        .is_ok()
}

/// Relies on `regex::Regex::replacen`, on a regex freshly compiled by
/// `regex::RegexBuilder::build`: substitution is deterministic, a function of
/// the pattern, its options, the haystack, the limit and the replacement.
#[verifier::external_body]
fn replacen_exec(
    pattern: &str,
    case_insensitive: bool,
    swap_greed: bool,
    ignore_whitespace: bool,
    haystack: &str,
    limit: usize,
    rep: &str,
) -> (r: String)
    requires
        regex_build_ok(pattern@, case_insensitive, swap_greed, ignore_whitespace),
    ensures
        r@ == regex_replacen(
            pattern@,
            case_insensitive,
            swap_greed,
            ignore_whitespace,
            haystack@,
            limit as nat,
            rep@,
        ),
{
    let re = regex::RegexBuilder::new(pattern)
        .case_insensitive(case_insensitive)
        .swap_greed(swap_greed)
        .ignore_whitespace(ignore_whitespace)
        .build()
        .expect("the pattern was checked to compile");
    re.replacen(haystack, limit, rep).into_owned()
}

/// Relies on `regex::Regex::is_match`, on a regex freshly compiled by
/// `regex::RegexBuilder::build`: whether a haystack matches is a function of
/// the pattern, its options and the haystack alone.
#[verifier::external_body]
fn is_match_exec(
    pattern: &str,
    case_insensitive: bool,
    swap_greed: bool,
    ignore_whitespace: bool,
    haystack: &str,
) -> (b: bool)
    requires
        regex_build_ok(pattern@, case_insensitive, swap_greed, ignore_whitespace),
    ensures
        b == regex_is_match(pattern@, case_insensitive, swap_greed, ignore_whitespace, haystack@),
{
    let re = regex::RegexBuilder::new(pattern)
        .case_insensitive(case_insensitive)
        .swap_greed(swap_greed)
        .ignore_whitespace(ignore_whitespace)
        .build()
        .expect("the pattern was checked to compile");
    re.is_match(haystack)
}

/// Relies on `regex::escape`: the escaped pattern is a function of the text
/// alone, and — per its documentation, "the string returned may be safely
/// used as a literal in a regular expression" — whenever it compiles (without
/// free-whitespace mode, which un-escaped spaces would disturb), the compiled
/// regex matches the text it was built from.
#[verifier::external_body]
fn escape_exec(text: &str) -> (r: String)
    ensures
        r@ == regex_escaped(text@),
        forall|ci: bool|
            regex_build_ok(r@, ci, false, false) ==> regex_is_match(r@, ci, false, false, text@),
{
    regex::escape(text)
}

/// The occurrence limit denoted by an optional occurrence count: absent means
/// zero, which in turn means "replace all matches".
pub open spec fn spec_limit_of(occurrence: Option<usize>) -> nat {
    match occurrence {
        None => 0,
        Some(n) => n as nat,
    }
}

/// A pattern that the regex engine rejected, carrying the offending source.
#[derive(Debug)]
pub struct PatternError {
    pub pattern: String,
}

/// The mathematical content of a `Strategy`: the pattern source, the options
/// it is compiled under, the replacement text and the occurrence limit.
pub ghost struct StrategyV {
    pub pattern: Seq<char>,
    pub case_insensitive: bool,
    pub swap_greed: bool,
    pub ignore_whitespace: bool,
    pub with: Seq<char>,
    pub limit: nat,
}

impl StrategyV {
    /// The pattern compiles under its options.
    pub open spec fn wf(self) -> bool {
        regex_build_ok(self.pattern, self.case_insensitive, self.swap_greed, self.ignore_whitespace)
    }

    /// The substitution this strategy performs on a piece of text.
    pub open spec fn substituted(self, text: Seq<char>) -> Seq<char> {
        regex_replacen(
            self.pattern,
            self.case_insensitive,
            self.swap_greed,
            self.ignore_whitespace,
            text,
            self.limit,
            self.with,
        )
    }
}

/// A canonical rename rule: a compiled-pattern source with its options, the
/// replacement text, and how many matches to replace — 0 means all.
#[derive(Debug)]
pub struct Strategy {
    pattern: String,
    case_insensitive: bool,
    swap_greed: bool,
    ignore_whitespace: bool,
    with: String,
    limit: usize,
}

impl View for Strategy {
    type V = StrategyV;

    closed spec fn view(&self) -> StrategyV {
        StrategyV {
            pattern: self.pattern@,
            case_insensitive: self.case_insensitive,
            swap_greed: self.swap_greed,
            ignore_whitespace: self.ignore_whitespace,
            with: self.with@,
            limit: self.limit as nat,
        }
    }
}

impl Strategy {
    /// Every `Strategy` holds a pattern that the regex engine accepts.
    #[verifier::type_invariant]
    spec fn compiled(self) -> bool {
        self@.wf()
    }

    /// Assembles a strategy from parts already known to compile.
    pub(crate) fn from_checked_parts(
        pattern: String,
        case_insensitive: bool,
        swap_greed: bool,
        ignore_whitespace: bool,
        with: String,
        limit: usize,
    ) -> (s: Strategy)
        requires
            regex_build_ok(pattern@, case_insensitive, swap_greed, ignore_whitespace),
        ensures
            s@ == (StrategyV {
                pattern: pattern@,
                case_insensitive,
                swap_greed,
                ignore_whitespace,
                with: with@,
                limit: limit as nat,
            }),
    {
        Strategy { pattern, case_insensitive, swap_greed, ignore_whitespace, with, limit }
    }

    /// Compiles a literal-string rename rule: the pattern is escaped so that
    /// every character matches itself, then compiled. Succeeds exactly when
    /// the regex engine accepts the escaped pattern, and the compiled pattern
    /// is then guaranteed to match the original text.
    pub fn from_literal(
        pattern: &str,
        with: String,
        case_insensitive: bool,
        occurrence: Option<usize>,
    ) -> (r: Result<Strategy, PatternError>)
        ensures
            r is Ok <==> regex_build_ok(regex_escaped(pattern@), case_insensitive, false, false),
            r matches Ok(s) ==> s@ == (StrategyV {
                pattern: regex_escaped(pattern@),
                case_insensitive,
                swap_greed: false,
                ignore_whitespace: false,
                with: with@,
                limit: spec_limit_of(occurrence),
            }),
            r matches Ok(s) ==> regex_is_match(s@.pattern, case_insensitive, false, false, pattern@),
            r matches Err(e) ==> e.pattern@ == regex_escaped(pattern@),
    {
        let escaped = escape_exec(pattern);
        let limit = match occurrence {
            None => 0,
            Some(n) => n,
        };
        if build_check(escaped.as_str(), case_insensitive, false, false) {
            Ok(
                Strategy {
                    pattern: escaped,
                    case_insensitive,
                    swap_greed: false,
                    ignore_whitespace: false,
                    with,
                    limit,
                },
            )
        } else {
            Err(PatternError { pattern: escaped })
        }
    }

    /// Compiles a regex rename rule from its source text. Succeeds exactly
    /// when the regex engine accepts the source.
    pub fn from_regex_source(
        pattern: &str,
        with: String,
        case_insensitive: bool,
        occurrence: Option<usize>,
    ) -> (r: Result<Strategy, PatternError>)
        ensures
            r is Ok <==> regex_build_ok(pattern@, case_insensitive, false, false),
            r matches Ok(s) ==> s@ == (StrategyV {
                pattern: pattern@,
                case_insensitive,
                swap_greed: false,
                ignore_whitespace: false,
                with: with@,
                limit: spec_limit_of(occurrence),
            }),
            r matches Err(e) ==> e.pattern@ == pattern@,
    {
        let limit = match occurrence {
            None => 0,
            Some(n) => n,
        };
        if build_check(pattern, case_insensitive, false, false) {
            Ok(
                Strategy {
                    pattern: pattern.to_owned(),
                    case_insensitive,
                    swap_greed: false,
                    ignore_whitespace: false,
                    with,
                    limit,
                },
            )
        } else {
            Err(PatternError { pattern: pattern.to_owned() })
        }
    }

    /// The pattern source this strategy was compiled from.
    pub fn pattern(&self) -> (r: &String)
        ensures
            r@ == self@.pattern,
    {
        &self.pattern
    }

    /// The replacement text.
    pub fn with(&self) -> (r: &String)
        ensures
            r@ == self@.with,
    {
        &self.with
    }

    /// The occurrence limit; 0 means "replace all matches".
    pub fn limit(&self) -> (r: usize)
        ensures
            r as nat == self@.limit,
    {
        self.limit
    }

    /// Runs the strategy's substitution over one piece of text.
    pub fn apply(&self, text: &str) -> (r: String)
        ensures
            r@ == self@.substituted(text@),
    {
        proof {
            use_type_invariant(&*self);
        }
        replacen_exec(
            self.pattern.as_str(),
            self.case_insensitive,
            self.swap_greed,
            self.ignore_whitespace,
            text,
            self.limit,
            self.with.as_str(),
        )
    }

    /// Whether the strategy's pattern matches anywhere in the text.
    pub fn is_match(&self, text: &str) -> (b: bool)
        ensures
            b == regex_is_match(
                self@.pattern,
                self@.case_insensitive,
                self@.swap_greed,
                self@.ignore_whitespace,
                text@,
            ),
    {
        proof {
            use_type_invariant(&*self);
        }
        is_match_exec(
            self.pattern.as_str(),
            self.case_insensitive,
            self.swap_greed,
            self.ignore_whitespace,
            text,
        )
    }
}

} // verus!
