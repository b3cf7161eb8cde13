use vstd::prelude::*;

verus! {

/// The switches shared by the literal and regex pattern modes.
#[derive(Debug)]
pub struct PatternOptions {
    /// Whether the pattern should be matched without regard to case.
    pub case_insensitive: bool,
    /// Number of replacements to be done; absent means all.
    pub occurence: Option<usize>,
}

impl Default for PatternOptions {
    /// Case-sensitive, and every match is replaced.
    fn default() -> (r: Self)
        ensures
            !r.case_insensitive,
            r.occurence is None,
    {
        PatternOptions { case_insensitive: false, occurence: None }
    }
}

} // verus!
