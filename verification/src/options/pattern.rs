use vstd::prelude::*;

verus! {

/// The switches shared by the literal and regex pattern modes.
#[derive(Debug)]
pub struct Options {
    /// Whether the pattern should be matched without regard to case.
    ///
    /// Note: no effect if a regex pattern already includes case settings at
    /// its beginning.
    pub case_insensitive: bool,
    /// Number of replacements to be done; absent means all.
    pub occurence: Option<usize>,
}

impl Default for Options {
    /// Case-sensitive, and every match is replaced.
    fn default() -> (r: Self)
        ensures
            !r.case_insensitive,
            r.occurence is None,
    {
        Options { case_insensitive: false, occurence: None }
    }
}

} // verus!
