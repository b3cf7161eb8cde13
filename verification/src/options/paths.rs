use vstd::prelude::*;

verus! {

/// The path-handling switches.
#[derive(Debug)]
pub struct Options {
    /// Canonicalize all paths instead of using relative ones.
    pub canonicalize_paths: bool,
}

impl Default for Options {
    /// Paths are used as given unless asked otherwise.
    fn default() -> (r: Self)
        ensures
            !r.canonicalize_paths,
    {
        Options { canonicalize_paths: false }
    }
}

} // verus!
