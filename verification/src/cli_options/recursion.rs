use vstd::prelude::*;

verus! {

/// How directories among the input paths are walked.
#[derive(Debug)]
pub struct Recursion {
    /// Whether folder paths include their children recursively.
    ///
    /// Note: implied if a depth is given.
    pub recursive: bool,
    /// If recursive mode is enabled, how deep the renaming goes.
    pub depth: u8,
    /// When traversing directories, include hidden files.
    pub allow_hidden: bool,
}

impl Default for Recursion {
    /// No recursion, one level deep, hidden entries pruned.
    fn default() -> (r: Self)
        ensures
            !r.recursive,
            r.depth == 1,
            !r.allow_hidden,
    {
        Recursion { recursive: false, depth: 1, allow_hidden: false }
    }
}

} // verus!
