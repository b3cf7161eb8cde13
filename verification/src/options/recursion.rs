use vstd::prelude::*;

use crate::traverse::TraversalPolicy;

verus! {

/// How directories among the input paths are walked.
#[derive(Debug)]
pub struct Recursion {
    /// When traversing directories, include hidden files.
    pub allow_hidden: bool,
    /// If recursive mode is enabled, how deep the renaming goes; absent
    /// means as deep as possible.
    pub depth: Option<usize>,
    /// Whether folder paths include their children recursively.
    ///
    /// Note: implied if a depth is given.
    pub recursive: bool,
}

impl Default for Recursion {
    /// No recursion, no depth bound, hidden entries pruned.
    fn default() -> (r: Self)
        ensures
            !r.allow_hidden,
            r.depth is None,
            !r.recursive,
    {
        Recursion { allow_hidden: false, depth: None, recursive: false }
    }
}

impl Recursion {
    /// Settles the recursion options as the switches interact: giving a
    /// depth bound by itself already implies recursive traversal.
    pub fn resolve(allow_hidden: bool, depth: Option<usize>, recursive: bool) -> (r: Recursion)
        ensures
            r.allow_hidden == allow_hidden,
            r.depth == depth,
            r.recursive == (recursive || depth is Some),
    {
        let recursive = recursive || match depth {
            Some(_) => true,
            None => false,
        };
        Recursion { allow_hidden, depth, recursive }
    }

    /// The traversal policy these options configure, with the ignore-file
    /// switch supplied separately.
    pub fn to_policy(&self, honor_ignore_files: bool) -> (p: TraversalPolicy)
        ensures
            p.recursive == self.recursive,
            p.depth_limit == self.depth,
            p.include_hidden == self.allow_hidden,
            p.honor_ignore_files == honor_ignore_files,
    {
        TraversalPolicy {
            recursive: self.recursive,
            depth_limit: self.depth,
            include_hidden: self.allow_hidden,
            honor_ignore_files,
        }
    }
}

} // verus!
