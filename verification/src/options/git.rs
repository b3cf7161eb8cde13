use vstd::prelude::*;

verus! {

/// The version-control integration switches.
#[derive(Debug)]
pub struct Options {
    /// Parse and follow `.gitignore` (local and global), `.ignore` and
    /// `.git/info/exclude` files.
    pub auto_ignore: bool,
}

impl Default for Options {
    /// Ignore files are not consulted unless asked for.
    fn default() -> (r: Self)
        ensures
            !r.auto_ignore,
    {
        Options { auto_ignore: false }
    }
}

} // verus!
