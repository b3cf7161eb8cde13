use vstd::prelude::*;

verus! {

/// An occurrence choice: replace every match, or a counted number of them.
#[derive(Debug, Clone, Copy, PartialEq, Eq, Structural)]
pub enum GlobalOrNumbered {
    /// Replace all found matches.
    Global,
    /// Replace the given number of matches.
    Numbered(usize),
}

impl Default for GlobalOrNumbered {
    /// Every match is replaced unless a count is given.
    fn default() -> (r: Self)
        ensures
            r == GlobalOrNumbered::Global,
    {
        GlobalOrNumbered::Global
    }
}

impl GlobalOrNumbered {
    /// The occurrence limit this choice denotes: 0 means "replace all".
    pub fn limit(self) -> (r: usize)
        ensures
            r == (match self {
                GlobalOrNumbered::Global => 0usize,
                GlobalOrNumbered::Numbered(n) => n,
            }),
    {
        match self {
            GlobalOrNumbered::Global => 0,
            GlobalOrNumbered::Numbered(n) => n,
        }
    }
}

} // verus!
