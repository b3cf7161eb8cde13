use vstd::prelude::*;

verus! {

/// When the user is asked before a rename is committed.
#[derive(Debug)]
pub struct Confirmations {
    /// Behavior when a renamed file already exists.
    pub allow_override: OverrideOption,
    /// Behavior upon effective renaming.
    pub confirm: ConfirmOption,
}

impl Default for Confirmations {
    /// Unless told otherwise, ask about every override and every rename.
    fn default() -> (r: Self)
        ensures
            r.allow_override == OverrideOption::Ask,
            r.confirm == ConfirmOption::Each,
    {
        Confirmations { allow_override: OverrideOption::Ask, confirm: ConfirmOption::Each }
    }
}

/// What to do when a renamed file already exists.
#[derive(Debug, Clone, Copy, PartialEq, Eq, Structural)]
pub enum OverrideOption {
    /// Ask for every change.
    Ask,
    /// Always allow.
    Allow,
    /// Always deny.
    Deny,
}

/// When the user is asked about renames at all.
#[derive(Debug, Clone, Copy, PartialEq, Eq, Structural)]
pub enum ConfirmOption {
    /// Ask for every change.
    Each,
    /// Ask once after showing every change.
    Once,
    /// Always allow.
    Never,
}

} // verus!
