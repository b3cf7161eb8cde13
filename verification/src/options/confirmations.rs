use vstd::prelude::*;

verus! {

/// When the user is asked before a rename is committed.
#[derive(Debug)]
pub struct Confirmations {
    /// Behavior when a renamed file already exists.
    pub allow_override: OverrideOption,
    /// Behavior upon effective renaming.
    pub confirm: ConfirmOption,
}

impl Default for Confirmations {
    /// Unless told otherwise, ask about every override and every rename.
    fn default() -> (r: Self)
        ensures
            r.allow_override == OverrideOption::Ask,
            r.confirm == ConfirmOption::Each,
    {
        Confirmations { allow_override: OverrideOption::Ask, confirm: ConfirmOption::Each }
    }
}

/// What to do when a renamed file already exists.
#[derive(Debug, Clone, Copy, PartialEq, Eq, Structural)]
pub enum OverrideOption {
    /// Ask for every change.
    Ask,
    /// Always allow.
    Allow,
    /// Always deny.
    Deny,
}

/// The override choice a value string denotes.
pub open spec fn spec_override_of(s: Seq<char>) -> Option<OverrideOption> {
    if s == "ask"@ {
        Some(OverrideOption::Ask)
    } else if s == "allow"@ {
        Some(OverrideOption::Allow)
    } else if s == "deny"@ {
        Some(OverrideOption::Deny)
    } else {
        None
    }
}

impl OverrideOption {
    /// Parses an override choice from its value string.
    pub fn from_value(input: &str) -> (r: Option<OverrideOption>)
        ensures
            r == spec_override_of(input@),
    {
        let owned = input.to_owned();
        if owned == "ask".to_owned() {
            Some(OverrideOption::Ask)
        } else if owned == "allow".to_owned() {
            Some(OverrideOption::Allow)
        } else if owned == "deny".to_owned() {
            Some(OverrideOption::Deny)
        } else {
            None
        }
    }
}

/// When the user is asked about renames at all.
#[derive(Debug, Clone, Copy, PartialEq, Eq, Structural)]
pub enum ConfirmOption {
    /// Ask for every change.
    Each,
    /// Ask once after showing every change.
    Once,
    /// Always allow.
    Never,
}

/// The confirmation choice a value string denotes.
pub open spec fn spec_confirm_of(s: Seq<char>) -> Option<ConfirmOption> {
    if s == "each"@ {
        Some(ConfirmOption::Each)
    } else if s == "once"@ {
        Some(ConfirmOption::Once)
    } else if s == "never"@ {
        Some(ConfirmOption::Never)
    } else {
        None
    }
}

impl ConfirmOption {
    /// Parses a confirmation choice from its value string.
    pub fn from_value(input: &str) -> (r: Option<ConfirmOption>)
        ensures
            r == spec_confirm_of(input@),
    {
        let owned = input.to_owned();
        if owned == "each".to_owned() {
            Some(ConfirmOption::Each)
        } else if owned == "once".to_owned() {
            Some(ConfirmOption::Once)
        } else if owned == "never".to_owned() {
            Some(ConfirmOption::Never)
        } else {
            None
        }
    }
}

} // verus!
