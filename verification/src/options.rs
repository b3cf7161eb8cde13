pub mod confirmations;
pub mod git;
pub mod paths;
pub mod pattern;
pub mod recursion;

use vstd::prelude::*;

use crate::transform::RenameTarget;

pub use confirmations::{ConfirmOption, Confirmations, OverrideOption};
pub use recursion::Recursion;

verus! {

/// Everything a renaming run needs besides the strategy itself.
#[derive(Debug)]
pub struct Options {
    /// Whether to rename the file stem, extension or both.
    ///
    /// Note: filename = <stem>.<extension>
    pub target: RenameTarget,
    /// Paths to the elements to rename.
    pub paths: Vec<String>,
    pub confirmations: Confirmations,
    pub git_opt: git::Options,
    pub paths_opt: paths::Options,
    pub recursion: Recursion,
}

} // verus!
