use vstd::prelude::*;

use crate::path_ext::{file_name_of, spec_file_name_of};
use crate::strategy::Strategy;
use crate::text::clone_opt_string;
use crate::transform::{
    display_string, resplit_string, spec_renamed, spec_split_file_name, split_file_name_string,
    FileNameV,
};

pub use crate::transform::RenameTarget;

verus! {

/// A filename as the renamer sees it: a stem and an optional extension.
#[derive(Debug)]
pub struct FileName {
    stem: String,
    extension: Option<String>,
}

impl View for FileName {
    type V = FileNameV;

    closed spec fn view(&self) -> FileNameV {
        FileNameV { stem: self.stem@, extension: self.extension.deep_view() }
    }
}

impl PartialEq for FileName {
    fn eq(&self, other: &Self) -> (r: bool) {
        self.stem == other.stem && match (&self.extension, &other.extension) {
            (Some(a), Some(b)) => *a == *b,
            (None, None) => true,
            _ => false,
        }
    }
}

impl vstd::std_specs::cmp::PartialEqSpecImpl for FileName {
    open spec fn obeys_eq_spec() -> bool {
        true
    }

    open spec fn eq_spec(&self, other: &FileName) -> bool {
        self@ == other@
    }
}

impl Eq for FileName {

}

impl FileName {
    /// Builds a filename from its two parts.
    pub fn new(stem: String, extension: Option<String>) -> (r: FileName)
        ensures
            r@ == (FileNameV { stem: stem@, extension: extension.deep_view() }),
    {
        FileName { stem, extension }
    }

    /// The part of the name before the extension.
    pub fn stem(&self) -> (r: &String)
        ensures
            r@ == self@.stem,
    {
        &self.stem
    }

    /// The extension, when the name has one.
    pub fn extension(&self) -> (r: &Option<String>)
        ensures
            r.deep_view() == self@.extension,
    {
        &self.extension
    }

    /// The display form: the stem alone, or stem, dot and extension.
    pub fn to_string(&self) -> (r: String)
        ensures
            r@ == self@.display(),
    {
        display_string(&self.stem, &self.extension)
    }

    /// Applies a rename strategy to this filename under a targeting mode:
    /// `Stem` and `Extension` substitute inside that part alone, while
    /// `Both` substitutes over the whole display form and re-splits the
    /// result at its last dot.
    pub fn to_renamed(&self, strat: &Strategy, target: RenameTarget) -> (r: FileName)
        ensures
            r@ == spec_renamed(self@, strat@, target),
    {
        match target {
            RenameTarget::Both => {
                let file_name = self.to_string();
                let renamed = strat.apply(file_name.as_str());
                let parts = resplit_string(&renamed);
                FileName { stem: parts.0, extension: parts.1 }
            },
            RenameTarget::Stem => FileName {
                stem: strat.apply(self.stem.as_str()),
                extension: clone_opt_string(&self.extension),
            },
            RenameTarget::Extension => FileName {
                stem: self.stem.clone(),
                extension: match &self.extension {
                    Some(ext) => Some(strat.apply(ext.as_str())),
                    None => None,
                },
            },
        }
    }

    /// Splits a bare filename into its stem and extension: the extension is
    /// what follows the last dot, except that a leading dot (a hidden file's
    /// mark) does not begin one.
    pub fn from_name(name: &str) -> (r: FileName)
        ensures
            r@ == spec_split_file_name(name@),
    {
        let parts = split_file_name_string(name);
        FileName { stem: parts.0, extension: parts.1 }
    }

    /// Reads a filename from a path: the path's final component, split into
    /// stem and extension. Fails exactly when the path has no usable final
    /// component.
    pub fn from_path(path: &str) -> (r: Result<FileName, Error>)
        ensures
            match spec_file_name_of(path@) {
                Some(name) => r matches Ok(f) && f@ == spec_split_file_name(name),
                None => r == Err::<FileName, Error>(Error::NoFileStem),
            },
    {
        match file_name_of(path) {
            Some(name) => Ok(FileName::from_name(name.as_str())),
            None => Err(Error::NoFileStem),
        }
    }
}

/// Failure to read a filename out of a path.
#[derive(Debug, PartialEq, Eq, Structural)]
pub enum Error {
    /// The path has no final filename component.
    NoFileStem,
}

} // verus!
