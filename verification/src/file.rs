use vstd::prelude::*;

use crate::path_ext::{
    file_name_of, join_path, parent_of, spec_file_name_of, spec_join, spec_parent_of, Kind,
};
use crate::strategy::{Strategy, StrategyV};
use crate::text::clone_opt_string;
use crate::transform::{
    display_string, resplit_string, spec_renamed, spec_split_file_name, split_file_name_string,
    FileNameV,
};

pub use crate::path_ext::Kind as FileKind;
pub use crate::transform::RenameTarget;

verus! {

/// A filename split into its stem and optional extension.
#[derive(Debug)]
pub struct Name {
    stem: String,
    extension: Option<String>,
}

impl View for Name {
    type V = FileNameV;

    closed spec fn view(&self) -> FileNameV {
        FileNameV { stem: self.stem@, extension: self.extension.deep_view() }
    }
}

impl PartialEq for Name {
    fn eq(&self, other: &Self) -> (r: bool) {
        self.stem == other.stem && match (&self.extension, &other.extension) {
            (Some(a), Some(b)) => *a == *b,
            (None, None) => true,
            _ => false,
        }
    }
}

impl vstd::std_specs::cmp::PartialEqSpecImpl for Name {
    open spec fn obeys_eq_spec() -> bool {
        true
    }

    open spec fn eq_spec(&self, other: &Name) -> bool {
        self@ == other@
    }
}

impl Eq for Name {

}

impl Name {
    /// Builds a name from its two parts.
    pub fn new(stem: String, extension: Option<String>) -> (r: Name)
        ensures
            r@ == (FileNameV { stem: stem@, extension: extension.deep_view() }),
    {
        Name { stem, extension }
    }

    /// The part of the name before the extension.
    pub fn stem(&self) -> (r: &String)
        ensures
            r@ == self@.stem,
    {
        &self.stem
    }

    /// The extension, when the name has one.
    pub fn extension(&self) -> (r: &Option<String>)
        ensures
            r.deep_view() == self@.extension,
    {
        &self.extension
    }

    /// The display form: the stem alone, or stem, dot and extension.
    pub fn to_string(&self) -> (r: String)
        ensures
            r@ == self@.display(),
    {
        display_string(&self.stem, &self.extension)
    }

    /// Applies a rename strategy to this name under a targeting mode:
    /// `Stem` and `Extension` substitute inside that part alone, while
    /// `Both` substitutes over the whole display form and re-splits the
    /// result at its last dot.
    pub fn to_renamed(&self, strategy: &Strategy, target: RenameTarget) -> (r: Name)
        ensures
            r@ == spec_renamed(self@, strategy@, target),
    {
        match target {
            RenameTarget::Both => {
                let file_name = self.to_string();
                let renamed = strategy.apply(file_name.as_str());
                let parts = resplit_string(&renamed);
                Name { stem: parts.0, extension: parts.1 }
            },
            RenameTarget::Stem => Name {
                stem: strategy.apply(self.stem.as_str()),
                extension: clone_opt_string(&self.extension),
            },
            RenameTarget::Extension => Name {
                stem: self.stem.clone(),
                extension: match &self.extension {
                    Some(ext) => Some(strategy.apply(ext.as_str())),
                    None => None,
                },
            },
        }
    }

    /// Splits a bare filename into its stem and extension: the extension is
    /// what follows the last dot, except that a leading dot (a hidden
    /// file's mark) does not begin one.
    pub fn from_name(name: &str) -> (r: Name)
        ensures
            r@ == spec_split_file_name(name@),
    {
        let parts = split_file_name_string(name);
        Name { stem: parts.0, extension: parts.1 }
    }

    /// Reads a name from a path: the path's final component, split into
    /// stem and extension. Fails exactly when the path has no usable final
    /// component.
    pub fn from_path(path: &str) -> (r: Result<Name, Error>)
        ensures
            match spec_file_name_of(path@) {
                Some(name) => r matches Ok(f) && f@ == spec_split_file_name(name),
                None => r matches Err(Error::NoFileStem(p)) && p@ == path@,
            },
    {
        match file_name_of(path) {
            Some(name) => Ok(Name::from_name(name.as_str())),
            None => Err(Error::NoFileStem(path.to_owned())),
        }
    }
}

/// The mathematical content of a `File`: its name, its kind and the path of
/// the directory that holds it.
pub ghost struct FileV {
    pub name: FileNameV,
    pub kind: Kind,
    pub parent: Seq<char>,
}

/// A candidate of the rename pipeline: a named entry of known kind inside a
/// parent directory.
#[derive(Debug)]
pub struct File {
    name: Name,
    kind: Kind,
    parent: String,
}

impl View for File {
    type V = FileV;

    closed spec fn view(&self) -> FileV {
        FileV { name: self.name@, kind: self.kind, parent: self.parent@ }
    }
}

impl File {
    /// Builds a file record from its parts.
    pub fn new(name: Name, kind: Kind, parent: String) -> (r: File)
        ensures
            r@ == (FileV { name: name@, kind, parent: parent@ }),
    {
        File { name, kind, parent }
    }

    /// The entry's filename.
    pub fn name(&self) -> (r: &Name)
        ensures
            r@ == self@.name,
    {
        &self.name
    }

    /// What kind of entry this is.
    pub fn kind(&self) -> (r: Kind)
        ensures
            r == self@.kind,
    {
        self.kind
    }

    /// The directory that holds the entry.
    pub fn parent(&self) -> (r: &String)
        ensures
            r@ == self@.parent,
    {
        &self.parent
    }

    /// The entry's full path: its parent joined with its display name.
    pub fn path(&self) -> (r: String)
        ensures
            r@ == spec_join(self@.parent, self@.name.display()),
    {
        let name = self.name.to_string();
        join_path(self.parent.as_str(), name.as_str())
    }

    /// Reads a file record from a path and the entry's kind, which the
    /// caller has observed on the filesystem. Fails exactly when the path
    /// has no parent or no usable final component.
    pub fn from_path(path: &str, kind: Kind) -> (r: Result<File, Error>)
        ensures
            match (spec_parent_of(path@), spec_file_name_of(path@)) {
                (Some(parent), Some(name)) => r matches Ok(f) && f@ == (FileV {
                    name: spec_split_file_name(name),
                    kind,
                    parent,
                }),
                (Some(_), None) => r matches Err(Error::NoFileStem(p)) && p@ == path@,
                (None, _) => r matches Err(Error::NoParent(p)) && p@ == path@,
            },
    {
        let parent = match parent_of(path) {
            Some(p) => p,
            None => {
                return Err(Error::NoParent(path.to_owned()));
            },
        };
        let name = match Name::from_path(path) {
            Ok(n) => n,
            Err(_) => {
                return Err(Error::NoFileStem(path.to_owned()));
            },
        };
        Ok(File { name, kind, parent })
    }

    /// The name this entry would be renamed to.
    pub fn renamed_name(&self, strategy: &Strategy, target: RenameTarget) -> (r: Name)
        ensures
            r@ == spec_renamed(self@.name, strategy@, target),
    {
        self.name.to_renamed(strategy, target)
    }

    /// The full path this entry would be renamed to.
    pub fn renamed_path(&self, strategy: &Strategy, target: RenameTarget) -> (r: String)
        ensures
            r@ == spec_join(self@.parent, spec_renamed(self@.name, strategy@, target).display()),
    {
        let renamed = self.name.to_renamed(strategy, target).to_string();
        join_path(self.parent.as_str(), renamed.as_str())
    }

    /// Whether renaming would change anything: exactly when the substituted
    /// name differs structurally — as a (stem, extension) pair — from the
    /// current one.
    pub fn needs_rename(&self, strategy: &Strategy, target: RenameTarget) -> (r: bool)
        ensures
            r == (self@.name != spec_renamed(self@.name, strategy@, target)),
    {
        let renamed = self.name.to_renamed(strategy, target);
        !(self.name == renamed)
    }
}

/// Failure to read a file record out of a path.
#[derive(Debug)]
pub enum Error {
    /// The path has no final filename component; carries the path.
    NoFileStem(String),
    /// The path has no parent directory; carries the path.
    NoParent(String),
}

} // verus!
