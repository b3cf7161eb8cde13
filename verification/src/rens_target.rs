use vstd::prelude::*;

use crate::file_name::FileName;
use crate::path_ext::{join_path, spec_join};

verus! {

/// One rename already decided: where the file stands, what its name is,
/// what the name becomes, and the directory the renamed file lands in.
pub struct RensTarget {
    pub path: String,
    pub filename: FileName,
    pub renamed: FileName,
    pub target_dir: String,
}

impl RensTarget {
    /// The path the file currently has.
    pub fn original_path(&self) -> (r: &String)
        ensures
            r@ == self.path@,
    {
        &self.path
    }

    /// The path the file is renamed to: the target directory joined with
    /// the renamed name's display form.
    pub fn renamed_path(&self) -> (r: String)
        ensures
            r@ == spec_join(self.target_dir@, self.renamed@.display()),
    {
        let name = self.renamed.to_string();
        join_path(self.target_dir.as_str(), name.as_str())
    }

    /// The line shown when asking about this rename: the original path, an
    /// arrow, and the renamed path.
    pub fn rename_prompt(&self) -> (r: String)
        ensures
            r@ == self.path@ + " -> "@ + spec_join(self.target_dir@, self.renamed@.display()),
    {
        let mut r = self.path.clone();
        r.append(" -> ");
        let renamed = self.renamed_path();
        r.append(renamed.as_str());
        r
    }
}

} // verus!
