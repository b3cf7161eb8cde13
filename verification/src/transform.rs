use vstd::prelude::*;

use crate::strategy::StrategyV;
use crate::text::{chars_vec, string_from_chars};

verus! {

/// Which structural part of a filename a rename rule is applied to.
#[derive(Debug, Clone, Copy, PartialEq, Eq, Structural)]
pub enum RenameTarget {
    /// File stem is the filename without the extension
    /// See: <https://doc.rust-lang.org/std/path/struct.Path.html#method.file_stem>
    Stem,
    Extension,
    Both,
}

impl Default for RenameTarget {
    /// The whole filename is renamed unless a part is singled out.
    fn default() -> (r: Self)
        ensures
            r == RenameTarget::Both,
    {
        RenameTarget::Both
    }
}

/// The mathematical content of a filename: its stem, and its extension when
/// the name has one.
pub ghost struct FileNameV {
    pub stem: Seq<char>,
    pub extension: Option<Seq<char>>,
}

impl FileNameV {
    /// The display form: the stem alone, or the stem, a dot and the
    /// extension when one is present.
    pub open spec fn display(self) -> Seq<char> {
        match self.extension {
            Some(ext) => self.stem + seq!['.'] + ext,
            None => self.stem,
        }
    }
}

/// Splits an already-substituted whole filename at its last dot, wherever it
/// stands: everything after it becomes the extension, everything before it
/// the stem, and a text without any dot is all stem. Substitution may create
/// or remove dots, so the split is recomputed rather than carried over.
pub open spec fn spec_resplit(s: Seq<char>) -> FileNameV {
    match s.index_of_last('.') {
        Some(i) => FileNameV { stem: s.take(i), extension: Some(s.skip(i + 1)) },
        None => FileNameV { stem: s, extension: None },
    }
}

/// Splits a bare filename into stem and extension: the extension is what
/// follows the last dot, except that a dot in first position (a hidden
/// file's leading dot) does not begin an extension.
pub open spec fn spec_split_file_name(name: Seq<char>) -> FileNameV {
    match name.index_of_last('.') {
        Some(i) => if i == 0 {
            FileNameV { stem: name, extension: None }
        } else {
            FileNameV { stem: name.take(i), extension: Some(name.skip(i + 1)) }
        },
        None => FileNameV { stem: name, extension: None },
    }
}

/// The filename produced by applying a strategy to one filename under a
/// targeting mode: `Stem` substitutes in the stem alone, `Extension` in the
/// extension alone (a name without one is left as it stands), and `Both`
/// substitutes over the whole display form and re-splits the result at its
/// last dot.
pub open spec fn spec_renamed(name: FileNameV, strat: StrategyV, target: RenameTarget) -> FileNameV {
    match target {
        RenameTarget::Both => spec_resplit(strat.substituted(name.display())),
        RenameTarget::Stem => FileNameV {
            stem: strat.substituted(name.stem),
            extension: name.extension,
        },
        RenameTarget::Extension => FileNameV {
            stem: name.stem,
            extension: match name.extension {
                Some(ext) => Some(strat.substituted(ext)),
                None => None,
            },
        },
    }
}

/// Splitting a filename at its last dot and writing the parts back out
/// changes nothing: the display form of the re-split is the text it was
/// split from.
pub proof fn lemma_resplit_display(s: Seq<char>)
    ensures
        spec_resplit(s).display() == s,
{
    s.index_of_last_ensures('.');
    match s.index_of_last('.') {
        Some(i) => {
            assert(s.take(i) + seq!['.'] + s.skip(i + 1) =~= s);
        },
        None => {},
    }
}

/// The same holds for the stem/extension split of a bare filename: the
/// leading-dot rule only moves where the split falls, never what the parts
/// add back up to.
pub proof fn lemma_split_file_name_display(name: Seq<char>)
    ensures
        spec_split_file_name(name).display() == name,
{
    name.index_of_last_ensures('.');
    match name.index_of_last('.') {
        Some(i) => {
            if i != 0 {
                assert(name.take(i) + seq!['.'] + name.skip(i + 1) =~= name);
            }
        },
        None => {},
    }
}

/// A whole-name rename shows the user exactly the substituted text: the
/// display form of a `Both`-target rename is the strategy's substitution
/// run over the display form of the original name, however the dots moved.
pub proof fn lemma_both_target_display(name: FileNameV, strat: StrategyV)
    ensures
        spec_renamed(name, strat, RenameTarget::Both).display() == strat.substituted(
            name.display(),
        ),
{
    lemma_resplit_display(strat.substituted(name.display()));
}

/// Renaming the extension of a name that has none leaves the name exactly
/// as it stands, whatever the strategy: the substitution has no part to
/// work on.
pub proof fn lemma_extension_target_without_extension(name: FileNameV, strat: StrategyV)
    requires
        name.extension is None,
    ensures
        spec_renamed(name, strat, RenameTarget::Extension) == name,
{
}

/// The renaming target a value string denotes.
pub open spec fn spec_target_of(s: Seq<char>) -> Option<RenameTarget> {
    if s == "stem"@ {
        Some(RenameTarget::Stem)
    } else if s == "extension"@ {
        Some(RenameTarget::Extension)
    } else if s == "both"@ {
        Some(RenameTarget::Both)
    } else {
        None
    }
}

impl RenameTarget {
    /// Parses a renaming target from its value string.
    pub fn from_value(input: &str) -> (r: Option<RenameTarget>)
        ensures
            r == spec_target_of(input@),
    {
        let owned = input.to_owned();
        if owned == "stem".to_owned() {
            Some(RenameTarget::Stem)
        } else if owned == "extension".to_owned() {
            Some(RenameTarget::Extension)
        } else if owned == "both".to_owned() {
            Some(RenameTarget::Both)
        } else {
            None
        }
    }
}

/// The position of the last occurrence of `c`, computed executably.
pub(crate) fn find_last(chars: &Vec<char>, c: char) -> (r: Option<usize>)
    ensures
        match r {
            Some(i) => chars@.index_of_last(c) == Some(i as int),
            None => chars@.index_of_last(c) is None,
        },
{
    let mut i: usize = chars.len();
    while i > 0
        invariant
            i <= chars@.len(),
            forall|j: int| i <= j < chars@.len() ==> chars@[j] != c,
        decreases i,
    {
        i = i - 1;
        if chars[i] == c {
            proof {
                chars@.index_of_last_ensures(c);
            }
            return Some(i);
        }
    }
    proof {
        chars@.index_of_last_ensures(c);
    }
    None
}

/// Builds the display form of a stem and optional extension.
pub(crate) fn display_string(stem: &String, extension: &Option<String>) -> (r: String)
    ensures
        r@ == (FileNameV { stem: stem@, extension: extension.deep_view() }).display(),
{
    match extension {
        Some(ext) => {
            let mut r = stem.clone();
            r.append(".");
            r.append(ext.as_str());
            proof {
                reveal_strlit(".");
                assert("."@ =~= seq!['.']);
            }
            r
        },
        None => stem.clone(),
    }
}

/// Splits a substituted whole filename at its last dot.
pub(crate) fn resplit_string(s: &String) -> (r: (String, Option<String>))
    ensures
        r.0@ == spec_resplit(s@).stem,
        r.1.deep_view() == spec_resplit(s@).extension,
{
    let chars = chars_vec(s.as_str());
    match find_last(&chars, '.') {
        Some(i) => {
            proof {
                chars@.index_of_last_ensures('.');
                assert((i as int) < chars@.len());
            }
            let n = chars.len();
            let stem_part = vstd::slice::slice_subrange(chars.as_slice(), 0, i);
            let ext_part = vstd::slice::slice_subrange(chars.as_slice(), i + 1, n);
            proof {
                assert(stem_part@ =~= s@.take(i as int));
                assert(ext_part@ =~= s@.skip(i + 1 as int));
            }
            (string_from_chars(stem_part), Some(string_from_chars(ext_part)))
        },
        None => (s.clone(), None),
    }
}

/// Splits a bare filename into stem and extension, following the rule that a
/// dot in first position does not begin an extension.
pub(crate) fn split_file_name_string(name: &str) -> (r: (String, Option<String>))
    ensures
        r.0@ == spec_split_file_name(name@).stem,
        r.1.deep_view() == spec_split_file_name(name@).extension,
{
    let chars = chars_vec(name);
    match find_last(&chars, '.') {
        Some(i) => {
            proof {
                chars@.index_of_last_ensures('.');
            }
            if i == 0 {
                (name.to_owned(), None)
            } else {
                let n = chars.len();
                let stem_part = vstd::slice::slice_subrange(chars.as_slice(), 0, i);
                let ext_part = vstd::slice::slice_subrange(chars.as_slice(), i + 1, n);
                proof {
                    assert(stem_part@ =~= name@.take(i as int));
                    assert(ext_part@ =~= name@.skip(i + 1 as int));
                }
                (string_from_chars(stem_part), Some(string_from_chars(ext_part)))
            }
        },
        None => (name.to_owned(), None),
    }
}

} // verus!
