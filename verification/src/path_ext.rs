use vstd::prelude::*;
use vstd::slice::slice_subrange;

use crate::text::{chars_vec, string_from_chars};

verus! {

/// What a filesystem entry is.
#[derive(Debug, PartialEq, Eq, Clone, Copy, Structural)]
pub enum Kind {
    File,
    Directory,
    Symlink,
    UnixSocket,
    Other,
}

/// The path with its trailing separators removed.
pub open spec fn spec_strip_trailing_slashes(s: Seq<char>) -> Seq<char>
    decreases s.len(),
{
    if s.len() > 0 && s.last() == '/' {
        spec_strip_trailing_slashes(s.drop_last())
    } else {
        s
    }
}

/// The final filename component of a slash-separated path: trailing
/// separators are ignored, a final `.` component stands for the directory
/// before it, a final `..` component names no file, and an empty or
/// all-separator path has no component at all.
pub open spec fn spec_file_name_of(s: Seq<char>) -> Option<Seq<char>>
    decreases s.len(),
    via spec_file_name_of_decreases
{
    if s.len() == 0 {
        None
    } else if s.last() == '/' {
        spec_file_name_of(s.drop_last())
    } else {
        let start = match s.index_of_last('/') {
            Some(i) => i + 1,
            None => 0,
        };
        let comp = s.skip(start);
        if comp == seq!['.'] {
            spec_file_name_of(s.take(start))
        } else if comp == seq!['.', '.'] {
            None
        } else {
            Some(comp)
        }
    }
}

#[via_fn]
proof fn spec_file_name_of_decreases(s: Seq<char>) {
    s.index_of_last_ensures('/');
}

/// The directory part of a slash-separated path: the path shorn of its final
/// component and of the separators around it. The parent of a bare filename
/// is the empty path (the current directory); a path that consists of
/// separators alone, or of nothing, has no parent.
pub open spec fn spec_parent_of(s: Seq<char>) -> Option<Seq<char>> {
    let t = spec_strip_trailing_slashes(s);
    if t.len() == 0 {
        None
    } else {
        let start = match t.index_of_last('/') {
            Some(i) => i + 1,
            None => 0,
        };
        let head = spec_strip_trailing_slashes(t.take(start));
        if head.len() == 0 {
            if start == 0 {
                Some(Seq::<char>::empty())
            } else {
                Some(seq!['/'])
            }
        } else {
            Some(head)
        }
    }
}

/// Whether a file name marks a hidden entry: it begins with a dot.
pub open spec fn spec_hidden_name(name: Seq<char>) -> bool {
    name.len() > 0 && name[0] == '.'
}

/// A parent directory and a file name joined with a separator; an empty
/// parent stands for the current directory and adds none.
pub open spec fn spec_join(parent: Seq<char>, name: Seq<char>) -> Seq<char> {
    if parent.len() == 0 {
        name
    } else if parent.last() == '/' {
        parent + name
    } else {
        parent + seq!['/'] + name
    }
}

/// Pins down `index_of_last` from what a backward scan saw: no occurrence at
/// or after `start`, and one just before it unless `start` is zero.
proof fn lemma_index_of_last_from_scan(s: Seq<char>, c: char, start: int)
    requires
        0 <= start <= s.len(),
        forall|m: int| start <= m < s.len() ==> s[m] != c,
        start > 0 ==> s[start - 1] == c,
    ensures
        s.index_of_last(c) == (if start == 0 {
            None::<int>
        } else {
            Some(start - 1)
        }),
{
    s.index_of_last_ensures(c);
    if start > 0 {
        assert(s.contains(c)) by {
            assert(s[start - 1] == c);
        }
    }
}

/// The final filename component of a path, per `spec_file_name_of`.
pub fn file_name_of(path: &str) -> (r: Option<String>)
    ensures
        match r {
            Some(name) => spec_file_name_of(path@) == Some(name@),
            None => spec_file_name_of(path@) is None,
        },
{
    let chars = chars_vec(path);
    let mut end: usize = chars.len();
    proof {
        assert(path@.take(end as int) =~= path@);
    }
    loop
        invariant
            end <= chars@.len(),
            chars@ == path@,
            spec_file_name_of(path@) == spec_file_name_of(path@.take(end as int)),
        decreases end,
    {
        let ghost end0 = end;
        while end > 0 && chars[end - 1] == '/'
            invariant
                end <= end0 <= chars@.len(),
                chars@ == path@,
                spec_file_name_of(path@) == spec_file_name_of(path@.take(end as int)),
            decreases end,
        {
            proof {
                assert(path@.take(end as int).last() == path@[end - 1]);
                assert(path@.take(end as int).drop_last() =~= path@.take(end - 1));
            }
            end = end - 1;
        }
        if end == 0 {
            return None;
        }
        let mut start: usize = end;
        while start > 0 && chars[start - 1] != '/'
            invariant
                start <= end <= chars@.len(),
                chars@ == path@,
                forall|m: int| start <= m < end ==> path@[m] != '/',
            decreases start,
        {
            start = start - 1;
        }
        let ghost t = path@.take(end as int);
        proof {
            assert forall|m: int| start <= m < t.len() implies t[m] != '/' by {
                assert(t[m] == path@[m]);
            }
            lemma_index_of_last_from_scan(t, '/', start as int);
            assert(t.last() == path@[end - 1]);
        }
        let comp_len = end - start;
        if comp_len == 1 && chars[start] == '.' {
            proof {
                assert(t.skip(start as int) =~= seq!['.']);
                assert(t.take(start as int) =~= path@.take(start as int));
            }
            end = start;
        } else if comp_len == 2 && chars[start] == '.' && chars[start + 1] == '.' {
            proof {
                assert(t.skip(start as int) =~= seq!['.', '.']);
            }
            return None;
        } else {
            let part = slice_subrange(chars.as_slice(), start, end);
            proof {
                let comp = t.skip(start as int);
                assert(part@ =~= comp);
                assert(comp.len() == end - start);
                if comp.len() == 1 && path@[start as int] == '.' {
                    assert(false);
                }
                assert(comp != seq!['.']) by {
                    if comp == seq!['.'] {
                        assert(comp.len() == 1 && comp[0] == '.');
                        assert(comp[0] == path@[start as int]);
                    }
                }
                assert(comp != seq!['.', '.']) by {
                    if comp == seq!['.', '.'] {
                        assert(comp.len() == 2 && comp[0] == '.' && comp[1] == '.');
                        assert(comp[0] == path@[start as int]);
                        assert(comp[1] == path@[start + 1 as int]);
                    }
                }
            }
            return Some(string_from_chars(part));
        }
    }
}

/// The directory part of a path, per `spec_parent_of`.
pub fn parent_of(path: &str) -> (r: Option<String>)
    ensures
        match r {
            Some(parent) => spec_parent_of(path@) == Some(parent@),
            None => spec_parent_of(path@) is None,
        },
{
    let chars = chars_vec(path);
    let mut end: usize = chars.len();
    proof {
        assert(path@.take(end as int) =~= path@);
    }
    while end > 0 && chars[end - 1] == '/'
        invariant
            end <= chars@.len(),
            chars@ == path@,
            spec_strip_trailing_slashes(path@) == spec_strip_trailing_slashes(
                path@.take(end as int),
            ),
        decreases end,
    {
        proof {
            assert(path@.take(end as int).last() == path@[end - 1]);
            assert(path@.take(end as int).drop_last() =~= path@.take(end - 1));
        }
        end = end - 1;
    }
    let ghost t = path@.take(end as int);
    proof {
        assert(spec_strip_trailing_slashes(path@) == t);
    }
    if end == 0 {
        return None;
    }
    let mut start: usize = end;
    while start > 0 && chars[start - 1] != '/'
        invariant
            start <= end <= chars@.len(),
            chars@ == path@,
            forall|m: int| start <= m < end ==> path@[m] != '/',
        decreases start,
    {
        start = start - 1;
    }
    proof {
        assert forall|m: int| start <= m < t.len() implies t[m] != '/' by {
            assert(t[m] == path@[m]);
        }
        lemma_index_of_last_from_scan(t, '/', start as int);
        assert(t.take(start as int) =~= path@.take(start as int));
    }
    let mut head_end: usize = start;
    while head_end > 0 && chars[head_end - 1] == '/'
        invariant
            head_end <= start,
            start <= chars@.len(),
            chars@ == path@,
            spec_strip_trailing_slashes(path@.take(start as int)) == spec_strip_trailing_slashes(
                path@.take(head_end as int),
            ),
        decreases head_end,
    {
        proof {
            assert(path@.take(head_end as int).last() == path@[head_end - 1]);
            assert(path@.take(head_end as int).drop_last() =~= path@.take(head_end - 1));
        }
        head_end = head_end - 1;
    }
    proof {
        assert(spec_strip_trailing_slashes(path@.take(start as int)) == path@.take(
            head_end as int,
        ));
    }
    if head_end == 0 {
        if start == 0 {
            Some(String::new())
        } else {
            let r = "/".to_owned();
            proof {
                reveal_strlit("/");
                assert(r@ =~= seq!['/']);
            }
            Some(r)
        }
    } else {
        let part = slice_subrange(chars.as_slice(), 0, head_end);
        proof {
            assert(part@ =~= path@.take(head_end as int));
        }
        Some(string_from_chars(part))
    }
}

/// Whether a file name marks a hidden entry.
pub fn is_hidden_name(name: &str) -> (b: bool)
    ensures
        b == spec_hidden_name(name@),
{
    let n = name.unicode_len();
    if n == 0 {
        false
    } else {
        name.get_char(0) == '.'
    }
}

/// Joins a parent directory and a file name, per `spec_join`.
pub fn join_path(parent: &str, name: &str) -> (r: String)
    ensures
        r@ == spec_join(parent@, name@),
{
    let plen = parent.unicode_len();
    if plen == 0 {
        name.to_owned()
    } else {
        let last = parent.get_char(plen - 1);
        let mut r = parent.to_owned();
        if last != '/' {
            r.append("/");
            proof {
                reveal_strlit("/");
                assert("/"@ =~= seq!['/']);
            }
        }
        r.append(name);
        r
    }
}

} // verus!
