use vstd::prelude::*;

verus! {

/// Collects the characters of a string slice into a vector, so that parsing
/// code can work with plain indexed access.
pub(crate) fn chars_vec(s: &str) -> (v: Vec<char>)
    ensures
        v@ == s@,
{
    let n = s.unicode_len();
    let mut v: Vec<char> = Vec::new();
    let mut i: usize = 0;
    while i < n
        invariant
            n == s@.len(),
            i <= n,
            v@ == s@.subrange(0, i as int),
        decreases n - i,
    {
        let c = s.get_char(i);
        v.push(c);
        i = i + 1;
    }
    proof {
        assert(v@ =~= s@);
    }
    v
}

/// Relies on `String`'s `FromIterator<char>` implementation (through
/// `Iterator::collect`): the collected string holds exactly the characters of
/// the vector, in order.
#[verifier::external_body]
pub(crate) fn string_from_chars(v: &[char]) -> (s: String)
    ensures
        s@ == v@,
{
    v.iter().collect()
}

/// Clones an optional string, part for part.
pub(crate) fn clone_opt_string(e: &Option<String>) -> (r: Option<String>)
    ensures
        r.deep_view() == e.deep_view(),
{
    match e {
        Some(s) => Some(s.clone()),
        None => None,
    }
}

} // verus!
