use vstd::prelude::*;

verus! {

/// A single regex flag.
#[derive(Debug, Clone, Copy, PartialEq, Eq, Structural)]
pub enum Flag {
    /// Regex should be case insensitive. Corresponds to `i`.
    CaseInsensitive,
    /// Regex should be case sensitive. Corresponds to `I`.
    CaseSensitive,
    /// Regex is run for every match in a string. Corresponds to `g`.
    Global,
    /// Regex is run N times in a string.
    Numbered(usize),
    /// "Greedy swap" flag. Corresponds to `U`.
    GreedySwap,
    /// Ignore whitespaces. Corresponds to `x`.
    IgnoreWhitespaces,
}

/// Failure of flag parsing: some character is not a recognized flag.
#[derive(Debug, Clone, Copy, PartialEq, Eq, Structural)]
pub enum Error {
    UnknownFlag(char),
}

/// Whether `c` is a decimal digit.
pub open spec fn is_digit_char(c: char) -> bool {
    '0' <= c && c <= '9'
}

/// Numeric value of a single decimal digit character.
pub open spec fn spec_char_digit(c: char) -> nat {
    (c as nat - '0' as nat) as nat
}

/// The flag denoted by a single non-digit character, if any.
pub open spec fn spec_flag_of_char(c: char) -> Option<Flag> {
    if c == 'i' {
        Some(Flag::CaseInsensitive)
    } else if c == 'I' {
        Some(Flag::CaseSensitive)
    } else if c == 'g' {
        Some(Flag::Global)
    } else if c == 'U' {
        Some(Flag::GreedySwap)
    } else if c == 'x' {
        Some(Flag::IgnoreWhitespaces)
    } else {
        None
    }
}

/// Length of the run of decimal digits at the start of `s`.
pub open spec fn digit_run_len(s: Seq<char>) -> int
    decreases s.len(),
{
    if s.len() == 0 || !is_digit_char(s[0]) {
        0
    } else {
        1 + digit_run_len(s.drop_first())
    }
}

pub proof fn lemma_digit_run_len_bounds(s: Seq<char>)
    ensures
        0 <= digit_run_len(s) <= s.len(),
        s.len() > 0 && is_digit_char(s[0]) ==> 1 <= digit_run_len(s),
    decreases s.len(),
{
    if s.len() > 0 && is_digit_char(s[0]) {
        lemma_digit_run_len_bounds(s.drop_first());
    }
}

/// The digit run is exactly the maximal prefix of digits.
pub proof fn lemma_digit_run_len_is(s: Seq<char>, k: int)
    requires
        0 <= k <= s.len(),
        forall|m: int| 0 <= m < k ==> is_digit_char(s[m]),
        k == s.len() || !is_digit_char(s[k]),
    ensures
        digit_run_len(s) == k,
    decreases s.len(),
{
    if k == 0 {
    } else {
        assert(is_digit_char(s[0]));
        assert forall|m: int| 0 <= m < k - 1 implies is_digit_char(s.drop_first()[m]) by {
            assert(s.drop_first()[m] == s[m + 1]);
        }
        lemma_digit_run_len_is(s.drop_first(), k - 1);
    }
}

/// Numeric value of a digit sequence, most significant digit first.
pub open spec fn digits_value(s: Seq<char>) -> nat
    decreases s.len(),
{
    if s.len() == 0 {
        0
    } else {
        digits_value(s.drop_last()) * 10 + spec_char_digit(s.last())
    }
}

/// A numeric value clamped to the range of `usize`.
pub open spec fn saturated(n: nat) -> nat {
    if n > usize::MAX as nat {
        usize::MAX as nat
    } else {
        n
    }
}

/// The flag list denoted by `s`: runs of digits collapse into one `Numbered`
/// flag (its value clamped to `usize`), every other character must map to a
/// flag on its own, and the first character that does not is the error.
pub open spec fn spec_parse_flags(s: Seq<char>) -> Result<Seq<Flag>, char>
    decreases s.len(),
    via spec_parse_flags_decreases
{
    if s.len() == 0 {
        Ok(Seq::empty())
    } else if is_digit_char(s[0]) {
        let k = digit_run_len(s);
        match spec_parse_flags(s.skip(k)) {
            Ok(rest) => Ok(
                seq![Flag::Numbered(saturated(digits_value(s.take(k))) as usize)] + rest,
            ),
            Err(c) => Err(c),
        }
    } else {
        match spec_flag_of_char(s[0]) {
            Some(f) => match spec_parse_flags(s.drop_first()) {
                Ok(rest) => Ok(seq![f] + rest),
                Err(c) => Err(c),
            },
            None => Err(s[0]),
        }
    }
}

#[via_fn]
proof fn spec_parse_flags_decreases(s: Seq<char>) {
    lemma_digit_run_len_bounds(s);
}

/// Converts a decimal digit character to its numeric value.
pub fn char_to_digit(ch: char) -> (d: usize)
    requires
        is_digit_char(ch),
    ensures
        d == spec_char_digit(ch),
        d <= 9,
{
    (ch as u8 - 48) as usize
}

/// Whether `c` is a decimal digit, decided executably.
fn is_ascii_digit_char(c: char) -> (b: bool)
    ensures
        b == is_digit_char(c),
{
    '0' <= c && c <= '9'
}

impl Flag {
    /// The flag denoted by a single character, or the unknown-flag error.
    pub fn try_from_char(ch: char) -> (r: Result<Flag, Error>)
        ensures
            match spec_flag_of_char(ch) {
                Some(f) => r == Ok::<Flag, Error>(f),
                None => r == Err::<Flag, Error>(Error::UnknownFlag(ch)),
            },
    {
        match ch {
            'i' => Ok(Flag::CaseInsensitive),
            'I' => Ok(Flag::CaseSensitive),
            'g' => Ok(Flag::Global),
            'U' => Ok(Flag::GreedySwap),
            'x' => Ok(Flag::IgnoreWhitespaces),
            _ => Err(Error::UnknownFlag(ch)),
        }
    }

    /// Parses a whole flag string into the list of flags it denotes.
    pub fn list_from_chars(chars: &[char]) -> (r: Result<Vec<Flag>, Error>)
        ensures
            match spec_parse_flags(chars@) {
                Ok(fs) => r is Ok && r->Ok_0@ == fs,
                Err(c) => r == Err::<Vec<Flag>, Error>(Error::UnknownFlag(c)),
            },
    {
        let ghost all = chars@;
        let mut flags: Vec<Flag> = Vec::new();
        let mut i: usize = 0;
        proof {
            assert(all.skip(0) =~= all);
            match spec_parse_flags(all) {
                Ok(fs) => {
                    assert(Seq::<Flag>::empty() + fs =~= fs);
                },
                Err(_) => {},
            }
        }
        while i < chars.len()
            invariant
                i <= all.len(),
                all == chars@,
                spec_parse_flags(all) == (match spec_parse_flags(all.skip(i as int)) {
                    Ok(fs) => Ok::<Seq<Flag>, char>(flags@ + fs),
                    Err(c) => Err::<Seq<Flag>, char>(c),
                }),
            decreases all.len() - i,
        {
            let ghost tail = all.skip(i as int);
            let c = chars[i];
            assert(tail[0] == c);
            if is_ascii_digit_char(c) {
                let ghost k = digit_run_len(tail);
                proof {
                    lemma_digit_run_len_bounds(tail);
                }
                let mut val: usize = 0;
                let mut j: usize = i;
                loop
                    invariant
                        i <= j <= all.len(),
                        all == chars@,
                        i < all.len(),
                        forall|m: int| i <= m < j ==> is_digit_char(all[m]),
                        val == saturated(digits_value(all.subrange(i as int, j as int))),
                    ensures
                        i <= j <= all.len(),
                        forall|m: int| i <= m < j ==> is_digit_char(all[m]),
                        val == saturated(digits_value(all.subrange(i as int, j as int))),
                        j == all.len() || !is_digit_char(all[j as int]),
                    decreases all.len() - j,
                {
                    if j >= chars.len() {
                        break ;
                    }
                    let cj = chars[j];
                    if !is_ascii_digit_char(cj) {
                        break ;
                    }
                    let d = char_to_digit(chars[j]);
                    let ghost dv = digits_value(all.subrange(i as int, j as int));
                    let ghost dv2 = digits_value(all.subrange(i as int, j + 1 as int));
                    proof {
                        assert(all.subrange(i as int, j + 1 as int).drop_last() =~= all.subrange(
                            i as int,
                            j as int,
                        ));
                        assert(dv2 == dv * 10 + spec_char_digit(all[j as int]));
                    }
                    val = match val.checked_mul(10) {
                        Some(v10) => match v10.checked_add(d) {
                            Some(v) => v,
                            None => usize::MAX,
                        },
                        None => usize::MAX,
                    };
                    proof {
                        if dv > usize::MAX as nat {
                            assert(dv * 10 >= dv) by (nonlinear_arith);
                            assert(dv2 > usize::MAX as nat);
                        } else {
                            assert(dv * 10 <= usize::MAX as nat * 10) by (nonlinear_arith)
                                requires
                                    dv <= usize::MAX as nat,
                            ;
                        }
                        assert(val == saturated(dv2));
                    }
                    j = j + 1;
                }
                proof {
                    lemma_digit_run_len_is(tail, j - i);
                    assert(k == j - i);
                    assert(tail.take(k) =~= all.subrange(i as int, j as int));
                    assert(tail.skip(k) =~= all.skip(j as int));
                }
                let ghost prev = flags@;
                flags.push(Flag::Numbered(val));
                proof {
                    assert(spec_parse_flags(tail) == (match spec_parse_flags(all.skip(j as int)) {
                        Ok(rest) => Ok::<Seq<Flag>, char>(
                            seq![Flag::Numbered(saturated(digits_value(tail.take(k))) as usize)]
                                + rest,
                        ),
                        Err(c) => Err::<Seq<Flag>, char>(c),
                    }));
                    match spec_parse_flags(all.skip(j as int)) {
                        Ok(rest) => {
                            assert(prev + (seq![Flag::Numbered(val)] + rest) =~= flags@ + rest);
                        },
                        Err(_) => {},
                    }
                }
                i = j;
            } else {
                match Flag::try_from_char(c) {
                    Ok(f) => {
                        let ghost prev = flags@;
                        flags.push(f);
                        proof {
                            assert(tail.drop_first() =~= all.skip(i + 1 as int));
                            match spec_parse_flags(all.skip(i + 1 as int)) {
                                Ok(rest) => {
                                    assert(prev + (seq![f] + rest) =~= flags@ + rest);
                                },
                                Err(_) => {},
                            }
                        }
                        i = i + 1;
                    },
                    Err(e) => {
                        return Err(e);
                    },
                }
            }
        }
        proof {
            assert(all.skip(i as int) =~= Seq::<char>::empty());
        }
        Ok(flags)
    }
}

} // verus!
