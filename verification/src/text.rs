//! Character-level utilities: exact and case-folded string comparison,
//! separator splitting, and decimal parsing. All contracts are stated over
//! `Seq<char>` views.

use vstd::prelude::*;

verus! {

/// ASCII lower-casing of a single character; every non-ASCII-uppercase
/// character is left as it is.
pub open spec fn lower_char(c: char) -> char {
    if 'A' <= c && c <= 'Z' {
        ((c as u8) + 32) as char
    } else {
        c
    }
}

/// ASCII lower-casing of a whole character sequence.
pub open spec fn lower_seq(s: Seq<char>) -> Seq<char> {
    s.map_values(|c: char| lower_char(c))
}

/// Lower-cases one character.
pub fn to_lower(c: char) -> (r: char)
    ensures
        r == lower_char(c),
{
    if 'A' <= c && c <= 'Z' {
        ((c as u8) + 32) as char
    } else {
        c
    }
}

/// Exact equality of two strings, decided character by character.
pub fn str_eq(a: &str, b: &str) -> (r: bool)
    ensures
        r == (a@ == b@),
{
    let alen = a.unicode_len();
    let blen = b.unicode_len();
    if alen != blen {
        return false;
    }
    let mut i: usize = 0;
    while i < alen
        invariant
            alen == a@.len(),
            blen == b@.len(),
            alen == blen,
            i <= alen,
            forall|j: int| 0 <= j < i ==> a@[j] == b@[j],
        decreases alen - i,
    {
        if a.get_char(i) != b.get_char(i) {
            return false;
        }
        i += 1;
    }
    proof {
        assert(a@ =~= b@);
    }
    true
}

/// Case-insensitive match of a string against an already-lower-case pattern.
pub fn eq_lower(s: &str, pat: &str) -> (r: bool)
    ensures
        r == (lower_seq(s@) == pat@),
{
    let slen = s.unicode_len();
    let plen = pat.unicode_len();
    if slen != plen {
        return false;
    }
    let mut i: usize = 0;
    while i < slen
        invariant
            slen == s@.len(),
            plen == pat@.len(),
            slen == plen,
            i <= slen,
            forall|j: int| 0 <= j < i ==> lower_char(s@[j]) == pat@[j],
        decreases slen - i,
    {
        if to_lower(s.get_char(i)) != pat.get_char(i) {
            return false;
        }
        i += 1;
    }
    proof {
        assert(lower_seq(s@) =~= pat@);
    }
    true
}

/// The position of the first occurrence of `sep` in `s`, if any.
pub open spec fn first_index_of(s: Seq<char>, sep: char) -> Option<int>
    decreases s.len(),
{
    if s.len() == 0 {
        None
    } else if s[0] == sep {
        Some(0int)
    } else {
        match first_index_of(s.drop_first(), sep) {
            Some(i) => Some(i + 1),
            None => None,
        }
    }
}

pub proof fn lemma_first_index_of(s: Seq<char>, sep: char)
    ensures
        match first_index_of(s, sep) {
            Some(i) => 0 <= i < s.len() && s[i] == sep && forall|j: int|
                0 <= j < i ==> s[j] != sep,
            None => forall|j: int| 0 <= j < s.len() ==> s[j] != sep,
        },
    decreases s.len(),
{
    if s.len() != 0 && s[0] != sep {
        lemma_first_index_of(s.drop_first(), sep);
        match first_index_of(s.drop_first(), sep) {
            Some(i) => {
                assert(s[i + 1] == s.drop_first()[i]);
                assert forall|j: int| 0 <= j < i + 1 implies s[j] != sep by {
                    if j > 0 {
                        assert(s.drop_first()[j - 1] != sep);
                    }
                }
            },
            None => {
                assert forall|j: int| 0 <= j < s.len() implies s[j] != sep by {
                    if j > 0 {
                        assert(s.drop_first()[j - 1] != sep);
                    }
                }
            },
        }
    }
}

/// Finds the first occurrence of `sep` in `s`.
pub fn find_char(s: &str, sep: char) -> (r: Option<usize>)
    ensures
        match r {
            Some(i) => first_index_of(s@, sep) == Some(i as int),
            None => first_index_of(s@, sep) is None,
        },
{
    proof {
        lemma_first_index_of(s@, sep);
    }
    let len = s.unicode_len();
    let mut i: usize = 0;
    while i < len
        invariant
            len == s@.len(),
            i <= len,
            forall|j: int| 0 <= j < i ==> s@[j] != sep,
        decreases len - i,
    {
        if s.get_char(i) == sep {
            proof {
                lemma_first_index_unique(s@, sep, i as int);
            }
            return Some(i);
        }
        i += 1;
    }
    None
}

proof fn lemma_first_index_unique(s: Seq<char>, sep: char, i: int)
    requires
        0 <= i < s.len(),
        s[i] == sep,
        forall|j: int| 0 <= j < i ==> s[j] != sep,
    ensures
        first_index_of(s, sep) == Some(i),
{
    lemma_first_index_of(s, sep);
}

/// The segments of `s` between occurrences of `sep`. The result always has
/// one more segment than there are separators; the empty string yields one
/// empty segment.
pub open spec fn split_on(s: Seq<char>, sep: char) -> Seq<Seq<char>>
    decreases s.len(),
{
    if s.len() == 0 {
        seq![Seq::<char>::empty()]
    } else if s[0] == sep {
        seq![Seq::<char>::empty()] + split_on(s.drop_first(), sep)
    } else {
        let rest = split_on(s.drop_first(), sep);
        seq![seq![s[0]] + rest[0]] + rest.drop_first()
    }
}

pub proof fn lemma_split_on_len(s: Seq<char>, sep: char)
    ensures
        split_on(s, sep).len() >= 1,
    decreases s.len(),
{
    if s.len() != 0 {
        lemma_split_on_first(s, sep);
        lemma_split_on_len(s.drop_first(), sep);
    }
}

proof fn lemma_split_on_first(s: Seq<char>, sep: char)
    ensures
        split_on(s, sep).len() >= 1,
    decreases s.len(),
{
    if s.len() != 0 {
        lemma_split_on_first(s.drop_first(), sep);
    }
}

/// Splitting at the first separator: the first segment is everything before
/// it, and the remaining segments are the split of everything after it.
pub proof fn lemma_split_on_step(s: Seq<char>, sep: char)
    ensures
        match first_index_of(s, sep) {
            Some(i) => split_on(s, sep) == seq![s.take(i)] + split_on(
                s.skip(i + 1),
                sep,
            ),
            None => split_on(s, sep) == seq![s],
        },
    decreases s.len(),
{
    lemma_first_index_of(s, sep);
    if s.len() == 0 {
        assert(s =~= Seq::<char>::empty());
        assert(split_on(s, sep) =~= seq![s]);
    } else if s[0] == sep {
        assert(s.take(0) =~= Seq::<char>::empty());
        assert(s.skip(1) =~= s.drop_first());
        assert(split_on(s, sep) =~= seq![s.take(0)] + split_on(s.skip(1), sep));
    } else {
        lemma_split_on_step(s.drop_first(), sep);
        let rest = split_on(s.drop_first(), sep);
        lemma_split_on_first(s.drop_first(), sep);
        match first_index_of(s.drop_first(), sep) {
            Some(i) => {
                assert(first_index_of(s, sep) == Some(i + 1));
                assert(rest == seq![s.drop_first().take(i)] + split_on(
                    s.drop_first().skip(i + 1),
                    sep,
                ));
                assert(rest[0] == s.drop_first().take(i));
                assert(seq![s[0]] + s.drop_first().take(i) =~= s.take(i + 1));
                assert(s.drop_first().skip(i + 1) =~= s.skip(i + 2));
                assert(rest.drop_first() =~= split_on(s.skip(i + 2), sep));
                assert(split_on(s, sep) =~= seq![s.take(i + 1)] + split_on(
                    s.skip(i + 2),
                    sep,
                ));
            },
            None => {
                assert(rest =~= seq![s.drop_first()]);
                assert(seq![s[0]] + s.drop_first() =~= s);
                assert(split_on(s, sep) =~= seq![s]);
            },
        }
    }
}

/// The views of a sequence of owned strings.
pub open spec fn views_of(v: Seq<String>) -> Seq<Seq<char>> {
    v.map_values(|s: String| s@)
}

/// Splits `s` into the segments between occurrences of `sep`.
pub fn split_char(s: &str, sep: char) -> (r: Vec<String>)
    ensures
        views_of(r@) == split_on(s@, sep),
    decreases s@.len(),
{
    proof {
        lemma_split_on_step(s@, sep);
        lemma_first_index_of(s@, sep);
    }
    match find_char(s, sep) {
        None => {
            let mut r: Vec<String> = Vec::new();
            r.push(String::from_str(s));
            proof {
                assert(views_of(r@) =~= seq![s@]);
            }
            r
        },
        Some(i) => {
            let len = s.unicode_len();
            let head = s.substring_char(0, i);
            let tail = s.substring_char(i + 1, len);
            proof {
                assert(head@ =~= s@.take(i as int));
                assert(tail@ =~= s@.skip(i + 1));
            }
            let mut r = split_char(tail, sep);
            r.insert(0, String::from_str(head));
            proof {
                assert(views_of(r@) =~= seq![s@.take(i as int)] + split_on(
                    s@.skip(i + 1),
                    sep,
                ));
            }
            r
        },
    }
}

/// Whether `s` is a non-empty run of decimal digits.
pub open spec fn is_dec_digits(s: Seq<char>) -> bool {
    s.len() > 0 && forall|i: int| 0 <= i < s.len() ==> '0' <= #[trigger] s[i] <= '9'
}

/// The value of a run of decimal digits, most significant first.
pub open spec fn dec_value(s: Seq<char>) -> int
    decreases s.len(),
{
    if s.len() == 0 {
        0
    } else {
        dec_value(s.drop_last()) * 10 + (s.last() as int - '0' as int)
    }
}

pub proof fn lemma_dec_value_nonneg(s: Seq<char>)
    requires
        forall|i: int| 0 <= i < s.len() ==> '0' <= #[trigger] s[i] <= '9',
    ensures
        dec_value(s) >= 0,
    decreases s.len(),
{
    if s.len() > 0 {
        lemma_dec_value_nonneg(s.drop_last());
    }
}

/// Parses a non-empty all-digit string as an unsigned 64-bit value; fails on
/// any other character and on overflow.
pub fn parse_u64(s: &str) -> (r: Option<u64>)
    ensures
        match r {
            Some(v) => is_dec_digits(s@) && dec_value(s@) == v as int,
            None => !is_dec_digits(s@) || dec_value(s@) > u64::MAX,
        },
{
    let len = s.unicode_len();
    if len == 0 {
        return None;
    }
    let mut acc: u64 = 0;
    let mut i: usize = 0;
    while i < len
        invariant
            len == s@.len(),
            0 < len,
            i <= len,
            forall|j: int| 0 <= j < i ==> '0' <= #[trigger] s@[j] <= '9',
            acc as int == dec_value(s@.take(i as int)),
        decreases len - i,
    {
        let c = s.get_char(i);
        if c < '0' || c > '9' {
            return None;
        }
        let d: u64 = (c as u8 - 48) as u64;
        proof {
            lemma_dec_value_nonneg(s@.take(i as int));
            assert(s@.take(i + 1).drop_last() =~= s@.take(i as int));
            assert(s@.take(i + 1).last() == s@[i as int]);
        }
        if acc > (u64::MAX - d) / 10 {
            proof {
                let m = u64::MAX - d;
                assert(m as int == 10 * ((m as int) / 10) + (m as int) % 10) by {
                    vstd::arithmetic::div_mod::lemma_fundamental_div_mod(
                        m as int,
                        10,
                    );
                }
                assert(acc as int * 10 + d as int > u64::MAX) by (nonlinear_arith)
                    requires
                        acc as int > (m as int) / 10,
                        m as int == 10 * ((m as int) / 10) + (m as int) % 10,
                        0 <= (m as int) % 10 < 10,
                        m as int == u64::MAX - d,
                ;
                if is_dec_digits(s@) {
                    lemma_dec_prefix_overflow(s@, i + 1);
                }
            }
            return None;
        }
        acc = acc * 10 + d;
        i += 1;
    }
    proof {
        assert(s@.take(len as int) =~= s@);
    }
    Some(acc)
}

/// A digit string whose prefix already exceeds `u64::MAX` exceeds it as a
/// whole.
proof fn lemma_dec_prefix_overflow(s: Seq<char>, k: int)
    requires
        0 <= k <= s.len(),
        forall|i: int| 0 <= i < s.len() ==> '0' <= #[trigger] s[i] <= '9',
        dec_value(s.take(k)) > u64::MAX,
    ensures
        dec_value(s) > u64::MAX,
    decreases s.len() - k,
{
    if k < s.len() {
        assert(s.take(k + 1).drop_last() =~= s.take(k));
        assert(s.take(k + 1).last() == s[k]);
        assert(dec_value(s.take(k + 1)) == dec_value(s.take(k)) * 10 + (s[k] as int
            - '0' as int));
        lemma_dec_prefix_overflow(s, k + 1);
    } else {
        assert(s.take(k) =~= s);
    }
}

/// The signed reading of a string: an optional leading `-` followed by a
/// non-empty run of digits.
pub open spec fn signed_dec(s: Seq<char>) -> Option<int> {
    if is_dec_digits(s) {
        Some(dec_value(s))
    } else if s.len() > 1 && s[0] == '-' && is_dec_digits(s.drop_first()) {
        Some(-dec_value(s.drop_first()))
    } else {
        None
    }
}

/// Parses an optionally `-`-signed decimal string as a signed 64-bit value;
/// fails on any other shape and on overflow.
pub fn parse_i64(s: &str) -> (r: Option<i64>)
    ensures
        match r {
            Some(v) => signed_dec(s@) == Some(v as int),
            None => match signed_dec(s@) {
                Some(n) => n > i64::MAX || n < i64::MIN,
                None => true,
            },
        },
{
    let len = s.unicode_len();
    if len >= 2 && s.get_char(0) == '-' {
        let mag = s.substring_char(1, len);
        proof {
            assert(mag@ =~= s@.drop_first());
        }
        match parse_u64(mag) {
            Some(v) => {
                if v <= 9223372036854775808u64 {
                    proof {
                        assert(!is_dec_digits(s@));
                    }
                    if v == 9223372036854775808u64 {
                        Some(i64::MIN)
                    } else {
                        Some(-(v as i64))
                    }
                } else {
                    None
                }
            },
            None => {
                proof {
                    if is_dec_digits(s@) {
                        assert(s@[0] == '-');
                        assert(false);
                    }
                    if signed_dec(s@) is Some {
                        lemma_dec_value_nonneg(s@.drop_first());
                    }
                }
                None
            },
        }
    } else {
        match parse_u64(s) {
            Some(v) => {
                if v <= i64::MAX as u64 {
                    Some(v as i64)
                } else {
                    None
                }
            },
            None => {
                proof {
                    if signed_dec(s@) is Some && !is_dec_digits(s@) {
                        assert(s@.len() > 1 && s@[0] == '-');
                        assert(false);
                    }
                }
                None
            },
        }
    }
}

} // verus!
