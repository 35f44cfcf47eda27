//! Small verified string helpers shared by the configuration parser, the
//! nonce generator and the payload encoder: character search, equality of
//! string slices, and decimal formatting of a `u64`.
use vstd::prelude::*;

verus! {

/// Index of the first occurrence of `c` in `s`, or `-1` when `c` does not occur.
pub open spec fn first_idx(s: Seq<char>, c: char) -> int
    decreases s.len(),
{
    if s.len() == 0 {
        -1
    } else if s[0] == c {
        0
    } else {
        let r = first_idx(s.drop_first(), c);
        if r < 0 {
            -1
        } else {
            r + 1
        }
    }
}

pub proof fn lemma_first_idx(s: Seq<char>, c: char)
    ensures
        first_idx(s, c) == -1 || (0 <= first_idx(s, c) < s.len() && s[first_idx(s, c)] == c),
        forall|j: int| 0 <= j < first_idx(s, c) ==> s[j] != c,
        first_idx(s, c) == -1 ==> forall|j: int| 0 <= j < s.len() ==> s[j] != c,
    decreases s.len(),
{
    if s.len() != 0 && s[0] != c {
        let t = s.drop_first();
        lemma_first_idx(t, c);
        assert forall|j: int| 0 <= j < first_idx(s, c) implies s[j] != c by {
            if j > 0 {
                assert(s[j] == t[j - 1]);
            }
        }
        if first_idx(s, c) == -1 {
            assert forall|j: int| 0 <= j < s.len() implies s[j] != c by {
                if j > 0 {
                    assert(s[j] == t[j - 1]);
                }
            }
        }
    }
}

/// The first occurrence is the unique index with no occurrence before it.
pub proof fn lemma_first_idx_is(s: Seq<char>, c: char, i: int)
    requires
        0 <= i < s.len(),
        s[i] == c,
        forall|j: int| 0 <= j < i ==> s[j] != c,
    ensures
        first_idx(s, c) == i,
{
    lemma_first_idx(s, c);
    let f = first_idx(s, c);
    if f == -1 {
    } else if f < i {
    } else if f > i {
    }
}

pub proof fn lemma_first_idx_none(s: Seq<char>, c: char)
    requires
        forall|j: int| 0 <= j < s.len() ==> s[j] != c,
    ensures
        first_idx(s, c) == -1,
{
    lemma_first_idx(s, c);
}

/// Character-wise equality of two string slices.
pub fn str_eq(a: &str, b: &str) -> (r: bool)
    ensures
        r == (a@ == b@),
{
    let alen = a.unicode_len();
    let blen = b.unicode_len();
    if alen != blen {
        return false;
    }
    let mut i: usize = 0;
    while i < alen
        invariant
            i <= alen,
            alen == a@.len(),
            blen == b@.len(),
            alen == blen,
            forall|j: int| 0 <= j < i ==> a@[j] == b@[j],
        decreases alen - i,
    {
        if a.get_char(i) != b.get_char(i) {
            return false;
        }
        i += 1;
    }
    proof {
        assert(a@ =~= b@);
    }
    true
}

/// Relies on std's `String::push`: appends the given character to the end of
/// the string.
#[verifier::external_body]
fn push_char(s: &mut String, c: char)
    ensures
        final(s)@ == old(s)@.push(c),
{
    s.push(c);
}

/// The character for the decimal digit `d % 10`.
pub open spec fn dec_digit(d: nat) -> char {
    ((48 + (d % 10)) as u8) as char
}

/// The decimal digit string of `n`, most significant digit first, no sign and
/// no leading zero (a single `'0'` for zero).
pub open spec fn dec_str(n: nat) -> Seq<char>
    decreases n,
{
    if n < 10 {
        seq![dec_digit(n)]
    } else {
        dec_str(n / 10).push(dec_digit(n % 10))
    }
}

pub open spec fn is_dec_digit(c: char) -> bool {
    48 <= (c as u32) <= 57
}

pub proof fn lemma_dec_str_digits(n: nat)
    ensures
        dec_str(n).len() >= 1,
        forall|i: int| 0 <= i < dec_str(n).len() ==> is_dec_digit(#[trigger] dec_str(n)[i]),
    decreases n,
{
    if n >= 10 {
        lemma_dec_str_digits(n / 10);
    }
}

/// The decimal digit string of `n`, matching `dec_str`.
pub fn u64_to_dec_string(n: u64) -> (s: String)
    ensures
        s@ == dec_str(n as nat),
    decreases n,
{
    if n < 10 {
        let mut s = String::new();
        push_char(&mut s, ((48 + (n as u8)) as char));
        s
    } else {
        let mut s = u64_to_dec_string(n / 10);
        push_char(&mut s, ((48 + ((n % 10) as u8)) as char));
        s
    }
}

} // verus!
