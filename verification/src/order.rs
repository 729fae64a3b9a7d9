//! Lexicographic ordering of strings by Unicode code point.
//!
//! The identity-bearing record types (devices by id, podcasts and
//! suggestions by feed URL) are ordered by their natural key alone. This
//! module defines the ordering once, as a spec function over character
//! sequences, together with the executable comparison and the laws the
//! record types rely on.

use vstd::prelude::*;

verus! {

use core::cmp::Ordering;

/// Lexicographic order on character sequences, comparing code points.
pub open spec fn lex_cmp(a: Seq<char>, b: Seq<char>) -> Ordering
    decreases a.len(),
{
    if a.len() == 0 && b.len() == 0 {
        Ordering::Equal
    } else if a.len() == 0 {
        Ordering::Less
    } else if b.len() == 0 {
        Ordering::Greater
    } else if (a[0] as u32) < (b[0] as u32) {
        Ordering::Less
    } else if (a[0] as u32) > (b[0] as u32) {
        Ordering::Greater
    } else {
        lex_cmp(a.drop_first(), b.drop_first())
    }
}

/// Two sequences compare as `Equal` exactly when they are the same sequence.
pub proof fn lemma_lex_cmp_equal_iff(a: Seq<char>, b: Seq<char>)
    ensures
        lex_cmp(a, b) == Ordering::Equal <==> a =~= b,
    decreases a.len(),
{
    if a.len() != 0 && b.len() != 0 && a[0] == b[0] {
        lemma_lex_cmp_equal_iff(a.drop_first(), b.drop_first());
        if lex_cmp(a, b) == Ordering::Equal {
            assert(a.drop_first() =~= b.drop_first());
            assert(a =~= seq![a[0]] + a.drop_first());
            assert(b =~= seq![b[0]] + b.drop_first());
            assert(a =~= b);
        } else if a =~= b {
            assert(a.drop_first() =~= b.drop_first());
        }
    } else {
        if a.len() != 0 && b.len() != 0 {
            vstd::utf8::char_u32_cast(a[0], a[0] as u32);
            vstd::utf8::char_u32_cast(b[0], b[0] as u32);
            assert(a[0] as u32 != b[0] as u32);
        }
        if a =~= b && a.len() != 0 {
            assert(a[0] == b[0]);
        }
    }
}

/// Chopping an equal prefix off both sequences does not change how they
/// compare.
proof fn lemma_lex_cmp_skip(a: Seq<char>, b: Seq<char>, i: int)
    requires
        0 <= i <= a.len(),
        i <= b.len(),
        forall|j: int| 0 <= j < i ==> a[j] == b[j],
    ensures
        lex_cmp(a, b) == lex_cmp(a.skip(i), b.skip(i)),
    decreases i,
{
    if i > 0 {
        assert(a.len() != 0 && b.len() != 0 && a[0] == b[0]);
        assert(lex_cmp(a, b) == lex_cmp(a.drop_first(), b.drop_first()));
        assert(a.drop_first() =~= a.skip(1));
        assert(b.drop_first() =~= b.skip(1));
        lemma_lex_cmp_skip(a.skip(1), b.skip(1), i - 1);
        assert(a.skip(1).skip(i - 1) =~= a.skip(i));
        assert(b.skip(1).skip(i - 1) =~= b.skip(i));
    } else {
        assert(a.skip(0) =~= a);
        assert(b.skip(0) =~= b);
    }
}

/// Whether two strings hold the same characters.
pub fn str_eq(a: &str, b: &str) -> (r: bool)
    ensures
        r == (a@ == b@),
{
    let c = cmp_str(a, b);
    proof {
        lemma_lex_cmp_equal_iff(a@, b@);
    }
    match c {
        Ordering::Equal => true,
        _ => false,
    }
}

/// Compares two strings lexicographically by code point.
pub fn cmp_str(a: &str, b: &str) -> (r: Ordering)
    ensures
        r == lex_cmp(a@, b@),
{
    let a_len = a.unicode_len();
    let b_len = b.unicode_len();
    let n = if a_len < b_len {
        a_len
    } else {
        b_len
    };
    let mut i: usize = 0;
    while i < n
        invariant
            0 <= i <= n,
            n <= a_len && n <= b_len,
            n == a_len || n == b_len,
            a_len == a@.len(),
            b_len == b@.len(),
            forall|j: int| 0 <= j < i ==> a@[j] == b@[j],
        decreases n - i,
    {
        let ca = a.get_char(i);
        let cb = b.get_char(i);
        if (ca as u32) < (cb as u32) {
            proof {
                lemma_lex_cmp_skip(a@, b@, i as int);
            }
            return Ordering::Less;
        }
        if (ca as u32) > (cb as u32) {
            proof {
                lemma_lex_cmp_skip(a@, b@, i as int);
            }
            return Ordering::Greater;
        }
        proof {
            assert(a@[i as int] as u32 == b@[i as int] as u32);
            vstd::utf8::char_u32_cast(a@[i as int], a@[i as int] as u32);
            vstd::utf8::char_u32_cast(b@[i as int], b@[i as int] as u32);
        }
        i = i + 1;
    }
    proof {
        lemma_lex_cmp_skip(a@, b@, n as int);
    }
    if a_len < b_len {
        Ordering::Less
    } else if a_len > b_len {
        Ordering::Greater
    } else {
        Ordering::Equal
    }
}

} // verus!
