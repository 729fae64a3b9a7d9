//! Verified query-string construction.
//!
//! Query parameters are appended to a URL in exactly the order the caller
//! supplies them, each key and value percent-encoded. The unreserved
//! characters (letters, digits, `-`, `_`, `.`, `~`) pass through; every
//! other character is written as the `%XX` encoding of each of its UTF-8
//! bytes.

use vstd::prelude::*;

verus! {

use vstd::utf8::char_is_scalar;
use vstd::utf8::encode_scalar;
use crate::text::hex_digit_upper;
use crate::text::hex_digit_upper_str;

/// True of the characters a query string passes through unencoded.
pub open spec fn qs_unreserved(c: char) -> bool {
    ||| ('a' as u32) <= (c as u32) <= ('z' as u32)
    ||| ('A' as u32) <= (c as u32) <= ('Z' as u32)
    ||| ('0' as u32) <= (c as u32) <= ('9' as u32)
    ||| c == '-'
    ||| c == '_'
    ||| c == '.'
    ||| c == '~'
}

/// The percent-encoding of one byte.
pub open spec fn pct_byte(b: u8) -> Seq<char> {
    seq!['%', hex_digit_upper(b as int / 16), hex_digit_upper(b as int % 16)]
}

/// The percent-encoding of a byte sequence.
pub open spec fn pct_bytes(bs: Seq<u8>) -> Seq<char>
    decreases bs.len(),
{
    if bs.len() == 0 {
        Seq::empty()
    } else {
        pct_byte(bs[0]) + pct_bytes(bs.drop_first())
    }
}

/// How one character is written in a query string: unreserved characters
/// stand for themselves, every other character as the percent-encoding of
/// its UTF-8 bytes.
pub open spec fn qs_escape_char(c: char) -> Seq<char> {
    if qs_unreserved(c) {
        seq![c]
    } else {
        pct_bytes(encode_scalar(c as u32))
    }
}

/// A string escaped for use as a query-string key or value.
pub open spec fn qs_escaped(s: Seq<char>) -> Seq<char>
    decreases s.len(),
{
    if s.len() == 0 {
        Seq::empty()
    } else {
        qs_escape_char(s[0]) + qs_escaped(s.drop_first())
    }
}

/// One `key=value` member of a query string.
pub open spec fn qs_pair(p: (Seq<char>, Seq<char>)) -> Seq<char> {
    qs_escaped(p.0) + seq!['='] + qs_escaped(p.1)
}

/// The members of a query string, in the order given, separated by `&`.
pub open spec fn query_members(params: Seq<(Seq<char>, Seq<char>)>) -> Seq<char>
    decreases params.len(),
{
    if params.len() == 0 {
        Seq::empty()
    } else if params.len() == 1 {
        qs_pair(params[0])
    } else {
        query_members(params.take(params.len() - 1)) + seq!['&'] + qs_pair(params.last())
    }
}

/// The query part a parameter list adds to a URL: nothing for an empty
/// list, otherwise `?` followed by the members.
pub open spec fn query_part(params: Seq<(Seq<char>, Seq<char>)>) -> Seq<char> {
    if params.len() == 0 {
        Seq::empty()
    } else {
        seq!['?'] + query_members(params)
    }
}

/// The views of a parameter list's keys and values.
pub open spec fn pairs_view(params: Seq<(String, String)>) -> Seq<(Seq<char>, Seq<char>)> {
    params.map_values(|p: (String, String)| (p.0@, p.1@))
}

/// Appending a parameter extends the query string on the right: the members
/// already present are left untouched, in their order. This is the sense in
/// which the caller-supplied parameter order is preserved.
pub proof fn lemma_query_order(params: Seq<(Seq<char>, Seq<char>)>, p: (Seq<char>, Seq<char>))
    ensures
        params.len() == 0 ==> query_members(params.push(p)) == qs_pair(p),
        params.len() > 0 ==> query_members(params.push(p)) == query_members(params) + seq!['&']
            + qs_pair(p),
{
    if params.len() == 0 {
        assert(query_members(params.push(p)) == qs_pair(params.push(p)[0]));
        assert(params.push(p)[0] == p);
    } else {
        assert(params.push(p).take(params.push(p).len() - 1) =~= params);
        assert(params.push(p).last() == p);
    }
}

/// Escaping distributes over appending one character.
proof fn lemma_qs_escaped_push(s: Seq<char>, c: char)
    ensures
        qs_escaped(s.push(c)) == qs_escaped(s) + qs_escape_char(c),
    decreases s.len(),
{
    if s.len() == 0 {
        assert(s.push(c)[0] == c);
        assert(s.push(c).drop_first() =~= Seq::<char>::empty());
        assert(qs_escaped(Seq::<char>::empty()) =~= Seq::<char>::empty());
        assert(qs_escaped(s) =~= Seq::<char>::empty());
        assert(qs_escaped(s.push(c)) =~= qs_escape_char(c) + Seq::<char>::empty());
        assert(qs_escaped(s.push(c)) =~= qs_escaped(s) + qs_escape_char(c));
    } else {
        lemma_qs_escaped_push(s.drop_first(), c);
        assert(s.push(c)[0] == s[0]);
        assert(s.push(c).drop_first() =~= s.drop_first().push(c));
        assert(qs_escape_char(s[0]) + (qs_escaped(s.drop_first()) + qs_escape_char(c)) =~= (
        qs_escape_char(s[0]) + qs_escaped(s.drop_first())) + qs_escape_char(c));
    }
}

proof fn lemma_pct_bytes_small(bs: Seq<u8>)
    requires
        bs.len() <= 4,
    ensures
        bs.len() == 1 ==> pct_bytes(bs) == pct_byte(bs[0]),
        bs.len() == 2 ==> pct_bytes(bs) == pct_byte(bs[0]) + pct_byte(bs[1]),
        bs.len() == 3 ==> pct_bytes(bs) == pct_byte(bs[0]) + pct_byte(bs[1]) + pct_byte(bs[2]),
        bs.len() == 4 ==> pct_bytes(bs) == pct_byte(bs[0]) + pct_byte(bs[1]) + pct_byte(bs[2])
            + pct_byte(bs[3]),
    decreases bs.len(),
{
    if bs.len() == 0 {
    } else {
        lemma_pct_bytes_small(bs.drop_first());
        if bs.len() == 1 {
            assert(bs.drop_first().len() == 0);
            assert(pct_bytes(bs.drop_first()) =~= Seq::<char>::empty());
            assert(pct_bytes(bs) =~= pct_byte(bs[0]));
        } else {
            assert(bs.drop_first()[0] == bs[1]);
            if bs.len() == 2 {
                assert(pct_bytes(bs) =~= pct_byte(bs[0]) + pct_byte(bs[1]));
            } else if bs.len() == 3 {
                assert(bs.drop_first()[1] == bs[2]);
                assert(pct_bytes(bs) =~= pct_byte(bs[0]) + pct_byte(bs[1]) + pct_byte(bs[2]));
            } else {
                assert(bs.drop_first()[1] == bs[2]);
                assert(bs.drop_first()[2] == bs[3]);
                assert(pct_bytes(bs) =~= pct_byte(bs[0]) + pct_byte(bs[1]) + pct_byte(bs[2])
                    + pct_byte(bs[3]));
            }
        }
    }
}

/// Appends the percent-encoding of one byte.
fn append_pct_byte(out: &mut String, b: u8)
    ensures
        final(out)@ == old(out)@ + pct_byte(b),
{
    out.append("%");
    out.append(hex_digit_upper_str((b / 16) as u64));
    out.append(hex_digit_upper_str((b % 16) as u64));
    proof {
        reveal_strlit("%");
        assert(("%"@ + seq![hex_digit_upper(b as int / 16)]) + seq![hex_digit_upper(b as int % 16)]
            =~= pct_byte(b));
    }
}

/// Appends `s` escaped for use as a query-string key or value.
fn append_qs_escaped(out: &mut String, s: &str)
    ensures
        final(out)@ == old(out)@ + qs_escaped(s@),
{
    let n = s.unicode_len();
    let mut i: usize = 0;
    while i < n
        invariant
            i <= n,
            n == s@.len(),
            out@ == old(out)@ + qs_escaped(s@.subrange(0, i as int)),
        decreases n - i,
    {
        let ghost prefix = s@.subrange(0, i as int);
        let c = s.get_char(i);
        let u = c as u32;
        let unreserved = (97 <= u && u <= 122) || (65 <= u && u <= 90) || (48 <= u && u <= 57) || c
            == '-' || c == '_' || c == '.' || c == '~';
        if unreserved {
            let piece = s.substring_char(i, i + 1);
            out.append(piece);
            proof {
                assert(piece@ =~= seq![c]);
                assert(qs_unreserved(c));
                assert(piece@ =~= qs_escape_char(c));
            }
        } else {
            proof {
                char_is_scalar(c);
                assert(!qs_unreserved(c));
            }
            let ghost bs = encode_scalar(c as u32);
            if u < 0x80 {
                append_pct_byte(out, (u & 0x7F) as u8);
                proof {
                    lemma_pct_bytes_small(bs);
                    assert(out@ =~= old(out)@ + qs_escaped(prefix) + qs_escape_char(c));
                }
            } else if u < 0x800 {
                append_pct_byte(out, 0xC0 | ((u >> 6) & 0x1F) as u8);
                append_pct_byte(out, 0x80 | (u & 0x3F) as u8);
                proof {
                    lemma_pct_bytes_small(bs);
                    assert(out@ =~= old(out)@ + qs_escaped(prefix) + qs_escape_char(c));
                }
            } else if u < 0x10000 {
                append_pct_byte(out, 0xE0 | ((u >> 12) & 0x0F) as u8);
                append_pct_byte(out, 0x80 | ((u >> 6) & 0x3F) as u8);
                append_pct_byte(out, 0x80 | (u & 0x3F) as u8);
                proof {
                    lemma_pct_bytes_small(bs);
                    assert(out@ =~= old(out)@ + qs_escaped(prefix) + qs_escape_char(c));
                }
            } else {
                append_pct_byte(out, 0xF0 | ((u >> 18) & 0x7) as u8);
                append_pct_byte(out, 0x80 | ((u >> 12) & 0x3F) as u8);
                append_pct_byte(out, 0x80 | ((u >> 6) & 0x3F) as u8);
                append_pct_byte(out, 0x80 | (u & 0x3F) as u8);
                proof {
                    lemma_pct_bytes_small(bs);
                    assert(out@ =~= old(out)@ + qs_escaped(prefix) + qs_escape_char(c));
                }
            }
        }
        proof {
            lemma_qs_escaped_push(prefix, c);
            assert(s@.subrange(0, i + 1 as int) =~= prefix.push(c));
            assert(out@ =~= old(out)@ + qs_escaped(s@.subrange(0, i + 1 as int)));
        }
        i = i + 1;
    }
    proof {
        assert(s@.subrange(0, n as int) =~= s@);
    }
}

/// Appends the query part for `params`: nothing for an empty list,
/// otherwise `?` and the `key=value` members, percent-encoded, in the order
/// given.
pub fn append_query(out: &mut String, params: &Vec<(String, String)>)
    ensures
        final(out)@ == old(out)@ + query_part(pairs_view(params@)),
{
    let ghost views = pairs_view(params@);
    let mut i: usize = 0;
    while i < params.len()
        invariant
            i <= params.len(),
            views == pairs_view(params@),
            views.len() == params@.len(),
            forall|j: int|
                0 <= j < params@.len() ==> #[trigger] views[j] == (params@[j].0@, params@[j].1@),
            out@ == old(out)@ + query_part(views.take(i as int)),
        decreases params.len() - i,
    {
        if i == 0 {
            out.append("?");
        } else {
            out.append("&");
        }
        append_qs_escaped(out, params[i].0.as_str());
        out.append("=");
        append_qs_escaped(out, params[i].1.as_str());
        proof {
            reveal_strlit("?");
            reveal_strlit("&");
            reveal_strlit("=");
            assert(views.take(i + 1 as int).take(i as int) =~= views.take(i as int));
            assert(views.take(i + 1 as int).last() == views[i as int]);
            lemma_query_order(views.take(i as int), views[i as int]);
            assert(views.take(i as int).push(views[i as int]) =~= views.take(i + 1 as int));
            assert(qs_pair(views[i as int]) =~= (qs_escaped(params@[i as int].0@) + "="@)
                + qs_escaped(params@[i as int].1@));
            assert(out@ =~= old(out)@ + query_part(views.take(i + 1 as int)));
        }
        i = i + 1;
    }
    proof {
        assert(views.take(params@.len() as int) =~= views);
    }
}

} // verus!
