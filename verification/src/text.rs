//! Verified text building.
//!
//! Request bodies and display strings are assembled as text by the library
//! itself, so that what is sent over the wire is pinned down exactly. This
//! module holds the building blocks: decimal rendering of integers, JSON
//! string escaping, and JSON array framing.

use vstd::prelude::*;

verus! {

/// The decimal digit character for `d`.
pub open spec fn dec_digit(d: int) -> char {
    if d == 0 {
        '0'
    } else if d == 1 {
        '1'
    } else if d == 2 {
        '2'
    } else if d == 3 {
        '3'
    } else if d == 4 {
        '4'
    } else if d == 5 {
        '5'
    } else if d == 6 {
        '6'
    } else if d == 7 {
        '7'
    } else if d == 8 {
        '8'
    } else {
        '9'
    }
}

/// The canonical decimal rendering of a nonnegative integer: no sign, no
/// leading zeros (except for zero itself).
pub open spec fn dec_str(n: int) -> Seq<char>
    decreases n,
{
    if n < 10 {
        seq![dec_digit(n)]
    } else {
        dec_str(n / 10) + seq![dec_digit(n % 10)]
    }
}

/// The hexadecimal digit character for `d`, in lower case.
pub open spec fn hex_digit(d: int) -> char {
    if d < 10 {
        dec_digit(d)
    } else if d == 10 {
        'a'
    } else if d == 11 {
        'b'
    } else if d == 12 {
        'c'
    } else if d == 13 {
        'd'
    } else if d == 14 {
        'e'
    } else {
        'f'
    }
}

/// The hexadecimal digit character for `d`, in upper case.
pub open spec fn hex_digit_upper(d: int) -> char {
    if d < 10 {
        dec_digit(d)
    } else if d == 10 {
        'A'
    } else if d == 11 {
        'B'
    } else if d == 12 {
        'C'
    } else if d == 13 {
        'D'
    } else if d == 14 {
        'E'
    } else {
        'F'
    }
}

/// How one character is written inside a JSON string literal: quote,
/// backslash and the named control characters get a two-character escape,
/// the remaining control characters a `\u00..` escape, and every other
/// character stands for itself.
pub open spec fn esc_json(c: char) -> Seq<char> {
    if c == '"' {
        seq!['\\', '"']
    } else if c == '\\' {
        seq!['\\', '\\']
    } else if c == '\n' {
        seq!['\\', 'n']
    } else if c == '\r' {
        seq!['\\', 'r']
    } else if c == '\t' {
        seq!['\\', 't']
    } else if (c as u32) < 0x20 {
        seq!['\\', 'u', '0', '0', hex_digit((c as u32) as int / 16), hex_digit((c as u32) as int % 16)]
    } else {
        seq![c]
    }
}

/// A string escaped for use inside a JSON string literal.
pub open spec fn json_escaped(s: Seq<char>) -> Seq<char>
    decreases s.len(),
{
    if s.len() == 0 {
        Seq::empty()
    } else {
        esc_json(s[0]) + json_escaped(s.drop_first())
    }
}

/// A JSON string literal: the escaped text between quotes.
pub open spec fn json_str(s: Seq<char>) -> Seq<char> {
    seq!['"'] + json_escaped(s) + seq!['"']
}

/// The members of a JSON array of string literals, comma-separated.
pub open spec fn json_str_array_body(items: Seq<Seq<char>>) -> Seq<char>
    decreases items.len(),
{
    if items.len() == 0 {
        Seq::empty()
    } else if items.len() == 1 {
        json_str(items[0])
    } else {
        json_str_array_body(items.take(items.len() - 1)) + seq![','] + json_str(items.last())
    }
}

/// A JSON array of string literals.
pub open spec fn json_str_array(items: Seq<Seq<char>>) -> Seq<char> {
    seq!['['] + json_str_array_body(items) + seq![']']
}

/// How one character is written inside a debug-formatted string literal:
/// quote, backslash and the named control characters get a two-character
/// escape, the remaining control characters a braced `\u{..}` escape, and
/// every other character stands for itself.
pub open spec fn esc_debug(c: char) -> Seq<char> {
    if c == '"' {
        seq!['\\', '"']
    } else if c == '\\' {
        seq!['\\', '\\']
    } else if c == '\n' {
        seq!['\\', 'n']
    } else if c == '\r' {
        seq!['\\', 'r']
    } else if c == '\t' {
        seq!['\\', 't']
    } else if (c as u32) < 16 {
        seq!['\\', 'u', '{', hex_digit((c as u32) as int), '}']
    } else if (c as u32) < 0x20 {
        seq!['\\', 'u', '{', '1', hex_digit((c as u32) as int % 16), '}']
    } else {
        seq![c]
    }
}

/// A string escaped the way debug formatting writes it.
pub open spec fn debug_escaped(s: Seq<char>) -> Seq<char>
    decreases s.len(),
{
    if s.len() == 0 {
        Seq::empty()
    } else {
        esc_debug(s[0]) + debug_escaped(s.drop_first())
    }
}

/// A debug-formatted string: the escaped text between quotes.
pub open spec fn debug_str(s: Seq<char>) -> Seq<char> {
    seq!['"'] + debug_escaped(s) + seq!['"']
}

/// The members of a debug-formatted list of strings.
pub open spec fn debug_str_list_body(items: Seq<Seq<char>>) -> Seq<char>
    decreases items.len(),
{
    if items.len() == 0 {
        Seq::empty()
    } else if items.len() == 1 {
        debug_str(items[0])
    } else {
        debug_str_list_body(items.take(items.len() - 1)) + seq![',', ' '] + debug_str(items.last())
    }
}

/// A debug-formatted list of strings: `["a", "b"]`.
pub open spec fn debug_str_list(items: Seq<Seq<char>>) -> Seq<char> {
    seq!['['] + debug_str_list_body(items) + seq![']']
}

/// One debug-formatted pair of strings: `("a", "b")`.
pub open spec fn debug_pair(p: (Seq<char>, Seq<char>)) -> Seq<char> {
    seq!['('] + debug_str(p.0) + seq![',', ' '] + debug_str(p.1) + seq![')']
}

/// The members of a debug-formatted list of string pairs.
pub open spec fn debug_pair_list_body(items: Seq<(Seq<char>, Seq<char>)>) -> Seq<char>
    decreases items.len(),
{
    if items.len() == 0 {
        Seq::empty()
    } else if items.len() == 1 {
        debug_pair(items[0])
    } else {
        debug_pair_list_body(items.take(items.len() - 1)) + seq![',', ' '] + debug_pair(
            items.last(),
        )
    }
}

/// A debug-formatted list of string pairs: `[("a", "b")]`.
pub open spec fn debug_pair_list(items: Seq<(Seq<char>, Seq<char>)>) -> Seq<char> {
    seq!['['] + debug_pair_list_body(items) + seq![']']
}

/// One member of a JSON object: the quoted key, a colon, and the
/// already-rendered value.
pub open spec fn json_member(e: (Seq<char>, Seq<char>)) -> Seq<char> {
    json_str(e.0) + seq![':'] + e.1
}

/// The members of a JSON object, comma-separated.
pub open spec fn json_object_body(entries: Seq<(Seq<char>, Seq<char>)>) -> Seq<char>
    decreases entries.len(),
{
    if entries.len() == 0 {
        Seq::empty()
    } else if entries.len() == 1 {
        json_member(entries[0])
    } else {
        json_object_body(entries.take(entries.len() - 1)) + seq![','] + json_member(entries.last())
    }
}

/// A JSON object with the given keys and rendered values, in order.
pub open spec fn json_object_text(entries: Seq<(Seq<char>, Seq<char>)>) -> Seq<char> {
    seq!['{'] + json_object_body(entries) + seq!['}']
}

/// A character that JSON string escaping passes through unchanged.
pub open spec fn json_clean(c: char) -> bool {
    c != '"' && c != '\\' && (c as u32) >= 0x20
}

/// A string of clean characters escapes to itself.
pub proof fn lemma_json_escaped_clean(s: Seq<char>)
    requires
        forall|i: int| 0 <= i < s.len() ==> json_clean(#[trigger] s[i]),
    ensures
        json_escaped(s) == s,
    decreases s.len(),
{
    if s.len() == 0 {
        assert(json_escaped(s) =~= s);
    } else {
        assert(json_clean(s[0]));
        assert(esc_json(s[0]) == seq![s[0]]);
        lemma_json_escaped_clean(s.drop_first());
        assert(seq![s[0]] + s.drop_first() =~= s);
    }
}

/// Escaping distributes over appending one character.
pub proof fn lemma_json_escaped_push(s: Seq<char>, c: char)
    ensures
        json_escaped(s.push(c)) == json_escaped(s) + esc_json(c),
    decreases s.len(),
{
    if s.len() == 0 {
        assert(s.push(c)[0] == c);
        assert(s.push(c).drop_first() =~= Seq::<char>::empty());
        assert(json_escaped(Seq::<char>::empty()) =~= Seq::<char>::empty());
        assert(json_escaped(s) =~= Seq::<char>::empty());
        assert(json_escaped(s.push(c)) =~= esc_json(c) + Seq::<char>::empty());
        assert(json_escaped(s.push(c)) =~= json_escaped(s) + esc_json(c));
    } else {
        lemma_json_escaped_push(s.drop_first(), c);
        assert(s.push(c)[0] == s[0]);
        assert(s.push(c).drop_first() =~= s.drop_first().push(c));
        assert(esc_json(s[0]) + (json_escaped(s.drop_first()) + esc_json(c)) =~= (esc_json(s[0])
            + json_escaped(s.drop_first())) + esc_json(c));
    }
}

/// The decimal digit for `d`, as a one-character string slice.
fn dec_digit_str(d: u64) -> (r: &'static str)
    requires
        d < 10,
    ensures
        r@ == seq![dec_digit(d as int)],
{
    proof {
        reveal_strlit("0");
        reveal_strlit("1");
        reveal_strlit("2");
        reveal_strlit("3");
        reveal_strlit("4");
        reveal_strlit("5");
        reveal_strlit("6");
        reveal_strlit("7");
        reveal_strlit("8");
        reveal_strlit("9");
    }
    match d {
        0 => "0",
        1 => "1",
        2 => "2",
        3 => "3",
        4 => "4",
        5 => "5",
        6 => "6",
        7 => "7",
        8 => "8",
        _ => "9",
    }
}

/// The hexadecimal digit for `d`, as a one-character string slice.
fn hex_digit_str(d: u64) -> (r: &'static str)
    requires
        d < 16,
    ensures
        r@ == seq![hex_digit(d as int)],
{
    proof {
        reveal_strlit("a");
        reveal_strlit("b");
        reveal_strlit("c");
        reveal_strlit("d");
        reveal_strlit("e");
        reveal_strlit("f");
    }
    if d < 10 {
        dec_digit_str(d)
    } else {
        match d {
            10 => "a",
            11 => "b",
            12 => "c",
            13 => "d",
            14 => "e",
            _ => "f",
        }
    }
}

/// The upper-case hexadecimal digit for `d`, as a one-character string
/// slice.
pub fn hex_digit_upper_str(d: u64) -> (r: &'static str)
    requires
        d < 16,
    ensures
        r@ == seq![hex_digit_upper(d as int)],
{
    proof {
        reveal_strlit("A");
        reveal_strlit("B");
        reveal_strlit("C");
        reveal_strlit("D");
        reveal_strlit("E");
        reveal_strlit("F");
    }
    if d < 10 {
        dec_digit_str(d)
    } else {
        match d {
            10 => "A",
            11 => "B",
            12 => "C",
            13 => "D",
            14 => "E",
            _ => "F",
        }
    }
}

/// Appends the decimal rendering of `n`.
pub fn append_u64(out: &mut String, n: u64)
    ensures
        final(out)@ == old(out)@ + dec_str(n as int),
    decreases n,
{
    if n >= 10 {
        append_u64(out, n / 10);
    }
    let digit = dec_digit_str(n % 10);
    out.append(digit);
    proof {
        if n < 10 {
            assert(old(out)@ + digit@ =~= old(out)@ + dec_str(n as int));
        } else {
            assert((old(out)@ + dec_str(n as int / 10)) + seq![dec_digit(n as int % 10)] =~= old(
                out,
            )@ + dec_str(n as int));
        }
    }
}

/// How a boolean is written in a query string.
pub open spec fn bool_text(b: bool) -> Seq<char> {
    if b {
        "true"@
    } else {
        "false"@
    }
}

/// The textual rendering of a boolean.
pub fn bool_string(b: bool) -> (r: String)
    ensures
        r@ == bool_text(b),
{
    if b {
        String::from_str("true")
    } else {
        String::from_str("false")
    }
}

/// The decimal rendering of `n` as a fresh string.
pub fn u64_string(n: u64) -> (r: String)
    ensures
        r@ == dec_str(n as int),
{
    let mut out = String::new();
    append_u64(&mut out, n);
    proof {
        assert(out@ =~= dec_str(n as int));
    }
    out
}

/// Escaping for debug formatting distributes over appending one character.
proof fn lemma_debug_escaped_push(s: Seq<char>, c: char)
    ensures
        debug_escaped(s.push(c)) == debug_escaped(s) + esc_debug(c),
    decreases s.len(),
{
    if s.len() == 0 {
        assert(s.push(c)[0] == c);
        assert(s.push(c).drop_first() =~= Seq::<char>::empty());
        assert(debug_escaped(Seq::<char>::empty()) =~= Seq::<char>::empty());
        assert(debug_escaped(s) =~= Seq::<char>::empty());
        assert(debug_escaped(s.push(c)) =~= esc_debug(c) + Seq::<char>::empty());
        assert(debug_escaped(s.push(c)) =~= debug_escaped(s) + esc_debug(c));
    } else {
        lemma_debug_escaped_push(s.drop_first(), c);
        assert(s.push(c)[0] == s[0]);
        assert(s.push(c).drop_first() =~= s.drop_first().push(c));
        assert(esc_debug(s[0]) + (debug_escaped(s.drop_first()) + esc_debug(c)) =~= (esc_debug(
            s[0],
        ) + debug_escaped(s.drop_first())) + esc_debug(c));
    }
}

/// Appends `s` escaped the way debug formatting writes it.
fn append_debug_escaped(out: &mut String, s: &str)
    ensures
        final(out)@ == old(out)@ + debug_escaped(s@),
{
    let n = s.unicode_len();
    let mut i: usize = 0;
    while i < n
        invariant
            i <= n,
            n == s@.len(),
            out@ == old(out)@ + debug_escaped(s@.subrange(0, i as int)),
        decreases n - i,
    {
        let ghost prefix = s@.subrange(0, i as int);
        let c = s.get_char(i);
        if c == '"' {
            out.append("\\\"");
            proof {
                reveal_strlit("\\\"");
                assert("\\\""@ =~= esc_debug(c));
            }
        } else if c == '\\' {
            out.append("\\\\");
            proof {
                reveal_strlit("\\\\");
                assert("\\\\"@ =~= esc_debug(c));
            }
        } else if c == '\n' {
            out.append("\\n");
            proof {
                reveal_strlit("\\n");
                assert("\\n"@ =~= esc_debug(c));
            }
        } else if c == '\r' {
            out.append("\\r");
            proof {
                reveal_strlit("\\r");
                assert("\\r"@ =~= esc_debug(c));
            }
        } else if c == '\t' {
            out.append("\\t");
            proof {
                reveal_strlit("\\t");
                assert("\\t"@ =~= esc_debug(c));
            }
        } else if (c as u32) < 16 {
            let u = c as u32;
            out.append("\\u{");
            out.append(hex_digit_str(u as u64));
            out.append("}");
            proof {
                reveal_strlit("\\u{");
                reveal_strlit("}");
                assert(("\\u{"@ + seq![hex_digit(u as int)]) + "}"@ =~= esc_debug(c));
            }
        } else if (c as u32) < 0x20 {
            let u = c as u32;
            out.append("\\u{1");
            out.append(hex_digit_str((u % 16) as u64));
            out.append("}");
            proof {
                reveal_strlit("\\u{1");
                reveal_strlit("}");
                assert(("\\u{1"@ + seq![hex_digit(u as int % 16)]) + "}"@ =~= esc_debug(c));
            }
        } else {
            let piece = s.substring_char(i, i + 1);
            out.append(piece);
            proof {
                assert(piece@ =~= seq![c]);
                assert(piece@ =~= esc_debug(c));
            }
        }
        proof {
            lemma_debug_escaped_push(prefix, c);
            assert(s@.subrange(0, i + 1 as int) =~= prefix.push(c));
            assert(out@ =~= old(out)@ + debug_escaped(s@.subrange(0, i + 1 as int)));
        }
        i = i + 1;
    }
    proof {
        assert(s@.subrange(0, n as int) =~= s@);
    }
}

/// Appends `s` as a debug-formatted string.
pub fn append_debug_str(out: &mut String, s: &str)
    ensures
        final(out)@ == old(out)@ + debug_str(s@),
{
    out.append("\"");
    append_debug_escaped(out, s);
    out.append("\"");
    proof {
        reveal_strlit("\"");
        assert(("\""@ + debug_escaped(s@)) + "\""@ =~= debug_str(s@));
    }
}

/// Appends `items` as a debug-formatted list of strings, in order.
pub fn append_debug_str_list(out: &mut String, items: &Vec<String>)
    ensures
        final(out)@ == old(out)@ + debug_str_list(items@.map_values(|s: String| s@)),
{
    let ghost views = items@.map_values(|s: String| s@);
    out.append("[");
    let mut i: usize = 0;
    while i < items.len()
        invariant
            i <= items.len(),
            views == items@.map_values(|s: String| s@),
            views.len() == items@.len(),
            out@ == old(out)@ + "["@ + debug_str_list_body(views.take(i as int)),
        decreases items.len() - i,
    {
        if i > 0 {
            out.append(", ");
        }
        append_debug_str(out, items[i].as_str());
        proof {
            reveal_strlit(", ");
            assert(views.take(i + 1 as int).last() == views[i as int]);
            assert(views.take(i + 1 as int).take(i as int) =~= views.take(i as int));
            if i == 0 {
                assert(debug_str_list_body(views.take(1)) == debug_str(views[0]));
            } else {
                assert(debug_str_list_body(views.take(i + 1 as int)) == debug_str_list_body(
                    views.take(i as int),
                ) + seq![',', ' '] + debug_str(views[i as int]));
                assert(", "@ =~= seq![',', ' ']);
            }
            assert(out@ =~= old(out)@ + "["@ + debug_str_list_body(views.take(i + 1 as int)));
        }
        i = i + 1;
    }
    out.append("]");
    proof {
        reveal_strlit("[");
        reveal_strlit("]");
        assert(views.take(items@.len() as int) =~= views);
        assert(old(out)@ + "["@ + debug_str_list_body(views) + "]"@ =~= old(out)@ + debug_str_list(
            views,
        ));
    }
}

/// Appends `items` as a debug-formatted list of string pairs, in order.
pub fn append_debug_pair_list(out: &mut String, items: &Vec<(String, String)>)
    ensures
        final(out)@ == old(out)@ + debug_pair_list(
            items@.map_values(|p: (String, String)| (p.0@, p.1@)),
        ),
{
    let ghost views = items@.map_values(|p: (String, String)| (p.0@, p.1@));
    out.append("[");
    let mut i: usize = 0;
    while i < items.len()
        invariant
            i <= items.len(),
            views == items@.map_values(|p: (String, String)| (p.0@, p.1@)),
            views.len() == items@.len(),
            forall|j: int|
                0 <= j < items@.len() ==> #[trigger] views[j] == (items@[j].0@, items@[j].1@),
            out@ == old(out)@ + "["@ + debug_pair_list_body(views.take(i as int)),
        decreases items.len() - i,
    {
        if i > 0 {
            out.append(", ");
        }
        out.append("(");
        append_debug_str(out, items[i].0.as_str());
        out.append(", ");
        append_debug_str(out, items[i].1.as_str());
        out.append(")");
        proof {
            reveal_strlit(", ");
            reveal_strlit("(");
            reveal_strlit(")");
            assert(views.take(i + 1 as int).last() == views[i as int]);
            assert(views.take(i + 1 as int).take(i as int) =~= views.take(i as int));
            assert((((("("@ + debug_str(items@[i as int].0@)) + ", "@) + debug_str(
                items@[i as int].1@,
            )) + ")"@) =~= debug_pair(views[i as int]));
            if i == 0 {
                assert(debug_pair_list_body(views.take(1)) == debug_pair(views[0]));
            } else {
                assert(debug_pair_list_body(views.take(i + 1 as int)) == debug_pair_list_body(
                    views.take(i as int),
                ) + seq![',', ' '] + debug_pair(views[i as int]));
            }
            assert(out@ =~= old(out)@ + "["@ + debug_pair_list_body(views.take(i + 1 as int)));
        }
        i = i + 1;
    }
    out.append("]");
    proof {
        reveal_strlit("[");
        reveal_strlit("]");
        assert(views.take(items@.len() as int) =~= views);
        assert(old(out)@ + "["@ + debug_pair_list_body(views) + "]"@ =~= old(out)@
            + debug_pair_list(views));
    }
}

/// Appends `s` escaped for a JSON string literal.
fn append_json_escaped(out: &mut String, s: &str)
    ensures
        final(out)@ == old(out)@ + json_escaped(s@),
{
    let n = s.unicode_len();
    let mut i: usize = 0;
    while i < n
        invariant
            i <= n,
            n == s@.len(),
            out@ == old(out)@ + json_escaped(s@.subrange(0, i as int)),
        decreases n - i,
    {
        let ghost prefix = s@.subrange(0, i as int);
        let c = s.get_char(i);
        if c == '"' {
            out.append("\\\"");
            proof {
                reveal_strlit("\\\"");
                assert("\\\""@ =~= esc_json(c));
            }
        } else if c == '\\' {
            out.append("\\\\");
            proof {
                reveal_strlit("\\\\");
                assert("\\\\"@ =~= esc_json(c));
            }
        } else if c == '\n' {
            out.append("\\n");
            proof {
                reveal_strlit("\\n");
                assert("\\n"@ =~= esc_json(c));
            }
        } else if c == '\r' {
            out.append("\\r");
            proof {
                reveal_strlit("\\r");
                assert("\\r"@ =~= esc_json(c));
            }
        } else if c == '\t' {
            out.append("\\t");
            proof {
                reveal_strlit("\\t");
                assert("\\t"@ =~= esc_json(c));
            }
        } else if (c as u32) < 0x20 {
            let u = c as u32;
            out.append("\\u00");
            out.append(hex_digit_str((u / 16) as u64));
            out.append(hex_digit_str((u % 16) as u64));
            proof {
                reveal_strlit("\\u00");
                assert(("\\u00"@ + seq![hex_digit(u as int / 16)]) + seq![hex_digit(u as int % 16)]
                    =~= esc_json(c));
            }
        } else {
            let piece = s.substring_char(i, i + 1);
            out.append(piece);
            proof {
                assert(piece@ =~= seq![c]);
                assert(piece@ =~= esc_json(c));
            }
        }
        proof {
            lemma_json_escaped_push(prefix, c);
            assert(s@.subrange(0, i + 1 as int) =~= prefix.push(c));
            assert(out@ =~= old(out)@ + json_escaped(s@.subrange(0, i + 1 as int)));
        }
        i = i + 1;
    }
    proof {
        assert(s@.subrange(0, n as int) =~= s@);
    }
}

/// Appends `s` as a JSON string literal.
pub fn append_json_str(out: &mut String, s: &str)
    ensures
        final(out)@ == old(out)@ + json_str(s@),
{
    out.append("\"");
    append_json_escaped(out, s);
    out.append("\"");
    proof {
        reveal_strlit("\"");
        assert(("\""@ + json_escaped(s@)) + "\""@ =~= json_str(s@));
    }
}

/// Appends `items` as a JSON array of string literals, in order.
pub fn append_json_str_array(out: &mut String, items: &Vec<String>)
    ensures
        final(out)@ == old(out)@ + json_str_array(items@.map_values(|s: String| s@)),
{
    let ghost views = items@.map_values(|s: String| s@);
    out.append("[");
    let mut i: usize = 0;
    while i < items.len()
        invariant
            i <= items.len(),
            views == items@.map_values(|s: String| s@),
            views.len() == items@.len(),
            out@ == old(out)@ + "["@ + json_str_array_body(views.take(i as int)),
        decreases items.len() - i,
    {
        if i > 0 {
            out.append(",");
        }
        append_json_str(out, items[i].as_str());
        proof {
            reveal_strlit(",");
            assert(views.take(i + 1 as int).last() == views[i as int]);
            assert(views.take(i + 1 as int).take(i as int) =~= views.take(i as int));
            if i == 0 {
                assert(json_str_array_body(views.take(1)) == json_str(views[0]));
                assert(out@ =~= old(out)@ + "["@ + json_str_array_body(views.take(i + 1 as int)));
            } else {
                assert(json_str_array_body(views.take(i + 1 as int)) == json_str_array_body(
                    views.take(i as int),
                ) + seq![','] + json_str(views[i as int]));
                assert(out@ =~= old(out)@ + "["@ + json_str_array_body(views.take(i + 1 as int)));
            }
        }
        i = i + 1;
    }
    out.append("]");
    proof {
        reveal_strlit("[");
        reveal_strlit("]");
        assert(views.take(items@.len() as int) =~= views);
        assert(old(out)@ + "["@ + json_str_array_body(views) + "]"@ =~= old(out)@ + json_str_array(
            views,
        ));
    }
}

} // verus!
