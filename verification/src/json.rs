use vstd::prelude::*;
use vstd::string::StringExecFns;
use crate::text::push_char;
use crate::digest::{hex_digit, lower_hex_digit};

verus! {

/// How one character is written inside a JSON string literal (RFC 8259):
/// the quote and the backslash are escaped with a backslash; newline,
/// carriage return, tab, backspace and form feed get their short escapes
/// `\n`, `\r`, `\t`, `\b`, `\f`; every other character below U+0020 is
/// written `\u00XX` with two lowercase hex digits; every other character
/// stands for itself.
pub open spec fn escape_char(c: char) -> Seq<char> {
    if c == '"' {
        seq!['\\', '"']
    } else if c == '\\' {
        seq!['\\', '\\']
    } else if c == '\n' {
        seq!['\\', 'n']
    } else if c == '\r' {
        seq!['\\', 'r']
    } else if c == '\t' {
        seq!['\\', 't']
    } else if c == '\u{8}' {
        seq!['\\', 'b']
    } else if c == '\u{c}' {
        seq!['\\', 'f']
    } else if (c as u32) < 32 {
        seq![
            '\\',
            'u',
            '0',
            '0',
            hex_digit(((c as u32) / 16) as u8),
            hex_digit(((c as u32) % 16) as u8),
        ]
    } else {
        seq![c]
    }
}

/// The escaped characters of `s`, without the surrounding quotes.
pub open spec fn escape_body(s: Seq<char>) -> Seq<char>
    decreases s.len(),
{
    if s.len() == 0 {
        Seq::empty()
    } else {
        escape_body(s.drop_last()) + escape_char(s.last())
    }
}

/// `s` as a quoted JSON string literal.
pub open spec fn json_quoted(s: Seq<char>) -> Seq<char> {
    seq!['"'] + escape_body(s) + seq!['"']
}

/// The character that the two-character escape `\e` stands for.
pub open spec fn unescaped(e: char) -> char {
    if e == 'n' {
        '\n'
    } else if e == 'r' {
        '\r'
    } else if e == 't' {
        '\t'
    } else if e == 'b' {
        '\u{8}'
    } else if e == 'f' {
        '\u{c}'
    } else {
        e
    }
}

/// The value of a hex digit (either case); 0 for any other character.
pub open spec fn hex_value(d: char) -> int {
    if '0' <= d && d <= '9' {
        d as int - 48
    } else if 'a' <= d && d <= 'f' {
        d as int - 87
    } else if 'A' <= d && d <= 'F' {
        d as int - 55
    } else {
        0
    }
}

/// The character of a `\uXXXX` escape whose four digits are `t[2..6]`.
pub open spec fn unicode_escaped(t: Seq<char>) -> char {
    ((hex_value(t[2]) * 4096 + hex_value(t[3]) * 256 + hex_value(t[4]) * 16 + hex_value(t[5])) as u32) as char
}

/// Whether `t` starts with a `\u` escape and its four digits.
pub open spec fn starts_unicode_escape(t: Seq<char>) -> bool {
    t.len() >= 6 && t[0] == '\\' && t[1] == 'u'
}

/// Reads the body of a JSON string literal back, front to back: `\u` and
/// four hex digits stand for one character, a backslash and the character
/// after it stand for one character, any other character for itself.
pub open spec fn unescape_body(t: Seq<char>) -> Seq<char>
    decreases t.len(),
{
    if t.len() == 0 {
        Seq::empty()
    } else if starts_unicode_escape(t) {
        seq![unicode_escaped(t)] + unescape_body(t.subrange(6, t.len() as int))
    } else if t[0] == '\\' && t.len() >= 2 {
        seq![unescaped(t[1])] + unescape_body(t.subrange(2, t.len() as int))
    } else {
        seq![t[0]] + unescape_body(t.drop_first())
    }
}

proof fn lemma_hex_value_of_digit(n: u8)
    requires
        n < 16,
    ensures
        hex_value(hex_digit(n)) == n as int,
{
}

/// How an escaped character is read back: its escape is one of the three
/// shapes that `unescape_body` and `read_string_body` recognise, and it
/// stands for the character.
proof fn lemma_escape_char_shape(c: char)
    ensures
        escape_char(c).len() == 6 ==> {
            &&& starts_unicode_escape(escape_char(c))
            &&& unicode_escaped(escape_char(c)) == c
        },
        escape_char(c).len() == 2 ==> {
            &&& escape_char(c)[0] == '\\'
            &&& escape_char(c)[1] != 'u'
            &&& unescaped(escape_char(c)[1]) == c
        },
        escape_char(c).len() == 1 ==> escape_char(c) == seq![c] && c != '\\' && c != '"',
        escape_char(c).len() == 1 || escape_char(c).len() == 2 || escape_char(c).len() == 6,
{
    if escape_char(c).len() == 6 {
        let v = c as u32;
        let hi = (v / 16) as u8;
        let lo = (v % 16) as u8;
        lemma_hex_value_of_digit(hi);
        lemma_hex_value_of_digit(lo);
        let e = escape_char(c);
        assert(hex_value(e[2]) == 0 && hex_value(e[3]) == 0);
        assert(hex_value(e[4]) * 16 + hex_value(e[5]) == v as int);
    }
}

/// No character of an escape lies below U+0020.
proof fn lemma_escape_char_printable(c: char)
    ensures
        forall|i: int| 0 <= i < escape_char(c).len() ==> (#[trigger] escape_char(c)[i]) as u32 >= 32,
{
    if (c as u32) < 32 && c != '\n' && c != '\r' && c != '\t' && c != '\u{8}' && c != '\u{c}' {
        let v = c as u32;
        let hi = (v / 16) as u8;
        let lo = (v % 16) as u8;
        assert(hex_digit(hi) as u32 >= 48);
        assert(hex_digit(lo) as u32 >= 48);
    }
}

/// An escaped string holds no control character below U+0020: every such
/// character has been written as an escape.
pub proof fn lemma_escape_body_printable(s: Seq<char>)
    ensures
        forall|i: int| 0 <= i < escape_body(s).len() ==> (#[trigger] escape_body(s)[i]) as u32 >= 32,
    decreases s.len(),
{
    if s.len() > 0 {
        lemma_escape_body_printable(s.drop_last());
        lemma_escape_char_printable(s.last());
        let a = escape_body(s.drop_last());
        let b = escape_char(s.last());
        assert(escape_body(s) == a + b);
        assert forall|i: int| 0 <= i < escape_body(s).len() implies (#[trigger] escape_body(s)[i]) as u32 >= 32 by {
            if i < a.len() {
                assert(escape_body(s)[i] == a[i]);
            } else {
                assert(escape_body(s)[i] == b[i - a.len()]);
            }
        }
    }
}

/// Escaping distributes over concatenation.
pub proof fn lemma_escape_body_append(a: Seq<char>, b: Seq<char>)
    ensures
        escape_body(a + b) == escape_body(a) + escape_body(b),
    decreases b.len(),
{
    if b.len() == 0 {
        assert(a + b == a);
    } else {
        lemma_escape_body_append(a, b.drop_last());
        assert((a + b).drop_last() == a + b.drop_last());
        assert((a + b).last() == b.last());
    }
}

proof fn lemma_unescape_char(c: char, rest: Seq<char>)
    ensures
        unescape_body(escape_char(c) + rest) == seq![c] + unescape_body(rest),
{
    lemma_escape_char_shape(c);
    let e = escape_char(c);
    let t = e + rest;
    if e.len() == 6 {
        assert(t.subrange(0, 6) == e);
        assert(t.subrange(6, t.len() as int) == rest);
    } else if e.len() == 2 {
        assert(t.subrange(2, t.len() as int) == rest);
    } else {
        assert(t.drop_first() == rest);
    }
}

/// Reading an escaped string back gives the original characters.
pub proof fn lemma_escape_roundtrip(s: Seq<char>)
    ensures
        unescape_body(escape_body(s)) == s,
    decreases s.len(),
{
    if s.len() > 0 {
        let rest = s.drop_first();
        lemma_escape_body_first(s);
        lemma_unescape_char(s[0], escape_body(rest));
        lemma_escape_roundtrip(rest);
        assert(s == seq![s[0]] + rest);
    }
}

/// Distinct strings are quoted as distinct JSON literals.
pub proof fn lemma_json_quoted_injective(a: Seq<char>, b: Seq<char>)
    requires
        json_quoted(a) == json_quoted(b),
    ensures
        a == b,
{
    let qa = json_quoted(a);
    let qb = json_quoted(b);
    assert(escape_body(a) == qa.subrange(1, qa.len() - 1));
    assert(escape_body(b) == qb.subrange(1, qb.len() - 1));
    lemma_escape_roundtrip(a);
    lemma_escape_roundtrip(b);
}

/// Reads a JSON string body up to and including its closing quote: the
/// characters it stands for and how many characters were consumed.
pub open spec fn read_string_body(t: Seq<char>) -> Option<(Seq<char>, nat)>
    decreases t.len(),
{
    if t.len() == 0 {
        None
    } else if t[0] == '"' {
        Some((Seq::empty(), 1))
    } else if starts_unicode_escape(t) {
        match read_string_body(t.subrange(6, t.len() as int)) {
            Some((body, n)) => Some((seq![unicode_escaped(t)] + body, n + 6)),
            None => None,
        }
    } else if t[0] == '\\' && t.len() >= 2 {
        match read_string_body(t.subrange(2, t.len() as int)) {
            Some((body, n)) => Some((seq![unescaped(t[1])] + body, n + 2)),
            None => None,
        }
    } else {
        match read_string_body(t.drop_first()) {
            Some((body, n)) => Some((seq![t[0]] + body, n + 1)),
            None => None,
        }
    }
}

proof fn lemma_escape_body_first(s: Seq<char>)
    requires
        s.len() > 0,
    ensures
        escape_body(s) == escape_char(s[0]) + escape_body(s.drop_first()),
{
    let rest = s.drop_first();
    assert(s == seq![s[0]] + rest);
    lemma_escape_body_append(seq![s[0]], rest);
    let one = seq![s[0]];
    assert(one.drop_last() == Seq::<char>::empty());
    assert(one.last() == s[0]);
    assert(escape_body(one.drop_last()) == Seq::<char>::empty());
    assert(Seq::<char>::empty() + escape_char(s[0]) == escape_char(s[0]));
}

/// The escaped body of `s` followed by a quote reads back as `s`, consuming
/// exactly the body and the quote, whatever follows.
pub proof fn lemma_read_escaped(s: Seq<char>, rest: Seq<char>)
    ensures
        read_string_body(escape_body(s) + seq!['"'] + rest) == Some(
            (s, (escape_body(s).len() + 1) as nat),
        ),
    decreases s.len(),
{
    let t = escape_body(s) + seq!['"'] + rest;
    if s.len() == 0 {
        assert(escape_body(s) == Seq::<char>::empty());
        assert(t[0] == '"');
        assert(s == Seq::<char>::empty());
    } else {
        let c = s[0];
        let tail = s.drop_first();
        lemma_escape_body_first(s);
        lemma_read_escaped(tail, rest);
        let after = escape_body(tail) + seq!['"'] + rest;
        assert(t == escape_char(c) + after);
        lemma_escape_char_shape(c);
        let e = escape_char(c);
        if e.len() == 6 {
            assert(t.subrange(0, 6) == e);
            assert(t.subrange(6, t.len() as int) == after);
        } else if e.len() == 2 {
            assert(t.subrange(2, t.len() as int) == after);
        } else {
            assert(t.drop_first() == after);
        }
        assert(seq![c] + tail == s);
    }
}

/// A quoted JSON string is self-delimiting: when two texts start with quoted
/// strings and are equal, the strings and the remainders are equal.
pub proof fn lemma_json_quoted_prefix(a: Seq<char>, b: Seq<char>, ra: Seq<char>, rb: Seq<char>)
    requires
        json_quoted(a) + ra == json_quoted(b) + rb,
    ensures
        a == b,
        ra == rb,
{
    let x = json_quoted(a) + ra;
    assert(x.drop_first() == escape_body(a) + seq!['"'] + ra);
    assert(x.drop_first() == escape_body(b) + seq!['"'] + rb);
    lemma_read_escaped(a, ra);
    lemma_read_escaped(b, rb);
    let la: int = escape_body(a).len() as int + 1;
    assert(ra == x.drop_first().subrange(la, x.drop_first().len() as int));
    assert(rb == x.drop_first().subrange(la, x.drop_first().len() as int));
}

/// Quotes `s` as a JSON string: the quote, the backslash and every control
/// character below U+0020 are escaped.
pub fn serde_json_escape(s: &str) -> (out: String)
    ensures
        out@ == json_quoted(s@),
{
    let mut out = String::new();
    push_char(&mut out, '"');
    let ghost chars = s@;
    for ch in it: s.chars()
        invariant
            it.seq() == chars,
            chars == s@,
            out@ == seq!['"'] + escape_body(chars.take(it.index() as int)),
    {
        let ghost i = it.index();
        assert(chars.take(i + 1).drop_last() == chars.take(i as int));
        assert(ch == chars[i as int]);
        if ch == '"' {
            proof { reveal_strlit("\\\""); }
            out.append("\\\"");
        } else if ch == '\\' {
            proof { reveal_strlit("\\\\"); }
            out.append("\\\\");
        } else if ch == '\n' {
            proof { reveal_strlit("\\n"); }
            out.append("\\n");
        } else if ch == '\r' {
            proof { reveal_strlit("\\r"); }
            out.append("\\r");
        } else if ch == '\t' {
            proof { reveal_strlit("\\t"); }
            out.append("\\t");
        } else if ch == '\u{8}' {
            proof { reveal_strlit("\\b"); }
            out.append("\\b");
        } else if ch == '\u{c}' {
            proof { reveal_strlit("\\f"); }
            out.append("\\f");
        } else if (ch as u32) < 32 {
            let v: u8 = (ch as u32) as u8;
            proof { reveal_strlit("\\u00"); }
            out.append("\\u00");
            push_char(&mut out, lower_hex_digit(v / 16));
            push_char(&mut out, lower_hex_digit(v % 16));
        } else {
            push_char(&mut out, ch);
        }
    }
    assert(chars.take(chars.len() as int) == chars);
    push_char(&mut out, '"');
    out
}

} // verus!
