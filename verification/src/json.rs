//! JSON string values: escaping a text for the inside of a JSON string,
//! decoding a string body back, and finding the string value of a key in a
//! JSON document the way the configuration file is read.

use vstd::prelude::*;

use crate::text::{
    chars_of, digit_char, digit_char_exec, find_char, find_exec, find_seq, index_of, opt_text,
    push_char,
};

verus! {

// ---------------------------------------------------------------------------
// JSON strings
// ---------------------------------------------------------------------------

/// The value of a hexadecimal digit, and 0 for any other character.
pub open spec fn hex_digit_value(c: char) -> nat {
    if '0' <= c && c <= '9' {
        ((c as u32) - ('0' as u32)) as nat
    } else if 'a' <= c && c <= 'f' {
        ((c as u32) - ('a' as u32) + 10) as nat
    } else if 'A' <= c && c <= 'F' {
        ((c as u32) - ('A' as u32) + 10) as nat
    } else {
        0
    }
}

pub open spec fn is_hex_digit(c: char) -> bool {
    ('0' <= c && c <= '9') || ('a' <= c && c <= 'f') || ('A' <= c && c <= 'F')
}

pub open spec fn all_hex(s: Seq<char>) -> bool {
    forall|i: int| 0 <= i < s.len() ==> is_hex_digit(#[trigger] s[i])
}

/// The value of a string of hexadecimal digits.
pub open spec fn hex_value(s: Seq<char>) -> nat
    decreases s.len(),
{
    if s.len() == 0 {
        0
    } else {
        hex_value(s.drop_last()) * 16 + hex_digit_value(s.last())
    }
}

/// `u32::from_str_radix(s, 16)`: an optional `+`, then at least one
/// hexadecimal digit, and a value that fits in 32 bits.
pub open spec fn parse_hex(s: Seq<char>) -> Option<nat> {
    let d = if s.len() > 0 && s[0] == '+' {
        s.drop_first()
    } else {
        s
    };
    if d.len() > 0 && all_hex(d) && hex_value(d) <= u32::MAX {
        Some(hex_value(d))
    } else {
        None
    }
}

/// A Unicode scalar value, the numbers `char::from_u32` accepts.
pub open spec fn is_scalar(n: nat) -> bool {
    n < 0xD800 || (0xE000 <= n && n <= 0x10FFFF)
}

/// Calls `char::from_u32`; trusted, as its documentation says, to give
/// the character with code `code`, or `None` where `code` is a surrogate
/// or beyond `0x10FFFF`.
#[verifier::external_body]
fn char_from_u32(code: u32) -> (r: Option<char>)
    ensures
        r == (if is_scalar(code as nat) {
            Some(code as char)
        } else {
            None
        }),
{
    char::from_u32(code)
}

pub proof fn lemma_hex_value_prefix(s: Seq<char>, k: int)
    requires
        0 <= k <= s.len(),
    ensures
        hex_value(s.take(k)) <= hex_value(s),
    decreases s.len(),
{
    if k < s.len() {
        assert(s.drop_last().take(k) == s.take(k));
        lemma_hex_value_prefix(s.drop_last(), k);
    } else {
        assert(s.take(k) == s);
    }
}

/// Parses `v[lo..hi]` as `u32::from_str_radix(.., 16)` does.
fn parse_hex_range(v: &[char], lo: usize, hi: usize) -> (r: Option<u32>)
    requires
        lo <= hi <= v@.len(),
    ensures
        match parse_hex(v@.subrange(lo as int, hi as int)) {
            Some(n) => r == Some(n as u32),
            None => r is None,
        },
{
    let ghost s = v@.subrange(lo as int, hi as int);
    let start = if lo < hi && v[lo] == '+' {
        lo + 1
    } else {
        lo
    };
    let ghost d = v@.subrange(start as int, hi as int);
    proof {
        if lo < hi {
            assert(s[0] == v@[lo as int]);
        }
        if lo < hi && v@[lo as int] == '+' {
            assert(s.drop_first() == d);
        } else {
            assert(s == d);
        }
    }
    if start == hi {
        return None;
    }
    let mut acc: u64 = 0;
    let mut i = start;
    while i < hi
        invariant
            lo <= start <= i <= hi <= v@.len(),
            d == v@.subrange(start as int, hi as int),
            s == v@.subrange(lo as int, hi as int),
            d == (if s.len() > 0 && s[0] == '+' {
                s.drop_first()
            } else {
                s
            }),
            all_hex(d.take(i - start)),
            acc as nat == hex_value(d.take(i - start)),
            acc <= u32::MAX,
        decreases hi - i,
    {
        let c = v[i];
        let dv: u64 = if '0' <= c && c <= '9' {
            (c as u32 - '0' as u32) as u64
        } else if 'a' <= c && c <= 'f' {
            (c as u32 - 'a' as u32 + 10) as u64
        } else if 'A' <= c && c <= 'F' {
            (c as u32 - 'A' as u32 + 10) as u64
        } else {
            proof {
                assert(d[i - start] == c);
                assert(!all_hex(d));
            }
            return None;
        };
        proof {
            assert(d.take(i - start + 1).drop_last() == d.take(i - start));
            assert(d.take(i - start + 1).last() == c);
            assert(all_hex(d.take(i - start + 1))) by {
                assert forall|j: int| 0 <= j < i - start + 1 implies is_hex_digit(
                    #[trigger] d.take(i - start + 1)[j],
                ) by {
                    if j < i - start {
                        assert(d.take(i - start + 1)[j] == d.take(i - start)[j]);
                    }
                }
            }
        }
        let next = acc * 16 + dv;
        if next > 0xFFFF_FFFF {
            proof {
                if all_hex(d) {
                    lemma_hex_value_prefix(d, (i - start + 1) as int);
                }
            }
            return None;
        }
        acc = next;
        i = i + 1;
    }
    proof {
        assert(d.take(hi - start) == d);
    }
    Some(acc as u32)
}

/// The character an escape `\e` stands for, for every `e` but `u`.
pub open spec fn unescape_char(e: char) -> char {
    if e == 'n' {
        '\n'
    } else if e == 'r' {
        '\r'
    } else if e == 't' {
        '\t'
    } else if e == 'b' {
        '\u{8}'
    } else if e == 'f' {
        '\u{c}'
    } else {
        e
    }
}

fn unescape_char_exec(e: char) -> (r: char)
    ensures
        r == unescape_char(e),
{
    if e == 'n' {
        '\n'
    } else if e == 'r' {
        '\r'
    } else if e == 't' {
        '\t'
    } else if e == 'b' {
        '\u{8}'
    } else if e == 'f' {
        '\u{c}'
    } else {
        e
    }
}

/// `c` in front of a decoded text, or still no text.
pub open spec fn prepend(c: char, r: Option<Seq<char>>) -> Option<Seq<char>> {
    match r {
        Some(t) => Some(seq![c] + t),
        None => None,
    }
}

/// The body of a JSON string up to its closing quote, with escapes decoded:
/// `\"`, `\\`, `\/`, `\n`, `\r`, `\t`, `\b`, `\f`, `\uXXXX` (a code that is
/// no Unicode scalar value is dropped), and `\` before any other character
/// stands for that character.  `None` when the closing quote is missing or
/// a `\u` escape is cut short or is no hexadecimal number.
pub open spec fn json_decode(s: Seq<char>) -> Option<Seq<char>>
    decreases s.len(),
{
    if s.len() == 0 {
        None
    } else if s[0] == '"' {
        Some(Seq::empty())
    } else if s[0] == '\\' {
        if s.len() < 2 {
            None
        } else if s[1] == 'u' {
            if s.len() < 6 {
                None
            } else {
                match parse_hex(s.subrange(2, 6)) {
                    None => None,
                    Some(n) => if is_scalar(n) {
                        prepend(n as char, json_decode(s.skip(6)))
                    } else {
                        json_decode(s.skip(6))
                    },
                }
            }
        } else {
            prepend(unescape_char(s[1]), json_decode(s.skip(2)))
        }
    } else {
        prepend(s[0], json_decode(s.drop_first()))
    }
}

/// `p` in front of a decoded text, or still no text.
pub open spec fn prefix_opt(p: Seq<char>, r: Option<Seq<char>>) -> Option<Seq<char>> {
    match r {
        Some(t) => Some(p + t),
        None => None,
    }
}

/// Decodes the JSON string body that starts at `v[start]`.
fn decode_json_string(v: &[char], start: usize) -> (r: Option<String>)
    requires
        start <= v@.len(),
    ensures
        match json_decode(v@.subrange(start as int, v@.len() as int)) {
            Some(t) => r matches Some(s) && s@ == t,
            None => r is None,
        },
{
    let ghost whole = v@.subrange(start as int, v@.len() as int);
    let mut out = String::new();
    let mut i = start;
    proof {
        assert(out@ + Seq::<char>::empty() == Seq::<char>::empty());
        match json_decode(whole) {
            Some(t) => {
                assert(Seq::<char>::empty() + t == t);
            },
            None => {},
        }
    }
    loop
        invariant
            start <= i <= v@.len(),
            whole == v@.subrange(start as int, v@.len() as int),
            json_decode(whole) == prefix_opt(
                out@,
                json_decode(v@.subrange(i as int, v@.len() as int)),
            ),
        decreases v@.len() - i,
    {
        let ghost rest = v@.subrange(i as int, v@.len() as int);
        if i >= v.len() {
            return None;
        }
        let c = v[i];
        proof {
            assert(rest[0] == c);
        }
        if c == '"' {
            proof {
                assert(out@ + Seq::<char>::empty() == out@);
            }
            return Some(out);
        }
        if c == '\\' {
            if i + 1 >= v.len() {
                return None;
            }
            let e = v[i + 1];
            proof {
                assert(rest[1] == e);
            }
            if e == 'u' {
                if v.len() - (i + 2) < 4 {
                    return None;
                }
                proof {
                    assert(rest.subrange(2, 6) == v@.subrange(i + 2, i + 6));
                    assert(rest.skip(6) == v@.subrange(i + 6, v@.len() as int));
                }
                match parse_hex_range(v, i + 2, i + 6) {
                    None => {
                        return None;
                    },
                    Some(n) => {
                        match char_from_u32(n) {
                            Some(ch) => {
                                proof {
                                    match json_decode(v@.subrange(i + 6, v@.len() as int)) {
                                        Some(t) => {
                                            assert(out@.push(ch) + t == out@ + (seq![ch] + t));
                                        },
                                        None => {},
                                    }
                                }
                                push_char(&mut out, ch);
                            },
                            None => {},
                        }
                        i = i + 6;
                    },
                }
            } else {
                let ch = unescape_char_exec(e);
                proof {
                    assert(rest.skip(2) == v@.subrange(i + 2, v@.len() as int));
                    match json_decode(v@.subrange(i + 2, v@.len() as int)) {
                        Some(t) => {
                            assert(out@.push(ch) + t == out@ + (seq![ch] + t));
                        },
                        None => {},
                    }
                }
                push_char(&mut out, ch);
                i = i + 2;
            }
        } else {
            proof {
                assert(rest.drop_first() == v@.subrange(i + 1, v@.len() as int));
                match json_decode(v@.subrange(i + 1, v@.len() as int)) {
                    Some(t) => {
                        assert(out@.push(c) + t == out@ + (seq![c] + t));
                    },
                    None => {},
                }
            }
            push_char(&mut out, c);
            i = i + 1;
        }
    }
}

/// The lowercase hexadecimal digit for a value below sixteen.
pub open spec fn hex_lower_char(d: int) -> char {
    if d < 10 {
        digit_char(d)
    } else if d == 10 {
        'a'
    } else if d == 11 {
        'b'
    } else if d == 12 {
        'c'
    } else if d == 13 {
        'd'
    } else if d == 14 {
        'e'
    } else {
        'f'
    }
}

fn hex_lower_char_exec(d: u32) -> (r: char)
    requires
        d < 16,
    ensures
        r == hex_lower_char(d as int),
{
    if d < 10 {
        digit_char_exec(d as u64)
    } else if d == 10 {
        'a'
    } else if d == 11 {
        'b'
    } else if d == 12 {
        'c'
    } else if d == 13 {
        'd'
    } else if d == 14 {
        'e'
    } else {
        'f'
    }
}

/// How one character is written inside a JSON string: `"`, `\`, line feed,
/// carriage return and tab by their short escapes, other control characters
/// as `\u00xx` in lowercase hexadecimal, everything else as itself.
pub open spec fn escape_char(c: char) -> Seq<char> {
    if c == '"' {
        seq!['\\', '"']
    } else if c == '\\' {
        seq!['\\', '\\']
    } else if c == '\n' {
        seq!['\\', 'n']
    } else if c == '\r' {
        seq!['\\', 'r']
    } else if c == '\t' {
        seq!['\\', 't']
    } else if (c as u32) < 0x20 {
        seq![
            '\\',
            'u',
            '0',
            '0',
            hex_lower_char(((c as u32) / 16) as int),
            hex_lower_char(((c as u32) % 16) as int),
        ]
    } else {
        seq![c]
    }
}

/// A text escaped for a JSON string, character by character.
pub open spec fn spec_json_escape(s: Seq<char>) -> Seq<char>
    decreases s.len(),
{
    if s.len() == 0 {
        Seq::empty()
    } else {
        escape_char(s[0]) + spec_json_escape(s.drop_first())
    }
}

pub proof fn lemma_json_escape_push(s: Seq<char>, c: char)
    ensures
        spec_json_escape(s.push(c)) == spec_json_escape(s) + escape_char(c),
    decreases s.len(),
{
    if s.len() == 0 {
        assert(s.push(c).drop_first() == Seq::<char>::empty());
        assert(s.push(c)[0] == c);
        assert(spec_json_escape(Seq::<char>::empty()) == Seq::<char>::empty());
        assert(spec_json_escape(s.push(c)) == escape_char(c) + Seq::<char>::empty());
    } else {
        assert(s.push(c).drop_first() == s.drop_first().push(c));
        assert(s.push(c)[0] == s[0]);
        lemma_json_escape_push(s.drop_first(), c);
    }
}

/// Escapes `s` for the inside of a JSON string.
pub fn json_escape(s: &str) -> (r: String)
    ensures
        r@ == spec_json_escape(s@),
{
    let v = chars_of(s);
    let mut out = String::new();
    let mut i: usize = 0;
    while i < v.len()
        invariant
            i <= v@.len(),
            v@ == s@,
            out@ == spec_json_escape(v@.take(i as int)),
        decreases v.len() - i,
    {
        let c = v[i];
        proof {
            assert(v@.take(i + 1) == v@.take(i as int).push(c));
            lemma_json_escape_push(v@.take(i as int), c);
        }
        if c == '"' {
            push_char(&mut out, '\\');
            push_char(&mut out, '"');
        } else if c == '\\' {
            push_char(&mut out, '\\');
            push_char(&mut out, '\\');
        } else if c == '\n' {
            push_char(&mut out, '\\');
            push_char(&mut out, 'n');
        } else if c == '\r' {
            push_char(&mut out, '\\');
            push_char(&mut out, 'r');
        } else if c == '\t' {
            push_char(&mut out, '\\');
            push_char(&mut out, 't');
        } else if (c as u32) < 0x20 {
            let u = c as u32;
            push_char(&mut out, '\\');
            push_char(&mut out, 'u');
            push_char(&mut out, '0');
            push_char(&mut out, '0');
            push_char(&mut out, hex_lower_char_exec(u / 16));
            push_char(&mut out, hex_lower_char_exec(u % 16));
        } else {
            push_char(&mut out, c);
        }
        i = i + 1;
    }
    proof {
        assert(v@.take(v@.len() as int) == v@);
    }
    out
}

proof fn lemma_hex_lower_char_value(d: int)
    requires
        0 <= d < 16,
    ensures
        is_hex_digit(hex_lower_char(d)),
        hex_digit_value(hex_lower_char(d)) == d,
{
}

/// Decoding undoes one escaped character.
pub proof fn lemma_decode_escaped_char(c: char, rest: Seq<char>)
    ensures
        json_decode(escape_char(c) + rest) == prepend(c, json_decode(rest)),
{
    let s = escape_char(c) + rest;
    if c == '"' || c == '\\' || c == '\n' || c == '\r' || c == '\t' {
        assert(s.skip(2) == rest);
    } else if (c as u32) < 0x20 {
        let u = c as u32;
        let h = seq!['0', '0', hex_lower_char((u / 16) as int), hex_lower_char((u % 16) as int)];
        lemma_hex_lower_char_value((u / 16) as int);
        lemma_hex_lower_char_value((u % 16) as int);
        assert(s.subrange(2, 6) == h);
        assert(s.skip(6) == rest);
        let h1 = seq!['0'];
        let h2 = seq!['0', '0'];
        let h3 = seq!['0', '0', hex_lower_char((u / 16) as int)];
        assert(h.drop_last() == h3);
        assert(h3.drop_last() == h2);
        assert(h2.drop_last() == h1);
        assert(h1.drop_last() == Seq::<char>::empty());
        assert(h1.last() == '0' && h2.last() == '0');
        assert(h3.last() == hex_lower_char((u / 16) as int));
        assert(h.last() == hex_lower_char((u % 16) as int));
        assert(hex_value(Seq::<char>::empty()) == 0);
        assert(hex_value(h1) == 0);
        assert(hex_value(h2) == 0);
        assert(hex_value(h3) == u / 16);
        assert(hex_value(h) == u);
        assert(all_hex(h));
        assert(parse_hex(h) == Some(u as nat));
        assert((u as nat) as char == c);
    } else {
        assert(s.drop_first() == rest);
    }
}

/// Escaping a text and closing the string with a quote decodes back to the
/// text, whatever follows the quote.
pub proof fn lemma_json_escape_roundtrip(t: Seq<char>, rest: Seq<char>)
    ensures
        json_decode(spec_json_escape(t) + seq!['"'] + rest) == Some(t),
    decreases t.len(),
{
    if t.len() == 0 {
        assert(spec_json_escape(t) + seq!['"'] + rest == seq!['"'] + rest);
    } else {
        let tail = spec_json_escape(t.drop_first()) + seq!['"'] + rest;
        assert(spec_json_escape(t) + seq!['"'] + rest == escape_char(t[0]) + tail);
        lemma_decode_escaped_char(t[0], tail);
        lemma_json_escape_roundtrip(t.drop_first(), rest);
        assert(seq![t[0]] + t.drop_first() == t);
    }
}



/// The key of a JSON member as it is written, in quotes.
pub open spec fn key_pattern(key: Seq<char>) -> Seq<char> {
    seq!['"'] + key + seq!['"']
}

/// The string value of `key`: from the first `"key"` in the document, past
/// the next `:`, the text after the next `"` decoded up to its closing quote.
pub open spec fn spec_extract_json_string(content: Seq<char>, key: Seq<char>) -> Option<Seq<char>> {
    let p = key_pattern(key);
    match find_seq(content, p) {
        None => None,
        Some(pos) => {
            let after = content.skip(pos + p.len());
            match index_of(after, ':') {
                None => None,
                Some(ci) => {
                    let ac = after.skip(ci + 1);
                    match index_of(ac, '"') {
                        None => None,
                        Some(qi) => json_decode(ac.skip(qi + 1)),
                    }
                },
            }
        },
    }
}

/// Finds the string value of `key` in a JSON document.
pub fn extract_json_string(content: &str, key: &str) -> (r: Option<String>)
    ensures
        opt_text(r) == spec_extract_json_string(content@, key@),
{
    let v = chars_of(content);
    let kv = chars_of(key);
    let mut p: Vec<char> = Vec::new();
    p.push('"');
    let mut j: usize = 0;
    while j < kv.len()
        invariant
            j <= kv@.len(),
            p@ == seq!['"'] + kv@.take(j as int),
        decreases kv.len() - j,
    {
        proof {
            assert(kv@.take(j + 1) == kv@.take(j as int).push(kv@[j as int]));
        }
        p.push(kv[j]);
        j = j + 1;
    }
    p.push('"');
    proof {
        assert(kv@.take(kv@.len() as int) == kv@);
        assert(p@ == key_pattern(key@));
    }
    let len = v.len();
    let pos = match find_exec(v.as_slice(), p.as_slice()) {
        Some(pos) => pos,
        None => {
            return None;
        },
    };
    let a = pos + p.len();
    proof {
        assert(v@.skip(a as int) == v@.subrange(a as int, len as int));
    }
    let ci = match find_char(v.as_slice(), a, len, ':') {
        Some(ci) => ci,
        None => {
            return None;
        },
    };
    let b = ci + 1;
    proof {
        assert(v@.subrange(a as int, len as int).skip(ci - a + 1) == v@.subrange(
            b as int,
            len as int,
        ));
    }
    let qi = match find_char(v.as_slice(), b, len, '"') {
        Some(qi) => qi,
        None => {
            return None;
        },
    };
    proof {
        assert(v@.subrange(b as int, len as int).skip(qi - b + 1) == v@.subrange(
            qi + 1,
            len as int,
        ));
    }
    decode_json_string(v.as_slice(), qi + 1)
}

} // verus!
