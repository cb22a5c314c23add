//! Preparing a script for `powershell.exe -EncodedCommand` (UTF-16LE, then
//! Base64) and folding the output of a finished run into one result.  The
//! program starts the process and hands the captured bytes back.

use vstd::prelude::*;

use crate::text::{chars_of, push_char, push_str, trim, trim_bounds, string_of_range};

verus! {

// ---------------------------------------------------------------------------
// UTF-16LE
// ---------------------------------------------------------------------------

/// A UTF-16 code unit as two bytes, low byte first.
pub open spec fn unit_le(u: nat) -> Seq<u8> {
    seq![(u % 256) as u8, (u / 256) as u8]
}

/// The UTF-16LE bytes of one character: one code unit below `0x10000`, a
/// surrogate pair above.
pub open spec fn utf16le_char(c: char) -> Seq<u8> {
    let u = (c as u32) as nat;
    if u < 0x10000 {
        unit_le(u)
    } else {
        let v = (u - 0x10000) as nat;
        unit_le(0xD800 + v / 0x400) + unit_le(0xDC00 + v % 0x400)
    }
}

/// The UTF-16LE encoding of a text.
pub open spec fn spec_utf16le(s: Seq<char>) -> Seq<u8>
    decreases s.len(),
{
    if s.len() == 0 {
        Seq::empty()
    } else {
        utf16le_char(s[0]) + spec_utf16le(s.drop_first())
    }
}

/// `s.encode_utf16()` with each unit written low byte first.
pub fn utf16le_bytes(s: &str) -> (r: Vec<u8>)
    ensures
        r@ == spec_utf16le(s@),
{
    let v = chars_of(s);
    let mut out: Vec<u8> = Vec::new();
    let mut i: usize = 0;
    proof {
        assert(v@.skip(0) == v@);
        assert(out@ + spec_utf16le(v@) == spec_utf16le(v@));
    }
    while i < v.len()
        invariant
            i <= v@.len(),
            v@ == s@,
            spec_utf16le(v@) == out@ + spec_utf16le(v@.skip(i as int)),
        decreases v.len() - i,
    {
        let c = v[i];
        let ghost before = out@;
        let u = c as u32;
        if u < 0x10000 {
            out.push((u % 256) as u8);
            out.push((u / 256) as u8);
        } else {
            let w = u - 0x10000;
            let hi = 0xD800 + w / 0x400;
            let lo = 0xDC00 + w % 0x400;
            out.push((hi % 256) as u8);
            out.push((hi / 256) as u8);
            out.push((lo % 256) as u8);
            out.push((lo / 256) as u8);
        }
        proof {
            assert(out@ == before + utf16le_char(c));
            assert(v@.skip(i as int)[0] == c);
            assert(v@.skip(i as int).drop_first() == v@.skip(i + 1));
        }
        i = i + 1;
    }
    proof {
        assert(v@.skip(v@.len() as int) == Seq::<char>::empty());
        assert(out@ + Seq::<u8>::empty() == out@);
    }
    out
}

// ---------------------------------------------------------------------------
// Base64
// ---------------------------------------------------------------------------

/// The Base64 alphabet: `A`–`Z`, `a`–`z`, `0`–`9`, `+`, `/`.
pub open spec fn b64_char(i: int) -> char {
    if i < 26 {
        (65 + i) as char
    } else if i < 52 {
        (97 + i - 26) as char
    } else if i < 62 {
        (48 + i - 52) as char
    } else if i == 62 {
        '+'
    } else {
        '/'
    }
}

fn b64_char_exec(i: u32) -> (r: char)
    requires
        i < 64,
    ensures
        r == b64_char(i as int),
{
    if i < 26 {
        ((65 + i) as u8) as char
    } else if i < 52 {
        ((97 + i - 26) as u8) as char
    } else if i < 62 {
        ((48 + i - 52) as u8) as char
    } else if i == 62 {
        '+'
    } else {
        '/'
    }
}

/// The four characters for one group of one to three bytes; missing bytes
/// count as zero and their characters become `=`.
pub open spec fn b64_group(b: Seq<u8>) -> Seq<char> {
    let b0 = b[0] as int;
    let b1 = if b.len() > 1 {
        b[1] as int
    } else {
        0
    };
    let b2 = if b.len() > 2 {
        b[2] as int
    } else {
        0
    };
    let t = b0 * 65536 + b1 * 256 + b2;
    seq![
        b64_char((t / 262144) % 64),
        b64_char((t / 4096) % 64),
        if b.len() > 1 {
            b64_char((t / 64) % 64)
        } else {
            '='
        },
        if b.len() > 2 {
            b64_char(t % 64)
        } else {
            '='
        },
    ]
}

/// Standard Base64 with `=` padding, three bytes at a time.
pub open spec fn spec_base64(d: Seq<u8>) -> Seq<char>
    decreases d.len(),
{
    if d.len() == 0 {
        Seq::empty()
    } else if d.len() <= 3 {
        b64_group(d)
    } else {
        b64_group(d.take(3)) + spec_base64(d.skip(3))
    }
}

/// Encodes bytes as Base64.
pub fn base64_encode(data: &[u8]) -> (r: String)
    ensures
        r@ == spec_base64(data@),
{
    let mut out = String::new();
    let mut i: usize = 0;
    proof {
        assert(data@.skip(0) == data@);
        assert(out@ + spec_base64(data@) == spec_base64(data@));
    }
    while i < data.len()
        invariant
            i <= data@.len(),
            spec_base64(data@) == out@ + spec_base64(data@.skip(i as int)),
        decreases data.len() - i,
    {
        let ghost rest = data@.skip(i as int);
        let n = data.len() - i;
        let b0 = data[i] as u32;
        let b1: u32 = if n > 1 {
            data[i + 1] as u32
        } else {
            0
        };
        let b2: u32 = if n > 2 {
            data[i + 2] as u32
        } else {
            0
        };
        let t = b0 * 65536 + b1 * 256 + b2;
        let ghost before = out@;
        push_char(&mut out, b64_char_exec((t / 262144) % 64));
        push_char(&mut out, b64_char_exec((t / 4096) % 64));
        if n > 1 {
            push_char(&mut out, b64_char_exec((t / 64) % 64));
        } else {
            push_char(&mut out, '=');
        }
        if n > 2 {
            push_char(&mut out, b64_char_exec(t % 64));
        } else {
            push_char(&mut out, '=');
        }
        proof {
            let g = if n <= 3 {
                rest
            } else {
                rest.take(3)
            };
            assert(g[0] == data@[i as int]);
            if n > 1 {
                assert(g[1] == data@[i + 1]);
            }
            if n > 2 {
                assert(g[2] == data@[i + 2]);
            }
            assert(out@ == before + b64_group(g));
            if n > 3 {
                assert(rest.skip(3) == data@.skip(i + 3));
            } else {
                assert(data@.skip(data@.len() as int) == Seq::<u8>::empty());
                assert(out@ + Seq::<char>::empty() == out@);
            }
        }
        i = if n > 3 {
            i + 3
        } else {
            data.len()
        };
    }
    proof {
        assert(data@.skip(data@.len() as int) == Seq::<u8>::empty());
        assert(out@ + Seq::<char>::empty() == out@);
    }
    out
}

/// Base64 turns every three bytes, and a last shorter group, into four
/// characters.
pub proof fn lemma_base64_len(d: Seq<u8>)
    ensures
        spec_base64(d).len() == 4 * ((d.len() + 2) / 3),
    decreases d.len(),
{
    if d.len() > 3 {
        lemma_base64_len(d.skip(3));
    }
}

/// A script as `-EncodedCommand` takes it: Base64 of its UTF-16LE bytes.
pub open spec fn spec_encode_powershell_script(script: Seq<char>) -> Seq<char> {
    spec_base64(spec_utf16le(script))
}

/// Encodes a script for `-EncodedCommand`.
pub fn encode_powershell_script(script: &str) -> (r: String)
    ensures
        r@ == spec_encode_powershell_script(script@),
{
    let bytes = utf16le_bytes(script);
    base64_encode(bytes.as_slice())
}

// ---------------------------------------------------------------------------
// Output of a run
// ---------------------------------------------------------------------------

/// What `String::from_utf8_lossy` makes of `bytes`: UTF-8 decoded, with
/// U+FFFD in place of each invalid sequence.
pub uninterp spec fn utf8_lossy(bytes: Seq<u8>) -> Seq<char>;

/// Calls `String::from_utf8_lossy` and takes the result as an owned
/// `String`; trusted only to give back `utf8_lossy` of the bytes, which
/// depends on the bytes alone.
#[verifier::external_body]
fn from_utf8_lossy(bytes: &[u8]) -> (r: String)
    ensures
        r@ == utf8_lossy(bytes@),
{
    String::from_utf8_lossy(bytes).into_owned()
}

/// The text of a run: standard output and standard error, each trimmed,
/// joined by a line break where both are non-empty, and trimmed again.
pub open spec fn spec_output_text(stdout: Seq<char>, stderr: Seq<char>) -> Seq<char> {
    let o = trim(stdout);
    let e = trim(stderr);
    trim(
        if e.len() == 0 {
            o
        } else if o.len() == 0 {
            e
        } else {
            o + seq!['\n'] + e
        },
    )
}

/// Folds the decoded output of a finished run into `(ok, text)`: the run
/// counts as done when the process succeeded or printed anything.
pub fn combine_output(stdout: &str, stderr: &str, success: bool) -> (r: (bool, String))
    ensures
        r.1@ == spec_output_text(stdout@, stderr@),
        r.0 == (success || spec_output_text(stdout@, stderr@).len() > 0),
{
    let ov = chars_of(stdout);
    let ev = chars_of(stderr);
    proof {
        assert(ov@.subrange(0, ov@.len() as int) == ov@);
        assert(ev@.subrange(0, ev@.len() as int) == ev@);
    }
    let (oa, ob) = trim_bounds(ov.as_slice(), 0, ov.len());
    let (ea, eb) = trim_bounds(ev.as_slice(), 0, ev.len());
    let ghost o = trim(stdout@);
    let ghost e = trim(stderr@);
    let ghost mid = if e.len() == 0 {
        o
    } else if o.len() == 0 {
        e
    } else {
        o + seq!['\n'] + e
    };
    let mut s = string_of_range(ov.as_slice(), oa, ob);
    if ea < eb {
        if oa < ob {
            push_char(&mut s, '\n');
        }
        let es = string_of_range(ev.as_slice(), ea, eb);
        push_str(&mut s, es.as_str());
        proof {
            if oa == ob {
                assert(Seq::<char>::empty() + e == e);
            } else {
                assert(o.push('\n') + e == o + seq!['\n'] + e);
            }
        }
    }
    proof {
        assert(s@ == mid);
    }
    let sv = chars_of(s.as_str());
    proof {
        assert(sv@.subrange(0, sv@.len() as int) == sv@);
    }
    let (a, b) = trim_bounds(sv.as_slice(), 0, sv.len());
    let text = string_of_range(sv.as_slice(), a, b);
    (success || a < b, text)
}

/// Folds the captured bytes of a finished run into `(ok, text)`.
pub fn powershell_result(stdout: &[u8], stderr: &[u8], success: bool) -> (r: (bool, String))
    ensures
        r.1@ == spec_output_text(utf8_lossy(stdout@), utf8_lossy(stderr@)),
        r.0 == (success || spec_output_text(utf8_lossy(stdout@), utf8_lossy(stderr@)).len() > 0),
{
    let o = from_utf8_lossy(stdout);
    let e = from_utf8_lossy(stderr);
    combine_output(o.as_str(), e.as_str(), success)
}

} // verus!
