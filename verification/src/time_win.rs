//! Local time stamps and the places the program keeps its files.  The clock
//! (`GetLocalTime`) and the `APPDATA` variable are read by the program,
//! which hands their values in.

use vstd::prelude::*;

use crate::text::{
    decimal, find_char, index_of, is_digit, lemma_index_of, push_char, push_decimal, push_range,
    push_str,
};

verus! {

/// The fields of the Windows `SYSTEMTIME` structure, in its order.
#[derive(Clone, Copy, Debug, PartialEq, Eq, Structural)]
pub struct SystemTimeWin {
    pub w_year: u16,
    pub w_month: u16,
    pub w_day_of_week: u16,
    pub w_day: u16,
    pub w_hour: u16,
    pub w_minute: u16,
    pub w_second: u16,
    pub w_milliseconds: u16,
}

impl Default for SystemTimeWin {
    fn default() -> (r: Self)
        ensures
            r == (SystemTimeWin {
                w_year: 0,
                w_month: 0,
                w_day_of_week: 0,
                w_day: 0,
                w_hour: 0,
                w_minute: 0,
                w_second: 0,
                w_milliseconds: 0,
            }),
    {
        SystemTimeWin {
            w_year: 0,
            w_month: 0,
            w_day_of_week: 0,
            w_day: 0,
            w_hour: 0,
            w_minute: 0,
            w_second: 0,
            w_milliseconds: 0,
        }
    }
}

/// `n` printed with at least `w` digits, zeros in front (`{:0w}`).
pub open spec fn padded(n: nat, w: nat) -> Seq<char> {
    let d = decimal(n);
    if d.len() < w {
        Seq::new((w - d.len()) as nat, |i: int| '0') + d
    } else {
        d
    }
}

proof fn lemma_decimal_digits(n: nat)
    ensures
        decimal(n).len() >= 1,
        forall|i: int| 0 <= i < decimal(n).len() ==> is_digit(#[trigger] decimal(n)[i]),
    decreases n,
{
    if n >= 10 {
        lemma_decimal_digits(n / 10);
        let p = decimal(n / 10);
        let d = crate::text::digit_char((n % 10) as int);
        assert forall|i: int| 0 <= i < decimal(n).len() implies is_digit(#[trigger] decimal(n)[i]) by {
            if i < p.len() {
                assert(decimal(n)[i] == p[i]);
            }
        }
    }
}

proof fn lemma_padded_digits(n: nat, w: nat)
    ensures
        padded(n, w).len() >= 1,
        forall|i: int| 0 <= i < padded(n, w).len() ==> is_digit(#[trigger] padded(n, w)[i]),
{
    lemma_decimal_digits(n);
    let d = decimal(n);
    if d.len() < w {
        let z = Seq::new((w - d.len()) as nat, |i: int| '0');
        assert forall|i: int| 0 <= i < padded(n, w).len() implies is_digit(
            #[trigger] padded(n, w)[i],
        ) by {
            if i < z.len() {
                assert(padded(n, w)[i] == '0');
            } else {
                assert(padded(n, w)[i] == d[i - z.len()]);
            }
        }
    }
}

/// Appends `n` with at least `w` digits.
fn push_padded(s: &mut String, n: u64, w: usize)
    ensures
        final(s)@ == old(s)@ + padded(n as nat, w as nat),
{
    let mut digits = String::new();
    push_decimal(&mut digits, n);
    let dv = crate::text::chars_of(digits.as_str());
    let len = dv.len();
    let ghost before = s@;
    let mut k = len;
    while k < w
        invariant
            len <= k,
            len == decimal(n as nat).len(),
            k <= w || k == len,
            s@ == before + Seq::new((k - len) as nat, |i: int| '0'),
        decreases w - k,
    {
        push_char(s, '0');
        proof {
            assert(Seq::new((k - len) as nat, |i: int| '0').push('0') == Seq::new(
                (k + 1 - len) as nat,
                |i: int| '0',
            ));
        }
        k = k + 1;
    }
    push_str(s, digits.as_str());
    proof {
        if len >= w {
            assert(Seq::new((k - len) as nat, |i: int| '0') == Seq::<char>::empty());
            assert(s@ == before + decimal(n as nat));
        } else {
            assert(k == w);
        }
    }
}

/// The stamp in a run log's file name: `YYYYMMDD_hhmmss`.
pub open spec fn spec_timestamp_filename(t: SystemTimeWin) -> Seq<char> {
    padded(t.w_year as nat, 4) + padded(t.w_month as nat, 2) + padded(t.w_day as nat, 2) + seq![
        '_',
    ] + padded(t.w_hour as nat, 2) + padded(t.w_minute as nat, 2) + padded(t.w_second as nat, 2)
}

/// The stamp for a file name at local time `t`; it holds only digits and
/// `_`, none of the characters a Windows file name cannot take.
pub fn local_timestamp_filename(t: &SystemTimeWin) -> (r: String)
    ensures
        r@ == spec_timestamp_filename(*t),
        r@.len() > 0,
        forall|i: int| 0 <= i < r@.len() ==> is_digit(#[trigger] r@[i]) || r@[i] == '_',
{
    let mut s = String::new();
    push_padded(&mut s, t.w_year as u64, 4);
    push_padded(&mut s, t.w_month as u64, 2);
    push_padded(&mut s, t.w_day as u64, 2);
    push_char(&mut s, '_');
    push_padded(&mut s, t.w_hour as u64, 2);
    push_padded(&mut s, t.w_minute as u64, 2);
    push_padded(&mut s, t.w_second as u64, 2);
    proof {
        let a = padded(t.w_year as nat, 4);
        let b = padded(t.w_month as nat, 2);
        let c = padded(t.w_day as nat, 2);
        let d = padded(t.w_hour as nat, 2);
        let e = padded(t.w_minute as nat, 2);
        let f = padded(t.w_second as nat, 2);
        lemma_padded_digits(t.w_year as nat, 4);
        lemma_padded_digits(t.w_month as nat, 2);
        lemma_padded_digits(t.w_day as nat, 2);
        lemma_padded_digits(t.w_hour as nat, 2);
        lemma_padded_digits(t.w_minute as nat, 2);
        lemma_padded_digits(t.w_second as nat, 2);
        let r = s@;
        assert(r == a + b + c + seq!['_'] + d + e + f);
        assert forall|i: int| 0 <= i < r.len() implies is_digit(#[trigger] r[i]) || r[i] == '_' by {
            let n1 = a.len() as int;
            let n2 = n1 + b.len();
            let n3 = n2 + c.len();
            let n4 = n3 + 1;
            let n5 = n4 + d.len();
            let n6 = n5 + e.len();
            if i < n1 {
                assert(r[i] == a[i]);
            } else if i < n2 {
                assert(r[i] == b[i - n1]);
            } else if i < n3 {
                assert(r[i] == c[i - n2]);
            } else if i < n4 {
                assert(r[i] == '_');
            } else if i < n5 {
                assert(r[i] == d[i - n4]);
            } else if i < n6 {
                assert(r[i] == e[i - n5]);
            } else {
                assert(r[i] == f[i - n6]);
            }
        }
    }
    s
}

/// The stamp on each log line: `YYYY-MM-DD hh:mm:ss.mmm`.
pub open spec fn spec_timestamp_pretty(t: SystemTimeWin) -> Seq<char> {
    padded(t.w_year as nat, 4) + seq!['-'] + padded(t.w_month as nat, 2) + seq!['-'] + padded(
        t.w_day as nat,
        2,
    ) + seq![' '] + padded(t.w_hour as nat, 2) + seq![':'] + padded(t.w_minute as nat, 2) + seq![
        ':',
    ] + padded(t.w_second as nat, 2) + seq!['.'] + padded(t.w_milliseconds as nat, 3)
}

/// The stamp for a log line at local time `t`.
pub fn local_timestamp_pretty(t: &SystemTimeWin) -> (r: String)
    ensures
        r@ == spec_timestamp_pretty(*t),
        r@.len() > 0,
{
    let mut s = String::new();
    push_padded(&mut s, t.w_year as u64, 4);
    push_char(&mut s, '-');
    push_padded(&mut s, t.w_month as u64, 2);
    push_char(&mut s, '-');
    push_padded(&mut s, t.w_day as u64, 2);
    push_char(&mut s, ' ');
    push_padded(&mut s, t.w_hour as u64, 2);
    push_char(&mut s, ':');
    push_padded(&mut s, t.w_minute as u64, 2);
    push_char(&mut s, ':');
    push_padded(&mut s, t.w_second as u64, 2);
    push_char(&mut s, '.');
    push_padded(&mut s, t.w_milliseconds as u64, 3);
    s
}

// ---------------------------------------------------------------------------
// Paths
// ---------------------------------------------------------------------------

/// The directory under `%APPDATA%` that holds everything of the program.
pub const APP_DIR_NAME: &'static str = "WindowsSettings";

pub const LOGS_DIR_NAME: &'static str = "logs";

pub const CONFIG_FILE_NAME: &'static str = "config.json";

pub const SETTINGS_FILE_NAME: &'static str = "settings.conf";

/// An ASCII letter, the characters a drive prefix such as `C:` may start
/// with.
pub open spec fn is_drive_letter(c: char) -> bool {
    ('a' <= c && c <= 'z') || ('A' <= c && c <= 'Z')
}

/// A path that is nothing but a drive prefix such as `C:`.  `Path::join`
/// on Windows puts no separator after such a path, so that the joined path
/// stays relative to the drive's current directory.
pub open spec fn is_bare_drive(base: Seq<char>) -> bool {
    base.len() == 2 && is_drive_letter(base[0]) && base[1] == ':'
}

/// A verbatim path: one that starts with `\\?\`.
pub open spec fn is_verbatim(base: Seq<char>) -> bool {
    base.len() >= 4 && base[0] == '\\' && base[1] == '\\' && base[2] == '?' && base[3] == '\\'
}

/// The length of the first `\`-separated part of `p`.
pub open spec fn first_part_len(p: Seq<char>) -> int {
    match index_of(p, '\\') {
        Some(i) => i,
        None => p.len() as int,
    }
}

/// What follows the first `\` of `p` (nothing where there is none).
pub open spec fn after_first_part(p: Seq<char>) -> Seq<char> {
    match index_of(p, '\\') {
        Some(i) => p.skip(i + 1),
        None => Seq::empty(),
    }
}

/// The length of the prefix of a verbatim path: `\\?\UNC\server\share`
/// (where `UNC` may also be followed by `/`), `\\?\C:` where the drive is
/// all there is or is followed by `\`, and otherwise `\\?\` with the text up
/// to the next `\`.
pub open spec fn verbatim_prefix_len(base: Seq<char>) -> int {
    let r = base.skip(4);
    if r.len() >= 4 && r[0] == 'U' && r[1] == 'N' && r[2] == 'C' && (r[3] == '\\' || r[3] == '/') {
        let p = r.skip(4);
        let server = first_part_len(p);
        let share = first_part_len(after_first_part(p));
        8 + server + if share > 0 {
            1 + share
        } else {
            0
        }
    } else if r.len() >= 2 && is_drive_letter(r[0]) && r[1] == ':' && (r.len() == 2 || r[2]
        == '\\') {
        6
    } else {
        4 + first_part_len(r)
    }
}

/// The `\`-separated parts of `s` with the empty ones left out, each
/// followed by `\`; `open` says that a part has begun and is not closed yet.
pub open spec fn collapse_parts(s: Seq<char>, open: bool) -> Seq<char>
    decreases s.len(),
{
    if s.len() == 0 {
        if open {
            seq!['\\']
        } else {
            Seq::empty()
        }
    } else if s[0] == '\\' {
        (if open {
            seq!['\\']
        } else {
            Seq::<char>::empty()
        }) + collapse_parts(s.drop_first(), false)
    } else {
        seq![s[0]] + collapse_parts(s.drop_first(), true)
    }
}

/// A verbatim base joined with a component as `Path::join` does: the path
/// is rebuilt from its parts, which are split at `\` only.  The prefix is
/// followed by a separator (or by the root, which is one), the empty parts
/// are left out, and every part is followed by a separator.
pub open spec fn join_verbatim(base: Seq<char>, comp: Seq<char>) -> Seq<char> {
    let n = verbatim_prefix_len(base);
    let body = if n < base.len() {
        base.skip(n + 1)
    } else {
        Seq::<char>::empty()
    };
    base.take(n) + seq!['\\'] + collapse_parts(body, false) + comp
}

/// `base` joined with a relative component as `Path::join` does on
/// Windows.  A verbatim base is rebuilt from its parts (`join_verbatim`).
/// Any other base is kept as it is, and a separator is put between it and
/// the component unless `base` is empty, already ends with `\` or `/`, or
/// is a bare drive prefix.
pub open spec fn join_path(base: Seq<char>, comp: Seq<char>) -> Seq<char> {
    if is_verbatim(base) {
        join_verbatim(base, comp)
    } else if base.len() == 0 || base.last() == '\\' || base.last() == '/' || is_bare_drive(base) {
        base + comp
    } else {
        base + seq!['\\'] + comp
    }
}

fn drive_letter(c: char) -> (r: bool)
    ensures
        r == is_drive_letter(c),
{
    ('a' <= c && c <= 'z') || ('A' <= c && c <= 'Z')
}

/// `first_part_len` and `after_first_part` of `v[lo..]`: the length of the
/// part, and where the rest starts if there is a `\`.
fn first_part(v: &[char], lo: usize) -> (r: (usize, Option<usize>))
    requires
        lo <= v@.len(),
    ensures
        lo + r.0 <= v@.len(),
        r.0 == first_part_len(v@.skip(lo as int)),
        match r.1 {
            Some(k) => k == lo + r.0 + 1 && k <= v@.len() && after_first_part(v@.skip(lo as int))
                == v@.skip(k as int),
            None => lo + r.0 == v@.len() && after_first_part(v@.skip(lo as int))
                == Seq::<char>::empty(),
        },
{
    proof {
        assert(v@.subrange(lo as int, v@.len() as int) == v@.skip(lo as int));
    }
    match find_char(v, lo, v.len(), '\\') {
        Some(i) => {
            proof {
                assert(v@.skip(lo as int).skip(i - lo + 1) == v@.skip(i + 1));
            }
            (i - lo, Some(i + 1))
        },
        None => (v.len() - lo, None),
    }
}

fn verbatim_prefix(v: &[char]) -> (r: usize)
    requires
        is_verbatim(v@),
    ensures
        r == verbatim_prefix_len(v@),
        r <= v@.len(),
{
    let ghost rv = v@.skip(4);
    let len = v.len();
    if len >= 8 && v[4] == 'U' && v[5] == 'N' && v[6] == 'C' && (v[7] == '\\' || v[7] == '/') {
        proof {
            assert(rv.skip(4) == v@.skip(8));
        }
        let (server, next) = first_part(v, 8);
        let share: usize = match next {
            Some(k) => {
                let (sh, _) = first_part(v, k);
                sh
            },
            None => {
                proof {
                    lemma_index_of(Seq::<char>::empty(), '\\');
                }
                0
            },
        };
        if share > 0 {
            8 + server + 1 + share
        } else {
            8 + server
        }
    } else if len >= 6 && drive_letter(v[4]) && v[5] == ':' && (len == 6 || v[6] == '\\') {
        6
    } else {
        let (part, _) = first_part(v, 4);
        4 + part
    }
}

/// Appends `collapse_parts(v[lo..], false)`.
fn push_collapsed(s: &mut String, v: &[char], lo: usize)
    requires
        lo <= v@.len(),
    ensures
        final(s)@ == old(s)@ + collapse_parts(v@.skip(lo as int), false),
{
    let ghost w = v@.skip(lo as int);
    let mut open = false;
    let mut i = lo;
    while i < v.len()
        invariant
            lo <= i <= v@.len(),
            w == v@.skip(lo as int),
            s@ + collapse_parts(v@.skip(i as int), open) == old(s)@ + collapse_parts(w, false),
        decreases v.len() - i,
    {
        let ghost rest = v@.skip(i as int);
        proof {
            assert(rest[0] == v@[i as int]);
            assert(rest.drop_first() == v@.skip(i + 1));
        }
        if v[i] == '\\' {
            if open {
                push_char(s, '\\');
            }
            open = false;
        } else {
            push_char(s, v[i]);
            open = true;
        }
        i = i + 1;
    }
    proof {
        assert(v@.skip(i as int) == Seq::<char>::empty());
    }
    if open {
        push_char(s, '\\');
    }
}

fn join_path_exec(base: &str, comp: &str) -> (r: String)
    ensures
        r@ == join_path(base@, comp@),
{
    let v = crate::text::chars_of(base);
    let mut s = String::new();
    if v.len() >= 4 && v[0] == '\\' && v[1] == '\\' && v[2] == '?' && v[3] == '\\' {
        let n = verbatim_prefix(v.as_slice());
        push_range(&mut s, v.as_slice(), 0, n);
        push_char(&mut s, '\\');
        if n < v.len() {
            push_collapsed(&mut s, v.as_slice(), n + 1);
        } else {
            proof {
                assert(v@.skip(n as int) == Seq::<char>::empty());
            }
        }
        proof {
            assert(v@.subrange(0, n as int) == v@.take(n as int));
        }
        push_str(&mut s, comp);
        return s;
    }
    push_str(&mut s, base);
    let bare = v.len() == 2 && drive_letter(v[0]) && v[1] == ':';
    if v.len() > 0 && v[v.len() - 1] != '\\' && v[v.len() - 1] != '/' && !bare {
        push_char(&mut s, '\\');
    }
    push_str(&mut s, comp);
    s
}

/// The program's directory under `appdata`, the value of `%APPDATA%` (or
/// `.` where it is not set).
pub open spec fn spec_appdata_dir(appdata: Seq<char>) -> Seq<char> {
    join_path(appdata, APP_DIR_NAME@)
}

pub fn appdata_dir(appdata: &str) -> (r: String)
    ensures
        r@ == spec_appdata_dir(appdata@),
{
    join_path_exec(appdata, APP_DIR_NAME)
}

/// Where the run logs go.
pub fn appdata_logs_dir(appdata: &str) -> (r: String)
    ensures
        r@ == join_path(spec_appdata_dir(appdata@), LOGS_DIR_NAME@),
{
    let d = appdata_dir(appdata);
    join_path_exec(d.as_str(), LOGS_DIR_NAME)
}

/// Where `config.json` goes.
pub fn appdata_config_path(appdata: &str) -> (r: String)
    ensures
        r@ == join_path(spec_appdata_dir(appdata@), CONFIG_FILE_NAME@),
{
    let d = appdata_dir(appdata);
    join_path_exec(d.as_str(), CONFIG_FILE_NAME)
}

/// Where `settings.conf` goes.
pub fn appdata_settings_path(appdata: &str) -> (r: String)
    ensures
        r@ == join_path(spec_appdata_dir(appdata@), SETTINGS_FILE_NAME@),
{
    let d = appdata_dir(appdata);
    join_path_exec(d.as_str(), SETTINGS_FILE_NAME)
}

} // verus!
