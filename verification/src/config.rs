//! The two files the program keeps under its data directory: `config.json`,
//! which holds an optional GitHub token, and `settings.conf`, a `key=value`
//! file holding the log level.  This module renders and reads both; reading
//! and writing the files themselves is left to the program.

use vstd::prelude::*;

use crate::json::{
    extract_json_string, json_decode, json_escape, key_pattern, lemma_json_escape_roundtrip, spec_extract_json_string,
    spec_json_escape,
};
use crate::logger::LogLevel;
use crate::text::{
    index_of, is_ws, lemma_find_seq_at, lemma_index_of_at, lemma_split_none, lemma_split_prefix,
    lemma_trim_plain, occurs_at, push_char, push_str, string_of_range,
    ascii_lower, chars_of, eq_ignore_ascii_case, find_char, lemma_trim_idempotent, range_eq_ignore_ascii_case,
    range_eq_str, split, split_bounds, split_once, trim, trim_bounds, trim_end, trim_start,
};

verus! {

// ---------------------------------------------------------------------------
// Types
// ---------------------------------------------------------------------------

/// What `config.json` holds.
pub struct Config {
    pub github_token: Option<String>,
}

impl View for Config {
    type V = Option<Seq<char>>;

    open spec fn view(&self) -> Option<Seq<char>> {
        match self.github_token {
            Some(t) => Some(t@),
            None => None,
        }
    }
}

impl Default for Config {
    fn default() -> (r: Self)
        ensures
            r.github_token is None,
    {
        Config { github_token: None }
    }
}

/// What `settings.conf` holds.
#[derive(Clone, Copy, Debug, PartialEq, Eq, Structural)]
pub struct AppSettings {
    pub log_level: LogLevel,
}

impl Default for AppSettings {
    fn default() -> (r: Self)
        ensures
            r == default_settings(),
    {
        AppSettings { log_level: LogLevel::Normal }
    }
}

pub open spec fn default_settings() -> AppSettings {
    AppSettings { log_level: LogLevel::Normal }
}

// ---------------------------------------------------------------------------
// Log level names
// ---------------------------------------------------------------------------

pub open spec fn spec_log_level_to_str(level: LogLevel) -> Seq<char> {
    match level {
        LogLevel::Normal => "normal"@,
        LogLevel::Debug => "debug"@,
    }
}

/// The name a level is stored under in `settings.conf`.
pub fn log_level_to_str(level: LogLevel) -> (r: &'static str)
    ensures
        r@ == spec_log_level_to_str(level),
{
    match level {
        LogLevel::Normal => "normal",
        LogLevel::Debug => "debug",
    }
}

/// A stored level name: surrounding white space is ignored and so is ASCII
/// case (`s.trim().to_ascii_lowercase()` equals the name).
pub open spec fn spec_log_level_from_str(s: Seq<char>) -> Option<LogLevel> {
    if eq_ignore_ascii_case(trim(s), "normal"@) {
        Some(LogLevel::Normal)
    } else if eq_ignore_ascii_case(trim(s), "debug"@) {
        Some(LogLevel::Debug)
    } else {
        None
    }
}

fn level_from_range(v: &[char], lo: usize, hi: usize) -> (r: Option<LogLevel>)
    requires
        lo <= hi <= v@.len(),
    ensures
        r == spec_log_level_from_str(v@.subrange(lo as int, hi as int)),
{
    let (a, b) = trim_bounds(v, lo, hi);
    if range_eq_ignore_ascii_case(v, a, b, "normal") {
        Some(LogLevel::Normal)
    } else if range_eq_ignore_ascii_case(v, a, b, "debug") {
        Some(LogLevel::Debug)
    } else {
        None
    }
}

/// Reads a level name.
pub fn log_level_from_str(s: &str) -> (r: Option<LogLevel>)
    ensures
        r == spec_log_level_from_str(s@),
{
    let v = chars_of(s);
    proof {
        assert(v@.subrange(0, v@.len() as int) == v@);
    }
    level_from_range(v.as_slice(), 0, v.len())
}

/// A level's stored name reads back as that level.
pub proof fn lemma_log_level_name_roundtrip(level: LogLevel)
    ensures
        spec_log_level_from_str(spec_log_level_to_str(level)) == Some(level),
{
    reveal_strlit("normal");
    reveal_strlit("debug");
    let s = spec_log_level_to_str(level);
    assert(trim_start(s) == s);
    assert(trim_end(s) == s);
    assert(eq_ignore_ascii_case(s, s));
    if level == LogLevel::Debug {
        assert(s[0] != ascii_lower("normal"@[0]));
        assert(!eq_ignore_ascii_case(s, "normal"@));
    }
}

// ---------------------------------------------------------------------------
// settings.conf
// ---------------------------------------------------------------------------

/// One line of `settings.conf` applied to the settings read so far: blank
/// lines, lines starting with `#` or `;`, and lines without `=` are skipped;
/// `log_level=<name>` sets the level when the name is known.
pub open spec fn settings_step(acc: AppSettings, raw: Seq<char>) -> AppSettings {
    let line = trim(raw);
    if line.len() == 0 || line[0] == '#' || line[0] == ';' {
        acc
    } else {
        match split_once(line, '=') {
            None => acc,
            Some((k, v)) => if trim(k) == "log_level"@ {
                match spec_log_level_from_str(trim(v)) {
                    Some(level) => AppSettings { log_level: level },
                    None => acc,
                }
            } else {
                acc
            },
        }
    }
}

/// The lines applied in order, starting from the defaults.
pub open spec fn settings_fold(lines: Seq<Seq<char>>) -> AppSettings
    decreases lines.len(),
{
    if lines.len() == 0 {
        default_settings()
    } else {
        settings_step(settings_fold(lines.drop_last()), lines.last())
    }
}

pub open spec fn spec_parse_settings(content: Seq<char>) -> AppSettings {
    settings_fold(split(content, '\n'))
}

/// Applies the line `v[lo..hi]` of `settings.conf`.
fn settings_apply_line(acc: AppSettings, v: &[char], lo: usize, hi: usize) -> (r: AppSettings)
    requires
        lo <= hi <= v@.len(),
    ensures
        r == settings_step(acc, v@.subrange(lo as int, hi as int)),
{
    let (a, b) = trim_bounds(v, lo, hi);
    let ghost line = v@.subrange(a as int, b as int);
    if a < b {
        proof {
            assert(line[0] == v@[a as int]);
        }
    }
    if a == b || v[a] == '#' || v[a] == ';' {
        return acc;
    }
    match find_char(v, a, b, '=') {
        Some(e) => {
            proof {
                lemma_trim_idempotent(v@.subrange(e + 1, b as int));
                assert(line.take(e - a) == v@.subrange(a as int, e as int));
                assert(line.skip(e - a + 1) == v@.subrange(e + 1, b as int));
            }
            let (ka, kb) = trim_bounds(v, a, e);
            if range_eq_str(v, ka, kb, "log_level") {
                match level_from_range(v, e + 1, b) {
                    Some(level) => AppSettings { log_level: level },
                    None => acc,
                }
            } else {
                acc
            }
        },
        None => acc,
    }
}

/// Reads `settings.conf`.
pub fn parse_settings(content: &str) -> (r: AppSettings)
    ensures
        r == spec_parse_settings(content@),
{
    let v = chars_of(content);
    let lines = split_bounds(v.as_slice(), '\n');
    let ghost pieces = split(v@, '\n');
    let mut acc = AppSettings { log_level: LogLevel::Normal };
    let mut k: usize = 0;
    while k < lines.len()
        invariant
            pieces == split(v@, '\n'),
            lines@.len() == pieces.len(),
            forall|j: int|
                0 <= j < lines@.len() ==> (#[trigger] lines@[j]).0 <= lines@[j].1 <= v@.len()
                    && v@.subrange(lines@[j].0 as int, lines@[j].1 as int) == pieces[j],
            k <= lines@.len(),
            acc == settings_fold(pieces.take(k as int)),
        decreases lines.len() - k,
    {
        let (lo, hi) = lines[k];
        proof {
            assert(pieces.take(k + 1).drop_last() == pieces.take(k as int));
            assert(pieces.take(k + 1).last() == pieces[k as int]);
        }
        acc = settings_apply_line(acc, v.as_slice(), lo, hi);
        k = k + 1;
    }
    proof {
        assert(pieces.take(lines@.len() as int) == pieces);
    }
    acc
}

/// The first two lines of `settings.conf`, comments that say what the file
/// is and how it is written.
pub const SETTINGS_HEADER_TITLE: &'static str = "# Windows Settings — пользовательские настройки";

pub const SETTINGS_HEADER_FORMAT: &'static str = "# Формат: key=value, одна пара на строку.";

/// What `settings.conf` is written as.
pub open spec fn spec_settings_file_content(settings: AppSettings) -> Seq<char> {
    SETTINGS_HEADER_TITLE@ + seq!['\n'] + SETTINGS_HEADER_FORMAT@ + seq!['\n'] + "log_level="@
        + spec_log_level_to_str(settings.log_level) + seq!['\n']
}

/// Renders `settings.conf`.
pub fn settings_file_content(settings: &AppSettings) -> (r: String)
    ensures
        r@ == spec_settings_file_content(*settings),
{
    let mut s = String::new();
    push_str(&mut s, SETTINGS_HEADER_TITLE);
    push_char(&mut s, '\n');
    push_str(&mut s, SETTINGS_HEADER_FORMAT);
    push_char(&mut s, '\n');
    push_str(&mut s, "log_level=");
    push_str(&mut s, log_level_to_str(settings.log_level));
    push_char(&mut s, '\n');
    s
}

proof fn lemma_settings_step_comment(acc: AppSettings, line: Seq<char>)
    requires
        line.len() > 0,
        line[0] == '#',
        !is_ws(line.last()),
    ensures
        settings_step(acc, line) == acc,
{
    lemma_trim_plain(line);
}

/// Reading back the rendered `settings.conf` gives the settings that were
/// written.
pub proof fn lemma_settings_roundtrip(settings: AppSettings)
    ensures
        spec_parse_settings(spec_settings_file_content(settings)) == settings,
{
    reveal_strlit("# Windows Settings — пользовательские настройки");
    reveal_strlit("# Формат: key=value, одна пара на строку.");
    reveal_strlit("log_level=");
    reveal_strlit("log_level");
    reveal_strlit("normal");
    reveal_strlit("debug");
    let l1 = SETTINGS_HEADER_TITLE@;
    let l2 = SETTINGS_HEADER_FORMAT@;
    let name = spec_log_level_to_str(settings.log_level);
    let l3 = "log_level="@ + name;
    let empty = Seq::<char>::empty();
    assert forall|j: int| 0 <= j < l1.len() implies l1[j] != '\n' by {}
    assert forall|j: int| 0 <= j < l2.len() implies l2[j] != '\n' by {}
    assert forall|j: int| 0 <= j < l3.len() implies l3[j] != '\n' by {}
    lemma_split_none(empty, '\n');
    lemma_split_prefix(l3, empty, '\n');
    assert(l3 + seq!['\n'] == l3 + seq!['\n'] + empty);
    lemma_split_prefix(l2, l3 + seq!['\n'], '\n');
    lemma_split_prefix(l1, l2 + seq!['\n'] + (l3 + seq!['\n']), '\n');
    let content = spec_settings_file_content(settings);
    assert(content == l1 + seq!['\n'] + (l2 + seq!['\n'] + (l3 + seq!['\n'])));
    let lines = seq![l1, l2, l3, empty];
    assert(split(content, '\n') == lines);
    assert(lines.drop_last() == seq![l1, l2, l3]);
    assert(seq![l1, l2, l3].drop_last() == seq![l1, l2]);
    assert(seq![l1, l2].drop_last() == seq![l1]);
    assert(seq![l1].drop_last() == Seq::<Seq<char>>::empty());
    assert(l1[0] == '#' && l2[0] == '#');
    lemma_settings_step_comment(default_settings(), l1);
    lemma_settings_step_comment(default_settings(), l2);
    assert(settings_fold(Seq::<Seq<char>>::empty()) == default_settings());
    assert(settings_fold(seq![l1]) == default_settings());
    assert(settings_fold(seq![l1, l2]) == default_settings());
    lemma_trim_plain(l3);
    assert forall|j: int| 0 <= j < 9 implies l3[j] != '=' by {}
    lemma_index_of_at(l3, '=', 9);
    assert(l3.take(9) == "log_level"@);
    assert(l3.skip(10) == name);
    lemma_trim_plain("log_level"@);
    lemma_trim_plain(name);
    lemma_log_level_name_roundtrip(settings.log_level);
    assert(settings_fold(seq![l1, l2, l3]) == settings);
    assert(trim(empty).len() == 0);
}

// ---------------------------------------------------------------------------
// config.json
// ---------------------------------------------------------------------------

/// The token stored in `config.json`: the `github_token` string, trimmed,
/// and absent when it is missing or blank.
pub open spec fn spec_parse_config(content: Seq<char>) -> Option<Seq<char>> {
    match spec_extract_json_string(content, "github_token"@) {
        Some(t) => if trim(t).len() > 0 {
            Some(trim(t))
        } else {
            None
        },
        None => None,
    }
}

/// Reads `config.json`.
pub fn parse_config(content: &str) -> (r: Config)
    ensures
        r@ == spec_parse_config(content@),
{
    let mut cfg = Config::default();
    match extract_json_string(content, "github_token") {
        Some(token) => {
            let v = chars_of(token.as_str());
            proof {
                assert(v@.subrange(0, v@.len() as int) == v@);
            }
            let (a, b) = trim_bounds(v.as_slice(), 0, v.len());
            if a < b {
                cfg.github_token = Some(string_of_range(v.as_slice(), a, b));
            }
        },
        None => {},
    }
    cfg
}

/// What `config.json` is written as: the token, escaped, as the string
/// member `github_token`, or an empty object without a token.
pub open spec fn spec_config_file_content(token: Option<Seq<char>>) -> Seq<char> {
    match token {
        Some(t) => "{\n  "@ + key_pattern("github_token"@) + ": \""@ + spec_json_escape(t)
            + seq!['"'] + "\n}\n"@,
        None => "{}\n"@,
    }
}

/// Renders `config.json`.
pub fn config_file_content(cfg: &Config) -> (r: String)
    ensures
        r@ == spec_config_file_content(cfg@),
{
    match &cfg.github_token {
        Some(t) => {
            let mut s = String::new();
            push_str(&mut s, "{\n  ");
            push_char(&mut s, '"');
            push_str(&mut s, "github_token");
            push_char(&mut s, '"');
            push_str(&mut s, ": \"");
            let e = json_escape(t.as_str());
            push_str(&mut s, e.as_str());
            push_char(&mut s, '"');
            push_str(&mut s, "\n}\n");
            proof {
                assert(s@ == spec_config_file_content(cfg@));
            }
            s
        },
        None => {
            let mut s = String::new();
            push_str(&mut s, "{}\n");
            s
        },
    }
}

proof fn lemma_config_find_key(content: Seq<char>, e: Seq<char>)
    requires
        content == "{\n  "@ + key_pattern("github_token"@) + ": \""@ + e + seq!['"'] + "\n}\n"@,
    ensures
        spec_extract_json_string(content, "github_token"@) == json_decode(e + seq!['"'] + "\n}\n"@),
{
    reveal_strlit("github_token");
    reveal_strlit("{\n  ");
    reveal_strlit(": \"");
    let p = key_pattern("github_token"@);
    assert(p.len() == 14);
    assert(content.subrange(4, 18) == p);
    assert forall|j: int| 0 <= j < 4 implies !occurs_at(content, p, j) by {
        if occurs_at(content, p, j) {
            assert(content.subrange(j, j + 14)[0] == content[j]);
            assert(p[0] == '"');
        }
    }
    lemma_find_seq_at(content, p, 4);
    let after = content.skip(18);
    assert(after[0] == ':');
    lemma_index_of_at(after, ':', 0);
    let ac = after.skip(1);
    assert(ac[0] == ' ' && ac[1] == '"');
    lemma_index_of_at(ac, '"', 1);
    assert(ac.skip(2) == e + seq!['"'] + "\n}\n"@);
}

/// Reading back the rendered `config.json` gives the token that was
/// written, trimmed, and no token where it was blank.
pub proof fn lemma_config_roundtrip(token: Option<Seq<char>>)
    ensures
        spec_parse_config(spec_config_file_content(token)) == (match token {
            Some(t) => if trim(t).len() > 0 {
                Some(trim(t))
            } else {
                None
            },
            None => None,
        }),
{
    let content = spec_config_file_content(token);
    match token {
        Some(t) => {
            lemma_config_find_key(content, spec_json_escape(t));
            lemma_json_escape_roundtrip(t, "\n}\n"@);
        },
        None => {
            reveal_strlit("{}\n");
            reveal_strlit("github_token");
            let p = key_pattern("github_token"@);
            assert(p.len() == 14);
            assert forall|j: int| !occurs_at(content, p, j) by {}
        },
    }
}

} // verus!
