//! Self-update decisions and the byte sizes shown across the pages: how a
//! byte count is printed, how GitHub errors are explained, whether a release
//! is newer, which release asset to take and whether a download is usable.
//! The requests themselves are made by the program.

use vstd::prelude::*;

use crate::text::{
    chars_of, contains, contains_str, decimal, digit_char, digit_char_exec, eq_ignore_ascii_case,
    push_char, push_decimal, push_str, range_eq_ignore_ascii_case, str_eq, string_of_range,
};
use crate::types::UpdateState;

verus! {

/// The owner of the GitHub repository releases come from.
pub const REPO_OWNER: &'static str = "EnderMur";

/// The GitHub repository releases come from.
pub const REPO_NAME: &'static str = "windows-settings";

/// The version of this program.
pub const APP_VERSION: &'static str = "0.1.0";

// ---------------------------------------------------------------------------
// Byte sizes
// ---------------------------------------------------------------------------

pub open spec fn pow2(k: nat) -> nat
    decreases k,
{
    if k == 0 {
        1
    } else {
        2 * pow2((k - 1) as nat)
    }
}

/// The number of binary digits of `n`.
pub open spec fn bit_len(n: nat) -> nat
    decreases n,
{
    if n == 0 {
        0
    } else {
        1 + bit_len(n / 2)
    }
}

/// `a / d` rounded to the nearest integer, ties to the even one.
pub open spec fn round_half_even_div(a: nat, d: nat) -> nat {
    let q = a / d;
    let r = a % d;
    if 2 * r > d || (2 * r == d && q % 2 == 1) {
        q + 1
    } else {
        q
    }
}

/// The value of `n as f64`: `n` rounded to 53 significant bits, ties to
/// even.
pub open spec fn f64_value(n: nat) -> nat {
    if bit_len(n) <= 53 {
        n
    } else {
        let u = pow2((bit_len(n) - 53) as nat);
        round_half_even_div(n, u) * u
    }
}

/// How many times a value is divided by 1024 before it is printed: until
/// it drops below 1024, at most four times.
pub open spec fn unit_index(v: nat) -> nat {
    if v < 1024 {
        0
    } else if v < 1048576 {
        1
    } else if v < 1073741824 {
        2
    } else if v < 1099511627776 {
        3
    } else {
        4
    }
}

pub open spec fn unit_scale(i: nat) -> nat {
    if i == 0 {
        1
    } else if i == 1 {
        1024
    } else if i == 2 {
        1048576
    } else if i == 3 {
        1073741824
    } else {
        1099511627776
    }
}

pub open spec fn unit_name(i: nat) -> Seq<char> {
    if i == 0 {
        "Б"@
    } else if i == 1 {
        "КБ"@
    } else if i == 2 {
        "МБ"@
    } else if i == 3 {
        "ГБ"@
    } else {
        "ТБ"@
    }
}

pub open spec fn two_digits(x: nat) -> Seq<char> {
    seq![digit_char((x / 10) as int), digit_char((x % 10) as int)]
}

/// A byte count as the pages show it: `0` for nothing; otherwise the count
/// taken as a float, scaled to the largest unit up to terabytes that leaves
/// it at least 1, and printed whole for bytes and kilobytes and with two
/// decimals above, rounded half to even.
pub open spec fn spec_format_bytes(bytes: u64) -> Seq<char> {
    if bytes == 0 {
        "0"@
    } else {
        let v = f64_value(bytes as nat);
        let i = unit_index(v);
        let d = unit_scale(i);
        if i <= 1 {
            decimal(round_half_even_div(v, d)) + " "@ + unit_name(i)
        } else {
            let c = round_half_even_div(v * 100, d);
            decimal(c / 100) + "."@ + two_digits(c % 100) + " "@ + unit_name(i)
        }
    }
}

proof fn lemma_bit_len_bound(n: nat, k: nat)
    requires
        n < pow2(k),
    ensures
        bit_len(n) <= k,
    decreases k,
{
    if n > 0 {
        if k == 0 {
            assert(false);
        } else {
            lemma_bit_len_bound(n / 2, (k - 1) as nat);
        }
    }
}

proof fn lemma_pow2_64()
    ensures
        pow2(64) == 0x1_0000_0000_0000_0000,
{
    reveal_with_fuel(pow2, 65);
}

fn bit_len_exec(n: u64) -> (r: u32)
    ensures
        r == bit_len(n as nat),
        r <= 64,
{
    proof {
        lemma_pow2_64();
        lemma_bit_len_bound(n as nat, 64);
    }
    let mut m = n;
    let mut count: u32 = 0;
    while m > 0
        invariant
            count + bit_len(m as nat) == bit_len(n as nat),
            bit_len(n as nat) <= 64,
        decreases m,
    {
        m = m / 2;
        count = count + 1;
    }
    count
}

fn pow2_exec(k: u32) -> (r: u128)
    requires
        k <= 64,
    ensures
        r == pow2(k as nat),
        r >= 1,
{
    proof {
        lemma_pow2_64();
    }
    let mut r: u128 = 1;
    let mut i: u32 = 0;
    while i < k
        invariant
            i <= k <= 64,
            r == pow2(i as nat),
            pow2(64) == 0x1_0000_0000_0000_0000,
        decreases k - i,
    {
        proof {
            lemma_pow2_mono((i + 1) as nat, 64);
        }
        r = r * 2;
        i = i + 1;
    }
    proof {
        lemma_pow2_mono(k as nat, k as nat);
    }
    r
}

fn round_half_even_div_exec(a: u128, d: u128) -> (r: u128)
    requires
        d > 0,
        a < 0x1_0000_0000_0000_0000_0000_0000,
    ensures
        r == round_half_even_div(a as nat, d as nat),
{
    let q = a / d;
    let rem = a % d;
    if rem > d - rem || (rem == d - rem && q % 2 == 1) {
        q + 1
    } else {
        q
    }
}

fn f64_value_exec(n: u64) -> (r: u128)
    ensures
        r == f64_value(n as nat),
        r <= 0x1_0000_0000_0000_0000u128 + 0x800u128,
{
    let b = bit_len_exec(n);
    if b <= 53 {
        return n as u128;
    }
    let u = pow2_exec(b - 53);
    assert(u <= 2048) by {
        assert(b - 53 <= 11);
        lemma_pow2_mono((b - 53) as nat, 11);
        reveal_with_fuel(pow2, 12);
    }
    let q = round_half_even_div_exec(n as u128, u);
    assert(q * u <= n as u128 + u) by (nonlinear_arith)
        requires
            q == round_half_even_div(n as nat, u as nat),
            u > 0,
    {
        let nn = n as nat;
        let uu = u as nat;
        assert((nn / uu) * uu <= nn);
    }
    q * u
}

proof fn lemma_pow2_mono(a: nat, b: nat)
    requires
        a <= b,
    ensures
        pow2(a) <= pow2(b),
        pow2(a) >= 1,
    decreases b,
{
    if a < b {
        lemma_pow2_mono(a, (b - 1) as nat);
    } else if a > 0 {
        lemma_pow2_mono((a - 1) as nat, (a - 1) as nat);
    }
}

/// Appends the decimal digits of a 128-bit number.
fn push_decimal_u128(s: &mut String, n: u128)
    ensures
        final(s)@ == old(s)@ + decimal(n as nat),
    decreases n,
{
    if n >= 10 {
        push_decimal_u128(s, n / 10);
    }
    let c = digit_char_exec((n % 10) as u64);
    push_char(s, c);
    proof {
        if n >= 10 {
            assert(decimal(n as nat) == decimal((n / 10) as nat).push(c));
        } else {
            assert(decimal(n as nat) == seq![c]);
        }
    }
}

fn unit_name_exec(i: u32) -> (r: &'static str)
    ensures
        r@ == unit_name(i as nat),
{
    if i == 0 {
        "Б"
    } else if i == 1 {
        "КБ"
    } else if i == 2 {
        "МБ"
    } else if i == 3 {
        "ГБ"
    } else {
        "ТБ"
    }
}

/// Prints a byte count with its unit.
pub fn format_bytes(bytes: u64) -> (r: String)
    ensures
        r@ == spec_format_bytes(bytes),
{
    if bytes == 0 {
        let mut s = String::new();
        push_str(&mut s, "0");
        return s;
    }
    let v = f64_value_exec(bytes);
    let (i, d): (u32, u128) = if v < 1024 {
        (0, 1)
    } else if v < 1048576 {
        (1, 1024)
    } else if v < 1073741824 {
        (2, 1048576)
    } else if v < 1099511627776 {
        (3, 1073741824)
    } else {
        (4, 1099511627776)
    };
    let mut s = String::new();
    if i <= 1 {
        let w = round_half_even_div_exec(v, d);
        push_decimal_u128(&mut s, w);
    } else {
        let c = round_half_even_div_exec(v * 100, d);
        push_decimal_u128(&mut s, c / 100);
        push_char(&mut s, '.');
        let t = c % 100;
        push_char(&mut s, digit_char_exec((t / 10) as u64));
        push_char(&mut s, digit_char_exec((t % 10) as u64));
    }
    push_char(&mut s, ' ');
    push_str(&mut s, unit_name_exec(i));
    proof {
        reveal_strlit(" ");
        reveal_strlit(".");
        assert(s@ == spec_format_bytes(bytes));
    }
    s
}


// ---------------------------------------------------------------------------
// GitHub errors
// ---------------------------------------------------------------------------

/// Whether the update state is an error that mentions HTTP 403, the answer
/// GitHub gives when the anonymous request limit is used up.
pub open spec fn spec_is_rate_limit_error(state: UpdateState) -> bool {
    match state {
        UpdateState::Error(e) => contains(e@, "403"@),
        _ => false,
    }
}

pub fn is_rate_limit_error(state: &UpdateState) -> (r: bool)
    ensures
        r == spec_is_rate_limit_error(*state),
{
    match state {
        UpdateState::Error(e) => {
            let v = chars_of(e.as_str());
            contains_str(v.as_slice(), "403")
        },
        _ => false,
    }
}

/// What `str::to_lowercase` makes of a text (full Unicode lower-casing).
pub uninterp spec fn unicode_lowercase(s: Seq<char>) -> Seq<char>;

/// Calls `str::to_lowercase`; trusted only to give back
/// `unicode_lowercase` of the text, which depends on the text alone.
#[verifier::external_body]
fn to_lowercase(s: &str) -> (r: String)
    ensures
        r@ == unicode_lowercase(s@),
{
    s.to_lowercase()
}

pub const GITHUB_403_MESSAGE: &'static str = "GitHub отклонил запрос (HTTP 403). Скорее всего, превышен лимит анонимных запросов к API (60 в час с одного IP). Попробуйте позже.";

pub const GITHUB_404_MESSAGE: &'static str = "Репозиторий или релизы не найдены (HTTP 404).";

pub const GITHUB_OFFLINE_MESSAGE: &'static str = "Нет соединения с GitHub. Проверьте интернет и попробуйте снова.";

pub const GITHUB_OTHER_PREFIX: &'static str = "Не удалось получить данные с GitHub: ";

/// The message for a failed GitHub request, chosen by what the lower-cased
/// error text mentions: HTTP 403, HTTP 404, a network failure, or else the
/// raw text behind a general prefix.
pub open spec fn spec_github_error_message(raw: Seq<char>, lower: Seq<char>) -> Seq<char> {
    if contains(lower, "403"@) {
        GITHUB_403_MESSAGE@
    } else if contains(lower, "404"@) {
        GITHUB_404_MESSAGE@
    } else if contains(lower, "dns"@) || contains(lower, "resolve"@) || contains(lower, "connection"@)
        || contains(lower, "timed out"@) || contains(lower, "timeout"@) {
        GITHUB_OFFLINE_MESSAGE@
    } else {
        GITHUB_OTHER_PREFIX@ + raw
    }
}

/// The message for a failed GitHub request with error text `raw`, whose
/// lower-cased form is `lower`.
pub fn github_error_message(raw: &str, lower: &str) -> (r: String)
    ensures
        r@ == spec_github_error_message(raw@, lower@),
{
    let v = chars_of(lower);
    let l = v.as_slice();
    let mut s = String::new();
    if contains_str(l, "403") {
        push_str(&mut s, GITHUB_403_MESSAGE);
    } else if contains_str(l, "404") {
        push_str(&mut s, GITHUB_404_MESSAGE);
    } else if contains_str(l, "dns") || contains_str(l, "resolve") || contains_str(l, "connection")
        || contains_str(l, "timed out") || contains_str(l, "timeout") {
        push_str(&mut s, GITHUB_OFFLINE_MESSAGE);
    } else {
        push_str(&mut s, GITHUB_OTHER_PREFIX);
        push_str(&mut s, raw);
    }
    s
}

/// Explains a failed GitHub request to the user.
pub fn friendly_github_error(raw: &str) -> (r: String)
    ensures
        r@ == spec_github_error_message(raw@, unicode_lowercase(raw@)),
{
    let lower = to_lowercase(raw);
    github_error_message(raw, lower.as_str())
}

// ---------------------------------------------------------------------------
// Versions
// ---------------------------------------------------------------------------

/// Declares `semver::Version` to Verus as an opaque type, so that a parsed
/// version can be carried in `ParsedVersion`.
#[verifier::external_type_specification]
#[verifier::external_body]
pub struct ExVersion(semver::Version);

/// A version string that `semver::Version::parse` accepted, with the
/// parsed version.
pub struct ParsedVersion {
    text: String,
    version: semver::Version,
}

impl View for ParsedVersion {
    type V = Seq<char>;

    closed spec fn view(&self) -> Seq<char> {
        self.text@
    }
}

/// Whether `semver::Version::parse` accepts a text.
pub uninterp spec fn semver_parses(s: Seq<char>) -> bool;

/// Whether the version parsed from `a` is greater than the one parsed from
/// `b` in `semver::Version`'s order.
pub uninterp spec fn semver_greater(a: Seq<char>, b: Seq<char>) -> bool;

/// Calls `semver::Version::parse`; trusted to return the parsed version
/// together with the text it came from exactly where `semver_parses` holds
/// of the text, and `None` otherwise.
#[verifier::external_body]
fn parse_version(s: &str) -> (r: Option<ParsedVersion>)
    ensures
        r is Some == semver_parses(s@),
        r matches Some(p) ==> p@ == s@,
{
    match semver::Version::parse(s) {
        Ok(version) => Some(ParsedVersion { text: s.to_owned(), version }),
        Err(_) => None,
    }
}

/// Calls `>` on two `semver::Version`s. Trusted to agree with
/// `semver_greater` on the two texts, and, since `Version`'s order is a
/// total order: no version is greater than the one parsed from the same
/// text, and greater is asymmetric.
#[verifier::external_body]
fn version_greater(a: &ParsedVersion, b: &ParsedVersion) -> (r: bool)
    ensures
        r == semver_greater(a@, b@),
        a@ == b@ ==> !r,
        r ==> !semver_greater(b@, a@),
{
    a.version > b.version
}

/// Whether `latest` is a newer release than `current`: compared as semantic
/// versions when both parse, and otherwise whenever the texts differ.
pub open spec fn spec_is_newer(latest: Seq<char>, current: Seq<char>) -> bool {
    if semver_parses(latest) && semver_parses(current) {
        semver_greater(latest, current)
    } else {
        latest != current
    }
}

pub fn is_newer(latest: &str, current: &str) -> (r: bool)
    ensures
        r == spec_is_newer(latest@, current@),
        latest@ == current@ ==> !r,
        semver_parses(latest@) && semver_parses(current@) && r ==> !spec_is_newer(
            current@,
            latest@,
        ),
{
    match (parse_version(latest), parse_version(current)) {
        (Some(l), Some(c)) => version_greater(&l, &c),
        _ => !str_eq(latest, current),
    }
}


// ---------------------------------------------------------------------------
// Releases
// ---------------------------------------------------------------------------

/// `tag.trim_start_matches('v')`: the tag without its leading `v`s.
pub open spec fn strip_leading_v(s: Seq<char>) -> Seq<char>
    decreases s.len(),
{
    if s.len() > 0 && s[0] == 'v' {
        strip_leading_v(s.drop_first())
    } else {
        s
    }
}

/// The version a release tag names.
pub fn release_version_of(tag: &str) -> (r: String)
    ensures
        r@ == strip_leading_v(tag@),
{
    let v = chars_of(tag);
    let mut a: usize = 0;
    proof {
        assert(v@.subrange(0, v@.len() as int) == v@);
    }
    while a < v.len() && v[a] == 'v'
        invariant
            a <= v@.len(),
            v@ == tag@,
            strip_leading_v(tag@) == strip_leading_v(v@.subrange(a as int, v@.len() as int)),
        decreases v.len() - a,
    {
        proof {
            assert(v@.subrange(a as int, v@.len() as int).drop_first() == v@.subrange(
                a + 1,
                v@.len() as int,
            ));
        }
        a = a + 1;
    }
    string_of_range(v.as_slice(), a, v.len())
}

pub const NO_RELEASES_MESSAGE: &'static str = "На GitHub нет ни одного релиза.";

/// The error for a release without a program file.
pub fn no_exe_message(tag: &str) -> (r: String)
    ensures
        r@ == "В релизе "@ + tag@ + " нет .exe-файла."@,
{
    let mut s = String::new();
    push_str(&mut s, "В релизе ");
    push_str(&mut s, tag);
    push_str(&mut s, " нет .exe-файла.");
    s
}

/// An asset named after the program: `windows-settings.exe` in any ASCII
/// case.
pub open spec fn is_program_asset(name: Seq<char>) -> bool {
    eq_ignore_ascii_case(name, REPO_NAME@ + ".exe"@)
}

/// An asset whose name, ASCII lower-cased, ends with `.exe`.
pub open spec fn is_exe_asset(name: Seq<char>) -> bool {
    name.len() >= 4 && eq_ignore_ascii_case(name.skip(name.len() - 4), ".exe"@)
}

pub open spec fn first_program_asset(names: Seq<Seq<char>>) -> Option<int>
    decreases names.len(),
{
    if names.len() == 0 {
        None
    } else if is_program_asset(names[0]) {
        Some(0)
    } else {
        match first_program_asset(names.drop_first()) {
            Some(i) => Some(i + 1),
            None => None,
        }
    }
}

pub open spec fn first_exe_asset(names: Seq<Seq<char>>) -> Option<int>
    decreases names.len(),
{
    if names.len() == 0 {
        None
    } else if is_exe_asset(names[0]) {
        Some(0)
    } else {
        match first_exe_asset(names.drop_first()) {
            Some(i) => Some(i + 1),
            None => None,
        }
    }
}

/// The asset to download: the first named after the program, else the first
/// `.exe`, else none.
pub open spec fn spec_select_asset(names: Seq<Seq<char>>) -> Option<int> {
    match first_program_asset(names) {
        Some(i) => Some(i),
        None => first_exe_asset(names),
    }
}

fn program_asset_name(name: &str) -> (r: bool)
    ensures
        r == is_program_asset(name@),
{
    let v = chars_of(name);
    let n = v.len();
    proof {
        assert(v@.subrange(0, n as int) == v@);
    }
    let mut target = String::new();
    push_str(&mut target, REPO_NAME);
    push_str(&mut target, ".exe");
    range_eq_ignore_ascii_case(v.as_slice(), 0, n, target.as_str())
}

fn exe_asset_name(name: &str) -> (r: bool)
    ensures
        r == is_exe_asset(name@),
{
    let v = chars_of(name);
    let n = v.len();
    if n < 4 {
        return false;
    }
    proof {
        assert(v@.subrange(n - 4, n as int) == v@.skip(n - 4));
    }
    range_eq_ignore_ascii_case(v.as_slice(), n - 4, n, ".exe")
}

/// Picks the release asset to download among the asset names.
pub fn select_release_asset(names: &[String]) -> (r: Option<usize>)
    ensures
        match spec_select_asset(names@.map_values(|s: String| s@)) {
            Some(i) => r == Some(i as usize),
            None => r is None,
        },
{
    let ghost ns = names@.map_values(|s: String| s@);
    let mut k: usize = 0;
    proof {
        assert(ns.skip(0) == ns);
    }
    while k < names.len()
        invariant
            k <= names@.len(),
            ns == names@.map_values(|s: String| s@),
            first_program_asset(ns) == (match first_program_asset(ns.skip(k as int)) {
                Some(i) => Some(i + k),
                None => None,
            }),
        decreases names.len() - k,
    {
        proof {
            assert(ns[k as int] == names@[k as int]@);
            assert(ns.skip(k as int)[0] == ns[k as int]);
            assert(ns.skip(k as int).drop_first() == ns.skip(k + 1));
        }
        if program_asset_name(names[k].as_str()) {
            return Some(k);
        }
        k = k + 1;
    }
    proof {
        assert(ns.skip(names@.len() as int) == Seq::<Seq<char>>::empty());
    }
    let mut j: usize = 0;
    proof {
        assert(ns.skip(0) == ns);
    }
    while j < names.len()
        invariant
            j <= names@.len(),
            ns == names@.map_values(|s: String| s@),
            first_program_asset(ns) is None,
            first_exe_asset(ns) == (match first_exe_asset(ns.skip(j as int)) {
                Some(i) => Some(i + j),
                None => None,
            }),
        decreases names.len() - j,
    {
        proof {
            assert(ns[j as int] == names@[j as int]@);
            assert(ns.skip(j as int)[0] == ns[j as int]);
            assert(ns.skip(j as int).drop_first() == ns.skip(j + 1));
        }
        if exe_asset_name(names[j].as_str()) {
            return Some(j);
        }
        j = j + 1;
    }
    proof {
        assert(ns.skip(names@.len() as int) == Seq::<Seq<char>>::empty());
    }
    None
}

/// Downloads smaller than this many bytes are taken for broken files.
pub const MIN_DOWNLOAD_BYTES: usize = 102400;

pub const EMPTY_DOWNLOAD_MESSAGE: &'static str = "Загруженный файл оказался пустым.";

/// Whether a downloaded program of `len` bytes is usable: an empty or
/// too small download is refused with its own message.
pub fn check_download_size(len: usize) -> (r: Result<(), String>)
    ensures
        len == 0 ==> (r matches Err(e) && e@ == EMPTY_DOWNLOAD_MESSAGE@),
        0 < len < MIN_DOWNLOAD_BYTES ==> (r matches Err(e) && e@ == "Загружено только "@ + decimal(
            len as nat,
        ) + " байт — это явно битый бинарь."@),
        len >= MIN_DOWNLOAD_BYTES ==> r is Ok,
{
    if len == 0 {
        let mut s = String::new();
        push_str(&mut s, EMPTY_DOWNLOAD_MESSAGE);
        return Err(s);
    }
    if len < MIN_DOWNLOAD_BYTES {
        let mut s = String::new();
        push_str(&mut s, "Загружено только ");
        push_decimal(&mut s, len as u64);
        push_str(&mut s, " байт — это явно битый бинарь.");
        return Err(s);
    }
    Ok(())
}

/// The error text for a download answered with another status than 200,
/// or nothing for 200.
pub fn download_status_error(status: u16) -> (r: Option<String>)
    ensures
        status == 200 ==> r is None,
        status != 200 ==> (r matches Some(e) && e@ == spec_github_error_message(
            "HTTP "@ + decimal(status as nat) + " при загрузке asset"@,
            unicode_lowercase("HTTP "@ + decimal(status as nat) + " при загрузке asset"@),
        )),
{
    if status == 200 {
        return None;
    }
    let mut raw = String::new();
    push_str(&mut raw, "HTTP ");
    push_decimal(&mut raw, status as u64);
    push_str(&mut raw, " при загрузке asset");
    Some(friendly_github_error(raw.as_str()))
}

/// The `User-Agent` of the download request: `windows-settings/<version>`.
pub fn user_agent() -> (r: String)
    ensures
        r@ == REPO_NAME@ + "/"@ + APP_VERSION@,
{
    let mut s = String::new();
    push_str(&mut s, REPO_NAME);
    push_str(&mut s, "/");
    push_str(&mut s, APP_VERSION);
    s
}

/// The `Authorization` header value for a token.
pub fn bearer_header(token: &str) -> (r: String)
    ensures
        r@ == "Bearer "@ + token@,
{
    let mut s = String::new();
    push_str(&mut s, "Bearer ");
    push_str(&mut s, token);
    s
}

/// The name of the temporary file the new program is written to.
pub fn update_temp_file_name(stamp: &str) -> (r: String)
    ensures
        r@ == "windows-settings.update."@ + stamp@ + ".exe"@,
{
    let mut s = String::new();
    push_str(&mut s, "windows-settings.update.");
    push_str(&mut s, stamp);
    push_str(&mut s, ".exe");
    s
}

} // verus!
