//! The system facts on the home page: the report script and how its
//! `key=value` lines are read.

use vstd::prelude::*;

use crate::text::{
    char_is_ws, chars_of, find_char, is_ws, lemma_trim_start_shape, push_char, push_str,
    range_eq_str, split, split_bounds, split_once, string_of_range, trim, trim_bounds, trim_start,
};
use crate::types::{empty_sys_info, SysInfo, SysInfoView};

verus! {

/// Prints `os=`, `build=`, `arch=`, `hostname=`, `user=`, `admin=`, `cpu=`,
/// `gpu=` and `ram_gb=` lines.
pub const SYSINFO_SCRIPT: &'static str = r#"
$ErrorActionPreference = 'SilentlyContinue'
$os = Get-CimInstance Win32_OperatingSystem
$cs = Get-CimInstance Win32_ComputerSystem
$cpu = Get-CimInstance Win32_Processor | Select-Object -First 1
$gpus = Get-CimInstance Win32_VideoController | Where-Object { $_.Name } | Select-Object -ExpandProperty Name
try {
    $adm = [bool]([Security.Principal.WindowsPrincipal][Security.Principal.WindowsIdentity]::GetCurrent()).IsInRole([Security.Principal.WindowsBuiltInRole]::Administrator)
} catch { $adm = '' }
"os=$($os.Caption)"
"build=$($os.BuildNumber)"
"arch=$($os.OSArchitecture)"
"hostname=$($cs.Name)"
"user=$env:USERNAME"
"admin=$adm"
"cpu=$($cpu.Name)"
$gpuLine = if ($gpus) { ($gpus -join ', ') } else { '' }
"gpu=$gpuLine"
$ramGb = if ($cs.TotalPhysicalMemory) { [math]::Round($cs.TotalPhysicalMemory/1GB,1) } else { '' }
"ram_gb=$ramGb"
"#;

/// The position of the first white-space character of `s`, or its length.
pub open spec fn first_ws(s: Seq<char>) -> int
    decreases s.len(),
{
    if s.len() == 0 {
        0
    } else if is_ws(s[0]) {
        0
    } else {
        1 + first_ws(s.drop_first())
    }
}

pub proof fn lemma_first_ws(s: Seq<char>)
    ensures
        0 <= first_ws(s) <= s.len(),
        forall|j: int| 0 <= j < first_ws(s) ==> !is_ws(#[trigger] s[j]),
        first_ws(s) < s.len() ==> is_ws(s[first_ws(s)]),
    decreases s.len(),
{
    if s.len() > 0 && !is_ws(s[0]) {
        lemma_first_ws(s.drop_first());
        assert forall|j: int| 0 <= j < first_ws(s) implies !is_ws(#[trigger] s[j]) by {
            if j > 0 {
                assert(s[j] == s.drop_first()[j - 1]);
            }
        }
    }
}

/// The words of `s`: the maximal runs of characters that are not white
/// space, as `str::split_whitespace` yields them.
pub open spec fn words(s: Seq<char>) -> Seq<Seq<char>>
    decreases s.len(),
{
    let t = trim_start(s);
    if t.len() == 0 {
        Seq::empty()
    } else {
        proof {
            lemma_trim_start_shape(s);
            lemma_first_ws(t);
            assert(first_ws(t) >= 1);
        }
        seq![t.take(first_ws(t))] + words(t.skip(first_ws(t)))
    }
}

/// Words joined by single spaces.
pub open spec fn join_space(ws: Seq<Seq<char>>) -> Seq<char>
    decreases ws.len(),
{
    if ws.len() == 0 {
        Seq::empty()
    } else if ws.len() == 1 {
        ws[0]
    } else {
        ws[0] + seq![' '] + join_space(ws.drop_first())
    }
}

pub proof fn lemma_join_space_push(ws: Seq<Seq<char>>, w: Seq<char>)
    ensures
        join_space(ws.push(w)) == (if ws.len() == 0 {
            w
        } else {
            join_space(ws) + seq![' '] + w
        }),
    decreases ws.len(),
{
    assert(seq![w].len() == 1 && seq![w][0] == w);
    assert(join_space(seq![w]) == w);
    if ws.len() == 0 {
        assert(ws.push(w) == seq![w]);
    } else if ws.len() == 1 {
        assert(ws.push(w).drop_first() == seq![w]);
        assert(ws.push(w)[0] == ws[0]);
        assert(join_space(ws) == ws[0]);
        assert(join_space(ws.push(w)) == ws[0] + seq![' '] + w);
    } else {
        assert(ws.push(w).drop_first() == ws.drop_first().push(w));
        assert(ws.push(w)[0] == ws[0]);
        lemma_join_space_push(ws.drop_first(), w);
        let j = join_space(ws.drop_first());
        assert(ws[0] + seq![' '] + (j + seq![' '] + w) == ws[0] + seq![' '] + j + seq![' '] + w);
    }
}

/// `s.split_whitespace().collect::<Vec<_>>().join(" ")`.
pub open spec fn collapse_ws(s: Seq<char>) -> Seq<char> {
    join_space(words(s))
}

/// Collapses the white space of `v[lo..hi]`: the words joined by single
/// spaces.
pub fn collapse_ws_range(v: &[char], lo: usize, hi: usize) -> (r: String)
    requires
        lo <= hi <= v@.len(),
    ensures
        r@ == collapse_ws(v@.subrange(lo as int, hi as int)),
{
    let ghost whole = v@.subrange(lo as int, hi as int);
    let ghost mut done: Seq<Seq<char>> = Seq::empty();
    let mut out = String::new();
    let mut pos = lo;
    let mut any = false;
    loop
        invariant
            lo <= pos <= hi <= v@.len(),
            any == (done.len() > 0),
            whole == v@.subrange(lo as int, hi as int),
            words(whole) == done + words(v@.subrange(pos as int, hi as int)),
            out@ == join_space(done),
        decreases hi - pos,
    {
        let ghost rest = v@.subrange(pos as int, hi as int);
        let mut a = pos;
        while a < hi && char_is_ws(v[a])
            invariant
                pos <= a <= hi <= v@.len(),
                rest == v@.subrange(pos as int, hi as int),
                trim_start(rest) == trim_start(v@.subrange(a as int, hi as int)),
            decreases hi - a,
        {
            proof {
                assert(v@.subrange(a as int, hi as int).drop_first() == v@.subrange(
                    a + 1,
                    hi as int,
                ));
            }
            a = a + 1;
        }
        let ghost t = v@.subrange(a as int, hi as int);
        proof {
            if a < hi {
                assert(t[0] == v@[a as int]);
            }
            assert(trim_start(t) == t);
        }
        if a == hi {
            proof {
                assert(words(rest) == Seq::<Seq<char>>::empty());
                assert(done + Seq::<Seq<char>>::empty() == done);
            }
            return out;
        }
        let mut e = a;
        while e < hi && !char_is_ws(v[e])
            invariant
                a <= e <= hi <= v@.len(),
                t == v@.subrange(a as int, hi as int),
                forall|j: int| a <= j < e ==> !is_ws(#[trigger] v@[j]),
            decreases hi - e,
        {
            e = e + 1;
        }
        proof {
            lemma_first_ws(t);
            assert forall|j: int| 0 <= j < e - a implies !is_ws(#[trigger] t[j]) by {
                assert(t[j] == v@[a + j]);
            }
            if e < hi {
                assert(t[e - a] == v@[e as int]);
            }
            if first_ws(t) < e - a {
                assert(t[first_ws(t)] == v@[a + first_ws(t)]);
            }
            assert(first_ws(t) == e - a);
            assert(t.take(e - a) == v@.subrange(a as int, e as int));
            assert(t.skip(e - a) == v@.subrange(e as int, hi as int));
            assert(words(rest) == seq![v@.subrange(a as int, e as int)] + words(
                v@.subrange(e as int, hi as int),
            ));
            lemma_join_space_push(done, v@.subrange(a as int, e as int));
        }
        let w = string_of_range(v, a, e);
        if any {
            push_char(&mut out, ' ');
        }
        push_str(&mut out, w.as_str());
        proof {
            if !any {
                assert(Seq::<char>::empty() + v@.subrange(a as int, e as int) == v@.subrange(
                    a as int,
                    e as int,
                ));
            }
            done = done.push(v@.subrange(a as int, e as int));
        }
        any = true;
        pos = e;
    }
}

/// One `key=value` line of the report: each known key sets its fact, the
/// CPU name with its white space collapsed and `admin` read as `True`,
/// `False` or unknown; other lines are ignored.
pub open spec fn sys_step(info: SysInfoView, raw: Seq<char>) -> SysInfoView {
    match split_once(trim(raw), '=') {
        None => info,
        Some((k, v0)) => {
            let key = trim(k);
            let v = trim(v0);
            if key == "os"@ {
                SysInfoView { os: v, ..info }
            } else if key == "build"@ {
                SysInfoView { build: v, ..info }
            } else if key == "arch"@ {
                SysInfoView { arch: v, ..info }
            } else if key == "hostname"@ {
                SysInfoView { hostname: v, ..info }
            } else if key == "user"@ {
                SysInfoView { user: v, ..info }
            } else if key == "admin"@ {
                SysInfoView {
                    is_admin: if v == "True"@ {
                        Some(true)
                    } else if v == "False"@ {
                        Some(false)
                    } else {
                        None
                    },
                    ..info
                }
            } else if key == "cpu"@ {
                SysInfoView { cpu: collapse_ws(v), ..info }
            } else if key == "gpu"@ {
                SysInfoView { gpu: v, ..info }
            } else if key == "ram_gb"@ {
                SysInfoView { ram_gb: v, ..info }
            } else {
                info
            }
        },
    }
}

pub open spec fn sys_lines(lines: Seq<Seq<char>>, info: SysInfoView) -> SysInfoView
    decreases lines.len(),
{
    if lines.len() == 0 {
        info
    } else {
        sys_lines(lines.drop_first(), sys_step(info, lines[0]))
    }
}

pub open spec fn spec_parse_sys_info_output(out: Seq<char>) -> SysInfoView {
    sys_lines(split(out, '\n'), empty_sys_info())
}

fn sys_apply_line(info: &mut SysInfo, v: &[char], lo: usize, hi: usize)
    requires
        lo <= hi <= v@.len(),
    ensures
        final(info)@ == sys_step(old(info)@, v@.subrange(lo as int, hi as int)),
{
    let (a, b) = trim_bounds(v, lo, hi);
    let ghost line = v@.subrange(a as int, b as int);
    let e = match find_char(v, a, b, '=') {
        Some(e) => e,
        None => {
            return ;
        },
    };
    proof {
        assert(line.take(e - a) == v@.subrange(a as int, e as int));
        assert(line.skip(e - a + 1) == v@.subrange(e + 1, b as int));
    }
    let (ka, kb) = trim_bounds(v, a, e);
    let (va, vb) = trim_bounds(v, e + 1, b);
    if range_eq_str(v, ka, kb, "os") {
        info.os = string_of_range(v, va, vb);
    } else if range_eq_str(v, ka, kb, "build") {
        info.build = string_of_range(v, va, vb);
    } else if range_eq_str(v, ka, kb, "arch") {
        info.arch = string_of_range(v, va, vb);
    } else if range_eq_str(v, ka, kb, "hostname") {
        info.hostname = string_of_range(v, va, vb);
    } else if range_eq_str(v, ka, kb, "user") {
        info.user = string_of_range(v, va, vb);
    } else if range_eq_str(v, ka, kb, "admin") {
        info.is_admin = if range_eq_str(v, va, vb, "True") {
            Some(true)
        } else if range_eq_str(v, va, vb, "False") {
            Some(false)
        } else {
            None
        };
    } else if range_eq_str(v, ka, kb, "cpu") {
        info.cpu = collapse_ws_range(v, va, vb);
    } else if range_eq_str(v, ka, kb, "gpu") {
        info.gpu = string_of_range(v, va, vb);
    } else if range_eq_str(v, ka, kb, "ram_gb") {
        info.ram_gb = string_of_range(v, va, vb);
    }
}

/// Reads the report printed by `SYSINFO_SCRIPT`.
pub fn parse_sys_info_output(out: &str) -> (r: SysInfo)
    ensures
        r@ == spec_parse_sys_info_output(out@),
{
    let v = chars_of(out);
    let lines = split_bounds(v.as_slice(), '\n');
    let ghost pieces = split(v@, '\n');
    let mut info = SysInfo::default();
    let mut k: usize = 0;
    proof {
        assert(pieces.skip(0) == pieces);
    }
    while k < lines.len()
        invariant
            pieces == split(v@, '\n'),
            lines@.len() == pieces.len(),
            forall|j: int|
                0 <= j < lines@.len() ==> (#[trigger] lines@[j]).0 <= lines@[j].1 <= v@.len()
                    && v@.subrange(lines@[j].0 as int, lines@[j].1 as int) == pieces[j],
            k <= lines@.len(),
            spec_parse_sys_info_output(out@) == sys_lines(pieces.skip(k as int), info@),
            v@ == out@,
        decreases lines.len() - k,
    {
        let (lo, hi) = lines[k];
        proof {
            assert(pieces.skip(k as int)[0] == pieces[k as int]);
            assert(pieces.skip(k as int).drop_first() == pieces.skip(k + 1));
        }
        sys_apply_line(&mut info, v.as_slice(), lo, hi);
        k = k + 1;
    }
    info
}

/// The facts from a run of `SYSINFO_SCRIPT`: parsed when the run
/// succeeded, none when it failed.
pub fn sys_info_from_run(ok: bool, out: &str) -> (r: SysInfo)
    ensures
        r@ == (if ok {
            spec_parse_sys_info_output(out@)
        } else {
            empty_sys_info()
        }),
{
    if !ok {
        return SysInfo::default();
    }
    parse_sys_info_output(out)
}

} // verus!
