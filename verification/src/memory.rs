//! The memory page: the report script and how its one-line answer is read,
//! and the script that runs an operation on the memory lists.

use vstd::prelude::*;

use crate::text::{
    lemma_split_append, trim_end, trim_start, chars_of, decimal, find_char, index_of, parse_unsigned, parse_unsigned_range, push_char,
    push_decimal, push_str, range_eq_str, split, split_bounds, split_bounds_range, split_once, trim,
    trim_bounds,
};
use crate::types::{MemInfo, MemOp};

verus! {

/// Prints `total=..;avail=..;standby=..;modified=..;free=..;load=..`, the
/// physical memory and the standby, modified and free lists in bytes.
pub const MEM_INFO_SCRIPT: &'static str = r#"
$ErrorActionPreference = 'SilentlyContinue'
$src = @'
using System;
using System.Runtime.InteropServices;

public static class WSMemInfo {
    [DllImport("ntdll.dll")]
    public static extern uint NtQuerySystemInformation(int Class, IntPtr Info, int Length, out int RetLen);

    [DllImport("kernel32.dll", SetLastError = true)]
    [return: MarshalAs(UnmanagedType.Bool)]
    public static extern bool GlobalMemoryStatusEx(ref MEMORYSTATUSEX lpBuffer);

    [StructLayout(LayoutKind.Sequential, CharSet = CharSet.Auto)]
    public struct MEMORYSTATUSEX {
        public uint dwLength;
        public uint dwMemoryLoad;
        public ulong ullTotalPhys;
        public ulong ullAvailPhys;
        public ulong ullTotalPageFile;
        public ulong ullAvailPageFile;
        public ulong ullTotalVirtual;
        public ulong ullAvailVirtual;
        public ulong ullAvailExtendedVirtual;
    }

    public static string Get() {
        var ms = new MEMORYSTATUSEX();
        ms.dwLength = (uint)Marshal.SizeOf(typeof(MEMORYSTATUSEX));
        GlobalMemoryStatusEx(ref ms);

        // SystemMemoryListInformation = 80 (0x50). Размер структуры:
        // ZeroPage, FreePage, ModifiedPage, ModifiedNoWritePage, BadPage,
        // PageCountByPriority[8], RepurposedPagesByPriority[8], ModifiedPageCountPageFile
        // = 5 + 8 + 8 + 1 = 22 SIZE_T полей.
        int slots = 22;
        int sz = IntPtr.Size * slots;
        IntPtr buf = Marshal.AllocHGlobal(sz);
        ulong standby = 0;
        ulong modified = 0;
        ulong free = 0;
        try {
            int ret;
            uint status = NtQuerySystemInformation(80, buf, sz, out ret);
            if (status == 0) {
                int psz = Environment.SystemPageSize;
                long zp = Read(buf, 0);
                long fp = Read(buf, 1);
                long mp = Read(buf, 2);
                free = (ulong)(zp + fp) * (ulong)psz;
                modified = (ulong)mp * (ulong)psz;
                long s = 0;
                for (int i = 0; i < 8; i++) s += Read(buf, 5 + i);
                standby = (ulong)s * (ulong)psz;
            }
        } finally {
            Marshal.FreeHGlobal(buf);
        }
        return string.Format(
            "total={0};avail={1};standby={2};modified={3};free={4};load={5}",
            ms.ullTotalPhys, ms.ullAvailPhys, standby, modified, free, ms.dwMemoryLoad);
    }

    static long Read(IntPtr p, int idx) {
        IntPtr v = Marshal.ReadIntPtr(p, idx * IntPtr.Size);
        return v.ToInt64();
    }
}
'@
Add-Type -TypeDefinition $src -Language CSharp | Out-Null
[WSMemInfo]::Get()
"#;

/// Runs `NtSetSystemInformation(SystemMemoryListInformation, $Cmd)` after
/// enabling the privileges it needs; prints `ok` or the failing status.
pub const MEM_CLEAN_SCRIPT: &'static str = r#"
$ErrorActionPreference = 'Stop'
$src = @'
using System;
using System.Runtime.InteropServices;

public static class WSMemClean {
    // ВАЖНО: LUID должен быть отдельной структурой из двух 32-битных полей.
    // Если объявить его как `long` внутри TOKEN_PRIVILEGES, в 64-битном
    // процессе компилятор добавит 4 байта padding между PrivilegeCount и
    // Luid (natural alignment Int64 = 8). Из-за этого LUID уезжает на
    // неверное смещение, AdjustTokenPrivileges вернёт ERROR_NOT_ALL_ASSIGNED
    // (1300), привилегия не включится, и NtSetSystemInformation упадёт с
    // STATUS_PRIVILEGE_NOT_HELD (0xC0000061).
    [StructLayout(LayoutKind.Sequential)]
    public struct LUID {
        public uint LowPart;
        public int HighPart;
    }

    [StructLayout(LayoutKind.Sequential)]
    public struct TOKEN_PRIVILEGES {
        public uint PrivilegeCount;
        public LUID Luid;
        public uint Attributes;
    }

    [DllImport("ntdll.dll")]
    public static extern uint NtSetSystemInformation(int InfoClass, IntPtr Info, int Length);

    [DllImport("advapi32.dll", SetLastError = true)]
    [return: MarshalAs(UnmanagedType.Bool)]
    public static extern bool OpenProcessToken(IntPtr ProcessHandle, uint DesiredAccess, out IntPtr TokenHandle);

    [DllImport("advapi32.dll", SetLastError = true, CharSet = CharSet.Auto)]
    [return: MarshalAs(UnmanagedType.Bool)]
    public static extern bool LookupPrivilegeValue(string lpSystemName, string lpName, out LUID lpLuid);

    [DllImport("advapi32.dll", SetLastError = true)]
    [return: MarshalAs(UnmanagedType.Bool)]
    public static extern bool AdjustTokenPrivileges(IntPtr TokenHandle, [MarshalAs(UnmanagedType.Bool)] bool DisableAllPrivileges, ref TOKEN_PRIVILEGES NewState, uint BufferLength, IntPtr PreviousState, IntPtr ReturnLength);

    [DllImport("kernel32.dll")]
    public static extern IntPtr GetCurrentProcess();

    [DllImport("kernel32.dll", SetLastError = true)]
    [return: MarshalAs(UnmanagedType.Bool)]
    public static extern bool CloseHandle(IntPtr h);

    const uint SE_PRIVILEGE_ENABLED = 0x00000002;
    const uint TOKEN_ADJUST_PRIVILEGES = 0x0020;
    const uint TOKEN_QUERY = 0x0008;

    static bool Enable(string name) {
        IntPtr token;
        if (!OpenProcessToken(GetCurrentProcess(), TOKEN_ADJUST_PRIVILEGES | TOKEN_QUERY, out token)) return false;
        try {
            LUID luid;
            if (!LookupPrivilegeValue(null, name, out luid)) return false;
            var tp = new TOKEN_PRIVILEGES {
                PrivilegeCount = 1,
                Luid = luid,
                Attributes = SE_PRIVILEGE_ENABLED
            };
            if (!AdjustTokenPrivileges(token, false, ref tp, 0, IntPtr.Zero, IntPtr.Zero)) return false;
            // Windows возвращает true даже если привилегии нет; реальный статус — в GetLastError.
            return Marshal.GetLastWin32Error() == 0;
        } finally {
            CloseHandle(token);
        }
    }

    public static uint Run(int command) {
        Enable("SeProfileSingleProcessPrivilege");
        Enable("SeIncreaseQuotaPrivilege");
        IntPtr ptr = Marshal.AllocHGlobal(4);
        try {
            Marshal.WriteInt32(ptr, command);
            // SystemMemoryListInformation = 80
            return NtSetSystemInformation(80, ptr, 4);
        } finally {
            Marshal.FreeHGlobal(ptr);
        }
    }
}
'@
Add-Type -TypeDefinition $src -Language CSharp | Out-Null
$status = [WSMemClean]::Run($Cmd)
if ($status -eq 0) {
    Write-Output "ok"
    exit 0
} else {
    Write-Output ("NtSetSystemInformation status=0x{0:X8} (0xC0000061 = STATUS_PRIVILEGE_NOT_HELD, нужны права администратора)" -f $status)
    exit 1
}
"#;

/// A parsed number, or 0 where `str::parse` fails (`parse().unwrap_or(0)`).
pub open spec fn parse_or_zero(s: Seq<char>, max: nat) -> nat {
    match parse_unsigned(s, max) {
        Some(n) => n,
        None => 0,
    }
}

/// No figures known.
pub open spec fn zero_mem_info() -> MemInfo {
    MemInfo {
        total_bytes: 0,
        avail_bytes: 0,
        standby_bytes: 0,
        modified_bytes: 0,
        free_bytes: 0,
        memory_load: 0,
    }
}

/// One `key=value` part of the report line: the six known keys set their
/// figure, anything else is ignored.
pub open spec fn mem_part_step(info: MemInfo, part: Seq<char>) -> MemInfo {
    match split_once(part, '=') {
        None => info,
        Some((k, v)) => {
            let key = trim(k);
            let n = parse_or_zero(trim(v), u64::MAX as nat) as u64;
            if key == "total"@ {
                MemInfo { total_bytes: n, ..info }
            } else if key == "avail"@ {
                MemInfo { avail_bytes: n, ..info }
            } else if key == "standby"@ {
                MemInfo { standby_bytes: n, ..info }
            } else if key == "modified"@ {
                MemInfo { modified_bytes: n, ..info }
            } else if key == "free"@ {
                MemInfo { free_bytes: n, ..info }
            } else if key == "load"@ {
                MemInfo { memory_load: parse_or_zero(trim(v), u32::MAX as nat) as u32, ..info }
            } else {
                info
            }
        },
    }
}

/// The `;`-separated parts of a line applied in order.
pub open spec fn mem_parts(parts: Seq<Seq<char>>, info: MemInfo) -> MemInfo
    decreases parts.len(),
{
    if parts.len() == 0 {
        info
    } else {
        mem_parts(parts.drop_first(), mem_part_step(info, parts[0]))
    }
}

/// The report read line by line: blank lines and lines without `=` are
/// skipped, and reading stops after the first line that leaves a non-zero
/// total.
pub open spec fn mem_lines(lines: Seq<Seq<char>>, info: MemInfo) -> MemInfo
    decreases lines.len(),
{
    if lines.len() == 0 {
        info
    } else {
        let line = trim(lines[0]);
        if line.len() == 0 || index_of(line, '=') is None {
            mem_lines(lines.drop_first(), info)
        } else {
            let next = mem_parts(split(line, ';'), info);
            if next.total_bytes > 0 {
                next
            } else {
                mem_lines(lines.drop_first(), next)
            }
        }
    }
}

pub open spec fn spec_parse_mem_info_output(out: Seq<char>) -> MemInfo {
    mem_lines(split(out, '\n'), zero_mem_info())
}

/// A blank last line changes nothing.
proof fn lemma_mem_lines_blank_tail(lines: Seq<Seq<char>>, info: MemInfo)
    ensures
        mem_lines(lines + seq![Seq::<char>::empty()], info) == mem_lines(lines, info),
    decreases lines.len(),
{
    let l = lines + seq![Seq::<char>::empty()];
    if lines.len() == 0 {
        let e = Seq::<char>::empty();
        assert(l[0] == e);
        assert(trim_start(e) == e);
        assert(trim_end(e) == e);
        assert(trim(l[0]).len() == 0);
        assert(l.drop_first() == Seq::<Seq<char>>::empty());
        assert(mem_lines(l, info) == mem_lines(l.drop_first(), info));
    } else {
        assert(l[0] == lines[0]);
        assert(l.drop_first() == lines.drop_first() + seq![Seq::<char>::empty()]);
        let line = trim(lines[0]);
        if line.len() == 0 || index_of(line, '=') is None {
            lemma_mem_lines_blank_tail(lines.drop_first(), info);
        } else {
            lemma_mem_lines_blank_tail(lines.drop_first(), mem_parts(split(line, ';'), info));
        }
    }
}

/// Once a line leaves a non-zero total, the lines after it are not read.
proof fn lemma_mem_lines_stop(l1: Seq<Seq<char>>, l2: Seq<Seq<char>>, info: MemInfo)
    requires
        info.total_bytes == 0,
        mem_lines(l1, info).total_bytes > 0,
    ensures
        mem_lines(l1 + l2, info) == mem_lines(l1, info),
    decreases l1.len(),
{
    if l1.len() > 0 {
        let l = l1 + l2;
        assert(l[0] == l1[0]);
        assert(l.drop_first() == l1.drop_first() + l2);
        let line = trim(l1[0]);
        if line.len() == 0 || index_of(line, '=') is None {
            lemma_mem_lines_stop(l1.drop_first(), l2, info);
        } else {
            let next = mem_parts(split(line, ';'), info);
            if next.total_bytes == 0 {
                lemma_mem_lines_stop(l1.drop_first(), l2, next);
            }
        }
    }
}

/// The report is read up to the first line that gives a non-zero total:
/// whatever follows a report whose complete lines already give one does
/// not change the figures.
pub proof fn lemma_mem_report_stops_at_total(a: Seq<char>, b: Seq<char>)
    requires
        a.len() > 0,
        a.last() == '\n',
        spec_parse_mem_info_output(a).total_bytes > 0,
    ensures
        spec_parse_mem_info_output(a + b) == spec_parse_mem_info_output(a),
{
    lemma_split_append(a, b, '\n');
    let d = split(a, '\n').drop_last();
    lemma_split_append(a, Seq::<char>::empty(), '\n');
    assert(a + Seq::<char>::empty() == a);
    assert(split(Seq::<char>::empty(), '\n') == seq![Seq::<char>::empty()]);
    lemma_mem_lines_blank_tail(d, zero_mem_info());
    lemma_mem_lines_stop(d, split(b, '\n'), zero_mem_info());
}

fn mem_apply_part(info: MemInfo, v: &[char], lo: usize, hi: usize) -> (r: MemInfo)
    requires
        lo <= hi <= v@.len(),
    ensures
        r == mem_part_step(info, v@.subrange(lo as int, hi as int)),
{
    let ghost part = v@.subrange(lo as int, hi as int);
    let e = match find_char(v, lo, hi, '=') {
        Some(e) => e,
        None => {
            return info;
        },
    };
    proof {
        assert(part.take(e - lo) == v@.subrange(lo as int, e as int));
        assert(part.skip(e - lo + 1) == v@.subrange(e + 1, hi as int));
    }
    let (ka, kb) = trim_bounds(v, lo, e);
    let (va, vb) = trim_bounds(v, e + 1, hi);
    let n: u64 = match parse_unsigned_range(v, va, vb, u64::MAX) {
        Some(n) => n,
        None => 0,
    };
    let mut r = info;
    if range_eq_str(v, ka, kb, "total") {
        r.total_bytes = n;
    } else if range_eq_str(v, ka, kb, "avail") {
        r.avail_bytes = n;
    } else if range_eq_str(v, ka, kb, "standby") {
        r.standby_bytes = n;
    } else if range_eq_str(v, ka, kb, "modified") {
        r.modified_bytes = n;
    } else if range_eq_str(v, ka, kb, "free") {
        r.free_bytes = n;
    } else if range_eq_str(v, ka, kb, "load") {
        let m: u64 = match parse_unsigned_range(v, va, vb, 0xFFFF_FFFF) {
            Some(m) => m,
            None => 0,
        };
        r.memory_load = m as u32;
    }
    r
}

fn mem_apply_line(info: MemInfo, v: &[char], lo: usize, hi: usize) -> (r: MemInfo)
    requires
        lo <= hi <= v@.len(),
    ensures
        r == mem_parts(split(v@.subrange(lo as int, hi as int), ';'), info),
{
    let parts = split_bounds_range(v, lo, hi, ';');
    let ghost pieces = split(v@.subrange(lo as int, hi as int), ';');
    let mut acc = info;
    let mut k: usize = 0;
    proof {
        assert(pieces.skip(0) == pieces);
    }
    while k < parts.len()
        invariant
            pieces == split(v@.subrange(lo as int, hi as int), ';'),
            parts@.len() == pieces.len(),
            forall|j: int|
                0 <= j < parts@.len() ==> lo <= (#[trigger] parts@[j]).0 <= parts@[j].1 <= hi
                    && v@.subrange(parts@[j].0 as int, parts@[j].1 as int) == pieces[j],
            hi <= v@.len(),
            k <= parts@.len(),
            mem_parts(pieces, info) == mem_parts(pieces.skip(k as int), acc),
        decreases parts.len() - k,
    {
        let (pa, pb) = parts[k];
        proof {
            assert(pieces.skip(k as int)[0] == pieces[k as int]);
            assert(pieces.skip(k as int).drop_first() == pieces.skip(k + 1));
        }
        acc = mem_apply_part(acc, v, pa, pb);
        k = k + 1;
    }
    acc
}

/// Reads the memory report printed by `MEM_INFO_SCRIPT`.
pub fn parse_mem_info_output(out: &str) -> (r: MemInfo)
    ensures
        r == spec_parse_mem_info_output(out@),
{
    let v = chars_of(out);
    let lines = split_bounds(v.as_slice(), '\n');
    let ghost pieces = split(v@, '\n');
    let mut info = MemInfo {
        total_bytes: 0,
        avail_bytes: 0,
        standby_bytes: 0,
        modified_bytes: 0,
        free_bytes: 0,
        memory_load: 0,
    };
    let mut k: usize = 0;
    proof {
        assert(pieces.skip(0) == pieces);
    }
    while k < lines.len()
        invariant
            pieces == split(v@, '\n'),
            lines@.len() == pieces.len(),
            forall|j: int|
                0 <= j < lines@.len() ==> (#[trigger] lines@[j]).0 <= lines@[j].1 <= v@.len()
                    && v@.subrange(lines@[j].0 as int, lines@[j].1 as int) == pieces[j],
            k <= lines@.len(),
            spec_parse_mem_info_output(out@) == mem_lines(pieces.skip(k as int), info),
            v@ == out@,
        decreases lines.len() - k,
    {
        let (lo, hi) = lines[k];
        proof {
            assert(pieces.skip(k as int)[0] == pieces[k as int]);
            assert(pieces.skip(k as int).drop_first() == pieces.skip(k + 1));
        }
        let (a, b) = trim_bounds(v.as_slice(), lo, hi);
        if a < b {
            match find_char(v.as_slice(), a, b, '=') {
                Some(_) => {
                    info = mem_apply_line(info, v.as_slice(), a, b);
                    if info.total_bytes > 0 {
                        return info;
                    }
                },
                None => {},
            }
        }
        k = k + 1;
    }
    info
}

/// The script that runs one memory-list operation: it sets `$Cmd` to the
/// operation's command number before the common body.
pub open spec fn spec_mem_clean_script(op: MemOp) -> Seq<char> {
    "$Cmd = "@ + decimal(op.spec_command() as nat) + seq!['\n'] + MEM_CLEAN_SCRIPT@
}

pub fn build_mem_clean_script(op: MemOp) -> (r: String)
    ensures
        r@ == spec_mem_clean_script(op),
{
    let cmd = op.command();
    let mut s = String::new();
    push_str(&mut s, "$Cmd = ");
    push_decimal(&mut s, cmd as u64);
    push_char(&mut s, '\n');
    push_str(&mut s, MEM_CLEAN_SCRIPT);
    s
}

/// The figures from a run of `MEM_INFO_SCRIPT`: parsed when the run
/// succeeded, all zero when it failed.
pub fn mem_info_from_run(ok: bool, out: &str) -> (r: MemInfo)
    ensures
        r == (if ok {
            spec_parse_mem_info_output(out@)
        } else {
            zero_mem_info()
        }),
{
    if !ok {
        return MemInfo {
            total_bytes: 0,
            avail_bytes: 0,
            standby_bytes: 0,
            modified_bytes: 0,
            free_bytes: 0,
            memory_load: 0,
        };
    }
    parse_mem_info_output(out)
}

} // verus!
