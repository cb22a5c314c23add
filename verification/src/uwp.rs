//! The UWP page: the applications it lists, how the installed packages are
//! read, and the scripts that remove and restore a package.  The Xbox Game
//! Bar is not removed but switched off and on through its registry values.

use vstd::prelude::*;

use crate::text::{
    chars_of, eq_ignore_ascii_case, push_decimal, push_char, push_str, range_eq_ignore_ascii_case,
    split, split_bounds, string_of_range, trim, trim_bounds, decimal, ascii_lower,
    char_eq_ignore_ascii_case,
};
use crate::types::{Card, Status};

verus! {

/// The package of the Xbox Game Bar.
pub const XBOX_GAME_BAR_PACKAGE: &'static str = "Microsoft.XboxGamingOverlay";

/// The listed applications as `(title, package, description)`, in order.
pub open spec fn uwp_table() -> Seq<(Seq<char>, Seq<char>, Seq<char>)> {
    seq![
        ("Microsoft Store"@, "Microsoft.WindowsStore"@, "Официальный магазин приложений Windows."@),
        ("Калькулятор"@, "Microsoft.WindowsCalculator"@, "Стандартный калькулятор Windows."@),
        ("Камера"@, "Microsoft.WindowsCamera"@, "Фото и видео с веб-камеры."@),
        ("Часы"@, "Microsoft.WindowsAlarms"@, "Будильники, таймеры, секундомер и мировое время."@),
        ("Календарь и Почта"@, "microsoft.windowscommunicationsapps"@, "Почтовый клиент и календарь."@),
        ("Карты"@, "Microsoft.WindowsMaps"@, "Карты, поиск мест и маршруты."@),
        ("Новости"@, "Microsoft.BingNews"@, "Лента новостей Microsoft."@),
        ("Microsoft To Do"@, "Microsoft.Todos"@, "Списки задач и напоминания."@),
        ("Кино и ТВ"@, "Microsoft.ZuneVideo"@, "Просмотр видео и фильмов."@),
        ("Microsoft Solitaire Collection"@, "Microsoft.MicrosoftSolitaireCollection"@, "Коллекция пасьянсов."@),
        ("OneNote для Windows 10"@, "Microsoft.Office.OneNote"@, "Цифровой блокнот OneNote."@),
        ("Paint"@, "Microsoft.Paint"@, "Графический редактор Paint."@),
        ("Люди"@, "Microsoft.People"@, "Адресная книга и контакты."@),
        ("Связь с телефоном"@, "Microsoft.YourPhone"@, "Phone Link: связь с Android/iPhone."@),
        ("Фотографии"@, "Microsoft.Windows.Photos"@, "Просмотр и редактирование фото."@),
        ("Быстрая помощь"@, "MicrosoftCorporationII.QuickAssist"@, "Quick Assist: удалённая помощь."@),
        ("Ножницы"@, "Microsoft.ScreenSketch"@, "Snipping Tool: снимки и запись экрана."@),
        ("Запись голоса"@, "Microsoft.WindowsSoundRecorder"@, "Диктофон."@),
        ("Записки"@, "Microsoft.MicrosoftStickyNotes"@, "Sticky Notes: заметки."@),
        ("Советы"@, "Microsoft.Getstarted"@, "Подсказки и руководства по Windows."@),
        ("Погода"@, "Microsoft.BingWeather"@, "Прогноз погоды."@),
        ("Безопасность Windows"@, "Microsoft.SecHealthUI"@, "Windows Defender: антивирус."@),
        ("Терминал Windows"@, "Microsoft.WindowsTerminal"@, "Современный терминал Windows."@),
        ("Xbox"@, "Microsoft.GamingApp"@, "Игровой клиент Xbox и Game Pass."@),
        ("Xbox Game Bar"@, "Microsoft.XboxGamingOverlay"@, "Игровая панель Xbox."@),
        ("Clipchamp"@, "Clipchamp.Clipchamp"@, "Видеоредактор Clipchamp."@),
        ("Microsoft Teams"@, "MSTeams"@, "Чат, звонки, видеоконференции."@),
        ("Блокнот"@, "Microsoft.WindowsNotepad"@, "Текстовый редактор Notepad."@),
        ("Проигрыватель Windows Media"@, "Microsoft.ZuneMusic"@, "Media Player для музыки и видео."@),
        ("Microsoft Family"@, "MicrosoftCorporationII.MicrosoftFamily"@, "Родительский контроль."@),
        ("Power Automate"@, "Microsoft.PowerAutomateDesktop"@, "Автоматизация задач."@),
        ("Получение справки"@, "Microsoft.GetHelp"@, "Get Help: справка Microsoft."@),
        ("Центр отзывов"@, "Microsoft.WindowsFeedbackHub"@, "Feedback Hub."@),
        ("Cortana"@, "Microsoft.549981C3F5F10"@, "Голосовой помощник Cortana."@),
        ("App Installer"@, "Microsoft.DesktopAppInstaller"@, "winget и установщик пакетов."@),
        ("Photon (File Explorer)"@, "MicrosoftWindows.Client.Photon"@, "Современный проводник Windows 11."@),
        ("Параметры"@, "windows.immersivecontrolpanel"@, "Системные настройки Windows."@),
    ]
}

/// A card as the page starts with it: status unknown, idle, no log.
pub open spec fn is_fresh_card(card: Card, entry: (Seq<char>, Seq<char>, Seq<char>)) -> bool {
    &&& card.title@ == entry.0
    &&& card.package@ == entry.1
    &&& card.description@ == entry.2
    &&& card.status == Status::Unknown
    &&& !card.busy
    &&& card.log is None
}

fn uwp_card(title: &str, package: &str, description: &str) -> (r: Card)
    ensures
        is_fresh_card(r, (title@, package@, description@)),
{
    Card {
        title: title.to_owned(),
        description: description.to_owned(),
        package: package.to_owned(),
        status: Status::Unknown,
        busy: false,
        log: None,
    }
}

/// The cards of the UWP page, one per listed application, in order.
pub fn uwp_apps() -> (r: Vec<Card>)
    ensures
        r@.len() == uwp_table().len(),
        forall|k: int| 0 <= k < r@.len() ==> is_fresh_card(#[trigger] r@[k], uwp_table()[k]),
{
    let mut r: Vec<Card> = Vec::new();
    r.push(uwp_card("Microsoft Store", "Microsoft.WindowsStore", "Официальный магазин приложений Windows."));
    r.push(uwp_card("Калькулятор", "Microsoft.WindowsCalculator", "Стандартный калькулятор Windows."));
    r.push(uwp_card("Камера", "Microsoft.WindowsCamera", "Фото и видео с веб-камеры."));
    r.push(uwp_card("Часы", "Microsoft.WindowsAlarms", "Будильники, таймеры, секундомер и мировое время."));
    r.push(uwp_card("Календарь и Почта", "microsoft.windowscommunicationsapps", "Почтовый клиент и календарь."));
    r.push(uwp_card("Карты", "Microsoft.WindowsMaps", "Карты, поиск мест и маршруты."));
    r.push(uwp_card("Новости", "Microsoft.BingNews", "Лента новостей Microsoft."));
    r.push(uwp_card("Microsoft To Do", "Microsoft.Todos", "Списки задач и напоминания."));
    r.push(uwp_card("Кино и ТВ", "Microsoft.ZuneVideo", "Просмотр видео и фильмов."));
    r.push(uwp_card("Microsoft Solitaire Collection", "Microsoft.MicrosoftSolitaireCollection", "Коллекция пасьянсов."));
    r.push(uwp_card("OneNote для Windows 10", "Microsoft.Office.OneNote", "Цифровой блокнот OneNote."));
    r.push(uwp_card("Paint", "Microsoft.Paint", "Графический редактор Paint."));
    r.push(uwp_card("Люди", "Microsoft.People", "Адресная книга и контакты."));
    r.push(uwp_card("Связь с телефоном", "Microsoft.YourPhone", "Phone Link: связь с Android/iPhone."));
    r.push(uwp_card("Фотографии", "Microsoft.Windows.Photos", "Просмотр и редактирование фото."));
    r.push(uwp_card("Быстрая помощь", "MicrosoftCorporationII.QuickAssist", "Quick Assist: удалённая помощь."));
    r.push(uwp_card("Ножницы", "Microsoft.ScreenSketch", "Snipping Tool: снимки и запись экрана."));
    r.push(uwp_card("Запись голоса", "Microsoft.WindowsSoundRecorder", "Диктофон."));
    r.push(uwp_card("Записки", "Microsoft.MicrosoftStickyNotes", "Sticky Notes: заметки."));
    r.push(uwp_card("Советы", "Microsoft.Getstarted", "Подсказки и руководства по Windows."));
    r.push(uwp_card("Погода", "Microsoft.BingWeather", "Прогноз погоды."));
    r.push(uwp_card("Безопасность Windows", "Microsoft.SecHealthUI", "Windows Defender: антивирус."));
    r.push(uwp_card("Терминал Windows", "Microsoft.WindowsTerminal", "Современный терминал Windows."));
    r.push(uwp_card("Xbox", "Microsoft.GamingApp", "Игровой клиент Xbox и Game Pass."));
    r.push(uwp_card("Xbox Game Bar", "Microsoft.XboxGamingOverlay", "Игровая панель Xbox."));
    r.push(uwp_card("Clipchamp", "Clipchamp.Clipchamp", "Видеоредактор Clipchamp."));
    r.push(uwp_card("Microsoft Teams", "MSTeams", "Чат, звонки, видеоконференции."));
    r.push(uwp_card("Блокнот", "Microsoft.WindowsNotepad", "Текстовый редактор Notepad."));
    r.push(uwp_card("Проигрыватель Windows Media", "Microsoft.ZuneMusic", "Media Player для музыки и видео."));
    r.push(uwp_card("Microsoft Family", "MicrosoftCorporationII.MicrosoftFamily", "Родительский контроль."));
    r.push(uwp_card("Power Automate", "Microsoft.PowerAutomateDesktop", "Автоматизация задач."));
    r.push(uwp_card("Получение справки", "Microsoft.GetHelp", "Get Help: справка Microsoft."));
    r.push(uwp_card("Центр отзывов", "Microsoft.WindowsFeedbackHub", "Feedback Hub."));
    r.push(uwp_card("Cortana", "Microsoft.549981C3F5F10", "Голосовой помощник Cortana."));
    r.push(uwp_card("App Installer", "Microsoft.DesktopAppInstaller", "winget и установщик пакетов."));
    r.push(uwp_card("Photon (File Explorer)", "MicrosoftWindows.Client.Photon", "Современный проводник Windows 11."));
    r.push(uwp_card("Параметры", "windows.immersivecontrolpanel", "Системные настройки Windows."));
    r
}

pub const REMOVE_SCRIPT_HEAD: &'static str = r#"$ErrorActionPreference='Stop';$p = Get-AppxPackage -Name '"#;

pub const REMOVE_SCRIPT_TAIL: &'static str = r#"' -ErrorAction SilentlyContinue;if ($null -eq $p) { Write-Output 'Пакет не найден (уже удалён).'; exit 0 }try { $p | Remove-AppxPackage -ErrorAction Stop; Write-Output 'Удалено успешно.' }catch { Write-Output ('Ошибка: ' + $_.Exception.Message); exit 1 }"#;

pub const RESTORE_SCRIPT_HEAD: &'static str = r#"$ErrorActionPreference='Stop';$name = '"#;

pub const RESTORE_SCRIPT_TAIL: &'static str = r#"';$pkg = Get-AppxPackage -AllUsers -Name $name -ErrorAction SilentlyContinue | Select-Object -First 1;if ($pkg -ne $null -and $pkg.InstallLocation) {try {Add-AppxPackage -DisableDevelopmentMode -Register (Join-Path $pkg.InstallLocation 'AppXManifest.xml') -ErrorAction Stop;Write-Output ('Восстановлено из ' + $pkg.InstallLocation);exit 0} catch { Write-Output ('Re-register failed: ' + $_.Exception.Message) }}$prov = Get-AppxProvisionedPackage -Online -ErrorAction SilentlyContinue | Where-Object { $_.DisplayName -ieq $name } | Select-Object -First 1;if ($prov -ne $null) {try {Add-AppxPackage -Path $prov.PackagePath -ErrorAction Stop;Write-Output 'Восстановлено из provisioned-пакета.';exit 0} catch { Write-Output ('Provisioned install failed: ' + $_.Exception.Message) }}if (Get-Command winget -ErrorAction SilentlyContinue) {$w = winget install --id $name --accept-source-agreements --accept-package-agreements --silent 2>&1;if ($LASTEXITCODE -eq 0) { Write-Output 'Установлено через winget.'; exit 0 }else { Write-Output ('winget: ' + ($w | Out-String)) }}Start-Process ('ms-windows-store://search/?query=' + [uri]::EscapeDataString($name));Write-Output 'Открыт Microsoft Store для ручной установки.';exit 1"#;

pub const GAME_BAR_SET_HEAD: &'static str = r#"$ErrorActionPreference='Stop';\
         New-Item -Path 'HKCU:\Software\Microsoft\Windows\CurrentVersion\GameDVR' -Force | Out-Null;\
         Set-ItemProperty -Path 'HKCU:\Software\Microsoft\Windows\CurrentVersion\GameDVR' -Name 'AppCaptureEnabled' -Type DWord -Value "#;

pub const GAME_BAR_SET_MIDDLE: &'static str = r#";\
         New-Item -Path 'HKCU:\System\GameConfigStore' -Force | Out-Null;\
         Set-ItemProperty -Path 'HKCU:\System\GameConfigStore' -Name 'GameDVR_Enabled' -Type DWord -Value "#;

pub const GAME_BAR_SET_MESSAGE: &'static str = r#";\
         Write-Output '"#;

pub const GAME_BAR_SET_TAIL: &'static str = r#"'"#;

/// Prints `enabled` unless the Game Bar capture or Game DVR is switched off.
pub const GAME_BAR_QUERY_SCRIPT: &'static str = r#"\
        $enabled = $true;\
        $capture = Get-ItemProperty -Path 'HKCU:\Software\Microsoft\Windows\CurrentVersion\GameDVR' -Name 'AppCaptureEnabled' -ErrorAction SilentlyContinue;\
        if ($null -ne $capture -and $capture.AppCaptureEnabled -eq 0) { $enabled = $false }\
        $dvr = Get-ItemProperty -Path 'HKCU:\System\GameConfigStore' -Name 'GameDVR_Enabled' -ErrorAction SilentlyContinue;\
        if ($null -ne $dvr -and $dvr.GameDVR_Enabled -eq 0) { $enabled = $false }\
        if ($enabled) { Write-Output 'enabled' } else { Write-Output 'disabled' }"#;

/// A package name with each `'` doubled, for a single-quoted PowerShell
/// string.
pub open spec fn spec_escape_single_quotes(s: Seq<char>) -> Seq<char>
    decreases s.len(),
{
    if s.len() == 0 {
        Seq::empty()
    } else {
        (if s[0] == '\'' {
            seq!['\'', '\'']
        } else {
            seq![s[0]]
        }) + spec_escape_single_quotes(s.drop_first())
    }
}

pub proof fn lemma_escape_single_quotes_push(s: Seq<char>, c: char)
    ensures
        spec_escape_single_quotes(s.push(c)) == spec_escape_single_quotes(s) + (if c == '\'' {
            seq!['\'', '\'']
        } else {
            seq![c]
        }),
    decreases s.len(),
{
    let piece = |x: char|
        if x == '\'' {
            seq!['\'', '\'']
        } else {
            seq![x]
        };
    if s.len() == 0 {
        assert(s.push(c).drop_first() == Seq::<char>::empty());
        assert(s.push(c)[0] == c);
        assert(spec_escape_single_quotes(Seq::<char>::empty()) == Seq::<char>::empty());
        assert(piece(c) + Seq::<char>::empty() == piece(c));
        assert(Seq::<char>::empty() + piece(c) == piece(c));
    } else {
        assert(s.push(c).drop_first() == s.drop_first().push(c));
        assert(s.push(c)[0] == s[0]);
        lemma_escape_single_quotes_push(s.drop_first(), c);
        let t = spec_escape_single_quotes(s.drop_first());
        assert(piece(s[0]) + (t + piece(c)) == (piece(s[0]) + t) + piece(c));
    }
}

/// `s.replace('\'', "''")`.
pub fn escape_single_quotes(s: &str) -> (r: String)
    ensures
        r@ == spec_escape_single_quotes(s@),
{
    let v = chars_of(s);
    let mut out = String::new();
    let mut i: usize = 0;
    while i < v.len()
        invariant
            i <= v@.len(),
            v@ == s@,
            out@ == spec_escape_single_quotes(v@.take(i as int)),
        decreases v.len() - i,
    {
        let c = v[i];
        proof {
            assert(v@.take(i + 1) == v@.take(i as int).push(c));
            lemma_escape_single_quotes_push(v@.take(i as int), c);
        }
        if c == '\'' {
            push_char(&mut out, '\'');
            push_char(&mut out, '\'');
        } else {
            push_char(&mut out, c);
        }
        i = i + 1;
    }
    proof {
        assert(v@.take(v@.len() as int) == v@);
    }
    out
}

/// Reading a single-quoted PowerShell string body: `''` stands for one `'`.
pub open spec fn unquote_single(s: Seq<char>) -> Option<Seq<char>>
    decreases s.len(),
{
    if s.len() == 0 {
        Some(Seq::empty())
    } else if s[0] == '\'' {
        if s.len() >= 2 && s[1] == '\'' {
            match unquote_single(s.skip(2)) {
                Some(t) => Some(seq!['\''] + t),
                None => None,
            }
        } else {
            None
        }
    } else {
        match unquote_single(s.drop_first()) {
            Some(t) => Some(seq![s[0]] + t),
            None => None,
        }
    }
}

/// Escaping a name keeps it inside its quotes: PowerShell reads back the
/// very name from the escaped text.
pub proof fn lemma_escape_single_quotes_roundtrip(s: Seq<char>)
    ensures
        unquote_single(spec_escape_single_quotes(s)) == Some(s),
    decreases s.len(),
{
    if s.len() > 0 {
        lemma_escape_single_quotes_roundtrip(s.drop_first());
        let e = spec_escape_single_quotes(s);
        let rest = spec_escape_single_quotes(s.drop_first());
        if s[0] == '\'' {
            assert(e.skip(2) == rest);
        } else {
            assert(e.drop_first() == rest);
        }
        assert(seq![s[0]] + s.drop_first() == s);
    }
}

/// Whether a package is the Xbox Game Bar, ignoring ASCII case.
pub open spec fn is_game_bar(pkg: Seq<char>) -> bool {
    eq_ignore_ascii_case(pkg, XBOX_GAME_BAR_PACKAGE@)
}

pub fn is_game_bar_package(pkg: &str) -> (r: bool)
    ensures
        r == is_game_bar(pkg@),
{
    let v = chars_of(pkg);
    proof {
        assert(v@.subrange(0, v@.len() as int) == v@);
    }
    range_eq_ignore_ascii_case(v.as_slice(), 0, v.len(), XBOX_GAME_BAR_PACKAGE)
}

/// The script that switches the Game Bar capture and Game DVR on or off.
pub open spec fn spec_game_bar_set_script(enabled: bool) -> Seq<char> {
    let n: nat = if enabled {
        1
    } else {
        0
    };
    let message = if enabled {
        "Xbox Game Bar включена."@
    } else {
        "Xbox Game Bar отключена без удаления приложения."@
    };
    GAME_BAR_SET_HEAD@ + decimal(n) + GAME_BAR_SET_MIDDLE@ + decimal(n) + GAME_BAR_SET_MESSAGE@
        + message + GAME_BAR_SET_TAIL@
}

pub fn game_bar_set_script(enabled: bool) -> (r: String)
    ensures
        r@ == spec_game_bar_set_script(enabled),
{
    let n: u64 = if enabled {
        1
    } else {
        0
    };
    let message = if enabled {
        "Xbox Game Bar включена."
    } else {
        "Xbox Game Bar отключена без удаления приложения."
    };
    let mut s = String::new();
    push_str(&mut s, GAME_BAR_SET_HEAD);
    push_decimal(&mut s, n);
    push_str(&mut s, GAME_BAR_SET_MIDDLE);
    push_decimal(&mut s, n);
    push_str(&mut s, GAME_BAR_SET_MESSAGE);
    push_str(&mut s, message);
    push_str(&mut s, GAME_BAR_SET_TAIL);
    s
}

/// The script that removes a package: for the Game Bar the script that
/// switches it off, for any other package `Remove-AppxPackage` on the name.
pub open spec fn spec_remove_package_script(pkg: Seq<char>) -> Seq<char> {
    if is_game_bar(pkg) {
        spec_game_bar_set_script(false)
    } else {
        REMOVE_SCRIPT_HEAD@ + spec_escape_single_quotes(pkg) + REMOVE_SCRIPT_TAIL@
    }
}

pub fn remove_package_script(pkg: &str) -> (r: String)
    ensures
        r@ == spec_remove_package_script(pkg@),
{
    if is_game_bar_package(pkg) {
        return game_bar_set_script(false);
    }
    let escaped = escape_single_quotes(pkg);
    let mut s = String::new();
    push_str(&mut s, REMOVE_SCRIPT_HEAD);
    push_str(&mut s, escaped.as_str());
    push_str(&mut s, REMOVE_SCRIPT_TAIL);
    s
}

/// The script that restores a package: for the Game Bar the script that
/// switches it on, for any other package re-registration, the provisioned
/// package, winget, and at last the Store page.
pub open spec fn spec_restore_package_script(pkg: Seq<char>) -> Seq<char> {
    if is_game_bar(pkg) {
        spec_game_bar_set_script(true)
    } else {
        RESTORE_SCRIPT_HEAD@ + spec_escape_single_quotes(pkg) + RESTORE_SCRIPT_TAIL@
    }
}

pub fn restore_package_script(pkg: &str) -> (r: String)
    ensures
        r@ == spec_restore_package_script(pkg@),
{
    if is_game_bar_package(pkg) {
        return game_bar_set_script(true);
    }
    let escaped = escape_single_quotes(pkg);
    let mut s = String::new();
    push_str(&mut s, RESTORE_SCRIPT_HEAD);
    push_str(&mut s, escaped.as_str());
    push_str(&mut s, RESTORE_SCRIPT_TAIL);
    s
}

/// The Game Bar counts as present when the query ran and printed `enabled`,
/// ignoring case and surrounding white space.
pub open spec fn spec_game_bar_enabled_of(ok: bool, out: Seq<char>) -> bool {
    ok && eq_ignore_ascii_case(trim(out), "enabled"@)
}

pub fn game_bar_enabled_of(ok: bool, out: &str) -> (r: bool)
    ensures
        r == spec_game_bar_enabled_of(ok, out@),
{
    if !ok {
        return false;
    }
    let v = chars_of(out);
    proof {
        assert(v@.subrange(0, v@.len() as int) == v@);
    }
    let (a, b) = trim_bounds(v.as_slice(), 0, v.len());
    range_eq_ignore_ascii_case(v.as_slice(), a, b, "enabled")
}

/// Lists the installed package names.
pub const INSTALLED_PACKAGES_SCRIPT: &'static str = "Get-AppxPackage | ForEach-Object { $_.Name }";

/// The names in the output of `INSTALLED_PACKAGES_SCRIPT`: its non-blank
/// lines, trimmed.
pub open spec fn installed_lines(lines: Seq<Seq<char>>, acc: Seq<Seq<char>>) -> Seq<Seq<char>>
    decreases lines.len(),
{
    if lines.len() == 0 {
        acc
    } else {
        installed_lines(
            lines.drop_first(),
            if trim(lines[0]).len() == 0 {
                acc
            } else {
                acc.push(trim(lines[0]))
            },
        )
    }
}

pub open spec fn spec_installed_packages(ok: bool, out: Seq<char>) -> Seq<Seq<char>> {
    if ok {
        installed_lines(split(out, '\n'), Seq::empty())
    } else {
        Seq::empty()
    }
}

/// The installed package names from a run of `INSTALLED_PACKAGES_SCRIPT`;
/// none when the run failed.
pub fn installed_packages_of(ok: bool, out: &str) -> (r: Vec<String>)
    ensures
        r@.len() == spec_installed_packages(ok, out@).len(),
        forall|k: int| 0 <= k < r@.len() ==> (#[trigger] r@[k])@ == spec_installed_packages(ok, out@)[k],
{
    let mut acc: Vec<String> = Vec::new();
    if !ok {
        return acc;
    }
    let v = chars_of(out);
    let lines = split_bounds(v.as_slice(), '\n');
    let ghost pieces = split(v@, '\n');
    let ghost mut names: Seq<Seq<char>> = Seq::empty();
    let mut k: usize = 0;
    proof {
        assert(pieces.skip(0) == pieces);
    }
    while k < lines.len()
        invariant
            pieces == split(v@, '\n'),
            lines@.len() == pieces.len(),
            forall|j: int|
                0 <= j < lines@.len() ==> (#[trigger] lines@[j]).0 <= lines@[j].1 <= v@.len()
                    && v@.subrange(lines@[j].0 as int, lines@[j].1 as int) == pieces[j],
            k <= lines@.len(),
            spec_installed_packages(ok, out@) == installed_lines(pieces.skip(k as int), names),
            ok,
            v@ == out@,
            acc@.len() == names.len(),
            forall|j: int| 0 <= j < acc@.len() ==> (#[trigger] acc@[j])@ == names[j],
        decreases lines.len() - k,
    {
        let (lo, hi) = lines[k];
        proof {
            assert(pieces.skip(k as int)[0] == pieces[k as int]);
            assert(pieces.skip(k as int).drop_first() == pieces.skip(k + 1));
        }
        let (a, b) = trim_bounds(v.as_slice(), lo, hi);
        if a < b {
            acc.push(string_of_range(v.as_slice(), a, b));
            proof {
                names = names.push(v@.subrange(a as int, b as int));
            }
        }
        k = k + 1;
    }
    acc
}

/// Whether a package counts as installed: the Game Bar by its switch, any
/// other package when an installed name equals it up to ASCII case.
pub open spec fn spec_package_present(
    pkg: Seq<char>,
    installed: Seq<Seq<char>>,
    game_bar_enabled: bool,
) -> bool {
    if is_game_bar(pkg) {
        game_bar_enabled
    } else {
        exists|j: int| 0 <= j < installed.len() && eq_ignore_ascii_case(#[trigger] installed[j], pkg)
    }
}

/// What the installed list says of a package.  The Game Bar follows its
/// switch whatever the list holds.  Any other package is not present in an
/// empty list, and adding a name to the list makes it present exactly when
/// it was present before or the new name equals it up to ASCII case; so
/// each name of the list counts, wherever it stands.
pub proof fn lemma_package_present_law(
    pkg: Seq<char>,
    installed: Seq<Seq<char>>,
    name: Seq<char>,
    game_bar_enabled: bool,
)
    ensures
        is_game_bar(pkg) ==> spec_package_present(pkg, installed, game_bar_enabled)
            == game_bar_enabled,
        !is_game_bar(pkg) ==> !spec_package_present(pkg, Seq::empty(), game_bar_enabled),
        !is_game_bar(pkg) ==> (spec_package_present(pkg, installed.push(name), game_bar_enabled)
            <==> (spec_package_present(pkg, installed, game_bar_enabled) || eq_ignore_ascii_case(
            name,
            pkg,
        ))),
{
    let longer = installed.push(name);
    if !is_game_bar(pkg) {
        assert(longer[installed.len() as int] == name);
        if spec_package_present(pkg, installed, game_bar_enabled) {
            let j = choose|j: int|
                0 <= j < installed.len() && eq_ignore_ascii_case(#[trigger] installed[j], pkg);
            assert(longer[j] == installed[j]);
        }
        if spec_package_present(pkg, longer, game_bar_enabled) {
            let j = choose|j: int|
                0 <= j < longer.len() && eq_ignore_ascii_case(#[trigger] longer[j], pkg);
            if j < installed.len() {
                assert(longer[j] == installed[j]);
            }
        }
    }
}

/// A package is present whenever some name of the installed list, at any
/// position, equals it up to ASCII case (the Game Bar aside).
pub proof fn lemma_package_present_at(
    pkg: Seq<char>,
    installed: Seq<Seq<char>>,
    k: int,
    game_bar_enabled: bool,
)
    requires
        !is_game_bar(pkg),
        0 <= k < installed.len(),
        eq_ignore_ascii_case(installed[k], pkg),
    ensures
        spec_package_present(pkg, installed, game_bar_enabled),
{
}

fn str_eq_ignore_ascii_case(a: &str, b: &str) -> (r: bool)
    ensures
        r == eq_ignore_ascii_case(a@, b@),
{
    let v = chars_of(a);
    proof {
        assert(v@.subrange(0, v@.len() as int) == v@);
    }
    range_eq_ignore_ascii_case(v.as_slice(), 0, v.len(), b)
}

/// Whether `pkg` counts as installed.
pub fn package_present(pkg: &str, installed: &[String], game_bar_enabled: bool) -> (r: bool)
    ensures
        r == spec_package_present(pkg@, installed@.map_values(|s: String| s@), game_bar_enabled),
{
    let ghost names = installed@.map_values(|s: String| s@);
    if is_game_bar_package(pkg) {
        return game_bar_enabled;
    }
    let mut j: usize = 0;
    while j < installed.len()
        invariant
            j <= installed@.len(),
            names == installed@.map_values(|s: String| s@),
            !is_game_bar(pkg@),
            forall|i: int| 0 <= i < j ==> !eq_ignore_ascii_case(#[trigger] names[i], pkg@),
        decreases installed.len() - j,
    {
        if str_eq_ignore_ascii_case(installed[j].as_str(), pkg) {
            proof {
                assert(names[j as int] == installed@[j as int]@);
            }
            return true;
        }
        proof {
            assert(names[j as int] == installed@[j as int]@);
        }
        j = j + 1;
    }
    false
}

/// Each package with whether it counts as installed, in order.
pub fn package_presence(packages: &[String], installed: &[String], game_bar_enabled: bool) -> (r: Vec<(String, bool)>)
    ensures
        r@.len() == packages@.len(),
        forall|k: int|
            0 <= k < r@.len() ==> (#[trigger] r@[k]).0@ == packages@[k]@ && r@[k].1
                == spec_package_present(
                packages@[k]@,
                installed@.map_values(|s: String| s@),
                game_bar_enabled,
            ),
{
    let mut r: Vec<(String, bool)> = Vec::new();
    let mut k: usize = 0;
    while k < packages.len()
        invariant
            k <= packages@.len(),
            r@.len() == k,
            forall|i: int|
                0 <= i < k ==> (#[trigger] r@[i]).0@ == packages@[i]@ && r@[i].1
                    == spec_package_present(
                    packages@[i]@,
                    installed@.map_values(|s: String| s@),
                    game_bar_enabled,
                ),
        decreases packages.len() - k,
    {
        let p = packages[k].as_str();
        let present = package_present(p, installed, game_bar_enabled);
        r.push((p.to_owned(), present));
        k = k + 1;
    }
    r
}

/// Whether any of the packages is the Game Bar, whose state takes a query
/// of its own.
pub fn any_game_bar(packages: &[String]) -> (r: bool)
    ensures
        r == exists|k: int| 0 <= k < packages@.len() && is_game_bar(#[trigger] packages@[k]@),
{
    let mut k: usize = 0;
    while k < packages.len()
        invariant
            k <= packages@.len(),
            forall|i: int| 0 <= i < k ==> !is_game_bar(#[trigger] packages@[i]@),
        decreases packages.len() - k,
    {
        if is_game_bar_package(packages[k].as_str()) {
            return true;
        }
        k = k + 1;
    }
    false
}

} // verus!
