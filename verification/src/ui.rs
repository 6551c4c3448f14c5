//! The decisions of the window: layout toggles, theme and language
//! switches, the system-information report, the status line, and which job
//! a tool card starts.
use vstd::prelude::*;

use crate::actions::jobs::{
    big_files, big_files_ops, chkdsk, chkdsk_ops, deep_clean, deep_clean_ops, disk_info,
    disk_info_ops, empty_recycle_dialog, empty_recycle_dialog_ops, full_repair, full_repair_ops,
    quick_clean, quick_clean_ops, restart_explorer, restart_explorer_ops, restore_health,
    restore_health_ops, sfc, sfc_ops, simple_dism, simple_dism_ops, wu_cache, wu_cache_ops, Paths,
};
use crate::actions::script::{ops_view, OpV, Script};
use crate::actions::turbo::TurboMode;
use crate::console::{rule, text, Con, LineKind, LineView};
use crate::emoji::Emoji;
use crate::i18n::tr;
use crate::sections::Action;
use crate::text::{join2, join3, join4, lang, owned, repeat_char};
use crate::theme::same_text;

verus! {

/// Where the console panel sits.
#[derive(Clone, Copy, Debug, PartialEq, Eq, Structural)]
pub enum ConsolePos {
    Bottom,
    Right,
}

/// How the sidebar is drawn: pictures with titles, or pictures only.
#[derive(Clone, Copy, Debug, PartialEq, Eq, Structural)]
pub enum SidebarMode {
    Full,
    Icons,
}

/// The other console position.
pub open spec fn other_pos(p: ConsolePos) -> ConsolePos {
    match p {
        ConsolePos::Bottom => ConsolePos::Right,
        ConsolePos::Right => ConsolePos::Bottom,
    }
}

/// The other sidebar mode.
pub open spec fn other_mode(m: SidebarMode) -> SidebarMode {
    match m {
        SidebarMode::Full => SidebarMode::Icons,
        SidebarMode::Icons => SidebarMode::Full,
    }
}

impl ConsolePos {
    /// The other position (the layout button).
    pub fn toggled(self) -> (r: ConsolePos)
        ensures
            r == other_pos(self),
    {
        match self {
            ConsolePos::Bottom => ConsolePos::Right,
            ConsolePos::Right => ConsolePos::Bottom,
        }
    }
}

impl SidebarMode {
    /// The other mode (the menu button).
    pub fn toggled(self) -> (r: SidebarMode)
        ensures
            r == other_mode(self),
    {
        match self {
            SidebarMode::Full => SidebarMode::Icons,
            SidebarMode::Icons => SidebarMode::Full,
        }
    }
}

/// The theme mode after the theme button: "light" after "dark", "dark"
/// after anything else.
pub open spec fn next_mode_view(mode: Seq<char>) -> Seq<char> {
    if mode == "dark"@ {
        "light"@
    } else {
        "dark"@
    }
}

/// The theme mode after the theme button (see `next_mode_view`).
pub fn next_theme_mode(mode: &str) -> (r: String)
    ensures
        r@ == next_mode_view(mode@),
{
    if same_text(mode, "dark") {
        owned("light")
    } else {
        owned("dark")
    }
}

/// The language after the language button: "tr" after "en", "en" after
/// anything else.
pub open spec fn next_lang_view(l: Seq<char>) -> Seq<char> {
    if l == "en"@ {
        "tr"@
    } else {
        "en"@
    }
}

/// The language after the language button (see `next_lang_view`).
pub fn next_lang(l: &str) -> (r: String)
    ensures
        r@ == next_lang_view(l@),
{
    if same_text(l, "en") {
        owned("tr")
    } else {
        owned("en")
    }
}

/// The confirmation written after switching language, in the new language.
pub fn lang_switched(en: bool) -> (s: &'static str)
    ensures
        s@ == lang(en, "Dil: Türkçe"@, "Language: English"@),
{
    tr(en, "Dil: Türkçe", "Language: English")
}

/// The first console line: a note that the tool is made for Windows when
/// it runs elsewhere, else a "ready" hint.
pub fn greeting(en: bool, windows: bool) -> (s: &'static str)
    ensures
        windows ==> s@ == lang(
            en,
            "Hazır. Soldan bölüm seç; araçlar listede, çıktılar konsolda akar."@,
            "Ready. Pick a section on the left; tools are listed, output streams to the console."@,
        ),
        !windows ==> s@ == lang(
            en,
            "Bu araç Windows için üretildi. Tam işlev Windows'ta çalışır."@,
            "This tool is built for Windows. Full features run on Windows."@,
        ),
{
    if !windows {
        tr(
            en,
            "Bu araç Windows için üretildi. Tam işlev Windows'ta çalışır.",
            "This tool is built for Windows. Full features run on Windows.",
        )
    } else {
        tr(
            en,
            "Hazır. Soldan bölüm seç; araçlar listede, çıktılar konsolda akar.",
            "Ready. Pick a section on the left; tools are listed, output streams to the console.",
        )
    }
}

/// The theme button of the full sidebar: the sun and "Light Mode" while
/// dark, the moon and "Dark Mode" otherwise.
pub fn theme_button(en: bool, mode: &str) -> (r: (Emoji, &'static str))
    ensures
        mode@ == "dark"@ ==> r.0 == Emoji::Sun && r.1@ == lang(en, "Açık Mod"@, "Light Mode"@),
        mode@ != "dark"@ ==> r.0 == Emoji::Moon && r.1@ == lang(en, "Koyu Mod"@, "Dark Mode"@),
{
    if same_text(mode, "dark") {
        (Emoji::Sun, tr(en, "Açık Mod", "Light Mode"))
    } else {
        (Emoji::Moon, tr(en, "Koyu Mod", "Dark Mode"))
    }
}

/// The language button: the flag and name of the current language.
pub fn lang_button(en: bool) -> (r: (Emoji, &'static str))
    ensures
        en ==> r.0 == Emoji::FlagUs && r.1@ == "English"@,
        !en ==> r.0 == Emoji::FlagTr && r.1@ == "Türkçe"@,
{
    if en {
        (Emoji::FlagUs, "English")
    } else {
        (Emoji::FlagTr, "Türkçe")
    }
}

/// Whether the cached operating-system line must be read again: when it is
/// empty, or older than five seconds.
pub fn needs_refresh(cached_empty: bool, age_millis: u64) -> (r: bool)
    ensures
        r == (cached_empty || age_millis > 5000),
{
    cached_empty || age_millis > 5000
}

/// Whether a job may start: only when none is running, so that two jobs
/// never run at once.
pub fn may_start(busy: bool) -> (r: bool)
    ensures
        r == !busy,
{
    !busy
}

// ---------------------------------------------------------------------------
// system information
// ---------------------------------------------------------------------------

/// What the system-information report shows.
pub struct SystemFacts {
    /// The operating-system line.
    pub os: String,
    /// `USERNAME` (empty when unset).
    pub user: String,
    /// `COMPUTERNAME` (empty when unset).
    pub computer: String,
    /// Free space on C: in GB with two decimals, when known.
    pub free_gb: Option<String>,
    /// Whether the program runs as administrator.
    pub admin: bool,
    /// Whether user account control is on.
    pub uac: bool,
    /// Whether the dark theme is active.
    pub dark: bool,
}

/// The free-space text of the report: `<n> GB`, or `?` when unknown.
pub open spec fn free_text(free: Option<Seq<char>>) -> Seq<char> {
    match free {
        Some(n) => n + " GB"@,
        None => "?"@,
    }
}

/// The lines of the system-information report.
pub open spec fn system_info_view(
    en: bool,
    os: Seq<char>,
    user: Seq<char>,
    computer: Seq<char>,
    free: Option<Seq<char>>,
    admin: bool,
    uac: bool,
    dark: bool,
) -> Seq<LineView> {
    seq![
        text(LineKind::Big, rule('=')),
        text(LineKind::Info, lang(en, "SİSTEM BİLGİSİ"@, "SYSTEM INFO"@)),
        text(LineKind::Big, rule('=')),
        text(LineKind::Plain, "  "@ + lang(en, "İşletim Sistemi"@, "Operating System"@) + " : "@ + os),
        text(LineKind::Plain, "  "@ + lang(en, "Kullanıcı"@, "User"@) + "       : "@ + user),
        text(LineKind::Plain, "  "@ + lang(en, "Bilgisayar"@, "Computer"@) + "      : "@ + computer),
        text(LineKind::Plain, "  "@ + lang(en, "C: boş alan"@, "C: free space"@) + "     : "@ + free_text(free)),
        text(
            LineKind::Plain,
            "  "@ + lang(en, "Yönetici mi"@, "Is admin"@) + "     : "@ + (if admin {
                lang(en, "Evet"@, "Yes"@)
            } else {
                lang(en, "Hayır (bazı araçlar çalışmaz)"@, "No (some tools won't work)"@)
            }),
        ),
        text(LineKind::Plain, "  UAC             : "@ + (if uac {
            lang(en, "Açık"@, "On"@)
        } else {
            lang(en, "Kapalı"@, "Off"@)
        })),
        text(LineKind::Plain, "  "@ + lang(en, "Tema"@, "Theme"@) + "            : "@ + (if dark {
            lang(en, "Koyu"@, "Dark"@)
        } else {
            lang(en, "Açık"@, "Light"@)
        })),
        text(LineKind::Big, rule('=')),
    ]
}

fn field_line(bus: &mut Con, label: &str, pad: &str, value: &str)
    ensures
        final(bus)@ == old(bus)@.push(text(LineKind::Plain, "  "@ + label@ + pad@ + value@)),
{
    let a = join3("  ", label, pad);
    let b = join2(a.as_str(), value);
    bus.plain(b.as_str());
}

/// Writes the system-information report (see `system_info_view`).
pub fn system_info(bus: &mut Con, en: bool, f: &SystemFacts)
    ensures
        final(bus)@ == old(bus)@ + system_info_view(
            en,
            f.os@,
            f.user@,
            f.computer@,
            match f.free_gb {
                Some(n) => Some(n@),
                None => None,
            },
            f.admin,
            f.uac,
            f.dark,
        ),
{
    let ghost start = bus@;
    let bar = repeat_char('=', 52);
    bus.big(bar.as_str());
    bus.info(tr(en, "SİSTEM BİLGİSİ", "SYSTEM INFO"));
    bus.big(bar.as_str());
    field_line(bus, tr(en, "İşletim Sistemi", "Operating System"), " : ", f.os.as_str());
    field_line(bus, tr(en, "Kullanıcı", "User"), "       : ", f.user.as_str());
    field_line(bus, tr(en, "Bilgisayar", "Computer"), "      : ", f.computer.as_str());
    let free = match &f.free_gb {
        Some(n) => join2(n.as_str(), " GB"),
        None => owned("?"),
    };
    field_line(bus, tr(en, "C: boş alan", "C: free space"), "     : ", free.as_str());
    let admin = if f.admin {
        tr(en, "Evet", "Yes")
    } else {
        tr(en, "Hayır (bazı araçlar çalışmaz)", "No (some tools won't work)")
    };
    field_line(bus, tr(en, "Yönetici mi", "Is admin"), "     : ", admin);
    let uac = if f.uac {
        tr(en, "Açık", "On")
    } else {
        tr(en, "Kapalı", "Off")
    };
    let u = join2("  UAC             : ", uac);
    bus.plain(u.as_str());
    let theme = if f.dark {
        tr(en, "Koyu", "Dark")
    } else {
        tr(en, "Açık", "Light")
    };
    field_line(bus, tr(en, "Tema", "Theme"), "            : ", theme);
    bus.big(bar.as_str());
    assert(bus@ =~= start + system_info_view(
        en,
        f.os@,
        f.user@,
        f.computer@,
        match f.free_gb {
            Some(n) => Some(n@),
            None => None,
        },
        f.admin,
        f.uac,
        f.dark,
    ));
}

/// The status line: the operating system, the free space on C: (one
/// decimal, when known) and whether the program runs as administrator,
/// separated by `   |   `.
pub open spec fn status_view(en: bool, os: Seq<char>, free: Option<Seq<char>>, admin: bool) -> Seq<
    char,
> {
    let fb = match free {
        Some(n) => "C: "@ + n + " GB "@ + lang(en, "boş"@, "free"@),
        None => lang(en, "C: boş alan ?"@, "C: free space ?"@),
    };
    let ad = if admin {
        lang(en, "Yönetici"@, "Admin"@)
    } else {
        lang(en, "Yönetici değil"@, "Not admin"@)
    };
    os + "   |   "@ + fb + "   |   "@ + ad
}

/// The status line (see `status_view`); `free_gb` is the free space in GB
/// with one decimal.
pub fn status_line(en: bool, os: &str, free_gb: Option<&str>, admin: bool) -> (s: String)
    ensures
        s@ == status_view(
            en,
            os@,
            match free_gb {
                Some(n) => Some(n@),
                None => None,
            },
            admin,
        ),
{
    let fb = match free_gb {
        Some(n) => join4("C: ", n, " GB ", tr(en, "boş", "free")),
        None => owned(tr(en, "C: boş alan ?", "C: free space ?")),
    };
    let ad = if admin {
        tr(en, "Yönetici", "Admin")
    } else {
        tr(en, "Yönetici değil", "Not admin")
    };
    let a = join3(os, "   |   ", fb.as_str());
    join3(a.as_str(), "   |   ", ad)
}

// ---------------------------------------------------------------------------
// which job a tool starts
// ---------------------------------------------------------------------------

/// A power plan.
#[derive(Clone, Copy, Debug, PartialEq, Eq, Structural)]
pub enum PlanKind {
    Saver,
    Balanced,
    HighPerf,
    Ultimate,
}

/// What pressing a tool card does.
pub enum Task {
    /// Write the system-information report.
    ShowInfo,
    /// Open or close the About window.
    ToggleAbout,
    /// Check the processor's microcode.
    Microcode,
    /// Check and apply the known fixes.
    KnownIssues,
    /// Switch to a power plan.
    Plan(PlanKind),
    /// Turn processor boost off or on.
    Turbo(TurboMode),
    /// Run a maintenance script.
    Run(Script),
    /// Ask for an ISO file, then repair from it.
    PickIso,
    /// Copy the servicing logs to the desktop.
    CopyLogs,
}

/// The steps of the script a tool runs, when it runs one.
pub open spec fn script_of(act: Action, en: bool, p: Paths) -> Option<Seq<OpV>> {
    match act {
        Action::QuickClean => Some(quick_clean_ops(en, p)),
        Action::DeepClean => Some(deep_clean_ops(en, p)),
        Action::Explorer => Some(restart_explorer_ops(en)),
        Action::Recycle => Some(empty_recycle_dialog_ops(en)),
        Action::WuCache => Some(wu_cache_ops(en, p)),
        Action::BigFiles => Some(big_files_ops(en)),
        Action::FullRepair => Some(full_repair_ops(en)),
        Action::Sfc => Some(sfc_ops(en)),
        Action::CheckHealth => Some(simple_dism_ops(en, "CheckHealth"@, "/checkhealth"@)),
        Action::ScanHealth => Some(simple_dism_ops(en, "ScanHealth"@, "/scanhealth"@)),
        Action::RestoreHealth => Some(restore_health_ops(en)),
        Action::ComponentCleanup => Some(
            simple_dism_ops(en, "ComponentCleanup"@, "/startcomponentcleanup"@),
        ),
        Action::AnalyzeStore => Some(
            simple_dism_ops(en, "AnalyzeComponentStore"@, "/analyzecomponentstore"@),
        ),
        Action::Chkdsk => Some(chkdsk_ops(en)),
        Action::DiskInfo => Some(disk_info_ops(en)),
        _ => None,
    }
}

/// Whether `t` is what the tool `act` does.
pub open spec fn task_is(t: Task, act: Action, en: bool, p: Paths) -> bool {
    match script_of(act, en, p) {
        Some(ops) => t matches Task::Run(s) && ops_view(s.ops@) == ops && s.pc == 0,
        None => match act {
            Action::SysInfo => t is ShowInfo,
            Action::About => t is ToggleAbout,
            Action::CpuInfo => t is Microcode,
            Action::KnownIssues => t is KnownIssues,
            Action::PowerSaver => t == Task::Plan(PlanKind::Saver),
            Action::PowerBalanced => t == Task::Plan(PlanKind::Balanced),
            Action::PowerHighPerf => t == Task::Plan(PlanKind::HighPerf),
            Action::PowerUltimate => t == Task::Plan(PlanKind::Ultimate),
            Action::TurboOff => t == Task::Turbo(TurboMode::Off),
            Action::TurboOn => t == Task::Turbo(TurboMode::On),
            Action::RestoreIso => t is PickIso,
            Action::Logs => t is CopyLogs,
            _ => false,
        },
    }
}

/// What the tool `act` does (see `task_is`); scripts are built in the
/// language `en` over the folders `p`.
pub fn task_for(act: Action, en: bool, p: &Paths) -> (t: Task)
    ensures
        task_is(t, act, en, *p),
{
    match act {
        Action::SysInfo => Task::ShowInfo,
        Action::About => Task::ToggleAbout,
        Action::CpuInfo => Task::Microcode,
        Action::KnownIssues => Task::KnownIssues,
        Action::PowerSaver => Task::Plan(PlanKind::Saver),
        Action::PowerBalanced => Task::Plan(PlanKind::Balanced),
        Action::PowerHighPerf => Task::Plan(PlanKind::HighPerf),
        Action::PowerUltimate => Task::Plan(PlanKind::Ultimate),
        Action::TurboOff => Task::Turbo(TurboMode::Off),
        Action::TurboOn => Task::Turbo(TurboMode::On),
        Action::QuickClean => Task::Run(quick_clean(en, p)),
        Action::DeepClean => Task::Run(deep_clean(en, p)),
        Action::Explorer => Task::Run(restart_explorer(en)),
        Action::Recycle => Task::Run(empty_recycle_dialog(en)),
        Action::WuCache => Task::Run(wu_cache(en, p)),
        Action::BigFiles => Task::Run(big_files(en)),
        Action::FullRepair => Task::Run(full_repair(en)),
        Action::Sfc => Task::Run(sfc(en)),
        Action::CheckHealth => Task::Run(simple_dism(en, "CheckHealth", "/checkhealth")),
        Action::ScanHealth => Task::Run(simple_dism(en, "ScanHealth", "/scanhealth")),
        Action::RestoreHealth => Task::Run(restore_health(en)),
        Action::ComponentCleanup => Task::Run(
            simple_dism(en, "ComponentCleanup", "/startcomponentcleanup"),
        ),
        Action::AnalyzeStore => Task::Run(
            simple_dism(en, "AnalyzeComponentStore", "/analyzecomponentstore"),
        ),
        Action::Chkdsk => Task::Run(chkdsk(en)),
        Action::DiskInfo => Task::Run(disk_info(en)),
        Action::RestoreIso => Task::PickIso,
        Action::Logs => Task::CopyLogs,
    }
}

} // verus!
