//! The sections of the window and the tools listed in each (Turkish and
//! English texts).
use vstd::prelude::*;

use crate::emoji::Emoji;
use crate::text::lang;

verus! {

/// A section of the sidebar.
#[derive(Clone, Copy, Debug, PartialEq, Eq, Structural)]
pub enum SectionId {
    Home,
    Temizlik,
    Onarim,
    Disk,
    Guc,
    Bilgi,
}

/// A tool the user can start.
#[derive(Clone, Copy, Debug, PartialEq, Eq, Structural)]
pub enum Action {
    FullRepair,
    QuickClean,
    DeepClean,
    Chkdsk,
    Sfc,
    CheckHealth,
    ScanHealth,
    RestoreHealth,
    RestoreIso,
    ComponentCleanup,
    AnalyzeStore,
    DiskInfo,
    CpuInfo,
    KnownIssues,
    Explorer,
    Recycle,
    WuCache,
    BigFiles,
    SysInfo,
    Logs,
    About,
    PowerSaver,
    PowerBalanced,
    PowerHighPerf,
    PowerUltimate,
    TurboOn,
    TurboOff,
}

/// A tool card: picture, title and description in both languages, the
/// action it starts, and whether it is highlighted.
pub struct Item {
    pub emoji: Emoji,
    pub title: &'static str,
    pub title_en: &'static str,
    pub desc: &'static str,
    pub desc_en: &'static str,
    pub action: Action,
    pub accent: bool,
}

/// A section: its id, sidebar picture, heading and subtitle in both
/// languages, and its tools.
pub struct Section {
    pub id: SectionId,
    pub nav_emoji: Emoji,
    pub title: &'static str,
    pub title_en: &'static str,
    pub sub: &'static str,
    pub sub_en: &'static str,
    pub items: Vec<Item>,
}

/// The mathematical value of an `Item`.
pub ghost struct ItemV {
    pub emoji: Emoji,
    pub title: Seq<char>,
    pub title_en: Seq<char>,
    pub desc: Seq<char>,
    pub desc_en: Seq<char>,
    pub action: Action,
    pub accent: bool,
}

/// The mathematical value of a `Section`.
pub ghost struct SectionV {
    pub id: SectionId,
    pub nav_emoji: Emoji,
    pub title: Seq<char>,
    pub title_en: Seq<char>,
    pub sub: Seq<char>,
    pub sub_en: Seq<char>,
    pub items: Seq<ItemV>,
}

impl View for Item {
    type V = ItemV;

    open spec fn view(&self) -> ItemV {
        ItemV {
            emoji: self.emoji,
            title: self.title@,
            title_en: self.title_en@,
            desc: self.desc@,
            desc_en: self.desc_en@,
            action: self.action,
            accent: self.accent,
        }
    }
}

/// The views of some items.
pub open spec fn items_view(v: Seq<Item>) -> Seq<ItemV> {
    v.map_values(|i: Item| i@)
}

impl View for Section {
    type V = SectionV;

    open spec fn view(&self) -> SectionV {
        SectionV {
            id: self.id,
            nav_emoji: self.nav_emoji,
            title: self.title@,
            title_en: self.title_en@,
            sub: self.sub@,
            sub_en: self.sub_en@,
            items: items_view(self.items@),
        }
    }
}

/// The views of some sections.
pub open spec fn sections_view(v: Seq<Section>) -> Seq<SectionV> {
    v.map_values(|s: Section| s@)
}

/// An item's value.
pub open spec fn iv(
    emoji: Emoji,
    title: Seq<char>,
    title_en: Seq<char>,
    desc: Seq<char>,
    desc_en: Seq<char>,
    action: Action,
    accent: bool,
) -> ItemV {
    ItemV { emoji, title, title_en, desc, desc_en, action, accent }
}

fn item(
    emoji: Emoji,
    title: &'static str,
    title_en: &'static str,
    desc: &'static str,
    desc_en: &'static str,
    action: Action,
    accent: bool,
) -> (i: Item)
    ensures
        i@ == iv(emoji, title@, title_en@, desc@, desc_en@, action, accent),
{
    Item { emoji, title, title_en, desc, desc_en, action, accent }
}

/// The "Home" section.
pub open spec fn home_view() -> SectionV {
    SectionV {
        id: SectionId::Home,
        nav_emoji: Emoji::Home,
        title: "Ana Menü"@,
        title_en: "Home"@,
        sub: "Kısayollar. Tüm araçlar soldaki bölümlerde."@,
        sub_en: "Shortcuts. All tools live in the sections on the left."@,
        items: seq![
            iv(Emoji::Shield, "Tam Otomatik Onarım"@, "Full Auto Repair"@, "DISM + SFC zinciri, tek tık. En kapsamlı onarım."@, "DISM + SFC chain, one click. The most thorough repair."@, Action::FullRepair, true),
            iv(Emoji::Bolt, "Mikro Kod Kontrolü"@, "Microcode Check"@, "Intel 13./14. nesil: mikrokodu kontrol eder; kapat/aç için Güç Yönetimi'ni gösterir."@, "Intel 13/14th gen: checks microcode; points to Power for the toggle."@, Action::CpuInfo, false),
            iv(Emoji::Broom, "Hızlı Temizlik"@, "Quick Clean"@, "Temp, önbellek ve geri dönüşüm."@, "Temp, cache and recycle bin."@, Action::QuickClean, false),
            iv(Emoji::Sponge, "Derin Temizlik"@, "Deep Clean"@, "Hızlı + WU önbelleği, prefetch, tarayıcı cache."@, "Quick + WU cache, prefetch, browser cache."@, Action::DeepClean, false),
            iv(Emoji::Magnifier, "Disk Taraması"@, "Disk Scan"@, "chkdsk /scan ile çevrimiçi disk taraması."@, "Online disk scan with chkdsk /scan."@, Action::Chkdsk, false),
        ],
    }
}

fn home() -> (s: Section)
    ensures
        s@ == home_view(),
{
    let items = vec![
        item(Emoji::Shield, "Tam Otomatik Onarım", "Full Auto Repair", "DISM + SFC zinciri, tek tık. En kapsamlı onarım.", "DISM + SFC chain, one click. The most thorough repair.", Action::FullRepair, true),
        item(Emoji::Bolt, "Mikro Kod Kontrolü", "Microcode Check", "Intel 13./14. nesil: mikrokodu kontrol eder; kapat/aç için Güç Yönetimi'ni gösterir.", "Intel 13/14th gen: checks microcode; points to Power for the toggle.", Action::CpuInfo, false),
        item(Emoji::Broom, "Hızlı Temizlik", "Quick Clean", "Temp, önbellek ve geri dönüşüm.", "Temp, cache and recycle bin.", Action::QuickClean, false),
        item(Emoji::Sponge, "Derin Temizlik", "Deep Clean", "Hızlı + WU önbelleği, prefetch, tarayıcı cache.", "Quick + WU cache, prefetch, browser cache.", Action::DeepClean, false),
        item(Emoji::Magnifier, "Disk Taraması", "Disk Scan", "chkdsk /scan ile çevrimiçi disk taraması.", "Online disk scan with chkdsk /scan.", Action::Chkdsk, false),
    ];
    let s = Section {
        id: SectionId::Home,
        nav_emoji: Emoji::Home,
        title: "Ana Menü",
        title_en: "Home",
        sub: "Kısayollar. Tüm araçlar soldaki bölümlerde.",
        sub_en: "Shortcuts. All tools live in the sections on the left.",
        items,
    };
    assert(s@.items =~= home_view().items);
    s
}

/// The "Cleanup" section.
pub open spec fn cleanup_view() -> SectionV {
    SectionV {
        id: SectionId::Temizlik,
        nav_emoji: Emoji::Broom,
        title: "Temizlik"@,
        title_en: "Cleanup"@,
        sub: "Geçici/gereksiz dosyalar. Kişisel dosyalarına dokunmaz."@,
        sub_en: "Temporary/junk files. Never touches personal files."@,
        items: seq![
            iv(Emoji::Broom, "Hızlı Temizlik"@, "Quick Clean"@, "Kullanıcı/Windows Temp + önbellek + geri dönüşüm."@, "User/Windows Temp + cache + recycle bin."@, Action::QuickClean, false),
            iv(Emoji::Sponge, "Derin Temizlik"@, "Deep Clean"@, "Hızlı + WU önbelleği, prefetch, simge cache, minidump, tarayıcı cache."@, "Quick + WU cache, prefetch, icon cache, minidump, browser cache."@, Action::DeepClean, false),
            iv(Emoji::Refresh, "Explorer'ı Yeniden Başlat"@, "Restart Explorer"@, "Donuk / ikonsuz masaüstünü tazeler."@, "Refreshes a frozen / icon-less desktop."@, Action::Explorer, false),
            iv(Emoji::Recycle, "Geri Dönüşümü Boşalt"@, "Empty Recycle Bin"@, "Silinenleri kalıcı temizler. Geri alınamaz."@, "Permanently removes deleted items. Cannot be undone."@, Action::Recycle, false),
            iv(Emoji::Inbox, "WU Önbelleğini Temizle"@, "Clear WU Cache"@, "Takılan/hata veren Windows Update'i açar."@, "Unsticks a stuck / failing Windows Update."@, Action::WuCache, false),
            iv(Emoji::Chart, "Alan Canavarı"@, "Space Hog Finder"@, "C:'de en büyük 20 dosyayı listeler. Silmez."@, "Lists the 20 largest files on C:. Does not delete."@, Action::BigFiles, false),
        ],
    }
}

fn cleanup() -> (s: Section)
    ensures
        s@ == cleanup_view(),
{
    let items = vec![
        item(Emoji::Broom, "Hızlı Temizlik", "Quick Clean", "Kullanıcı/Windows Temp + önbellek + geri dönüşüm.", "User/Windows Temp + cache + recycle bin.", Action::QuickClean, false),
        item(Emoji::Sponge, "Derin Temizlik", "Deep Clean", "Hızlı + WU önbelleği, prefetch, simge cache, minidump, tarayıcı cache.", "Quick + WU cache, prefetch, icon cache, minidump, browser cache.", Action::DeepClean, false),
        item(Emoji::Refresh, "Explorer'ı Yeniden Başlat", "Restart Explorer", "Donuk / ikonsuz masaüstünü tazeler.", "Refreshes a frozen / icon-less desktop.", Action::Explorer, false),
        item(Emoji::Recycle, "Geri Dönüşümü Boşalt", "Empty Recycle Bin", "Silinenleri kalıcı temizler. Geri alınamaz.", "Permanently removes deleted items. Cannot be undone.", Action::Recycle, false),
        item(Emoji::Inbox, "WU Önbelleğini Temizle", "Clear WU Cache", "Takılan/hata veren Windows Update'i açar.", "Unsticks a stuck / failing Windows Update.", Action::WuCache, false),
        item(Emoji::Chart, "Alan Canavarı", "Space Hog Finder", "C:'de en büyük 20 dosyayı listeler. Silmez.", "Lists the 20 largest files on C:. Does not delete.", Action::BigFiles, false),
    ];
    let s = Section {
        id: SectionId::Temizlik,
        nav_emoji: Emoji::Broom,
        title: "Temizlik",
        title_en: "Cleanup",
        sub: "Geçici/gereksiz dosyalar. Kişisel dosyalarına dokunmaz.",
        sub_en: "Temporary/junk files. Never touches personal files.",
        items,
    };
    assert(s@.items =~= cleanup_view().items);
    s
}

/// The "Repair" section.
pub open spec fn repair_view() -> SectionV {
    SectionV {
        id: SectionId::Onarim,
        nav_emoji: Emoji::Shield,
        title: "Onarım"@,
        title_en: "Repair"@,
        sub: "SFC + DISM. 0x8000ffff gibi hataların ilacı."@,
        sub_en: "SFC + DISM. The cure for errors like 0x8000ffff."@,
        items: seq![
            iv(Emoji::Shield, "TAM OTOMATİK ONARIM"@, "FULL AUTO REPAIR"@, "CheckHealth + ScanHealth + RestoreHealth + SFC + Cleanup. 20-90 dk."@, "CheckHealth + ScanHealth + RestoreHealth + SFC + Cleanup. 20-90 min."@, Action::FullRepair, true),
            iv(Emoji::Bolt, "Mikro Kod Kontrolü"@, "Microcode Check"@, "Intel 13./14. nesil: mikrokodu kontrol eder; kapat/aç için Güç Yönetimi'ni gösterir."@, "Intel 13/14th gen: checks microcode; points to Power for the toggle."@, Action::CpuInfo, false),
            iv(Emoji::Wrench, "SFC /scannow"@, "SFC /scannow"@, "Korunan Windows dosyalarını onarır (5-15 dk)."@, "Repairs protected Windows files (5-15 min)."@, Action::Sfc, false),
            iv(Emoji::Stethoscope, "CheckHealth"@, "CheckHealth"@, "Hızlı imaj durumu. Sadece rapor."@, "Quick image health. Report only."@, Action::CheckHealth, false),
            iv(Emoji::Magnifier, "ScanHealth"@, "ScanHealth"@, "Ayrıntılı tarama (5-15 dk). Sadece teşhis."@, "Detailed scan (5-15 min). Diagnostic only."@, Action::ScanHealth, false),
            iv(Emoji::Pill, "RestoreHealth"@, "RestoreHealth"@, "Bozukluğu internetten onarır (15-60 dk). %62-63'te durması normal."@, "Repairs corruption via internet (15-60 min). Stalling at 62-63% is normal."@, Action::RestoreHealth, false),
            iv(Emoji::Disk, "RestoreHealth + ISO"@, "RestoreHealth + ISO"@, "İnternet yerine ISO'yu kaynak yapar (otomatik mount)."@, "Uses an ISO as source instead of internet (auto mount)."@, Action::RestoreIso, false),
            iv(Emoji::Trash, "ComponentCleanup"@, "ComponentCleanup"@, "Eski güncelleme artıklarını temizler."@, "Cleans up leftover update components."@, Action::ComponentCleanup, false),
            iv(Emoji::Chart, "AnalyzeComponentStore"@, "AnalyzeComponentStore"@, "Bileşen deposunun yer kullanımını raporlar."@, "Reports component store space usage."@, Action::AnalyzeStore, false),
            iv(Emoji::Shield, "Bilinen Sorunları Uygula"@, "Apply Known Fixes"@, "Hızlı Başlangıç + DLL koruması tarar ve düzeltir."@, "Checks and fixes Fast Startup + DLL protection."@, Action::KnownIssues, false),
        ],
    }
}

fn repair() -> (s: Section)
    ensures
        s@ == repair_view(),
{
    let items = vec![
        item(Emoji::Shield, "TAM OTOMATİK ONARIM", "FULL AUTO REPAIR", "CheckHealth + ScanHealth + RestoreHealth + SFC + Cleanup. 20-90 dk.", "CheckHealth + ScanHealth + RestoreHealth + SFC + Cleanup. 20-90 min.", Action::FullRepair, true),
        item(Emoji::Bolt, "Mikro Kod Kontrolü", "Microcode Check", "Intel 13./14. nesil: mikrokodu kontrol eder; kapat/aç için Güç Yönetimi'ni gösterir.", "Intel 13/14th gen: checks microcode; points to Power for the toggle.", Action::CpuInfo, false),
        item(Emoji::Wrench, "SFC /scannow", "SFC /scannow", "Korunan Windows dosyalarını onarır (5-15 dk).", "Repairs protected Windows files (5-15 min).", Action::Sfc, false),
        item(Emoji::Stethoscope, "CheckHealth", "CheckHealth", "Hızlı imaj durumu. Sadece rapor.", "Quick image health. Report only.", Action::CheckHealth, false),
        item(Emoji::Magnifier, "ScanHealth", "ScanHealth", "Ayrıntılı tarama (5-15 dk). Sadece teşhis.", "Detailed scan (5-15 min). Diagnostic only.", Action::ScanHealth, false),
        item(Emoji::Pill, "RestoreHealth", "RestoreHealth", "Bozukluğu internetten onarır (15-60 dk). %62-63'te durması normal.", "Repairs corruption via internet (15-60 min). Stalling at 62-63% is normal.", Action::RestoreHealth, false),
        item(Emoji::Disk, "RestoreHealth + ISO", "RestoreHealth + ISO", "İnternet yerine ISO'yu kaynak yapar (otomatik mount).", "Uses an ISO as source instead of internet (auto mount).", Action::RestoreIso, false),
        item(Emoji::Trash, "ComponentCleanup", "ComponentCleanup", "Eski güncelleme artıklarını temizler.", "Cleans up leftover update components.", Action::ComponentCleanup, false),
        item(Emoji::Chart, "AnalyzeComponentStore", "AnalyzeComponentStore", "Bileşen deposunun yer kullanımını raporlar.", "Reports component store space usage.", Action::AnalyzeStore, false),
        item(Emoji::Shield, "Bilinen Sorunları Uygula", "Apply Known Fixes", "Hızlı Başlangıç + DLL koruması tarar ve düzeltir.", "Checks and fixes Fast Startup + DLL protection.", Action::KnownIssues, false),
    ];
    let s = Section {
        id: SectionId::Onarim,
        nav_emoji: Emoji::Shield,
        title: "Onarım",
        title_en: "Repair",
        sub: "SFC + DISM. 0x8000ffff gibi hataların ilacı.",
        sub_en: "SFC + DISM. The cure for errors like 0x8000ffff.",
        items,
    };
    assert(s@.items =~= repair_view().items);
    s
}

/// The "Disk" section.
pub open spec fn disk_view() -> SectionV {
    SectionV {
        id: SectionId::Disk,
        nav_emoji: Emoji::Disk,
        title: "Disk"@,
        title_en: "Disk"@,
        sub: "Disk tarama ve bilgi. Salt okunur, güvenli."@,
        sub_en: "Disk scan and info. Read-only, safe."@,
        items: seq![
            iv(Emoji::Magnifier, "chkdsk C: /scan"@, "chkdsk C: /scan"@, "Çevrimiçi, salt okunur disk taraması."@, "Online, read-only disk scan."@, Action::Chkdsk, false),
            iv(Emoji::Chart, "Disk / Birim Bilgisi"@, "Disk / Volume Info"@, "C: birimi ve fiziksel disklerin teknik verileri."@, "Technical data for the C: volume and physical disks."@, Action::DiskInfo, false),
            iv(Emoji::Optical, "Component Yer Analizi"@, "Component Space Analysis"@, "Güncelleme havuzunun yer kullanımı."@, "Space usage of the update pool."@, Action::AnalyzeStore, false),
        ],
    }
}

fn disk() -> (s: Section)
    ensures
        s@ == disk_view(),
{
    let items = vec![
        item(Emoji::Magnifier, "chkdsk C: /scan", "chkdsk C: /scan", "Çevrimiçi, salt okunur disk taraması.", "Online, read-only disk scan.", Action::Chkdsk, false),
        item(Emoji::Chart, "Disk / Birim Bilgisi", "Disk / Volume Info", "C: birimi ve fiziksel disklerin teknik verileri.", "Technical data for the C: volume and physical disks.", Action::DiskInfo, false),
        item(Emoji::Optical, "Component Yer Analizi", "Component Space Analysis", "Güncelleme havuzunun yer kullanımı.", "Space usage of the update pool.", Action::AnalyzeStore, false),
    ];
    let s = Section {
        id: SectionId::Disk,
        nav_emoji: Emoji::Disk,
        title: "Disk",
        title_en: "Disk",
        sub: "Disk tarama ve bilgi. Salt okunur, güvenli.",
        sub_en: "Disk scan and info. Read-only, safe.",
        items,
    };
    assert(s@.items =~= disk_view().items);
    s
}

/// The "Power" section.
pub open spec fn power_view() -> SectionV {
    SectionV {
        id: SectionId::Guc,
        nav_emoji: Emoji::Controls,
        title: "Güç Yönetimi"@,
        title_en: "Power"@,
        sub: "Güç planları ve Turbo kontrolü. powercfg ile anında uygulanır."@,
        sub_en: "Power plans and Turbo control. Applied instantly with powercfg."@,
        items: seq![
            iv(Emoji::Battery, "Güç Tasarrufu"@, "Power Saver"@, "Minimum enerji, düşük performans (pil ömrü)."@, "Minimum energy, low performance (battery life)."@, Action::PowerSaver, false),
            iv(Emoji::Scale, "Dengeli"@, "Balanced"@, "Windows varsayılan dengesi. Genel kullanım."@, "Windows default balance. General use."@, Action::PowerBalanced, false),
            iv(Emoji::Rocket, "Yüksek Performans"@, "High Performance"@, "CPU'yu yüksek frekansta tutar, fan gürültüsü artar."@, "Keeps the CPU at high clocks, more fan noise."@, Action::PowerHighPerf, false),
            iv(Emoji::Bolt, "Ultimate Performance"@, "Ultimate Performance"@, "Chris Titus tarzı: gizli en yüksek performans planını açar."@, "Chris Titus style: unlocks the hidden max-performance plan."@, Action::PowerUltimate, false),
            iv(Emoji::Computer, "Turbo Kapat (%99)"@, "Turbo Off (99%)"@, "Maksimum İşlemci 100 -> 99. CPU taban hızında, daha serin."@, "Max Processor 100 -> 99. CPU at base clock, cooler."@, Action::TurboOff, false),
            iv(Emoji::Rocket, "Turbo Aç (%100)"@, "Turbo On (100%)"@, "Maksimum İşlemci 99 -> 100. Tam hız."@, "Max Processor 99 -> 100. Full speed."@, Action::TurboOn, false),
        ],
    }
}

fn power() -> (s: Section)
    ensures
        s@ == power_view(),
{
    let items = vec![
        item(Emoji::Battery, "Güç Tasarrufu", "Power Saver", "Minimum enerji, düşük performans (pil ömrü).", "Minimum energy, low performance (battery life).", Action::PowerSaver, false),
        item(Emoji::Scale, "Dengeli", "Balanced", "Windows varsayılan dengesi. Genel kullanım.", "Windows default balance. General use.", Action::PowerBalanced, false),
        item(Emoji::Rocket, "Yüksek Performans", "High Performance", "CPU'yu yüksek frekansta tutar, fan gürültüsü artar.", "Keeps the CPU at high clocks, more fan noise.", Action::PowerHighPerf, false),
        item(Emoji::Bolt, "Ultimate Performance", "Ultimate Performance", "Chris Titus tarzı: gizli en yüksek performans planını açar.", "Chris Titus style: unlocks the hidden max-performance plan.", Action::PowerUltimate, false),
        item(Emoji::Computer, "Turbo Kapat (%99)", "Turbo Off (99%)", "Maksimum İşlemci 100 -> 99. CPU taban hızında, daha serin.", "Max Processor 100 -> 99. CPU at base clock, cooler.", Action::TurboOff, false),
        item(Emoji::Rocket, "Turbo Aç (%100)", "Turbo On (100%)", "Maksimum İşlemci 99 -> 100. Tam hız.", "Max Processor 99 -> 100. Full speed.", Action::TurboOn, false),
    ];
    let s = Section {
        id: SectionId::Guc,
        nav_emoji: Emoji::Controls,
        title: "Güç Yönetimi",
        title_en: "Power",
        sub: "Güç planları ve Turbo kontrolü. powercfg ile anında uygulanır.",
        sub_en: "Power plans and Turbo control. Applied instantly with powercfg.",
        items,
    };
    assert(s@.items =~= power_view().items);
    s
}

/// The "Info & Logs" section.
pub open spec fn info_view() -> SectionV {
    SectionV {
        id: SectionId::Bilgi,
        nav_emoji: Emoji::Info,
        title: "Bilgi & Log"@,
        title_en: "Info & Logs"@,
        sub: "Sistem özeti ve destek logları."@,
        sub_en: "System summary and support logs."@,
        items: seq![
            iv(Emoji::Chart, "Sistem Bilgisi"@, "System Info"@, "İşletim sistemi, boş alan, yönetici durumu."@, "OS, free space, admin status."@, Action::SysInfo, false),
            iv(Emoji::Clipboard, "Logları Masaüstüne Kopyala"@, "Copy Logs to Desktop"@, "CBS/DISM loglarını masaüstüne al."@, "Copies CBS/DISM logs to the desktop."@, Action::Logs, false),
            iv(Emoji::Info, "Hakkında"@, "About"@, "Sürüm ve derleme bilgisi."@, "Version and build info."@, Action::About, false),
        ],
    }
}

fn info() -> (s: Section)
    ensures
        s@ == info_view(),
{
    let items = vec![
        item(Emoji::Chart, "Sistem Bilgisi", "System Info", "İşletim sistemi, boş alan, yönetici durumu.", "OS, free space, admin status.", Action::SysInfo, false),
        item(Emoji::Clipboard, "Logları Masaüstüne Kopyala", "Copy Logs to Desktop", "CBS/DISM loglarını masaüstüne al.", "Copies CBS/DISM logs to the desktop.", Action::Logs, false),
        item(Emoji::Info, "Hakkında", "About", "Sürüm ve derleme bilgisi.", "Version and build info.", Action::About, false),
    ];
    let s = Section {
        id: SectionId::Bilgi,
        nav_emoji: Emoji::Info,
        title: "Bilgi & Log",
        title_en: "Info & Logs",
        sub: "Sistem özeti ve destek logları.",
        sub_en: "System summary and support logs.",
        items,
    };
    assert(s@.items =~= info_view().items);
    s
}

/// All sections, in sidebar order.
pub open spec fn table() -> Seq<SectionV> {
    seq![home_view(), cleanup_view(), repair_view(), disk_view(), power_view(), info_view()]
}

/// The section with the given id.
pub open spec fn section_of(id: SectionId) -> SectionV {
    match id {
        SectionId::Home => home_view(),
        SectionId::Temizlik => cleanup_view(),
        SectionId::Onarim => repair_view(),
        SectionId::Disk => disk_view(),
        SectionId::Guc => power_view(),
        SectionId::Bilgi => info_view(),
    }
}

/// All sections with their tools, in sidebar order (see `table`).
pub fn all() -> (v: Vec<Section>)
    ensures
        sections_view(v@) == table(),
{
    let v = vec![home(), cleanup(), repair(), disk(), power(), info()];
    assert(sections_view(v@) =~= table());
    v
}

/// The section with the given id (see `section_of`).
pub fn section(id: SectionId) -> (s: Section)
    ensures
        s@ == section_of(id),
{
    match id {
        SectionId::Home => home(),
        SectionId::Temizlik => cleanup(),
        SectionId::Onarim => repair(),
        SectionId::Disk => disk(),
        SectionId::Guc => power(),
        SectionId::Bilgi => info(),
    }
}

/// The sidebar entries: each section's id, picture and title in the
/// chosen language, in sidebar order.
pub fn nav_items(en: bool) -> (v: Vec<(SectionId, Emoji, &'static str)>)
    ensures
        v@.len() == table().len(),
        forall|i: int|
            0 <= i < v@.len() ==> {
                let (id, e, t) = #[trigger] v@[i];
                &&& id == table()[i].id
                &&& e == table()[i].nav_emoji
                &&& t@ == lang(en, table()[i].title, table()[i].title_en)
            },
{
    let secs = all();
    let mut v: Vec<(SectionId, Emoji, &'static str)> = Vec::new();
    let mut i: usize = 0;
    while i < secs.len()
        invariant
            i <= secs.len(),
            sections_view(secs@) == table(),
            v@.len() == i,
            forall|k: int|
                0 <= k < i ==> {
                    let (id, e, t) = #[trigger] v@[k];
                    &&& id == table()[k].id
                    &&& e == table()[k].nav_emoji
                    &&& t@ == lang(en, table()[k].title, table()[k].title_en)
                },
        decreases secs.len() - i,
    {
        let s = &secs[i];
        assert(s@ == table()[i as int]);
        let t = if en {
            s.title_en
        } else {
            s.title
        };
        v.push((s.id, s.nav_emoji, t));
        i = i + 1;
    }
    v
}

} // verus!
