//! The maintenance jobs that need no decision beyond a question, an empty
//! folder or a stop request: cleaning, repair and disk information. Each
//! returns its `Script`.
use vstd::prelude::*;

use crate::actions::script::{ops_view, strings, Op, OpV, Script};
use crate::console::{rule, LineKind};
use crate::i18n::tr;
use crate::text::{join2, join3, lang, owned, repeat_char};

verus! {

/// The folders the jobs work in.
pub struct Paths {
    /// The Windows folder.
    pub windir: String,
    /// The user's local application data folder.
    pub local: String,
    /// The temporary folder.
    pub temp: String,
}

/// The Windows folder: `WINDIR` when it is set, else `C:\Windows`.
pub fn windir(var: Option<String>) -> (r: String)
    ensures
        r@ == (match var {
            Some(v) => v@,
            None => "C:\\Windows"@,
        }),
{
    match var {
        Some(v) => v,
        None => owned("C:\\Windows"),
    }
}

/// The local application data folder: `LOCALAPPDATA` when it is set, else
/// empty.
pub fn local(var: Option<String>) -> (r: String)
    ensures
        r@ == (match var {
            Some(v) => v@,
            None => Seq::<char>::empty(),
        }),
{
    match var {
        Some(v) => v,
        None => String::new(),
    }
}

fn push_op(v: &mut Vec<Op>, o: Op)
    ensures
        ops_view(final(v)@) == ops_view(old(v)@).push(o@),
{
    let ghost before = v@;
    let ghost ov = o@;
    v.push(o);
    assert(ops_view(v@) =~= ops_view(before).push(ov));
}

fn add_header(v: &mut Vec<Op>, t: &str)
    ensures
        ops_view(final(v)@) == ops_view(old(v)@) + seq![
            OpV::Say(LineKind::Big, rule('-')),
            OpV::Say(LineKind::Info, t@),
            OpV::Say(LineKind::Dim, rule('-')),
        ],
{
    let ghost before = ops_view(v@);
    push_op(v, Op::Say(LineKind::Big, repeat_char('-', 52)));
    push_op(v, Op::Say(LineKind::Info, owned(t)));
    push_op(v, Op::Say(LineKind::Dim, repeat_char('-', 52)));
    assert(ops_view(v@) =~= before + seq![
        OpV::Say(LineKind::Big, rule('-')),
        OpV::Say(LineKind::Info, t@),
        OpV::Say(LineKind::Dim, rule('-')),
    ]);
}

fn argv1(a: &str) -> (v: Vec<String>)
    ensures
        strings(v@) == seq![a@],
{
    let mut v: Vec<String> = Vec::new();
    v.push(owned(a));
    assert(strings(v@) =~= seq![a@]);
    v
}

fn argv2(a: &str, b: &str) -> (v: Vec<String>)
    ensures
        strings(v@) == seq![a@, b@],
{
    let mut v: Vec<String> = Vec::new();
    v.push(owned(a));
    v.push(owned(b));
    assert(strings(v@) =~= seq![a@, b@]);
    v
}

fn argv3(a: &str, b: &str, c: &str) -> (v: Vec<String>)
    ensures
        strings(v@) == seq![a@, b@, c@],
{
    let mut v: Vec<String> = Vec::new();
    v.push(owned(a));
    v.push(owned(b));
    v.push(owned(c));
    assert(strings(v@) =~= seq![a@, b@, c@]);
    v
}

/// The report line of a cleared folder: `   - <path>  (<n> items)`.
pub open spec fn cleared_text(en: bool, path: Seq<char>, n: Seq<char>) -> Seq<char> {
    "   - "@ + path + "  ("@ + n + " "@ + lang(en, "öğe"@, "items"@) + ")"@
}

/// The report line of a cleared folder, `n` being the number of entries
/// removed.
pub fn cleared_line(en: bool, path: &str, n: u64) -> (s: String)
    ensures
        s@ == cleared_text(en, path@, crate::text::digits_upper(n as nat, 10)),
{
    let d = crate::text::decimal(n);
    let a = join3("   - ", path, "  (");
    let b = join3(a.as_str(), d.as_str(), " ");
    join3(b.as_str(), tr(en, "öğe", "items"), ")")
}

/// The steps of the quick clean.
pub open spec fn quick_clean_ops(en: bool, p: Paths) -> Seq<OpV> {
    seq![
            OpV::Say(LineKind::Big, rule('-')),
            OpV::Say(LineKind::Info, lang(en, "HIZLI TEMİZLİK"@, "QUICK CLEAN"@)),
            OpV::Say(LineKind::Dim, rule('-')),
            OpV::Say(LineKind::Dim, lang(en, "temp + önbellek + geri dönüşüm (kişisel dosyalara dokunmaz)"@, "temp + cache + recycle bin (never touches personal files)"@)),
            OpV::ClearDir(p.temp@, true),
            OpV::ClearDir(p.windir@ + "\\Temp"@, true),
            OpV::GlobDelete(p.local@ + "\\Microsoft\\Windows\\Explorer"@, "thumbcache_"@),
            OpV::ClearDir(p.local@ + "\\Microsoft\\Windows\\INetCache"@, true),
        ]
        + seq![
            OpV::Quiet("powershell"@, seq!["-NoProfile"@, "-Command"@, "Clear-RecycleBin -Force -ErrorAction SilentlyContinue"@]),
            OpV::Say(LineKind::Success, lang(en, "Hızlı temizlik tamamlandı."@, "Quick clean finished."@)),
        ]
}

/// Quick clean: the temp folders, the thumbnail and internet caches, the recycle bin; personal files are never touched.
pub fn quick_clean(en: bool, p: &Paths) -> (s: Script)
    ensures
        ops_view(s.ops@) == quick_clean_ops(en, *p),
        s.pc == 0,
{
    let mut v: Vec<Op> = Vec::new();
    add_header(&mut v, tr(en, "HIZLI TEMİZLİK", "QUICK CLEAN"));
    push_op(&mut v, Op::Say(LineKind::Dim, owned(tr(en, "temp + önbellek + geri dönüşüm (kişisel dosyalara dokunmaz)", "temp + cache + recycle bin (never touches personal files)"))));
    push_op(&mut v, Op::ClearDir(owned(p.temp.as_str()), true));
    push_op(&mut v, Op::ClearDir(join2(p.windir.as_str(), "\\Temp"), true));
    push_op(&mut v, Op::GlobDelete(join2(p.local.as_str(), "\\Microsoft\\Windows\\Explorer"), owned("thumbcache_")));
    push_op(&mut v, Op::ClearDir(join2(p.local.as_str(), "\\Microsoft\\Windows\\INetCache"), true));
    push_op(&mut v, Op::Quiet(owned("powershell"), argv3("-NoProfile", "-Command", "Clear-RecycleBin -Force -ErrorAction SilentlyContinue")));
    push_op(&mut v, Op::Say(LineKind::Success, owned(tr(en, "Hızlı temizlik tamamlandı.", "Quick clean finished."))));
    assert(ops_view(v@) =~= quick_clean_ops(en, *p));
    Script::new(v)
}

/// The steps of the deep clean.
pub open spec fn deep_clean_ops(en: bool, p: Paths) -> Seq<OpV> {
    seq![
            OpV::Ask(lang(en, "Derin Temizlik"@, "Deep Clean"@), lang(en, "Windows Update önbelleği, prefetch ve cache dosyaları silinecek.\nKişisel dosyalarına dokunulmaz.\n\nDevam edilsin mi?"@, "Windows Update cache, prefetch and cache files will be deleted.\nYour personal files will not be touched.\n\nContinue?"@), 32),
            OpV::Say(LineKind::Big, rule('-')),
            OpV::Say(LineKind::Info, lang(en, "DERİN TEMİZLİK"@, "DEEP CLEAN"@)),
            OpV::Say(LineKind::Dim, rule('-')),
            OpV::ClearDir(p.temp@, true),
            OpV::ClearDir(p.windir@ + "\\Temp"@, true),
            OpV::Say(LineKind::Dim, lang(en, "   - Windows Update önbelleği..."@, "   - Windows Update cache..."@)),
            OpV::Quiet("net"@, seq!["stop"@, "wuauserv"@]),
        ]
        + seq![
            OpV::Quiet("net"@, seq!["stop"@, "bits"@]),
            OpV::ClearDir(p.windir@ + "\\SoftwareDistribution\\Download"@, false),
            OpV::Quiet("net"@, seq!["start"@, "bits"@]),
            OpV::Quiet("net"@, seq!["start"@, "wuauserv"@]),
            OpV::GlobDelete(p.windir@ + "\\Prefetch"@, ".pf"@),
            OpV::Say(LineKind::Dim, lang(en, "   - Delivery Optimization önbelleği..."@, "   - Delivery Optimization cache..."@)),
            OpV::ClearDir(p.windir@ + "\\ServiceProfiles\\NetworkService\\AppData\\Local\\Microsoft\\Windows\\DeliveryOptimization\\Cache"@, false),
            OpV::RemoveFile(p.local@ + "\\IconCache.db"@),
        ]
        + seq![
            OpV::GlobDelete(p.local@ + "\\Microsoft\\Windows\\Explorer"@, "iconcache_"@),
            OpV::IfEntries(p.windir@ + "\\Minidump"@, 24),
            OpV::Ask(lang(en, "Minidump"@, "Minidump"@), lang(en, "C:\\Windows\\Minidump içinde mavi ekran kayıtları var.\nBunlar arıza TESPİTİ için delildir.\n\nSilinsin mi?"@, "C:\\Windows\\Minidump contains blue-screen records.\nThey are EVIDENCE for troubleshooting.\n\nDelete them?"@), 23),
            OpV::ClearDir(p.windir@ + "\\Minidump"@, false),
            OpV::RemoveFile(p.windir@ + "\\MEMORY.DMP"@),
            OpV::Say(LineKind::Warn, lang(en, "   - Minidump silindi."@, "   - Minidump deleted."@)),
            OpV::Goto(24),
            OpV::Say(LineKind::Dim, lang(en, "   - Minidump korundu (delil)."@, "   - Minidump kept (evidence)."@)),
        ]
        + seq![
            OpV::Ask(lang(en, "Tarayıcı Önbelleği"@, "Browser Cache"@), lang(en, "Tarayıcı önbellekleri de temizlensin mi?\n(Tarayıcılar kapalı olmalı.)"@, "Clear browser caches too?\n(Browsers should be closed.)"@), 30),
            OpV::ClearDir(p.local@ + "\\"@ + "Microsoft\\Edge\\User Data\\Default\\Cache"@, false),
            OpV::ClearDir(p.local@ + "\\"@ + "Google\\Chrome\\User Data\\Default\\Cache"@, false),
            OpV::ClearDir(p.local@ + "\\"@ + "BraveSoftware\\Brave-Browser\\User Data\\Default\\Cache"@, false),
            OpV::ClearDir(p.local@ + "\\"@ + "Opera Software\\Opera Stable\\Cache"@, false),
            OpV::Say(LineKind::Dim, lang(en, "   - Tarayıcı önbellekleri silindi."@, "   - Browser caches cleared."@)),
            OpV::Say(LineKind::Success, lang(en, "Derin temizlik tamamlandı."@, "Deep clean finished."@)),
            OpV::End,
        ]
        + seq![
            OpV::Say(LineKind::Warn, lang(en, "İptal edildi."@, "Cancelled."@)),
            OpV::End,
        ]
}

/// Deep clean (asks first): the quick clean's temp folders plus the Windows Update download cache (with its services stopped meanwhile), prefetch, delivery optimisation cache and icon caches; the crash dumps and the browser caches only if the user agrees.
pub fn deep_clean(en: bool, p: &Paths) -> (s: Script)
    ensures
        ops_view(s.ops@) == deep_clean_ops(en, *p),
        s.pc == 0,
{
    let mut v: Vec<Op> = Vec::new();
    push_op(&mut v, Op::Ask(owned(tr(en, "Derin Temizlik", "Deep Clean")), owned(tr(en, "Windows Update önbelleği, prefetch ve cache dosyaları silinecek.\nKişisel dosyalarına dokunulmaz.\n\nDevam edilsin mi?", "Windows Update cache, prefetch and cache files will be deleted.\nYour personal files will not be touched.\n\nContinue?")), 32));
    add_header(&mut v, tr(en, "DERİN TEMİZLİK", "DEEP CLEAN"));
    push_op(&mut v, Op::ClearDir(owned(p.temp.as_str()), true));
    push_op(&mut v, Op::ClearDir(join2(p.windir.as_str(), "\\Temp"), true));
    push_op(&mut v, Op::Say(LineKind::Dim, owned(tr(en, "   - Windows Update önbelleği...", "   - Windows Update cache..."))));
    push_op(&mut v, Op::Quiet(owned("net"), argv2("stop", "wuauserv")));
    push_op(&mut v, Op::Quiet(owned("net"), argv2("stop", "bits")));
    push_op(&mut v, Op::ClearDir(join2(p.windir.as_str(), "\\SoftwareDistribution\\Download"), false));
    push_op(&mut v, Op::Quiet(owned("net"), argv2("start", "bits")));
    push_op(&mut v, Op::Quiet(owned("net"), argv2("start", "wuauserv")));
    push_op(&mut v, Op::GlobDelete(join2(p.windir.as_str(), "\\Prefetch"), owned(".pf")));
    push_op(&mut v, Op::Say(LineKind::Dim, owned(tr(en, "   - Delivery Optimization önbelleği...", "   - Delivery Optimization cache..."))));
    push_op(&mut v, Op::ClearDir(join2(p.windir.as_str(), "\\ServiceProfiles\\NetworkService\\AppData\\Local\\Microsoft\\Windows\\DeliveryOptimization\\Cache"), false));
    push_op(&mut v, Op::RemoveFile(join2(p.local.as_str(), "\\IconCache.db")));
    push_op(&mut v, Op::GlobDelete(join2(p.local.as_str(), "\\Microsoft\\Windows\\Explorer"), owned("iconcache_")));
    push_op(&mut v, Op::IfEntries(join2(p.windir.as_str(), "\\Minidump"), 24));
    push_op(&mut v, Op::Ask(owned(tr(en, "Minidump", "Minidump")), owned(tr(en, "C:\\Windows\\Minidump içinde mavi ekran kayıtları var.\nBunlar arıza TESPİTİ için delildir.\n\nSilinsin mi?", "C:\\Windows\\Minidump contains blue-screen records.\nThey are EVIDENCE for troubleshooting.\n\nDelete them?")), 23));
    push_op(&mut v, Op::ClearDir(join2(p.windir.as_str(), "\\Minidump"), false));
    push_op(&mut v, Op::RemoveFile(join2(p.windir.as_str(), "\\MEMORY.DMP")));
    push_op(&mut v, Op::Say(LineKind::Warn, owned(tr(en, "   - Minidump silindi.", "   - Minidump deleted."))));
    push_op(&mut v, Op::Goto(24));
    push_op(&mut v, Op::Say(LineKind::Dim, owned(tr(en, "   - Minidump korundu (delil).", "   - Minidump kept (evidence)."))));
    push_op(&mut v, Op::Ask(owned(tr(en, "Tarayıcı Önbelleği", "Browser Cache")), owned(tr(en, "Tarayıcı önbellekleri de temizlensin mi?\n(Tarayıcılar kapalı olmalı.)", "Clear browser caches too?\n(Browsers should be closed.)")), 30));
    push_op(&mut v, Op::ClearDir(join3(p.local.as_str(), "\\", "Microsoft\\Edge\\User Data\\Default\\Cache"), false));
    push_op(&mut v, Op::ClearDir(join3(p.local.as_str(), "\\", "Google\\Chrome\\User Data\\Default\\Cache"), false));
    push_op(&mut v, Op::ClearDir(join3(p.local.as_str(), "\\", "BraveSoftware\\Brave-Browser\\User Data\\Default\\Cache"), false));
    push_op(&mut v, Op::ClearDir(join3(p.local.as_str(), "\\", "Opera Software\\Opera Stable\\Cache"), false));
    push_op(&mut v, Op::Say(LineKind::Dim, owned(tr(en, "   - Tarayıcı önbellekleri silindi.", "   - Browser caches cleared."))));
    push_op(&mut v, Op::Say(LineKind::Success, owned(tr(en, "Derin temizlik tamamlandı.", "Deep clean finished."))));
    push_op(&mut v, Op::End);
    push_op(&mut v, Op::Say(LineKind::Warn, owned(tr(en, "İptal edildi.", "Cancelled."))));
    push_op(&mut v, Op::End);
    assert(ops_view(v@) =~= deep_clean_ops(en, *p));
    Script::new(v)
}

/// The steps of restarting Explorer.
pub open spec fn restart_explorer_ops(en: bool) -> Seq<OpV> {
    seq![
            OpV::Say(LineKind::Info, lang(en, "Explorer yeniden başlatılıyor..."@, "Restarting Explorer..."@)),
            OpV::Quiet("taskkill"@, seq!["/f"@, "/im"@, "explorer.exe"@]),
            OpV::Pause(2),
            OpV::Launch("explorer.exe"@),
            OpV::Say(LineKind::Success, lang(en, "Masaüstü ve görev çubuğu yenilendi."@, "Desktop and taskbar refreshed."@)),
        ]
}

/// Restarts Explorer: ends it, waits two seconds, starts it again.
pub fn restart_explorer(en: bool) -> (s: Script)
    ensures
        ops_view(s.ops@) == restart_explorer_ops(en),
        s.pc == 0,
{
    let mut v: Vec<Op> = Vec::new();
    push_op(&mut v, Op::Say(LineKind::Info, owned(tr(en, "Explorer yeniden başlatılıyor...", "Restarting Explorer..."))));
    push_op(&mut v, Op::Quiet(owned("taskkill"), argv3("/f", "/im", "explorer.exe")));
    push_op(&mut v, Op::Pause(2));
    push_op(&mut v, Op::Launch(owned("explorer.exe")));
    push_op(&mut v, Op::Say(LineKind::Success, owned(tr(en, "Masaüstü ve görev çubuğu yenilendi.", "Desktop and taskbar refreshed."))));
    assert(ops_view(v@) =~= restart_explorer_ops(en));
    Script::new(v)
}

/// The steps of emptying the recycle bin.
pub open spec fn empty_recycle_dialog_ops(en: bool) -> Seq<OpV> {
    seq![
            OpV::Ask(lang(en, "Geri Dönüşüm"@, "Recycle Bin"@), lang(en, "Geri dönüşüm kutusu boşaltılsın mı?\nBu işlem geri alınamaz."@, "Empty the recycle bin?\nThis cannot be undone."@), 4),
            OpV::Quiet("powershell"@, seq!["-NoProfile"@, "-Command"@, "Clear-RecycleBin -Force -ErrorAction SilentlyContinue"@]),
            OpV::Say(LineKind::Success, lang(en, "Geri dönüşüm kutusu boşaltıldı."@, "Recycle bin emptied."@)),
            OpV::End,
            OpV::Say(LineKind::Warn, lang(en, "İptal edildi."@, "Cancelled."@)),
            OpV::End,
        ]
}

/// Empties the recycle bin after asking.
pub fn empty_recycle_dialog(en: bool) -> (s: Script)
    ensures
        ops_view(s.ops@) == empty_recycle_dialog_ops(en),
        s.pc == 0,
{
    let mut v: Vec<Op> = Vec::new();
    push_op(&mut v, Op::Ask(owned(tr(en, "Geri Dönüşüm", "Recycle Bin")), owned(tr(en, "Geri dönüşüm kutusu boşaltılsın mı?\nBu işlem geri alınamaz.", "Empty the recycle bin?\nThis cannot be undone.")), 4));
    push_op(&mut v, Op::Quiet(owned("powershell"), argv3("-NoProfile", "-Command", "Clear-RecycleBin -Force -ErrorAction SilentlyContinue")));
    push_op(&mut v, Op::Say(LineKind::Success, owned(tr(en, "Geri dönüşüm kutusu boşaltıldı.", "Recycle bin emptied."))));
    push_op(&mut v, Op::End);
    push_op(&mut v, Op::Say(LineKind::Warn, owned(tr(en, "İptal edildi.", "Cancelled."))));
    push_op(&mut v, Op::End);
    assert(ops_view(v@) =~= empty_recycle_dialog_ops(en));
    Script::new(v)
}

/// The steps of clearing the Windows Update cache.
pub open spec fn wu_cache_ops(en: bool, p: Paths) -> Seq<OpV> {
    seq![
            OpV::Say(LineKind::Info, lang(en, "Windows Update önbelleği temizleniyor..."@, "Clearing Windows Update cache..."@)),
            OpV::Quiet("net"@, seq!["stop"@, "wuauserv"@]),
            OpV::Quiet("net"@, seq!["stop"@, "bits"@]),
            OpV::ClearDir(p.windir@ + "\\SoftwareDistribution\\Download"@, false),
            OpV::Quiet("net"@, seq!["start"@, "bits"@]),
            OpV::Quiet("net"@, seq!["start"@, "wuauserv"@]),
            OpV::Say(LineKind::Success, lang(en, "Windows Update önbelleği temizlendi."@, "Windows Update cache cleared."@)),
        ]
}

/// Clears the Windows Update download cache, with the update and transfer services stopped meanwhile.
pub fn wu_cache(en: bool, p: &Paths) -> (s: Script)
    ensures
        ops_view(s.ops@) == wu_cache_ops(en, *p),
        s.pc == 0,
{
    let mut v: Vec<Op> = Vec::new();
    push_op(&mut v, Op::Say(LineKind::Info, owned(tr(en, "Windows Update önbelleği temizleniyor...", "Clearing Windows Update cache..."))));
    push_op(&mut v, Op::Quiet(owned("net"), argv2("stop", "wuauserv")));
    push_op(&mut v, Op::Quiet(owned("net"), argv2("stop", "bits")));
    push_op(&mut v, Op::ClearDir(join2(p.windir.as_str(), "\\SoftwareDistribution\\Download"), false));
    push_op(&mut v, Op::Quiet(owned("net"), argv2("start", "bits")));
    push_op(&mut v, Op::Quiet(owned("net"), argv2("start", "wuauserv")));
    push_op(&mut v, Op::Say(LineKind::Success, owned(tr(en, "Windows Update önbelleği temizlendi.", "Windows Update cache cleared."))));
    assert(ops_view(v@) =~= wu_cache_ops(en, *p));
    Script::new(v)
}

/// The steps of the largest-files listing.
pub open spec fn big_files_ops(en: bool) -> Seq<OpV> {
    seq![
            OpV::Say(LineKind::Big, rule('-')),
            OpV::Say(LineKind::Info, lang(en, "ALAN CANAVARI - en büyük 20 dosya"@, "SPACE HOG FINDER - 20 largest files"@)),
            OpV::Say(LineKind::Dim, rule('-')),
            OpV::Stream("powershell"@, seq!["-NoProfile"@, "-Command"@, "Get-ChildItem -Path 'C:\\' -Recurse -File -Force -ErrorAction SilentlyContinue | Sort-Object Length -Descending | Select-Object -First 20 @{n='GB';e={[math]::Round($_.Length/1GB,2)}},FullName | Format-Table -AutoSize | Out-String -Width 200"@]),
            OpV::Say(LineKind::Dim, lang(en, "(liste bitti - hiçbir dosya silinmedi)"@, "(list end - no files deleted)"@)),
        ]
}

/// Lists the 20 largest files on C: (deletes nothing).
pub fn big_files(en: bool) -> (s: Script)
    ensures
        ops_view(s.ops@) == big_files_ops(en),
        s.pc == 0,
{
    let mut v: Vec<Op> = Vec::new();
    add_header(&mut v, tr(en, "ALAN CANAVARI - en büyük 20 dosya", "SPACE HOG FINDER - 20 largest files"));
    push_op(&mut v, Op::Stream(owned("powershell"), argv3("-NoProfile", "-Command", "Get-ChildItem -Path 'C:\\' -Recurse -File -Force -ErrorAction SilentlyContinue | Sort-Object Length -Descending | Select-Object -First 20 @{n='GB';e={[math]::Round($_.Length/1GB,2)}},FullName | Format-Table -AutoSize | Out-String -Width 200")));
    push_op(&mut v, Op::Say(LineKind::Dim, owned(tr(en, "(liste bitti - hiçbir dosya silinmedi)", "(list end - no files deleted)"))));
    assert(ops_view(v@) =~= big_files_ops(en));
    Script::new(v)
}

/// The steps of the full repair.
pub open spec fn full_repair_ops(en: bool) -> Seq<OpV> {
    seq![
            OpV::Ask(lang(en, "Tam Otomatik Onarım"@, "Full Auto Repair"@), lang(en, "Şu zincir çalışacak:\n\n  1) CheckHealth\n  2) ScanHealth\n  3) RestoreHealth\n  4) SFC /scannow\n  5) ComponentCleanup\n  6) Kontrol\n\nİnternet gerekir, 20-90 dk.\nRestoreHealth %62-63'te uzun süre 'duruyor' görünür, bu normaldir.\n\nBaşla?"@, "This chain will run:\n\n  1) CheckHealth\n  2) ScanHealth\n  3) RestoreHealth\n  4) SFC /scannow\n  5) ComponentCleanup\n  6) Check\n\nInternet required, 20-90 min.\nRestoreHealth may seem 'stuck' at 62-63% - that is normal.\n\nStart?"@), 35),
            OpV::StopPoint,
            OpV::Say(LineKind::Big, rule('-')),
            OpV::Say(LineKind::Info, "> "@ + lang(en, "[1/6] CheckHealth"@, "[1/6] CheckHealth"@)),
            OpV::Say(LineKind::Dim, rule('-')),
            OpV::Stream("dism"@, seq!["/online"@, "/cleanup-image"@, "/checkhealth"@]),
            OpV::StopPoint,
            OpV::Say(LineKind::Big, rule('-')),
        ]
        + seq![
            OpV::Say(LineKind::Info, "> "@ + lang(en, "[2/6] ScanHealth"@, "[2/6] ScanHealth"@)),
            OpV::Say(LineKind::Dim, rule('-')),
            OpV::Stream("dism"@, seq!["/online"@, "/cleanup-image"@, "/scanhealth"@]),
            OpV::StopPoint,
            OpV::Say(LineKind::Big, rule('-')),
            OpV::Say(LineKind::Info, "> "@ + lang(en, "[3/6] RestoreHealth"@, "[3/6] RestoreHealth"@)),
            OpV::Say(LineKind::Dim, rule('-')),
            OpV::Stream("dism"@, seq!["/online"@, "/cleanup-image"@, "/restorehealth"@]),
        ]
        + seq![
            OpV::StopPoint,
            OpV::Say(LineKind::Big, rule('-')),
            OpV::Say(LineKind::Info, "> "@ + lang(en, "[4/6] SFC /scannow"@, "[4/6] SFC /scannow"@)),
            OpV::Say(LineKind::Dim, rule('-')),
            OpV::Stream("sfc"@, seq!["/scannow"@]),
            OpV::StopPoint,
            OpV::Say(LineKind::Big, rule('-')),
            OpV::Say(LineKind::Info, "> "@ + lang(en, "[5/6] ComponentCleanup"@, "[5/6] ComponentCleanup"@)),
        ]
        + seq![
            OpV::Say(LineKind::Dim, rule('-')),
            OpV::Stream("dism"@, seq!["/online"@, "/cleanup-image"@, "/startcomponentcleanup"@]),
            OpV::StopPoint,
            OpV::Say(LineKind::Big, rule('-')),
            OpV::Say(LineKind::Info, "> "@ + lang(en, "[6/6] Kontrol"@, "[6/6] Check"@)),
            OpV::Say(LineKind::Dim, rule('-')),
            OpV::Stream("dism"@, seq!["/online"@, "/cleanup-image"@, "/checkhealth"@]),
            OpV::Say(LineKind::Big, rule('=')),
        ]
        + seq![
            OpV::Say(LineKind::Success, lang(en, "Tüm işlemler tamamlandı."@, "All steps complete."@)),
            OpV::Say(LineKind::Dim, rule('=')),
            OpV::End,
            OpV::Say(LineKind::Warn, lang(en, "İptal edildi."@, "Cancelled."@)),
            OpV::End,
        ]
}

/// Full automatic repair (asks first): DISM CheckHealth, ScanHealth, RestoreHealth, SFC, ComponentCleanup and a final CheckHealth, stopping between steps when asked to.
pub fn full_repair(en: bool) -> (s: Script)
    ensures
        ops_view(s.ops@) == full_repair_ops(en),
        s.pc == 0,
{
    let mut v: Vec<Op> = Vec::new();
    push_op(&mut v, Op::Ask(owned(tr(en, "Tam Otomatik Onarım", "Full Auto Repair")), owned(tr(en, "Şu zincir çalışacak:\n\n  1) CheckHealth\n  2) ScanHealth\n  3) RestoreHealth\n  4) SFC /scannow\n  5) ComponentCleanup\n  6) Kontrol\n\nİnternet gerekir, 20-90 dk.\nRestoreHealth %62-63'te uzun süre 'duruyor' görünür, bu normaldir.\n\nBaşla?", "This chain will run:\n\n  1) CheckHealth\n  2) ScanHealth\n  3) RestoreHealth\n  4) SFC /scannow\n  5) ComponentCleanup\n  6) Check\n\nInternet required, 20-90 min.\nRestoreHealth may seem 'stuck' at 62-63% - that is normal.\n\nStart?")), 35));
    push_op(&mut v, Op::StopPoint);
    push_op(&mut v, Op::Say(LineKind::Big, repeat_char('-', 52)));
    push_op(&mut v, Op::Say(LineKind::Info, join2("> ", tr(en, "[1/6] CheckHealth", "[1/6] CheckHealth"))));
    push_op(&mut v, Op::Say(LineKind::Dim, repeat_char('-', 52)));
    push_op(&mut v, Op::Stream(owned("dism"), argv3("/online", "/cleanup-image", "/checkhealth")));
    push_op(&mut v, Op::StopPoint);
    push_op(&mut v, Op::Say(LineKind::Big, repeat_char('-', 52)));
    push_op(&mut v, Op::Say(LineKind::Info, join2("> ", tr(en, "[2/6] ScanHealth", "[2/6] ScanHealth"))));
    push_op(&mut v, Op::Say(LineKind::Dim, repeat_char('-', 52)));
    push_op(&mut v, Op::Stream(owned("dism"), argv3("/online", "/cleanup-image", "/scanhealth")));
    push_op(&mut v, Op::StopPoint);
    push_op(&mut v, Op::Say(LineKind::Big, repeat_char('-', 52)));
    push_op(&mut v, Op::Say(LineKind::Info, join2("> ", tr(en, "[3/6] RestoreHealth", "[3/6] RestoreHealth"))));
    push_op(&mut v, Op::Say(LineKind::Dim, repeat_char('-', 52)));
    push_op(&mut v, Op::Stream(owned("dism"), argv3("/online", "/cleanup-image", "/restorehealth")));
    push_op(&mut v, Op::StopPoint);
    push_op(&mut v, Op::Say(LineKind::Big, repeat_char('-', 52)));
    push_op(&mut v, Op::Say(LineKind::Info, join2("> ", tr(en, "[4/6] SFC /scannow", "[4/6] SFC /scannow"))));
    push_op(&mut v, Op::Say(LineKind::Dim, repeat_char('-', 52)));
    push_op(&mut v, Op::Stream(owned("sfc"), argv1("/scannow")));
    push_op(&mut v, Op::StopPoint);
    push_op(&mut v, Op::Say(LineKind::Big, repeat_char('-', 52)));
    push_op(&mut v, Op::Say(LineKind::Info, join2("> ", tr(en, "[5/6] ComponentCleanup", "[5/6] ComponentCleanup"))));
    push_op(&mut v, Op::Say(LineKind::Dim, repeat_char('-', 52)));
    push_op(&mut v, Op::Stream(owned("dism"), argv3("/online", "/cleanup-image", "/startcomponentcleanup")));
    push_op(&mut v, Op::StopPoint);
    push_op(&mut v, Op::Say(LineKind::Big, repeat_char('-', 52)));
    push_op(&mut v, Op::Say(LineKind::Info, join2("> ", tr(en, "[6/6] Kontrol", "[6/6] Check"))));
    push_op(&mut v, Op::Say(LineKind::Dim, repeat_char('-', 52)));
    push_op(&mut v, Op::Stream(owned("dism"), argv3("/online", "/cleanup-image", "/checkhealth")));
    push_op(&mut v, Op::Say(LineKind::Big, repeat_char('=', 52)));
    push_op(&mut v, Op::Say(LineKind::Success, owned(tr(en, "Tüm işlemler tamamlandı.", "All steps complete."))));
    push_op(&mut v, Op::Say(LineKind::Dim, repeat_char('=', 52)));
    push_op(&mut v, Op::End);
    push_op(&mut v, Op::Say(LineKind::Warn, owned(tr(en, "İptal edildi.", "Cancelled."))));
    push_op(&mut v, Op::End);
    assert(ops_view(v@) =~= full_repair_ops(en));
    Script::new(v)
}

/// The steps of one DISM operation.
pub open spec fn simple_dism_ops(en: bool, label: Seq<char>, flag: Seq<char>) -> Seq<OpV> {
    seq![
            OpV::Say(LineKind::Big, rule('-')),
            OpV::Say(LineKind::Info, label),
            OpV::Say(LineKind::Dim, rule('-')),
            OpV::Stream("dism"@, seq!["/online"@, "/cleanup-image"@, flag]),
            OpV::Say(LineKind::Success, lang(en, "Tamamlandı."@, "Done."@)),
        ]
}

/// One DISM image operation (`dism /online /cleanup-image <flag>`) under the header `label`.
pub fn simple_dism(en: bool, label: &str, flag: &str) -> (s: Script)
    ensures
        ops_view(s.ops@) == simple_dism_ops(en, label@, flag@),
        s.pc == 0,
{
    let mut v: Vec<Op> = Vec::new();
    add_header(&mut v, label);
    push_op(&mut v, Op::Stream(owned("dism"), argv3("/online", "/cleanup-image", flag)));
    push_op(&mut v, Op::Say(LineKind::Success, owned(tr(en, "Tamamlandı.", "Done."))));
    assert(ops_view(v@) =~= simple_dism_ops(en, label@, flag@));
    Script::new(v)
}

/// The steps of RestoreHealth.
pub open spec fn restore_health_ops(en: bool) -> Seq<OpV> {
    seq![
            OpV::Ask(lang(en, "RestoreHealth"@, "RestoreHealth"@), lang(en, "Bozuk sistem bileşenleri internetten indirilip onarılacak.\n15-60 dakika sürebilir; %62-63'te durması normaldir.\n\nBaşla?"@, "Corrupt system components will be repaired via internet.\nMay take 15-60 minutes; stalling at 62-63% is normal.\n\nStart?"@), 7),
            OpV::Say(LineKind::Big, rule('-')),
            OpV::Say(LineKind::Info, "RestoreHealth"@),
            OpV::Say(LineKind::Dim, rule('-')),
            OpV::Stream("dism"@, seq!["/online"@, "/cleanup-image"@, "/restorehealth"@]),
            OpV::Say(LineKind::Success, lang(en, "Tamamlandı."@, "Done."@)),
            OpV::End,
            OpV::Say(LineKind::Warn, lang(en, "İptal edildi."@, "Cancelled."@)),
        ]
        + seq![
            OpV::End,
        ]
}

/// DISM RestoreHealth from Windows Update (asks first).
pub fn restore_health(en: bool) -> (s: Script)
    ensures
        ops_view(s.ops@) == restore_health_ops(en),
        s.pc == 0,
{
    let mut v: Vec<Op> = Vec::new();
    push_op(&mut v, Op::Ask(owned(tr(en, "RestoreHealth", "RestoreHealth")), owned(tr(en, "Bozuk sistem bileşenleri internetten indirilip onarılacak.\n15-60 dakika sürebilir; %62-63'te durması normaldir.\n\nBaşla?", "Corrupt system components will be repaired via internet.\nMay take 15-60 minutes; stalling at 62-63% is normal.\n\nStart?")), 7));
    add_header(&mut v, "RestoreHealth");
    push_op(&mut v, Op::Stream(owned("dism"), argv3("/online", "/cleanup-image", "/restorehealth")));
    push_op(&mut v, Op::Say(LineKind::Success, owned(tr(en, "Tamamlandı.", "Done."))));
    push_op(&mut v, Op::End);
    push_op(&mut v, Op::Say(LineKind::Warn, owned(tr(en, "İptal edildi.", "Cancelled."))));
    push_op(&mut v, Op::End);
    assert(ops_view(v@) =~= restore_health_ops(en));
    Script::new(v)
}

/// The steps of the disk scan.
pub open spec fn chkdsk_ops(en: bool) -> Seq<OpV> {
    seq![
            OpV::Say(LineKind::Big, rule('-')),
            OpV::Say(LineKind::Info, "chkdsk C: /scan"@),
            OpV::Say(LineKind::Dim, rule('-')),
            OpV::Stream("chkdsk"@, seq!["C:"@, "/scan"@]),
            OpV::Say(LineKind::Success, lang(en, "Tamamlandı."@, "Done."@)),
        ]
}

/// Online, read-only scan of C: (`chkdsk C: /scan`).
pub fn chkdsk(en: bool) -> (s: Script)
    ensures
        ops_view(s.ops@) == chkdsk_ops(en),
        s.pc == 0,
{
    let mut v: Vec<Op> = Vec::new();
    add_header(&mut v, "chkdsk C: /scan");
    push_op(&mut v, Op::Stream(owned("chkdsk"), argv2("C:", "/scan")));
    push_op(&mut v, Op::Say(LineKind::Success, owned(tr(en, "Tamamlandı.", "Done."))));
    assert(ops_view(v@) =~= chkdsk_ops(en));
    Script::new(v)
}

/// The steps of the disk information.
pub open spec fn disk_info_ops(en: bool) -> Seq<OpV> {
    seq![
            OpV::Say(LineKind::Big, rule('-')),
            OpV::Say(LineKind::Info, lang(en, "Birim bilgisi (C:)"@, "Volume info (C:)"@)),
            OpV::Say(LineKind::Dim, rule('-')),
            OpV::Stream("powershell"@, seq!["-NoProfile"@, "-Command"@, "Get-Volume -DriveLetter C | Format-List DriveLetter, FileSystemLabel, FileSystem, HealthStatus, SizeRemaining, Size | Out-String -Width 200"@]),
            OpV::Say(LineKind::Big, rule('-')),
            OpV::Say(LineKind::Info, lang(en, "Fiziksel disk bilgisi"@, "Physical disk info"@)),
            OpV::Say(LineKind::Dim, rule('-')),
            OpV::Stream("powershell"@, seq!["-NoProfile"@, "-Command"@, "Get-Disk | Format-Table Number, FriendlyName, BusType, MediaType, HealthStatus, OperationalStatus, PartitionStyle, @{n='SizeGB';e={[math]::Round($_.Size/1GB,1)}} -AutoSize | Out-String -Width 200"@]),
        ]
        + seq![
            OpV::Say(LineKind::Success, lang(en, "Tamamlandı."@, "Done."@)),
        ]
}

/// Volume information for C: and the physical disks.
pub fn disk_info(en: bool) -> (s: Script)
    ensures
        ops_view(s.ops@) == disk_info_ops(en),
        s.pc == 0,
{
    let mut v: Vec<Op> = Vec::new();
    add_header(&mut v, tr(en, "Birim bilgisi (C:)", "Volume info (C:)"));
    push_op(&mut v, Op::Stream(owned("powershell"), argv3("-NoProfile", "-Command", "Get-Volume -DriveLetter C | Format-List DriveLetter, FileSystemLabel, FileSystem, HealthStatus, SizeRemaining, Size | Out-String -Width 200")));
    add_header(&mut v, tr(en, "Fiziksel disk bilgisi", "Physical disk info"));
    push_op(&mut v, Op::Stream(owned("powershell"), argv3("-NoProfile", "-Command", "Get-Disk | Format-Table Number, FriendlyName, BusType, MediaType, HealthStatus, OperationalStatus, PartitionStyle, @{n='SizeGB';e={[math]::Round($_.Size/1GB,1)}} -AutoSize | Out-String -Width 200")));
    push_op(&mut v, Op::Say(LineKind::Success, owned(tr(en, "Tamamlandı.", "Done."))));
    assert(ops_view(v@) =~= disk_info_ops(en));
    Script::new(v)
}

/// The steps of the system file check.
pub open spec fn sfc_ops(en: bool) -> Seq<OpV> {
    seq![
            OpV::Say(LineKind::Big, rule('-')),
            OpV::Say(LineKind::Info, "SFC /scannow"@),
            OpV::Say(LineKind::Dim, rule('-')),
            OpV::Stream("sfc"@, seq!["/scannow"@]),
            OpV::Say(LineKind::Success, lang(en, "Tamamlandı."@, "Done."@)),
        ]
}

/// System file check (`sfc /scannow`).
pub fn sfc(en: bool) -> (s: Script)
    ensures
        ops_view(s.ops@) == sfc_ops(en),
        s.pc == 0,
{
    let mut v: Vec<Op> = Vec::new();
    add_header(&mut v, "SFC /scannow");
    push_op(&mut v, Op::Stream(owned("sfc"), argv1("/scannow")));
    push_op(&mut v, Op::Say(LineKind::Success, owned(tr(en, "Tamamlandı.", "Done."))));
    assert(ops_view(v@) =~= sfc_ops(en));
    Script::new(v)
}

} // verus!
