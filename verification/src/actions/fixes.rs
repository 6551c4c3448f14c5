//! Known issues: scan four registry settings, list what is wrong, ask once,
//! apply (with `reg.exe`, no scripts).
//!
//! The job is a state machine: the program runs what `step` asks for and
//! hands the outcome back.
use vstd::prelude::*;

use crate::actions::decode::{decode, decoded};
use crate::console::{header_lines, text, Con, LineKind, LineView};
use crate::i18n::tr;
use crate::text::{
    chars_of, contains_chars, contains_seq, decimal, digits_upper, join2, join3, lang, lowercase,
    owned, to_lowercase,
};

verus! {

/// Fast Startup (hiberboot).
pub const KEY_POWER: &'static str = "HKLM\\SYSTEM\\CurrentControlSet\\Control\\Session Manager\\Power";
/// DLL search protection.
pub const KEY_SM: &'static str = "HKLM\\SYSTEM\\CurrentControlSet\\Control\\Session Manager";
/// Network throttling.
pub const KEY_MM: &'static str = "HKLM\\SOFTWARE\\Microsoft\\Windows NT\\CurrentVersion\\Multimedia\\SystemProfile";
/// GameDVR.
pub const KEY_GDVR: &'static str = "HKLM\\SOFTWARE\\Policies\\Microsoft\\Windows\\GameDVR";

/// The registry key checked by fix `i` (0..=3).
pub open spec fn fix_key(i: nat) -> Seq<char> {
    if i == 0 {
        KEY_POWER@
    } else if i == 1 {
        KEY_SM@
    } else if i == 2 {
        KEY_MM@
    } else {
        KEY_GDVR@
    }
}

/// The registry value checked by fix `i`.
pub open spec fn fix_value(i: nat) -> Seq<char> {
    if i == 0 {
        "HiberbootEnabled"@
    } else if i == 1 {
        "CWDIllegalInDllSearch"@
    } else if i == 2 {
        "NetworkThrottlingIndex"@
    } else {
        "AllowGameDVR"@
    }
}

/// The DWORD fix `i` writes, as `reg add` takes it.
pub open spec fn fix_data(i: nat) -> Seq<char> {
    if i == 0 {
        "0"@
    } else if i == 1 {
        "0xffffffff"@
    } else if i == 2 {
        "0xffffffff"@
    } else {
        "0"@
    }
}

/// Whether the `reg query` output of fix `i` shows the problem: Fast
/// Startup on (`0x1`), DLL search protection missing, network throttling
/// on (not `0xffffffff`), GameDVR allowed (not `0x0`).
pub open spec fn shows_problem(i: nat, output: Seq<char>) -> bool {
    let low = lowercase(output);
    if i == 0 {
        contains_seq(low, "0x1"@)
    } else if i == 1 {
        !contains_seq(low, "0xffffffff"@)
    } else if i == 2 {
        !contains_seq(low, "0xffffffff"@)
    } else {
        !contains_seq(low, "0x0"@)
    }
}

/// The warning line when fix `i` is needed.
pub open spec fn bad_line(en: bool, i: nat) -> LineView {
    text(LineKind::Warn, if i == 0 {
        lang(en, "  - Hızlı Başlangıç: AÇIK"@, "  - Fast Startup: ON"@)
    } else if i == 1 {
        lang(en, "  - DLL arama koruması: EKSİK"@, "  - DLL search protection: MISSING"@)
    } else if i == 2 {
        lang(en, "  - Ağ kısıtlaması (NetworkThrottling): AÇIK"@, "  - Network throttling: ON"@)
    } else {
        lang(en, "  - GameDVR (arka plan kayıt): AÇIK"@, "  - GameDVR (background recording): ON"@)
    })
}

/// The success line when setting `i` is already fine.
pub open spec fn good_line(en: bool, i: nat) -> LineView {
    text(LineKind::Success, if i == 0 {
        lang(en, "  - Hızlı Başlangıç: kapalı (iyi)"@, "  - Fast Startup: off (good)"@)
    } else if i == 1 {
        lang(en, "  - DLL arama koruması: mevcut (iyi)"@, "  - DLL search protection: present (good)"@)
    } else if i == 2 {
        lang(en, "  - Ağ kısıtlaması: kapalı (iyi)"@, "  - Network throttling: off (good)"@)
    } else {
        lang(en, "  - GameDVR: kapalı (iyi)"@, "  - GameDVR: off (good)"@)
    })
}

/// What fix `i` does, as listed before asking.
pub open spec fn fix_text(en: bool, i: nat) -> Seq<char> {
    if i == 0 {
        lang(en, "Hızlı Başlangıç kapatılacak"@, "Fast Startup will be disabled"@)
    } else if i == 1 {
        lang(en, "DLL arama koruması açılacak"@, "DLL search protection will be enabled"@)
    } else if i == 2 {
        lang(
            en,
            "Ağ kısıtlaması kapatılacak (oyun/akış gecikmesi için)"@,
            "Network throttling will be disabled (for game/stream latency)"@,
        )
    } else {
        lang(en, "GameDVR kapatılacak (kare düşmesi azalır)"@, "GameDVR will be disabled (reduces frame drops)"@)
    }
}

/// The arguments of `reg query` for setting `i`.
pub open spec fn query_args(i: nat) -> Seq<Seq<char>> {
    seq!["query"@, fix_key(i), "/v"@, fix_value(i)]
}

/// The arguments of `reg add` for fix `i`.
pub open spec fn add_args(i: nat) -> Seq<Seq<char>> {
    seq!["add"@, fix_key(i), "/v"@, fix_value(i), "/t"@, "REG_DWORD"@, "/d"@, fix_data(i), "/f"@]
}

/// The question listing the planned fixes.
pub open spec fn question(en: bool, plan: Seq<u8>) -> Seq<char> {
    lang(en, "Şu düzeltmeler uygulansın mı?\n\n"@, "Apply these fixes?\n\n"@) + items(en, plan) + lang(
        en,
        "\nSadece güvenli ayarlar değişir; geri alınabilir."@,
        "\nOnly safe settings change; reversible."@,
    )
}

/// `"  - <fix>\n"` for each planned fix.
pub open spec fn items(en: bool, plan: Seq<u8>) -> Seq<char>
    decreases plan.len(),
{
    if plan.len() == 0 {
        Seq::empty()
    } else {
        items(en, plan.drop_last()) + "  - "@ + fix_text(en, plan.last() as nat) + "\n"@
    }
}

/// The count line before the question.
pub open spec fn count_line(en: bool, n: nat) -> LineView {
    text(
        LineKind::Dim,
        if en {
            "  To apply: "@ + digits_upper(n, 10) + " fixes"@
        } else {
            "  Uygulanacak: "@ + digits_upper(n, 10) + " düzeltme"@
        },
    )
}

/// The result line of fix `i`.
pub open spec fn applied_line(en: bool, i: nat, ok: bool) -> LineView {
    if ok {
        text(LineKind::Success, lang(en, "  Uygulandı: "@, "  Applied: "@) + fix_text(en, i))
    } else {
        text(LineKind::Failure, lang(en, "  Başarısız: "@, "  Failed: "@) + fix_text(en, i))
    }
}

/// What the program must do next for the known-issues job.
pub enum FixCmd {
    /// Run `reg` with these arguments and report its standard output
    /// (`FixEvent::Output`; empty when it could not be started).
    Query(Vec<String>),
    /// Ask the user this question (title, message) (`FixEvent::Answer`).
    Ask(String, String),
    /// Run `reg` with these arguments silently and report whether it
    /// succeeded (`FixEvent::Applied`).
    Apply(Vec<String>),
    /// The job is over.
    Finish,
}

/// The outcome of the last command.
pub enum FixEvent {
    Start,
    Output(Vec<u8>),
    Answer(bool),
    Applied(bool),
}

/// The mathematical value of a command.
pub ghost enum FixCmdV {
    Query(Seq<Seq<char>>),
    Ask(Seq<char>, Seq<char>),
    Apply(Seq<Seq<char>>),
    Finish,
}

impl View for FixCmd {
    type V = FixCmdV;

    open spec fn view(&self) -> FixCmdV {
        match self {
            FixCmd::Query(a) => FixCmdV::Query(a@.map_values(|s: String| s@)),
            FixCmd::Ask(t, m) => FixCmdV::Ask(t@, m@),
            FixCmd::Apply(a) => FixCmdV::Apply(a@.map_values(|s: String| s@)),
            FixCmd::Finish => FixCmdV::Finish,
        }
    }
}

/// Where the job stands.
#[derive(Clone, Copy, Debug, PartialEq, Eq, Structural)]
pub enum FixStage {
    Start,
    /// Waiting for the `reg query` output of setting `k`.
    Scanning(u8),
    /// Waiting for the user's answer.
    Asking,
    /// Waiting for the result of the `k`-th planned fix.
    Applying(u8),
    Over,
}

/// The known-issues job: its stage and the planned fixes (indices 0..=3,
/// in scan order).
pub struct KnownIssues {
    pub stage: FixStage,
    pub plan: Vec<u8>,
}

/// One step of the job: given the stage, the plan and the outcome of the
/// last command, the next stage, plan, command and the lines written.
pub open spec fn fix_step(en: bool, stage: FixStage, plan: Seq<u8>, ev: FixEvent) -> (
    FixStage,
    Seq<u8>,
    FixCmdV,
    Seq<LineView>,
) {
    match stage {
        FixStage::Start => (
            FixStage::Scanning(0),
            Seq::empty(),
            FixCmdV::Query(query_args(0)),
            header_lines(lang(en, "BİLİNEN SORUN TARAMASI"@, "KNOWN ISSUES SCAN"@)),
        ),
        FixStage::Scanning(k) => match ev {
            FixEvent::Output(o) => {
                let bad = shows_problem(k as nat, decoded(o@));
                let plan2 = if bad {
                    plan.push(k)
                } else {
                    plan
                };
                let line = if bad {
                    bad_line(en, k as nat)
                } else {
                    good_line(en, k as nat)
                };
                if k < 3 {
                    (
                        FixStage::Scanning((k + 1) as u8),
                        plan2,
                        FixCmdV::Query(query_args((k + 1) as nat)),
                        seq![line],
                    )
                } else if plan2.len() == 0 {
                    (
                        FixStage::Over,
                        plan2,
                        FixCmdV::Finish,
                        seq![
                            line,
                            text(
                                LineKind::Success,
                                lang(
                                    en,
                                    "Bilinen sorun bulunamadı - sistem bu kontrollerde temiz."@,
                                    "No known issues found - system is clean on these checks."@,
                                ),
                            ),
                        ],
                    )
                } else {
                    (
                        FixStage::Asking,
                        plan2,
                        FixCmdV::Ask(lang(en, "Bilinen Sorunlar"@, "Known Issues"@), question(en, plan2)),
                        seq![line, count_line(en, plan2.len())],
                    )
                }
            },
            _ => (FixStage::Over, plan, FixCmdV::Finish, Seq::empty()),
        },
        FixStage::Asking => match ev {
            FixEvent::Answer(yes) => if yes {
                (FixStage::Applying(0), plan, FixCmdV::Apply(add_args(plan[0] as nat)), Seq::empty())
            } else {
                (
                    FixStage::Over,
                    plan,
                    FixCmdV::Finish,
                    seq![text(LineKind::Warn, lang(en, "İptal edildi."@, "Cancelled."@))],
                )
            },
            _ => (FixStage::Over, plan, FixCmdV::Finish, Seq::empty()),
        },
        FixStage::Applying(i) => match ev {
            FixEvent::Applied(ok) => {
                let line = applied_line(en, plan[i as int] as nat, ok);
                if (i as nat) + 1 < plan.len() {
                    (
                        FixStage::Applying((i + 1) as u8),
                        plan,
                        FixCmdV::Apply(add_args(plan[i + 1] as nat)),
                        seq![line],
                    )
                } else {
                    (
                        FixStage::Over,
                        plan,
                        FixCmdV::Finish,
                        seq![line, text(LineKind::Success, lang(en, "Tamamlandı."@, "Done."@))],
                    )
                }
            },
            _ => (FixStage::Over, plan, FixCmdV::Finish, Seq::empty()),
        },
        FixStage::Over => (FixStage::Over, plan, FixCmdV::Finish, Seq::empty()),
    }
}

/// The job's invariant: at most four planned fixes, each a valid index
/// below the setting being scanned, and a fix is being applied only when
/// it exists.
pub open spec fn fix_wf(stage: FixStage, plan: Seq<u8>) -> bool {
    &&& plan.len() <= 4
    &&& forall|j: int| 0 <= j < plan.len() ==> plan[j] < 4
    &&& match stage {
        FixStage::Start => plan.len() == 0,
        FixStage::Scanning(k) => k < 4 && plan.len() <= k,
        FixStage::Asking => plan.len() > 0,
        FixStage::Applying(i) => (i as nat) < plan.len(),
        FixStage::Over => true,
    }
}

fn key_of(i: u8) -> (k: &'static str)
    requires
        i < 4,
    ensures
        k@ == fix_key(i as nat),
{
    if i == 0 {
        KEY_POWER
    } else if i == 1 {
        KEY_SM
    } else if i == 2 {
        KEY_MM
    } else {
        KEY_GDVR
    }
}

fn value_of(i: u8) -> (v: &'static str)
    requires
        i < 4,
    ensures
        v@ == fix_value(i as nat),
{
    if i == 0 {
        "HiberbootEnabled"
    } else if i == 1 {
        "CWDIllegalInDllSearch"
    } else if i == 2 {
        "NetworkThrottlingIndex"
    } else {
        "AllowGameDVR"
    }
}

fn data_of(i: u8) -> (v: &'static str)
    requires
        i < 4,
    ensures
        v@ == fix_data(i as nat),
{
    if i == 0 || i == 3 {
        "0"
    } else {
        "0xffffffff"
    }
}

fn query_cmd(i: u8) -> (v: Vec<String>)
    requires
        i < 4,
    ensures
        v@.map_values(|s: String| s@) == query_args(i as nat),
{
    let mut v: Vec<String> = Vec::new();
    v.push(owned("query"));
    v.push(owned(key_of(i)));
    v.push(owned("/v"));
    v.push(owned(value_of(i)));
    assert(v@.map_values(|s: String| s@) =~= query_args(i as nat));
    v
}

fn add_cmd(i: u8) -> (v: Vec<String>)
    requires
        i < 4,
    ensures
        v@.map_values(|s: String| s@) == add_args(i as nat),
{
    let mut v: Vec<String> = Vec::new();
    v.push(owned("add"));
    v.push(owned(key_of(i)));
    v.push(owned("/v"));
    v.push(owned(value_of(i)));
    v.push(owned("/t"));
    v.push(owned("REG_DWORD"));
    v.push(owned("/d"));
    v.push(owned(data_of(i)));
    v.push(owned("/f"));
    assert(v@.map_values(|s: String| s@) =~= add_args(i as nat));
    v
}

/// Whether the `reg query` output of setting `i` shows the problem (see
/// `shows_problem`).
pub fn detect(i: u8, output: &str) -> (r: bool)
    requires
        i < 4,
    ensures
        r == shows_problem(i as nat, output@),
{
    let low = to_lowercase(output);
    let hay = chars_of(low.as_str());
    if i == 0 {
        let n = chars_of("0x1");
        contains_chars(&hay, &n)
    } else if i == 1 || i == 2 {
        let n = chars_of("0xffffffff");
        !contains_chars(&hay, &n)
    } else {
        let n = chars_of("0x0");
        !contains_chars(&hay, &n)
    }
}

fn fix_str(en: bool, i: u8) -> (s: &'static str)
    requires
        i < 4,
    ensures
        s@ == fix_text(en, i as nat),
{
    if i == 0 {
        tr(en, "Hızlı Başlangıç kapatılacak", "Fast Startup will be disabled")
    } else if i == 1 {
        tr(en, "DLL arama koruması açılacak", "DLL search protection will be enabled")
    } else if i == 2 {
        tr(
            en,
            "Ağ kısıtlaması kapatılacak (oyun/akış gecikmesi için)",
            "Network throttling will be disabled (for game/stream latency)",
        )
    } else {
        tr(en, "GameDVR kapatılacak (kare düşmesi azalır)", "GameDVR will be disabled (reduces frame drops)")
    }
}

fn write_scan_line(bus: &mut Con, en: bool, i: u8, bad: bool)
    requires
        i < 4,
    ensures
        final(bus)@ == old(bus)@.push(
            if bad {
                bad_line(en, i as nat)
            } else {
                good_line(en, i as nat)
            },
        ),
{
    if bad {
        if i == 0 {
            bus.warn(tr(en, "  - Hızlı Başlangıç: AÇIK", "  - Fast Startup: ON"));
        } else if i == 1 {
            bus.warn(tr(en, "  - DLL arama koruması: EKSİK", "  - DLL search protection: MISSING"));
        } else if i == 2 {
            bus.warn(tr(en, "  - Ağ kısıtlaması (NetworkThrottling): AÇIK", "  - Network throttling: ON"));
        } else {
            bus.warn(tr(en, "  - GameDVR (arka plan kayıt): AÇIK", "  - GameDVR (background recording): ON"));
        }
    } else {
        if i == 0 {
            bus.ok(tr(en, "  - Hızlı Başlangıç: kapalı (iyi)", "  - Fast Startup: off (good)"));
        } else if i == 1 {
            bus.ok(tr(en, "  - DLL arama koruması: mevcut (iyi)", "  - DLL search protection: present (good)"));
        } else if i == 2 {
            bus.ok(tr(en, "  - Ağ kısıtlaması: kapalı (iyi)", "  - Network throttling: off (good)"));
        } else {
            bus.ok(tr(en, "  - GameDVR: kapalı (iyi)", "  - GameDVR: off (good)"));
        }
    }
}

fn question_text(en: bool, plan: &Vec<u8>) -> (s: String)
    requires
        forall|j: int| 0 <= j < plan@.len() ==> plan@[j] < 4,
    ensures
        s@ == question(en, plan@),
{
    let mut s = owned(tr(en, "Şu düzeltmeler uygulansın mı?\n\n", "Apply these fixes?\n\n"));
    let ghost head = s@;
    let mut i: usize = 0;
    while i < plan.len()
        invariant
            i <= plan.len(),
            forall|j: int| 0 <= j < plan@.len() ==> plan@[j] < 4,
            s@ == head + items(en, plan@.subrange(0, i as int)),
        decreases plan.len() - i,
    {
        proof {
            let p = plan@.subrange(0, i + 1);
            assert(p.drop_last() =~= plan@.subrange(0, i as int));
            assert(p.last() == plan@[i as int]);
        }
        s.append("  - ");
        s.append(fix_str(en, plan[i]));
        s.append("\n");
        i = i + 1;
    }
    assert(plan@.subrange(0, plan.len() as int) =~= plan@);
    s.append(
        tr(en, "\nSadece güvenli ayarlar değişir; geri alınabilir.", "\nOnly safe settings change; reversible."),
    );
    s
}

fn count_text(en: bool, n: usize) -> (s: String)
    ensures
        text(LineKind::Dim, s@) == count_line(en, n as nat),
{
    let d = decimal(n as u64);
    if en {
        join3("  To apply: ", d.as_str(), " fixes")
    } else {
        join3("  Uygulanacak: ", d.as_str(), " düzeltme")
    }
}

/// Starts the known-issues job.
pub fn known_issues() -> (j: KnownIssues)
    ensures
        j.stage == FixStage::Start,
        j.plan@ == Seq::<u8>::empty(),
        fix_wf(j.stage, j.plan@),
{
    KnownIssues { stage: FixStage::Start, plan: Vec::new() }
}

impl KnownIssues {
    /// Takes the outcome of the last command (`Start` at first) and says
    /// what to do next, writing the job's lines (see `fix_step`).
    pub fn step(&mut self, bus: &mut Con, en: bool, ev: FixEvent) -> (cmd: FixCmd)
        requires
            fix_wf(old(self).stage, old(self).plan@),
        ensures
            ({
                let (st, plan, c, ls) = fix_step(en, old(self).stage, old(self).plan@, ev);
                &&& final(self).stage == st
                &&& final(self).plan@ == plan
                &&& cmd@ == c
                &&& final(bus)@ == old(bus)@ + ls
            }),
            fix_wf(final(self).stage, final(self).plan@),
    {
        let ghost start = bus@;
        match self.stage {
            FixStage::Start => {
                bus.header(tr(en, "BİLİNEN SORUN TARAMASI", "KNOWN ISSUES SCAN"));
                self.stage = FixStage::Scanning(0);
                self.plan = Vec::new();
                FixCmd::Query(query_cmd(0))
            },
            FixStage::Scanning(k) => {
                match ev {
                    FixEvent::Output(o) => {
                        let txt = decode(o.as_slice());
                        let bad = detect(k, txt.as_str());
                        if bad {
                            self.plan.push(k);
                        }
                        write_scan_line(bus, en, k, bad);
                        if k < 3 {
                            self.stage = FixStage::Scanning(k + 1);
                            assert(bus@ =~= start + seq![if bad { bad_line(en, k as nat) } else { good_line(en, k as nat) }]);
                            FixCmd::Query(query_cmd(k + 1))
                        } else if self.plan.len() == 0 {
                            bus.ok(
                                tr(
                                    en,
                                    "Bilinen sorun bulunamadı - sistem bu kontrollerde temiz.",
                                    "No known issues found - system is clean on these checks.",
                                ),
                            );
                            self.stage = FixStage::Over;
                            FixCmd::Finish
                        } else {
                            let c = count_text(en, self.plan.len());
                            bus.dim(c.as_str());
                            let q = question_text(en, &self.plan);
                            self.stage = FixStage::Asking;
                            FixCmd::Ask(owned(tr(en, "Bilinen Sorunlar", "Known Issues")), q)
                        }
                    },
                    _ => {
                        self.stage = FixStage::Over;
                        assert(bus@ =~= start + Seq::<LineView>::empty());
                        FixCmd::Finish
                    },
                }
            },
            FixStage::Asking => {
                match ev {
                    FixEvent::Answer(yes) => {
                        if yes {
                            self.stage = FixStage::Applying(0);
                            assert(bus@ =~= start + Seq::<LineView>::empty());
                            FixCmd::Apply(add_cmd(self.plan[0]))
                        } else {
                            bus.warn(tr(en, "İptal edildi.", "Cancelled."));
                            self.stage = FixStage::Over;
                            FixCmd::Finish
                        }
                    },
                    _ => {
                        self.stage = FixStage::Over;
                        assert(bus@ =~= start + Seq::<LineView>::empty());
                        FixCmd::Finish
                    },
                }
            },
            FixStage::Applying(i) => {
                match ev {
                    FixEvent::Applied(ok) => {
                        let f = fix_str(en, self.plan[i as usize]);
                        if ok {
                            let l = join2(tr(en, "  Uygulandı: ", "  Applied: "), f);
                            bus.ok(l.as_str());
                        } else {
                            let l = join2(tr(en, "  Başarısız: ", "  Failed: "), f);
                            bus.err(l.as_str());
                        }
                        if (i as usize) + 1 < self.plan.len() {
                            self.stage = FixStage::Applying(i + 1);
                            assert(bus@ =~= start + seq![applied_line(en, self.plan@[i as int] as nat, ok)]);
                            FixCmd::Apply(add_cmd(self.plan[(i + 1) as usize]))
                        } else {
                            bus.ok(tr(en, "Tamamlandı.", "Done."));
                            self.stage = FixStage::Over;
                            FixCmd::Finish
                        }
                    },
                    _ => {
                        self.stage = FixStage::Over;
                        assert(bus@ =~= start + Seq::<LineView>::empty());
                        FixCmd::Finish
                    },
                }
            },
            FixStage::Over => {
                assert(bus@ =~= start + Seq::<LineView>::empty());
                FixCmd::Finish
            },
        }
    }
}

} // verus!
