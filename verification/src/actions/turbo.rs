//! Turbo off (maximum processor state 99 %, boost disabled) and turbo on
//! (100 %, boost aggressive). When `powercfg` fails everywhere, the value is
//! written straight into the active plan's registry key.
use vstd::prelude::*;

use crate::actions::power::{
    read_run_result, run_result, strs, CmdV, PowerCmd, PowerEvent, GUID_PERFBOOSTMODE,
    GUID_PROCTHROTTLEMAX, GUID_SUB_PROCESSOR,
};
use crate::console::{header_lines, text, Con, LineKind, LineView};
use crate::i18n::tr;
use crate::text::{join2, join3, lang, owned, string_of};

verus! {

/// Which way the turbo job goes.
#[derive(Clone, Copy, Debug, PartialEq, Eq, Structural)]
pub enum TurboMode {
    Off,
    On,
}

/// The maximum processor state the job sets, as `powercfg` takes it.
pub open spec fn throttle_text(m: TurboMode) -> Seq<char> {
    match m {
        TurboMode::Off => "99"@,
        TurboMode::On => "100"@,
    }
}

/// The boost mode the job sets, as `powercfg` takes it.
pub open spec fn boost_text(m: TurboMode) -> Seq<char> {
    match m {
        TurboMode::Off => "0"@,
        TurboMode::On => "2"@,
    }
}

/// The maximum processor state the fallback writes into the registry.
pub open spec fn throttle_value(m: TurboMode) -> u32 {
    match m {
        TurboMode::Off => 99,
        TurboMode::On => 100,
    }
}

/// The four `powercfg` value commands, in order: AC maximum state, AC
/// boost, DC maximum state, DC boost.
pub open spec fn value_args(m: TurboMode, scheme: Seq<char>, k: nat) -> Seq<Seq<char>> {
    let flag = if k < 2 {
        "-setacvalueindex"@
    } else {
        "-setdcvalueindex"@
    };
    let (guid, val) = if k % 2 == 0 {
        (GUID_PROCTHROTTLEMAX@, throttle_text(m))
    } else {
        (GUID_PERFBOOSTMODE@, boost_text(m))
    };
    seq![flag, scheme, GUID_SUB_PROCESSOR@, guid, val]
}

/// The registry key of the maximum processor state in plan `scheme`.
pub open spec fn throttle_key(scheme: Seq<char>) -> Seq<char> {
    "SYSTEM\\CurrentControlSet\\Control\\Power\\User\\PowerSchemes\\"@ + scheme + "\\"@
        + GUID_SUB_PROCESSOR@ + "\\"@ + GUID_PROCTHROTTLEMAX@
}

/// Where the turbo job stands.
pub enum TurboStage {
    /// Not started.
    Start,
    /// Waiting for value command `k` (0..=3, see `value_args`).
    Setting(u8),
    /// Waiting for `powercfg -setactive`.
    Activating,
    /// Waiting for the active plan GUID (registry fallback).
    Reading,
    /// Waiting for the AC registry write; the key.
    WritingAc(String),
    /// Waiting for the DC registry write.
    WritingDc,
    /// Over.
    Over,
}

/// The mathematical value of a turbo stage.
pub ghost enum TurboStageV {
    Start,
    Setting(u8),
    Activating,
    Reading,
    WritingAc(Seq<char>),
    WritingDc,
    Over,
}

impl View for TurboStage {
    type V = TurboStageV;

    open spec fn view(&self) -> TurboStageV {
        match self {
            TurboStage::Start => TurboStageV::Start,
            TurboStage::Setting(k) => TurboStageV::Setting(*k),
            TurboStage::Activating => TurboStageV::Activating,
            TurboStage::Reading => TurboStageV::Reading,
            TurboStage::WritingAc(k) => TurboStageV::WritingAc(k@),
            TurboStage::WritingDc => TurboStageV::WritingDc,
            TurboStage::Over => TurboStageV::Over,
        }
    }
}

/// The turbo job: its direction, the plan it works on, whether any command
/// succeeded so far, the last `powercfg` error, and its stage.
pub struct TurboJob {
    pub mode: TurboMode,
    pub scheme: String,
    pub any: bool,
    pub last_err: String,
    pub stage: TurboStage,
}

/// The plan `powercfg` is told to change: the active plan, or
/// `SCHEME_CURRENT` when it could not be read.
pub open spec fn scheme_or_current(active: Seq<char>) -> Seq<char> {
    if active.len() == 0 {
        "SCHEME_CURRENT"@
    } else {
        active
    }
}

/// The section title of the job.
pub open spec fn title(en: bool, m: TurboMode) -> Seq<char> {
    match m {
        TurboMode::Off => lang(en, "TURBO KAPAT (%99)"@, "TURBO OFF (99%)"@),
        TurboMode::On => lang(en, "TURBO AÇ (%100)"@, "TURBO ON (100%)"@),
    }
}

/// Written once `powercfg` took at least one setting.
pub open spec fn took_line(en: bool, m: TurboMode) -> LineView {
    match m {
        TurboMode::Off => text(LineKind::Dim, lang(
            en,
            "  - (Geçici koruma bu kadarıyla aktif; aşağıda hâlâ hata görünüyorsa önemsizdir.)"@,
            "  - (Temporary protection is set; any error shown below is harmless.)"@,
        )),
        TurboMode::On => text(LineKind::Dim, lang(
            en,
            "  - (Turbo açıldı; aşağıda hâlâ hata görünüyorsa önemsizdir.)"@,
            "  - (Turbo is on; any error shown below is harmless.)"@,
        )),
    }
}

/// Written when the registry fallback took the value.
pub open spec fn registry_lines(en: bool, m: TurboMode) -> Seq<LineView> {
    let first = text(LineKind::Dim, lang(
        en,
        "  - powercfg yanıt vermedi; değer doğrudan kayıt defterine yazıldı."@,
        "  - powercfg didn't respond; the value was written directly to the registry."@,
    ));
    match m {
        TurboMode::Off => seq![first, text(LineKind::Dim, lang(
            en,
            "    Yeniden başlatınca (ya da plan yenilenince) kesinleşir."@,
            "    It takes effect after a reboot (or when the plan refreshes)."@,
        ))],
        TurboMode::On => seq![first],
    }
}

/// The closing lines: what was applied, or how to do it by hand.
pub open spec fn closing_lines(en: bool, m: TurboMode, any: bool, last_err: Seq<char>) -> Seq<
    LineView,
> {
    if any {
        let applied = match m {
            TurboMode::Off => text(LineKind::Success, lang(
                en,
                "  Uygulandı: Turbo kapalı (%99). CPU taban hızında, daha serin."@,
                "  Applied: Turbo off (99%). CPU at base clock, cooler."@,
            )),
            TurboMode::On => text(LineKind::Success, lang(
                en,
                "  Uygulandı: Turbo açık (%100). Tam hızda çalışabilirsin."@,
                "  Applied: Turbo on (100%). You can run at full speed."@,
            )),
        };
        let err = if last_err.len() > 0 {
            seq![text(LineKind::Dim, "    powercfg: "@ + last_err)]
        } else {
            Seq::<LineView>::empty()
        };
        let tip = match m {
            TurboMode::Off => seq![text(LineKind::Dim, lang(
                en,
                "  - Oyun oynarken kasma olursa 'Turbo Aç' ile geri alabilirsin."@,
                "  - If games stutter, undo with 'Turbo On'."@,
            ))],
            TurboMode::On => Seq::<LineView>::empty(),
        };
        seq![applied] + err + tip
    } else {
        let hint = if last_err.len() == 0 {
            lang(en, "(çıktı/ipucu yok)"@, "(no output/hint)"@)
        } else {
            last_err
        };
        seq![
            text(LineKind::Failure, lang(
                en,
                "  Uygulanamadı. Görünüşe göre komutlar sessizce başarısız oluyor."@,
                "  Could not apply. It seems the commands fail silently."@,
            )),
            text(LineKind::Dim, "    powercfg: "@ + hint),
            text(LineKind::Success, lang(
                en,
                "  EL İLE YAP: Yönetici olarak şunu çalıştır:"@,
                "  MANUAL: Run this as administrator:"@,
            )),
            text(LineKind::Big, "    powercfg /setacvalueindex SCHEME_CURRENT SUB_PROCESSOR PROCTHROTTLEMAX "@ + throttle_text(m)),
            text(LineKind::Big, "    powercfg /setdcvalueindex SCHEME_CURRENT SUB_PROCESSOR PROCTHROTTLEMAX "@ + throttle_text(m)),
            text(LineKind::Big, "    powercfg /setactive SCHEME_CURRENT"@),
        ]
    }
}

/// The error to keep after a `powercfg` run: the new one when the run
/// failed with a message, else the previous one.
pub open spec fn keep_err(last: Seq<char>, ok: bool, e: Seq<char>) -> Seq<char> {
    if !ok && e.len() > 0 {
        e
    } else {
        last
    }
}

/// One step of the turbo job: given its state and the outcome of the last
/// command, the next state (stage, `any`, last error), the next command and
/// the lines written. An event that does not fit the stage ends the job.
pub open spec fn turbo_step(
    en: bool,
    m: TurboMode,
    scheme: Seq<char>,
    any: bool,
    last: Seq<char>,
    stage: TurboStageV,
    ev: PowerEvent,
) -> (TurboStageV, bool, Seq<char>, CmdV, Seq<LineView>) {
    match stage {
        TurboStageV::Start => (
            TurboStageV::Setting(0),
            any,
            last,
            CmdV::Run(value_args(m, scheme, 0)),
            Seq::empty(),
        ),
        TurboStageV::Setting(k) => match run_result(ev) {
            Some((ok, e)) => {
                let any2 = any || ok;
                let last2 = keep_err(last, ok, e);
                if k < 3 {
                    (
                        TurboStageV::Setting((k + 1) as u8),
                        any2,
                        last2,
                        CmdV::Run(value_args(m, scheme, (k + 1) as nat)),
                        Seq::empty(),
                    )
                } else {
                    (
                        TurboStageV::Activating,
                        any2,
                        last2,
                        CmdV::Run(seq!["-setactive"@, scheme]),
                        Seq::empty(),
                    )
                }
            },
            None => (TurboStageV::Over, any, last, CmdV::Finish(false), Seq::empty()),
        },
        TurboStageV::Activating => match run_result(ev) {
            Some((ok, e)) => {
                let any2 = any || ok;
                let last2 = keep_err(last, ok, e);
                if any2 {
                    (
                        TurboStageV::Over,
                        any2,
                        last2,
                        CmdV::Finish(true),
                        seq![took_line(en, m)] + closing_lines(en, m, true, last2),
                    )
                } else {
                    (TurboStageV::Reading, any2, last2, CmdV::ReadActive, Seq::empty())
                }
            },
            None => (TurboStageV::Over, any, last, CmdV::Finish(false), Seq::empty()),
        },
        TurboStageV::Reading => match ev {
            PowerEvent::Active(s) => if s@.len() > 0 {
                (
                    TurboStageV::WritingAc(throttle_key(s@)),
                    any,
                    last,
                    CmdV::SetDword(throttle_key(s@), "ACSettingIndex"@, throttle_value(m)),
                    Seq::empty(),
                )
            } else {
                (
                    TurboStageV::Over,
                    any,
                    last,
                    CmdV::Finish(any),
                    closing_lines(en, m, any, last),
                )
            },
            _ => (TurboStageV::Over, any, last, CmdV::Finish(false), Seq::empty()),
        },
        TurboStageV::WritingAc(key) => match ev {
            PowerEvent::Wrote(ok) => (
                TurboStageV::WritingDc,
                any || ok,
                last,
                CmdV::SetDword(key, "DCSettingIndex"@, throttle_value(m)),
                Seq::empty(),
            ),
            _ => (TurboStageV::Over, any, last, CmdV::Finish(false), Seq::empty()),
        },
        TurboStageV::WritingDc => match ev {
            PowerEvent::Wrote(ok) => {
                let any2 = any || ok;
                (
                    TurboStageV::Over,
                    any2,
                    last,
                    CmdV::Finish(any2),
                    (if any2 {
                        registry_lines(en, m)
                    } else {
                        Seq::empty()
                    }) + closing_lines(en, m, any2, last),
                )
            },
            _ => (TurboStageV::Over, any, last, CmdV::Finish(false), Seq::empty()),
        },
        TurboStageV::Over => (TurboStageV::Over, any, last, CmdV::Finish(false), Seq::empty()),
    }
}

fn throttle_str(m: TurboMode) -> (s: &'static str)
    ensures
        s@ == throttle_text(m),
{
    match m {
        TurboMode::Off => "99",
        TurboMode::On => "100",
    }
}

fn value_cmd(m: TurboMode, scheme: &str, k: u8) -> (v: Vec<String>)
    requires
        k < 4,
    ensures
        strs(v@) == value_args(m, scheme@, k as nat),
{
    let flag = if k < 2 {
        "-setacvalueindex"
    } else {
        "-setdcvalueindex"
    };
    let (guid, val) = if k % 2 == 0 {
        (GUID_PROCTHROTTLEMAX, throttle_str(m))
    } else {
        (
            GUID_PERFBOOSTMODE,
            match m {
                TurboMode::Off => "0",
                TurboMode::On => "2",
            },
        )
    };
    let mut v: Vec<String> = Vec::new();
    v.push(owned(flag));
    v.push(owned(scheme));
    v.push(owned(GUID_SUB_PROCESSOR));
    v.push(owned(guid));
    v.push(owned(val));
    assert(strs(v@) =~= value_args(m, scheme@, k as nat));
    v
}

/// The registry key of the maximum processor state in plan `scheme` (see
/// `throttle_key`); the microcode check reads the turbo state there.
pub fn throttle_key_path(scheme: &str) -> (s: String)
    ensures
        s@ == throttle_key(scheme@),
{
    let a = join3("SYSTEM\\CurrentControlSet\\Control\\Power\\User\\PowerSchemes\\", scheme, "\\");
    let b = join3(a.as_str(), GUID_SUB_PROCESSOR, "\\");
    join2(b.as_str(), GUID_PROCTHROTTLEMAX)
}

fn write_took(bus: &mut Con, en: bool, m: TurboMode)
    ensures
        final(bus)@ == old(bus)@.push(took_line(en, m)),
{
    match m {
        TurboMode::Off => bus.dim(
            tr(
                en,
                "  - (Geçici koruma bu kadarıyla aktif; aşağıda hâlâ hata görünüyorsa önemsizdir.)",
                "  - (Temporary protection is set; any error shown below is harmless.)",
            ),
        ),
        TurboMode::On => bus.dim(
            tr(
                en,
                "  - (Turbo açıldı; aşağıda hâlâ hata görünüyorsa önemsizdir.)",
                "  - (Turbo is on; any error shown below is harmless.)",
            ),
        ),
    }
}

fn write_registry(bus: &mut Con, en: bool, m: TurboMode)
    ensures
        final(bus)@ == old(bus)@ + registry_lines(en, m),
{
    let ghost start = bus@;
    bus.dim(
        tr(
            en,
            "  - powercfg yanıt vermedi; değer doğrudan kayıt defterine yazıldı.",
            "  - powercfg didn't respond; the value was written directly to the registry.",
        ),
    );
    if m == TurboMode::Off {
        bus.dim(
            tr(
                en,
                "    Yeniden başlatınca (ya da plan yenilenince) kesinleşir.",
                "    It takes effect after a reboot (or when the plan refreshes).",
            ),
        );
    }
    assert(bus@ =~= start + registry_lines(en, m));
}

fn write_closing(bus: &mut Con, en: bool, m: TurboMode, any: bool, last_err: &str)
    ensures
        final(bus)@ == old(bus)@ + closing_lines(en, m, any, last_err@),
{
    let ghost start = bus@;
    if any {
        match m {
            TurboMode::Off => bus.ok(
                tr(
                    en,
                    "  Uygulandı: Turbo kapalı (%99). CPU taban hızında, daha serin.",
                    "  Applied: Turbo off (99%). CPU at base clock, cooler.",
                ),
            ),
            TurboMode::On => bus.ok(
                tr(
                    en,
                    "  Uygulandı: Turbo açık (%100). Tam hızda çalışabilirsin.",
                    "  Applied: Turbo on (100%). You can run at full speed.",
                ),
            ),
        }
        if !last_err.is_empty() {
            let l = join2("    powercfg: ", last_err);
            bus.dim(l.as_str());
        }
        if m == TurboMode::Off {
            bus.dim(
                tr(
                    en,
                    "  - Oyun oynarken kasma olursa 'Turbo Aç' ile geri alabilirsin.",
                    "  - If games stutter, undo with 'Turbo On'.",
                ),
            );
        }
    } else {
        bus.err(
            tr(
                en,
                "  Uygulanamadı. Görünüşe göre komutlar sessizce başarısız oluyor.",
                "  Could not apply. It seems the commands fail silently.",
            ),
        );
        let hint: &str = if last_err.is_empty() {
            tr(en, "(çıktı/ipucu yok)", "(no output/hint)")
        } else {
            last_err
        };
        let l = join2("    powercfg: ", hint);
        bus.dim(l.as_str());
        bus.ok(
            tr(en, "  EL İLE YAP: Yönetici olarak şunu çalıştır:", "  MANUAL: Run this as administrator:"),
        );
        let a = join2(
            "    powercfg /setacvalueindex SCHEME_CURRENT SUB_PROCESSOR PROCTHROTTLEMAX ",
            throttle_str(m),
        );
        bus.big(a.as_str());
        let d = join2(
            "    powercfg /setdcvalueindex SCHEME_CURRENT SUB_PROCESSOR PROCTHROTTLEMAX ",
            throttle_str(m),
        );
        bus.big(d.as_str());
        bus.big("    powercfg /setactive SCHEME_CURRENT");
    }
    assert(bus@ =~= start + closing_lines(en, m, any, last_err@));
}

fn throttle_u32(m: TurboMode) -> (v: u32)
    ensures
        v == throttle_value(m),
{
    match m {
        TurboMode::Off => 99,
        TurboMode::On => 100,
    }
}

/// Starts the turbo job: writes the section header and returns the job for
/// the active plan (`SCHEME_CURRENT` when it could not be read).
pub fn turbo_job(bus: &mut Con, en: bool, m: TurboMode, active: &str) -> (j: TurboJob)
    ensures
        final(bus)@ == old(bus)@ + header_lines(title(en, m)),
        j.mode == m,
        j.scheme@ == scheme_or_current(active@),
        !j.any,
        j.last_err@ == Seq::<char>::empty(),
        j.stage@ == TurboStageV::Start,
{
    match m {
        TurboMode::Off => bus.header(tr(en, "TURBO KAPAT (%99)", "TURBO OFF (99%)")),
        TurboMode::On => bus.header(tr(en, "TURBO AÇ (%100)", "TURBO ON (100%)")),
    }
    let scheme = if active.is_empty() {
        owned("SCHEME_CURRENT")
    } else {
        owned(active)
    };
    TurboJob { mode: m, scheme, any: false, last_err: String::new(), stage: TurboStage::Start }
}

/// Turns turbo off: maximum processor state 99 %, boost disabled (see
/// `turbo_job`).
pub fn turbo_off(bus: &mut Con, en: bool, active: &str) -> (j: TurboJob)
    ensures
        final(bus)@ == old(bus)@ + header_lines(title(en, TurboMode::Off)),
        j.mode == TurboMode::Off,
        j.scheme@ == scheme_or_current(active@),
        !j.any,
        j.last_err@ == Seq::<char>::empty(),
        j.stage@ == TurboStageV::Start,
{
    turbo_job(bus, en, TurboMode::Off, active)
}

/// Turns turbo on: maximum processor state 100 %, boost aggressive (see
/// `turbo_job`).
pub fn turbo_on(bus: &mut Con, en: bool, active: &str) -> (j: TurboJob)
    ensures
        final(bus)@ == old(bus)@ + header_lines(title(en, TurboMode::On)),
        j.mode == TurboMode::On,
        j.scheme@ == scheme_or_current(active@),
        !j.any,
        j.last_err@ == Seq::<char>::empty(),
        j.stage@ == TurboStageV::Start,
{
    turbo_job(bus, en, TurboMode::On, active)
}

impl TurboJob {
    /// Takes the outcome of the last command (`Start` at first) and says
    /// what to run next, writing the job's lines (see `turbo_step`).
    pub fn step(&mut self, bus: &mut Con, en: bool, ev: PowerEvent) -> (cmd: PowerCmd)
        ensures
            ({
                let (st, any, last, c, ls) = turbo_step(
                    en,
                    old(self).mode,
                    old(self).scheme@,
                    old(self).any,
                    old(self).last_err@,
                    old(self).stage@,
                    ev,
                );
                &&& final(self).stage@ == st
                &&& final(self).any == any
                &&& final(self).last_err@ == last
                &&& cmd@ == c
                &&& final(bus)@ == old(bus)@ + ls
            }),
            final(self).mode == old(self).mode,
            final(self).scheme == old(self).scheme,
    {
        let ghost start = bus@;
        let mut stage = TurboStage::Over;
        std::mem::swap(&mut stage, &mut self.stage);
        let m = self.mode;
        match stage {
            TurboStage::Start => {
                self.stage = TurboStage::Setting(0);
                assert(bus@ =~= start + Seq::<LineView>::empty());
                PowerCmd::Run(value_cmd(m, self.scheme.as_str(), 0))
            },
            TurboStage::Setting(k) => {
                assert(bus@ =~= start + Seq::<LineView>::empty());
                self.after_setting(k, ev)
            },
            TurboStage::Activating => {
                match read_run_result(&ev) {
                    Some((ok, e)) => {
                        self.any = self.any || ok;
                        if !ok && e.len() > 0 {
                            self.last_err = string_of(&e);
                        }
                        if self.any {
                            write_took(bus, en, m);
                            write_closing(bus, en, m, true, self.last_err.as_str());
                            assert(bus@ =~= start + (seq![took_line(en, m)] + closing_lines(en, m, true, self.last_err@)));
                            PowerCmd::Finish(true)
                        } else {
                            self.stage = TurboStage::Reading;
                            assert(bus@ =~= start + Seq::<LineView>::empty());
                            PowerCmd::ReadActive
                        }
                    },
                    None => {
                        assert(bus@ =~= start + Seq::<LineView>::empty());
                        PowerCmd::Finish(false)
                    },
                }
            },
            TurboStage::Reading => {
                match ev {
                    PowerEvent::Active(s) => {
                        if s.as_str().is_empty() {
                            write_closing(bus, en, m, self.any, self.last_err.as_str());
                            PowerCmd::Finish(self.any)
                        } else {
                            let key = throttle_key_path(s.as_str());
                            let key2 = throttle_key_path(s.as_str());
                            self.stage = TurboStage::WritingAc(key2);
                            assert(bus@ =~= start + Seq::<LineView>::empty());
                            PowerCmd::SetDword(key, owned("ACSettingIndex"), throttle_u32(m))
                        }
                    },
                    _ => {
                        assert(bus@ =~= start + Seq::<LineView>::empty());
                        PowerCmd::Finish(false)
                    },
                }
            },
            TurboStage::WritingAc(key) => {
                assert(bus@ =~= start + Seq::<LineView>::empty());
                match ev {
                    PowerEvent::Wrote(ok) => {
                        self.any = self.any || ok;
                        self.stage = TurboStage::WritingDc;
                        PowerCmd::SetDword(key, owned("DCSettingIndex"), throttle_u32(m))
                    },
                    _ => PowerCmd::Finish(false),
                }
            },
            TurboStage::WritingDc => {
                match ev {
                    PowerEvent::Wrote(ok) => {
                        self.any = self.any || ok;
                        let ghost mid = bus@;
                        if self.any {
                            write_registry(bus, en, m);
                        }
                        assert(bus@ =~= start + (if self.any {
                            registry_lines(en, m)
                        } else {
                            Seq::<LineView>::empty()
                        }));
                        write_closing(bus, en, m, self.any, self.last_err.as_str());
                        PowerCmd::Finish(self.any)
                    },
                    _ => {
                        assert(bus@ =~= start + Seq::<LineView>::empty());
                        PowerCmd::Finish(false)
                    },
                }
            },
            TurboStage::Over => {
                assert(bus@ =~= start + Seq::<LineView>::empty());
                PowerCmd::Finish(false)
            },
        }
    }

    fn after_setting(&mut self, k: u8, ev: PowerEvent) -> (cmd: PowerCmd)
        ensures
            ({
                match run_result(ev) {
                    Some((ok, e)) => {
                        &&& final(self).any == (old(self).any || ok)
                        &&& final(self).last_err@ == keep_err(old(self).last_err@, ok, e)
                        &&& if k < 3 {
                            &&& final(self).stage@ == TurboStageV::Setting((k + 1) as u8)
                            &&& cmd@ == CmdV::Run(value_args(old(self).mode, old(self).scheme@, (k + 1) as nat))
                        } else {
                            &&& final(self).stage@ == TurboStageV::Activating
                            &&& cmd@ == CmdV::Run(seq!["-setactive"@, old(self).scheme@])
                        }
                    },
                    None => {
                        &&& final(self).stage@ == TurboStageV::Over
                        &&& final(self).any == old(self).any
                        &&& final(self).last_err == old(self).last_err
                        &&& cmd@ == CmdV::Finish(false)
                    },
                }
            }),
            final(self).mode == old(self).mode,
            final(self).scheme == old(self).scheme,
    {
        match read_run_result(&ev) {
            Some((ok, e)) => {
                self.any = self.any || ok;
                if !ok && e.len() > 0 {
                    self.last_err = string_of(&e);
                }
                if k < 3 {
                    self.stage = TurboStage::Setting(k + 1);
                    PowerCmd::Run(value_cmd(self.mode, self.scheme.as_str(), k + 1))
                } else {
                    self.stage = TurboStage::Activating;
                    let mut v: Vec<String> = Vec::new();
                    v.push(owned("-setactive"));
                    v.push(owned(self.scheme.as_str()));
                    assert(strs(v@) =~= seq!["-setactive"@, self.scheme@]);
                    PowerCmd::Run(v)
                }
            },
            None => {
                self.stage = TurboStage::Over;
                PowerCmd::Finish(false)
            },
        }
    }
}

} // verus!
