//! Power plans and turbo on/off through `powercfg` (no console window).
//!
//! Each job is a state machine: the program runs the command that `step`
//! asks for and hands the outcome back as the next event. Every decision
//! lives here; the program only runs commands and writes the registry.
use vstd::prelude::*;

use crate::actions::decode::{decode, decoded};
use crate::actions::guid::{extract_guid, first_guid, words};
use crate::console::{header_lines, text, Con, LineKind, LineView};
use crate::i18n::tr;
use crate::text::{
    chars_of, contains_chars, contains_seq, join2, join3, lang, line_end, lines_of,
    lemma_line_end, lowercase, owned, string_of, strip_cr, to_lowercase, trim, trim_chars,
};

verus! {

/// The Ultimate Performance plan (a hidden template, added with
/// `powercfg -duplicatescheme`).
pub const ULTIMATE: &'static str = "e9a42b02-d5df-448d-aa00-03f14749eb61";
/// The Power Saver plan.
pub const POWER_SAVER: &'static str = "a1841308-3541-4fab-bc81-f71556f20b4a";
/// The Balanced plan.
pub const BALANCED: &'static str = "381b4222-f694-41f0-9685-ff5bb260df2e";
/// The High Performance plan.
pub const HIGH_PERF: &'static str = "8c5e7fda-e8bf-4a96-9a85-a6e23a8c635c";
/// The processor settings subgroup.
pub const GUID_SUB_PROCESSOR: &'static str = "54533251-82be-4824-96c1-47b60b740d00";
/// Maximum processor state (PROCTHROTTLEMAX, 0-100 %); 99 % = turbo off.
pub const GUID_PROCTHROTTLEMAX: &'static str = "bc5038f7-23e0-4960-96da-33abaf5935ec";
/// Processor performance boost mode (PERFBOOSTMODE, 0 = disabled .. 2 = aggressive).
pub const GUID_PERFBOOSTMODE: &'static str = "be337238-0d82-4146-a960-4f3749d470c7";

// ---------------------------------------------------------------------------
// commands and events
// ---------------------------------------------------------------------------

/// What the program must do next for a power job.
pub enum PowerCmd {
    /// Run `powercfg` with these arguments and report its status, standard
    /// output and standard error (`PowerEvent::Captured`).
    Capture(Vec<String>),
    /// Run `powercfg` with these arguments and report its status and
    /// standard error (`PowerEvent::Ran`).
    Run(Vec<String>),
    /// Read the active plan GUID from the registry (`PowerEvent::Active`).
    ReadActive,
    /// Write a REG_DWORD under HKLM (`PowerEvent::Wrote`).
    SetDword(String, String, u32),
    /// The job is over, with this result.
    Finish(bool),
}

/// The outcome of the last command.
pub enum PowerEvent {
    /// The job starts.
    Start,
    /// The command ran: success, standard output, standard error (raw bytes).
    Captured(bool, Vec<u8>, Vec<u8>),
    /// The command ran: success, standard error (raw bytes).
    Ran(bool, Vec<u8>),
    /// The command could not be started; the error text.
    SpawnFailed(String),
    /// The active plan GUID (empty when unreadable).
    Active(String),
    /// The registry write succeeded or not.
    Wrote(bool),
}

/// The mathematical value of a command.
pub ghost enum CmdV {
    Capture(Seq<Seq<char>>),
    Run(Seq<Seq<char>>),
    ReadActive,
    SetDword(Seq<char>, Seq<char>, u32),
    Finish(bool),
}

/// The views of some strings.
pub open spec fn strs(v: Seq<String>) -> Seq<Seq<char>> {
    v.map_values(|s: String| s@)
}

impl View for PowerCmd {
    type V = CmdV;

    open spec fn view(&self) -> CmdV {
        match self {
            PowerCmd::Capture(a) => CmdV::Capture(strs(a@)),
            PowerCmd::Run(a) => CmdV::Run(strs(a@)),
            PowerCmd::ReadActive => CmdV::ReadActive,
            PowerCmd::SetDword(k, v, d) => CmdV::SetDword(k@, v@, *d),
            PowerCmd::Finish(b) => CmdV::Finish(*b),
        }
    }
}

/// The trimmed, decoded text of some command output.
pub open spec fn out_text(b: Seq<u8>) -> Seq<char> {
    trim(decoded(b))
}

/// What a finished `powercfg` run tells a job: success and the trimmed
/// standard error (or the spawn error); `None` for other events.
pub open spec fn run_result(ev: PowerEvent) -> Option<(bool, Seq<char>)> {
    match ev {
        PowerEvent::Ran(ok, e) => Some((ok, out_text(e@))),
        PowerEvent::Captured(ok, _, e) => Some((ok, out_text(e@))),
        PowerEvent::SpawnFailed(e) => Some((false, e@)),
        _ => None,
    }
}

/// What a finished captured run tells a job: success, trimmed standard
/// output, trimmed standard error (or the spawn error).
pub open spec fn capture_result(ev: PowerEvent) -> Option<(bool, Seq<char>, Seq<char>)> {
    match ev {
        PowerEvent::Captured(ok, o, e) => Some((ok, out_text(o@), out_text(e@))),
        PowerEvent::Ran(ok, e) => Some((ok, Seq::empty(), out_text(e@))),
        PowerEvent::SpawnFailed(e) => Some((false, Seq::empty(), e@)),
        _ => None,
    }
}

fn text_of(b: &Vec<u8>) -> (s: Vec<char>)
    ensures
        s@ == out_text(b@),
{
    let d = decode(b.as_slice());
    let c = chars_of(d.as_str());
    trim_chars(&c)
}

/// What a finished `powercfg` run tells a job (see `run_result`).
pub fn read_run_result(ev: &PowerEvent) -> (r: Option<(bool, Vec<char>)>)
    ensures
        r matches Some((ok, e)) ==> run_result(*ev) == Some((ok, e@)),
        r is None ==> run_result(*ev) is None,
{
    match ev {
        PowerEvent::Ran(ok, e) => Some((*ok, text_of(e))),
        PowerEvent::Captured(ok, _, e) => Some((*ok, text_of(e))),
        PowerEvent::SpawnFailed(e) => Some((false, chars_of(e.as_str()))),
        _ => None,
    }
}

/// What a finished captured run tells a job (see `capture_result`).
pub fn read_capture_result(ev: &PowerEvent) -> (r: Option<(bool, Vec<char>, Vec<char>)>)
    ensures
        r matches Some((ok, o, e)) ==> capture_result(*ev) == Some((ok, o@, e@)),
        r is None ==> capture_result(*ev) is None,
{
    match ev {
        PowerEvent::Captured(ok, o, e) => Some((*ok, text_of(o), text_of(e))),
        PowerEvent::Ran(ok, e) => Some((*ok, Vec::new(), text_of(e))),
        PowerEvent::SpawnFailed(e) => Some((false, Vec::new(), chars_of(e.as_str()))),
        _ => None,
    }
}

fn args1(a: &str) -> (v: Vec<String>)
    ensures
        strs(v@) == seq![a@],
{
    let mut v: Vec<String> = Vec::new();
    v.push(owned(a));
    assert(strs(v@) =~= seq![a@]);
    v
}

fn args2(a: &str, b: &str) -> (v: Vec<String>)
    ensures
        strs(v@) == seq![a@, b@],
{
    let mut v: Vec<String> = Vec::new();
    v.push(owned(a));
    v.push(owned(b));
    assert(strs(v@) =~= seq![a@, b@]);
    v
}

// ---------------------------------------------------------------------------
// activating a plan
// ---------------------------------------------------------------------------

/// The first line of `powercfg -list` output that mentions `low` (in lower
/// case) and holds a GUID; that GUID.
pub open spec fn listed_guid(ls: Seq<Seq<char>>, low: Seq<char>) -> Option<Seq<char>>
    decreases ls.len(),
{
    if ls.len() == 0 {
        None
    } else if contains_seq(lowercase(ls[0]), low) && first_guid(words(ls[0])) is Some {
        first_guid(words(ls[0]))
    } else {
        listed_guid(ls.drop_first(), low)
    }
}

fn line_guid(line: &[char], low: &[char]) -> (r: Option<String>)
    ensures
        r matches Some(g) ==> contains_seq(lowercase(line@), low@) && first_guid(words(line@))
            == Some(g@),
        r is None ==> !(contains_seq(lowercase(line@), low@) && first_guid(words(line@)) is Some),
{
    let ls = string_of(line);
    let l = to_lowercase(ls.as_str());
    let lc = chars_of(l.as_str());
    if contains_chars(&lc, low) {
        extract_guid(ls.as_str())
    } else {
        None
    }
}

/// The GUID of the first listed plan whose line mentions `low` (see
/// `listed_guid`).
fn find_listed(out: &[char], low: &[char]) -> (r: Option<String>)
    ensures
        r matches Some(g) ==> listed_guid(lines_of(out@), low@) == Some(g@),
        r is None ==> listed_guid(lines_of(out@), low@) is None,
{
    let n = out.len();
    let mut i: usize = 0;
    assert(out@.subrange(0, n as int) =~= out@);
    while i < n
        invariant
            i <= n,
            n == out@.len(),
            listed_guid(lines_of(out@), low@) == listed_guid(
                lines_of(out@.subrange(i as int, n as int)),
                low@,
            ),
        decreases n - i,
    {
        let ghost rest = out@.subrange(i as int, n as int);
        let mut j = i;
        while j < n && out[j] != '\n'
            invariant
                i <= j <= n,
                n == out@.len(),
                forall|k: int| i <= k < j ==> out@[k] != '\n',
            decreases n - j,
        {
            j = j + 1;
        }
        proof {
            lemma_line_end(rest);
            assert(line_end(rest) == j - i) by {
                let m = line_end(rest);
                if m < j - i {
                    assert(rest[m] == out@[i + m]);
                } else if m > j - i {
                    assert(rest[j - i] == out@[j as int]);
                }
            }
        }
        let mut line: Vec<char> = Vec::new();
        let mut k = i;
        while k < j
            invariant
                i <= k <= j <= n,
                n == out@.len(),
                line@ == out@.subrange(i as int, k as int),
            decreases j - k,
        {
            line.push(out[k]);
            k = k + 1;
        }
        if j < n && line.len() > 0 && line[line.len() - 1] == '\r' {
            line.pop();
        }
        proof {
            let ls = lines_of(rest);
            assert(rest.subrange(0, j - i) =~= out@.subrange(i as int, j as int));
            if j == n {
                assert(rest =~= out@.subrange(i as int, j as int));
                assert(ls =~= seq![rest]);
            } else {
                assert(line@ == strip_cr(out@.subrange(i as int, j as int)));
                assert(rest.subrange(j - i + 1, rest.len() as int) =~= out@.subrange(
                    j + 1,
                    n as int,
                ));
                assert(ls[0] == line@);
                assert(ls.drop_first() =~= lines_of(out@.subrange(j + 1, n as int)));
            }
        }
        let g = line_guid(&line, low);
        if g.is_some() {
            return g;
        }
        if j == n {
            proof {
                let ls = lines_of(rest);
                assert(line@ == rest);
                assert(ls[0] == line@);
                assert(ls.drop_first() =~= Seq::<Seq<char>>::empty());
                assert(listed_guid(ls.drop_first(), low@) is None);
                assert(listed_guid(ls, low@) is None);
            }
            return None;
        }
        i = j + 1;
    }
    assert(out@.subrange(n as int, n as int) =~= Seq::<char>::empty());
    None
}

/// Where a plan job stands.
pub enum PlanStage {
    /// About to compare the active plan with the wanted one.
    Check,
    /// Waiting for the output of `powercfg -list`.
    List,
    /// Waiting for `powercfg -duplicatescheme`; the last error so far.
    Duplicate(String),
    /// Waiting for `powercfg -setactive` on the found GUID; that GUID and
    /// the last error so far.
    Activate(String, String),
    /// Over.
    Over,
}

/// The mathematical value of a stage.
pub ghost enum PlanStageV {
    Check,
    List,
    Duplicate(Seq<char>),
    Activate(Seq<char>, Seq<char>),
    Over,
}

impl View for PlanStage {
    type V = PlanStageV;

    open spec fn view(&self) -> PlanStageV {
        match self {
            PlanStage::Check => PlanStageV::Check,
            PlanStage::List => PlanStageV::List,
            PlanStage::Duplicate(e) => PlanStageV::Duplicate(e@),
            PlanStage::Activate(t, e) => PlanStageV::Activate(t@, e@),
            PlanStage::Over => PlanStageV::Over,
        }
    }
}

/// Activating a power plan: if it is not already active, find it in
/// `powercfg -list`; else create it with `-duplicatescheme` and take the
/// new GUID from the output; then activate what was found.
///
/// The plan GUID itself is never passed to `-setactive`: for Ultimate
/// Performance it is a template, on which `-setactive` fails with
/// "Attempted to write to unsupported setting", so the real plan GUID has
/// to come from the list or from the duplicate's output.
pub struct PlanJob {
    /// The wanted plan.
    pub guid: String,
    /// Its name, as shown to the user.
    pub name: String,
    /// The active plan GUID when the job started (empty when unreadable).
    pub active: String,
    /// A muted line written after a success (none when empty).
    pub note: String,
    pub stage: PlanStage,
}

/// The success lines: the confirmation, then the note when there is one.
pub open spec fn success_lines(label: Seq<char>, name: Seq<char>, note: Seq<char>) -> Seq<LineView> {
    seq![text(LineKind::Success, named(label, name))] + if note.len() == 0 {
        Seq::<LineView>::empty()
    } else {
        seq![text(LineKind::Dim, note)]
    }
}

/// `"  <label> \"<name>\"."`
pub open spec fn named(label: Seq<char>, name: Seq<char>) -> Seq<char> {
    "  "@ + label + " \""@ + name + "\"."@
}

/// The failure lines: the error, and the last `powercfg` error when known.
pub open spec fn failed_lines(en: bool, name: Seq<char>, last_err: Seq<char>) -> Seq<LineView> {
    seq![text(LineKind::Failure, named(lang(en, "Etkinleştirilemedi:"@, "Failed to activate:"@), name))]
        + if last_err.len() == 0 {
        Seq::<LineView>::empty()
    } else {
        seq![text(LineKind::Dim, "    powercfg: "@ + last_err)]
    }
}

/// One step of activating a plan: given the stage and the outcome of the
/// last command, the next stage, the next command and the lines written.
/// An event that does not fit the stage ends the job as a failure.
pub open spec fn plan_step(
    en: bool,
    guid: Seq<char>,
    name: Seq<char>,
    active: Seq<char>,
    note: Seq<char>,
    stage: PlanStageV,
    ev: PowerEvent,
) -> (PlanStageV, CmdV, Seq<LineView>) {
    match stage {
        PlanStageV::Check => if lowercase(active) == lowercase(guid) {
            (
                PlanStageV::Over,
                CmdV::Finish(true),
                success_lines(lang(en, "Zaten etkin:"@, "Already active:"@), name, note),
            )
        } else {
            (PlanStageV::List, CmdV::Capture(seq!["-list"@]), Seq::empty())
        },
        PlanStageV::List => match capture_result(ev) {
            Some((_, out, _)) => match listed_guid(lines_of(out), lowercase(guid)) {
                Some(g) => (
                    PlanStageV::Activate(g, Seq::empty()),
                    CmdV::Run(seq!["-setactive"@, g]),
                    Seq::empty(),
                ),
                None => (
                    PlanStageV::Duplicate(Seq::empty()),
                    CmdV::Capture(seq!["-duplicatescheme"@, guid]),
                    Seq::empty(),
                ),
            },
            None => (PlanStageV::Over, CmdV::Finish(false), Seq::empty()),
        },
        PlanStageV::Duplicate(last) => match capture_result(ev) {
            Some((d, out, e2)) => {
                let found = if d {
                    first_guid(words(out))
                } else {
                    None
                };
                match found {
                    Some(g) => (
                        PlanStageV::Activate(g, last),
                        CmdV::Run(seq!["-setactive"@, g]),
                        Seq::empty(),
                    ),
                    None => {
                        let last2 = if e2.len() > 0 {
                            e2
                        } else if out.len() > 0 {
                            out
                        } else {
                            last
                        };
                        (PlanStageV::Over, CmdV::Finish(false), failed_lines(en, name, last2))
                    },
                }
            },
            None => (PlanStageV::Over, CmdV::Finish(false), Seq::empty()),
        },
        PlanStageV::Activate(_, last) => match run_result(ev) {
            Some((ok, e)) => if ok {
                (
                    PlanStageV::Over,
                    CmdV::Finish(true),
                    success_lines(lang(en, "Etkinleştirildi:"@, "Activated:"@), name, note),
                )
            } else {
                let last2 = if e.len() > 0 {
                    e
                } else {
                    last
                };
                (PlanStageV::Over, CmdV::Finish(false), failed_lines(en, name, last2))
            },
            None => (PlanStageV::Over, CmdV::Finish(false), Seq::empty()),
        },
        PlanStageV::Over => (PlanStageV::Over, CmdV::Finish(false), Seq::empty()),
    }
}

fn named_line(label: &str, name: &str) -> (s: String)
    ensures
        s@ == named(label@, name@),
{
    let a = join3("  ", label, " \"");
    join3(a.as_str(), name, "\".")
}

fn write_failed(bus: &mut Con, en: bool, name: &str, last_err: &[char])
    ensures
        final(bus)@ == old(bus)@ + failed_lines(en, name@, last_err@),
{
    let ghost start = bus@;
    let l = named_line(tr(en, "Etkinleştirilemedi:", "Failed to activate:"), name);
    bus.err(l.as_str());
    if last_err.len() > 0 {
        let e = string_of(last_err);
        let d = join2("    powercfg: ", e.as_str());
        bus.dim(d.as_str());
    }
    assert(bus@ =~= start + failed_lines(en, name@, last_err@));
}

fn write_success(bus: &mut Con, label: &str, name: &str, note: &str)
    ensures
        final(bus)@ == old(bus)@ + success_lines(label@, name@, note@),
{
    let ghost start = bus@;
    let l = named_line(label, name);
    bus.ok(l.as_str());
    if !note.is_empty() {
        bus.dim(note);
    }
    assert(bus@ =~= start + success_lines(label@, name@, note@));
}

impl PlanJob {
    /// A job that activates `guid`, shown as `name`, starting from the
    /// active plan `active`.
    pub fn new(guid: &str, name: &str, active: String, note: &str) -> (j: PlanJob)
        ensures
            j.guid@ == guid@,
            j.name@ == name@,
            j.active@ == active@,
            j.note@ == note@,
            j.stage@ == PlanStageV::Check,
    {
        PlanJob {
            guid: owned(guid),
            name: owned(name),
            active,
            note: owned(note),
            stage: PlanStage::Check,
        }
    }

    /// Takes the outcome of the last command (`Start` at first) and says
    /// what to run next, writing the job's lines (see `plan_step`).
    pub fn step(&mut self, bus: &mut Con, en: bool, ev: PowerEvent) -> (cmd: PowerCmd)
        ensures
            ({
                let (st, c, ls) = plan_step(
                    en,
                    old(self).guid@,
                    old(self).name@,
                    old(self).active@,
                    old(self).note@,
                    old(self).stage@,
                    ev,
                );
                &&& final(self).stage@ == st
                &&& cmd@ == c
                &&& final(bus)@ == old(bus)@ + ls
            }),
            final(self).guid == old(self).guid,
            final(self).name == old(self).name,
            final(self).active == old(self).active,
            final(self).note == old(self).note,
    {
        let ghost start = bus@;
        let mut stage = PlanStage::Over;
        std::mem::swap(&mut stage, &mut self.stage);
        match stage {
            PlanStage::Check => {
                let a = to_lowercase(self.active.as_str());
                let g = to_lowercase(self.guid.as_str());
                if a == g {
                    write_success(bus, tr(en, "Zaten etkin:", "Already active:"), self.name.as_str(), self.note.as_str());
                    PowerCmd::Finish(true)
                } else {
                    self.stage = PlanStage::List;
                    assert(bus@ =~= start + Seq::<LineView>::empty());
                    PowerCmd::Capture(args1("-list"))
                }
            },
            PlanStage::List => {
                match read_capture_result(&ev) {
                    Some((_, out, _)) => {
                        let g = to_lowercase(self.guid.as_str());
                        let low = chars_of(g.as_str());
                        assert(bus@ =~= start + Seq::<LineView>::empty());
                        match find_listed(&out, &low) {
                            Some(t) => {
                                let a = args2("-setactive", t.as_str());
                                self.stage = PlanStage::Activate(t, String::new());
                                PowerCmd::Run(a)
                            },
                            None => {
                                self.stage = PlanStage::Duplicate(String::new());
                                PowerCmd::Capture(args2("-duplicatescheme", self.guid.as_str()))
                            },
                        }
                    },
                    None => {
                        assert(bus@ =~= start + Seq::<LineView>::empty());
                        PowerCmd::Finish(false)
                    },
                }
            },
            PlanStage::Duplicate(last) => {
                match read_capture_result(&ev) {
                    Some((d, out, e2)) => {
                        let found = if d {
                            let o = string_of(&out);
                            extract_guid(o.as_str())
                        } else {
                            None
                        };
                        match found {
                            Some(t) => {
                                let a = args2("-setactive", t.as_str());
                                self.stage = PlanStage::Activate(t, last);
                                assert(bus@ =~= start + Seq::<LineView>::empty());
                                PowerCmd::Run(a)
                            },
                            None => {
                                let last2: Vec<char> = if e2.len() > 0 {
                                    e2
                                } else if out.len() > 0 {
                                    out
                                } else {
                                    chars_of(last.as_str())
                                };
                                write_failed(bus, en, self.name.as_str(), &last2);
                                PowerCmd::Finish(false)
                            },
                        }
                    },
                    None => {
                        assert(bus@ =~= start + Seq::<LineView>::empty());
                        PowerCmd::Finish(false)
                    },
                }
            },
            PlanStage::Activate(_, last) => {
                match read_run_result(&ev) {
                    Some((ok, e)) => {
                        if ok {
                            write_success(bus, tr(en, "Etkinleştirildi:", "Activated:"), self.name.as_str(), self.note.as_str());
                            PowerCmd::Finish(true)
                        } else {
                            let last2: Vec<char> = if e.len() > 0 {
                                e
                            } else {
                                chars_of(last.as_str())
                            };
                            write_failed(bus, en, self.name.as_str(), &last2);
                            PowerCmd::Finish(false)
                        }
                    },
                    None => {
                        assert(bus@ =~= start + Seq::<LineView>::empty());
                        PowerCmd::Finish(false)
                    },
                }
            },
            PlanStage::Over => {
                assert(bus@ =~= start + Seq::<LineView>::empty());
                PowerCmd::Finish(false)
            },
        }
    }
}

/// Starts activating the Power Saver plan: writes the section header and returns the
/// job, which the program drives with `PlanJob::step`.
pub fn power_saver(bus: &mut Con, en: bool, active: String) -> (j: PlanJob)
    ensures
        final(bus)@ == old(bus)@ + header_lines(lang(en, "GÜÇ TASARRUFU"@, "POWER SAVER"@)),
        j.guid@ == POWER_SAVER@,
        j.name@ == lang(en, "Güç Tasarrufu"@, "Power Saver"@),
        j.note@ == lang(en, "  - CPU ve ekran gücü kısılır; pil ömrü artar, performans düşer."@, "  - CPU and screen power are reduced; longer battery life, lower performance."@),
        j.active@ == active@,
        j.stage@ == PlanStageV::Check,
{
    let ghost start = bus@;
    bus.header(tr(en, "GÜÇ TASARRUFU", "POWER SAVER"));
    let j = PlanJob::new(
        POWER_SAVER,
        tr(en, "Güç Tasarrufu", "Power Saver"),
        active,
        tr(en, "  - CPU ve ekran gücü kısılır; pil ömrü artar, performans düşer.", "  - CPU and screen power are reduced; longer battery life, lower performance."),
    );
    assert(bus@ =~= start + header_lines(lang(en, "GÜÇ TASARRUFU"@, "POWER SAVER"@)));
    j
}

/// Starts activating the Balanced plan: writes the section header and returns the
/// job, which the program drives with `PlanJob::step`.
pub fn balanced(bus: &mut Con, en: bool, active: String) -> (j: PlanJob)
    ensures
        final(bus)@ == old(bus)@ + header_lines(lang(en, "DENGELİ"@, "BALANCED"@)),
        j.guid@ == BALANCED@,
        j.name@ == lang(en, "Dengeli"@, "Balanced"@),
        j.note@ == lang(en, "  - Windows varsayılanı: ihtiyaca göre otomatik geçiş."@, "  - Windows default: switches automatically as needed."@),
        j.active@ == active@,
        j.stage@ == PlanStageV::Check,
{
    let ghost start = bus@;
    bus.header(tr(en, "DENGELİ", "BALANCED"));
    let j = PlanJob::new(
        BALANCED,
        tr(en, "Dengeli", "Balanced"),
        active,
        tr(en, "  - Windows varsayılanı: ihtiyaca göre otomatik geçiş.", "  - Windows default: switches automatically as needed."),
    );
    assert(bus@ =~= start + header_lines(lang(en, "DENGELİ"@, "BALANCED"@)));
    j
}

/// Starts activating the High Performance plan: writes the section header and returns the
/// job, which the program drives with `PlanJob::step`.
pub fn high_perf(bus: &mut Con, en: bool, active: String) -> (j: PlanJob)
    ensures
        final(bus)@ == old(bus)@ + header_lines(lang(en, "YÜKSEK PERFORMANS"@, "HIGH PERFORMANCE"@)),
        j.guid@ == HIGH_PERF@,
        j.name@ == lang(en, "Yüksek Performans"@, "High Performance"@),
        j.note@ == lang(en, "  - CPU yüksek frekansta tutulur; fan gürültüsü artabilir."@, "  - CPU is kept at high clocks; fan noise may increase."@),
        j.active@ == active@,
        j.stage@ == PlanStageV::Check,
{
    let ghost start = bus@;
    bus.header(tr(en, "YÜKSEK PERFORMANS", "HIGH PERFORMANCE"));
    let j = PlanJob::new(
        HIGH_PERF,
        tr(en, "Yüksek Performans", "High Performance"),
        active,
        tr(en, "  - CPU yüksek frekansta tutulur; fan gürültüsü artabilir.", "  - CPU is kept at high clocks; fan noise may increase."),
    );
    assert(bus@ =~= start + header_lines(lang(en, "YÜKSEK PERFORMANS"@, "HIGH PERFORMANCE"@)));
    j
}

/// Starts activating the Ultimate Performance plan (added first when missing): writes the section header and returns the
/// job, which the program drives with `PlanJob::step`.
pub fn ultimate(bus: &mut Con, en: bool, active: String) -> (j: PlanJob)
    ensures
        final(bus)@ == old(bus)@ + header_lines(lang(en, "ULTIMATE PERFORMANCE"@, "ULTIMATE PERFORMANCE"@)) + seq![text(LineKind::Dim, lang(en, "  - Chris Titus tarzı: gizli en üst performans planı açılır."@, "  - Chris Titus style: the hidden top-performance plan is unlocked."@))],
        j.guid@ == ULTIMATE@,
        j.name@ == lang(en, "Ultimate Performance"@, "Ultimate Performance"@),
        j.note@ == lang(en, "  - Plan yoksa otomatik eklenir (powercfg -duplicatescheme)."@, "  - The plan is auto-added if missing (powercfg -duplicatescheme)."@),
        j.active@ == active@,
        j.stage@ == PlanStageV::Check,
{
    let ghost start = bus@;
    bus.header(tr(en, "ULTIMATE PERFORMANCE", "ULTIMATE PERFORMANCE"));
    bus.dim(tr(en, "  - Chris Titus tarzı: gizli en üst performans planı açılır.", "  - Chris Titus style: the hidden top-performance plan is unlocked."));
    let j = PlanJob::new(
        ULTIMATE,
        tr(en, "Ultimate Performance", "Ultimate Performance"),
        active,
        tr(en, "  - Plan yoksa otomatik eklenir (powercfg -duplicatescheme).", "  - The plan is auto-added if missing (powercfg -duplicatescheme)."),
    );
    assert(bus@ =~= start + header_lines(lang(en, "ULTIMATE PERFORMANCE"@, "ULTIMATE PERFORMANCE"@)) + seq![text(LineKind::Dim, lang(en, "  - Chris Titus tarzı: gizli en üst performans planı açılır."@, "  - Chris Titus style: the hidden top-performance plan is unlocked."@))]);
    j
}

} // verus!
