//! Properties of the library as a whole: what one operation undoes of
//! another, what every state keeps, and what a value read back holds.
use vstd::prelude::*;
use vstd::utf8::{encode_utf8, encode_utf8_decode_utf8, encode_utf8_valid_utf8};

use crate::actions::cpu::{finding_lines, hex_text, is_affected, microcode_revision, CpuFacts};
use crate::actions::decode::decoded;
use crate::actions::fixes::{add_args, fix_data, fix_step, fix_value, fix_wf, shows_problem, FixCmdV, FixEvent, FixStage};
use crate::actions::guid::{first_guid, is_guid_text, strip_word, words};
use crate::actions::iso::{dismount_args, iso_step, IsoCmdV, IsoEvent, IsoStageV};
use crate::actions::jobs::full_repair_ops;
use crate::actions::script::OpV;
use crate::actions::osinfo::{first_segment, product_text, starts_with};
use crate::actions::power::{GUID_PERFBOOSTMODE, GUID_PROCTHROTTLEMAX, capture_result, listed_guid, plan_step, run_result, CmdV, PlanStageV, PowerEvent};
use crate::actions::turbo::{throttle_key, throttle_value, turbo_step, TurboMode, TurboStageV};
use crate::config::{normal_lang, normal_mode, valid_lang, valid_mode};
use crate::console::{keep_last, receive, receive_all, LineKind, LineView};
use crate::emoji::{all_view, label_of, lemma_labels_distinct, Emoji};
use crate::fit::{lemma_prefix_fit_bounds, FitSearch};
use crate::text::{contains_seq, lang, lines_of, lowercase, parse_unsigned};
use crate::theme::{is_role, role_of, with_role, Rgba, Theme};
use crate::ui::{next_lang_view, next_mode_view, other_mode, other_pos, ConsolePos, SidebarMode};
use crate::winutil::{is_pad, reg_text_view, trim_pad_end, trim_pad_start, utf16_lossy};

verus! {

/// Recolouring a role and reading it back gives the new colour, and leaves
/// every other role as it was.
pub proof fn law_role_write_read(t: Theme, key: Seq<char>, other: Seq<char>, c: Rgba)
    requires
        is_role(key),
        is_role(other),
        other != key,
    ensures
        role_of(with_role(t, key, c), key) == c,
        role_of(with_role(t, key, c), other) == role_of(t, other),
{
}

/// Loading always leaves a known mode and language, and loading again
/// changes nothing.
pub proof fn law_normalize(mode: Seq<char>, l: Seq<char>)
    ensures
        valid_mode(normal_mode(mode)),
        valid_lang(normal_lang(l)),
        normal_mode(normal_mode(mode)) == normal_mode(mode),
        normal_lang(normal_lang(l)) == normal_lang(l),
{
}

/// Pressing a layout button twice brings the layout back.
pub proof fn law_toggles_undo(p: ConsolePos, m: SidebarMode)
    ensures
        other_pos(other_pos(p)) == p,
        other_mode(other_mode(m)) == m,
        other_pos(p) != p,
        other_mode(m) != m,
{
}

/// Switching the theme or the language twice brings the setting back
/// (from a known mode or language).
pub proof fn law_switch_twice(mode: Seq<char>, l: Seq<char>)
    requires
        valid_mode(mode),
        valid_lang(l),
    ensures
        next_mode_view(next_mode_view(mode)) == mode,
        next_lang_view(next_lang_view(l)) == l,
        valid_mode(next_mode_view(mode)),
        valid_lang(next_lang_view(l)),
{
    reveal_strlit("dark");
    reveal_strlit("light");
    reveal_strlit("en");
    reveal_strlit("tr");
}

/// A progress line.
pub open spec fn is_progress_line(l: LineView) -> bool {
    l matches LineView::Text(LineKind::Progress, _)
}

/// No two progress lines in a row.
pub open spec fn progress_collapsed(v: Seq<LineView>) -> bool {
    forall|i: int|
        0 < i < v.len() ==> !(is_progress_line(#[trigger] v[i - 1]) && is_progress_line(v[i]))
}

proof fn lemma_receive_collapsed(v: Seq<LineView>, l: LineView)
    requires
        progress_collapsed(v),
    ensures
        progress_collapsed(receive(v, l)),
{
    let r = receive(v, l);
    assert forall|i: int| 0 < i < r.len() implies !(is_progress_line(#[trigger] r[i - 1])
        && is_progress_line(r[i])) by {
        match l {
            LineView::Clear => {},
            LineView::Text(LineKind::Progress, _) => {
                if v.len() > 0 && is_progress_line(v.last()) {
                    assert(r =~= v.drop_last().push(l));
                    if i < v.len() - 1 {
                        assert(r[i - 1] == v[i - 1]);
                        assert(r[i] == v[i]);
                    } else {
                        assert(r[i - 1] == v[i - 1]);
                        assert(v[i] == v.last());
                    }
                } else {
                    assert(r =~= v.push(l));
                    assert(r[i - 1] == v[i - 1]);
                    if i < v.len() {
                        assert(r[i] == v[i]);
                    }
                }
            },
            _ => {
                assert(r =~= v.push(l));
                assert(r[i - 1] == v[i - 1]);
                if i < v.len() {
                    assert(r[i] == v[i]);
                }
            },
        }
    }
}

proof fn lemma_receive_all_collapsed(v: Seq<LineView>, ls: Seq<LineView>)
    requires
        progress_collapsed(v),
    ensures
        progress_collapsed(receive_all(v, ls)),
    decreases ls.len(),
{
    if ls.len() > 0 {
        lemma_receive_collapsed(v, ls[0]);
        lemma_receive_all_collapsed(receive(v, ls[0]), ls.drop_first());
    }
}

proof fn lemma_keep_last_collapsed(r: Seq<LineView>, max: nat)
    requires
        progress_collapsed(r),
    ensures
        progress_collapsed(keep_last(r, max)),
{
    let k = keep_last(r, max);
    if r.len() > max {
        let off = r.len() - max;
        assert forall|i: int| 0 < i < k.len() implies !(is_progress_line(#[trigger] k[i - 1])
            && is_progress_line(k[i])) by {
            assert(k[i - 1] == r[(i + off) - 1]);
            assert(k[i] == r[i + off]);
        }
    }
}

/// The console collapses progress: a buffer with no two progress lines in
/// a row keeps that shape after any lines arrive and old ones are dropped,
/// so a running progress bar takes a single line.
pub proof fn law_progress_collapses(v: Seq<LineView>, ls: Seq<LineView>, max: nat)
    requires
        progress_collapsed(v),
    ensures
        progress_collapsed(keep_last(receive_all(v, ls), max)),
{
    lemma_receive_all_collapsed(v, ls);
    lemma_keep_last_collapsed(receive_all(v, ls), max);
}

/// Text written as UTF-8 is read back unchanged by the output decoder.
pub proof fn law_decode_utf8_text(s: Seq<char>)
    ensures
        decoded(encode_utf8(s)) == s,
{
    encode_utf8_valid_utf8(s);
    encode_utf8_decode_utf8(s);
}

/// 0 and 0xFFFFFFFF are never reported as a revision; any other lower
/// half of the raw value is the revision.
pub proof fn law_microcode_marker(raw: u64)
    ensures
        microcode_revision(raw) is None <==> (raw % 0x1_0000_0000 == 0 || raw % 0x1_0000_0000
            == 0xffff_ffff),
        microcode_revision(raw) matches Some(v) ==> v == raw % 0x1_0000_0000 && v != 0 && v
            != 0xffff_ffff,
{
}

/// What the GUID search finds always has the GUID shape.
pub proof fn law_found_guid_shape(ws: Seq<Seq<char>>)
    ensures
        first_guid(ws) matches Some(g) ==> is_guid_text(g),
    decreases ws.len(),
{
    if ws.len() > 0 && !is_guid_text(strip_word(ws[0])) {
        law_found_guid_shape(ws.drop_first());
    }
}

/// Every picture is loaded, once.
pub proof fn law_every_emoji_once(e: Emoji)
    ensures
        all_view().contains(e),
        forall|i: int, j: int|
            0 <= i < j < all_view().len() ==> all_view()[i] != all_view()[j],
{
    let a = all_view();
    match e {
        Emoji::Home => assert(a[0] == e),
        Emoji::Broom => assert(a[1] == e),
        Emoji::Sponge => assert(a[2] == e),
        Emoji::Shield => assert(a[3] == e),
        Emoji::Disk => assert(a[4] == e),
        Emoji::Optical => assert(a[5] == e),
        Emoji::Info => assert(a[6] == e),
        Emoji::Trash => assert(a[7] == e),
        Emoji::Recycle => assert(a[8] == e),
        Emoji::Refresh => assert(a[9] == e),
        Emoji::Chart => assert(a[10] == e),
        Emoji::Inbox => assert(a[11] == e),
        Emoji::Moon => assert(a[12] == e),
        Emoji::Palette => assert(a[13] == e),
        Emoji::Clipboard => assert(a[14] == e),
        Emoji::Pill => assert(a[15] == e),
        Emoji::Stethoscope => assert(a[16] == e),
        Emoji::Wrench => assert(a[17] == e),
        Emoji::Sun => assert(a[18] == e),
        Emoji::Magnifier => assert(a[19] == e),
        Emoji::Bolt => assert(a[20] == e),
        Emoji::Computer => assert(a[21] == e),
        Emoji::Rocket => assert(a[22] == e),
        Emoji::FlagTr => assert(a[23] == e),
        Emoji::FlagUs => assert(a[24] == e),
        Emoji::Laptop => assert(a[25] == e),
        Emoji::Controls => assert(a[26] == e),
        Emoji::Battery => assert(a[27] == e),
        Emoji::Scale => assert(a[28] == e),
    }
}

/// While the status-line search runs, each length it tries lies strictly
/// above the longest known to fit and not above the longest that may.
pub proof fn law_fit_candidate_between(f: FitSearch)
    requires
        f.wf(),
        f.searching(),
    ensures
        f.low() < f.mid() <= f.high(),
{
    lemma_prefix_fit_bounds(f.text_view(), ((f.low() + f.high() + 1) / 2) as int);
}

/// How far a plan job has come.
pub open spec fn plan_rank(s: PlanStageV) -> nat {
    match s {
        PlanStageV::Check => 0,
        PlanStageV::List => 1,
        PlanStageV::Duplicate(_) => 2,
        PlanStageV::Activate(_, _) => 3,
        PlanStageV::Over => 4,
    }
}

/// A plan job always moves forward, so it ends within four commands; it
/// asks the program to finish exactly when it is over.
pub proof fn law_plan_progress(
    en: bool,
    guid: Seq<char>,
    name: Seq<char>,
    active: Seq<char>,
    note: Seq<char>,
    stage: PlanStageV,
    ev: PowerEvent,
)
    ensures
        ({
            let (next, cmd, _) = plan_step(en, guid, name, active, note, stage, ev);
            &&& !(stage is Over) ==> plan_rank(next) > plan_rank(stage)
            &&& stage is Over ==> next is Over
            &&& (next is Over <==> cmd is Finish)
        }),
{
}

/// After the plan had to be created with `-duplicatescheme`, the plan
/// activated is the GUID found in that command's output.
pub proof fn law_duplicate_activates_found(
    en: bool,
    guid: Seq<char>,
    name: Seq<char>,
    active: Seq<char>,
    note: Seq<char>,
    last: Seq<char>,
    ev: PowerEvent,
)
    ensures
        plan_step(en, guid, name, active, note, PlanStageV::Duplicate(last), ev).1 matches CmdV::Run(
            a,
        ) ==> {
            &&& capture_result(ev) matches Some((true, out, _))
            &&& a.len() == 2
            &&& a[0] == "-setactive"@
            &&& first_guid(words(out)) == Some(a[1])
            &&& is_guid_text(a[1])
        },
{
    match capture_result(ev) {
        Some((d, out, _)) => {
            law_found_guid_shape(words(out));
        },
        None => {},
    }
}

/// How far a turbo job has come.
pub open spec fn turbo_rank(s: TurboStageV) -> nat {
    match s {
        TurboStageV::Start => 0,
        TurboStageV::Setting(k) => 1 + k as nat,
        TurboStageV::Activating => 5,
        TurboStageV::Reading => 6,
        TurboStageV::WritingAc(_) => 7,
        TurboStageV::WritingDc => 8,
        TurboStageV::Over => 9,
    }
}

/// A turbo job always moves forward (its four value commands, activation,
/// then the registry fallback), so it ends within nine commands; it asks
/// the program to finish exactly when it is over.
pub proof fn law_turbo_progress(
    en: bool,
    m: TurboMode,
    scheme: Seq<char>,
    any: bool,
    last: Seq<char>,
    stage: TurboStageV,
    ev: PowerEvent,
)
    requires
        stage matches TurboStageV::Setting(k) ==> k <= 3,
    ensures
        ({
            let (next, _, _, cmd, _) = turbo_step(en, m, scheme, any, last, stage, ev);
            &&& !(stage is Over) ==> turbo_rank(next) > turbo_rank(stage)
            &&& stage is Over ==> next is Over
            &&& next matches TurboStageV::Setting(k) ==> k <= 3
            &&& (next is Over <==> cmd is Finish)
        }),
{
}

/// When no `powercfg` command took effect, the job falls back on the
/// registry: it reads the active plan, then writes the maximum processor
/// state of that plan for AC and then DC power.
pub proof fn law_turbo_registry_fallback(
    en: bool,
    m: TurboMode,
    scheme: Seq<char>,
    last: Seq<char>,
    ev: PowerEvent,
    plan: String,
    key: Seq<char>,
    ok: bool,
)
    ensures
        run_result(ev) matches Some((false, _)) ==> turbo_step(
            en,
            m,
            scheme,
            false,
            last,
            TurboStageV::Activating,
            ev,
        ).3 == CmdV::ReadActive,
        ({
            let r = turbo_step(en, m, scheme, false, last, TurboStageV::Reading, PowerEvent::Active(plan));
            plan@.len() > 0 ==> r.3 == CmdV::SetDword(
                throttle_key(plan@),
                "ACSettingIndex"@,
                throttle_value(m),
            ) && r.0 == TurboStageV::WritingAc(throttle_key(plan@))
        }),
        turbo_step(en, m, scheme, false, last, TurboStageV::WritingAc(key), PowerEvent::Wrote(ok)).3
            == CmdV::SetDword(key, "DCSettingIndex"@, throttle_value(m)),
{
}

/// The known-issues job changes nothing before the user agrees: scanning
/// only queries, and the first fix is applied only on a "yes" to the one
/// question, and it is the first problem found.
pub proof fn law_fixes_ask_first(en: bool, stage: FixStage, plan: Seq<u8>, ev: FixEvent)
    requires
        fix_wf(stage, plan),
    ensures
        ({
            let (next, plan2, cmd, _) = fix_step(en, stage, plan, ev);
            &&& (stage is Start || stage is Scanning) ==> !(cmd is Apply)
            &&& stage is Asking ==> (cmd is Apply <==> ev == FixEvent::Answer(true))
            &&& stage is Asking && cmd is Apply ==> cmd == FixCmdV::Apply(add_args(plan[0] as nat))
        }),
{
}

/// How far the known-issues job has come.
pub open spec fn fix_rank(s: FixStage) -> nat {
    match s {
        FixStage::Start => 0,
        FixStage::Scanning(k) => 1 + k as nat,
        FixStage::Asking => 5,
        FixStage::Applying(i) => 6 + i as nat,
        FixStage::Over => 11,
    }
}

/// The known-issues job always moves forward (four queries, one question,
/// at most four fixes), so it ends; it finishes exactly when it is over.
pub proof fn law_fix_progress(en: bool, stage: FixStage, plan: Seq<u8>, ev: FixEvent)
    requires
        fix_wf(stage, plan),
    ensures
        ({
            let (next, plan2, cmd, _) = fix_step(en, stage, plan, ev);
            &&& !(stage is Over) ==> fix_rank(next) > fix_rank(stage)
            &&& stage is Over ==> next is Over
            &&& (next is Over <==> cmd is Finish)
        }),
{
}

/// How far the ISO repair has come.
pub open spec fn iso_rank(s: IsoStageV) -> nat {
    match s {
        IsoStageV::Start => 0,
        IsoStageV::Mounting => 1,
        IsoStageV::CheckWim(_) => 2,
        IsoStageV::CheckEsd(_) => 3,
        IsoStageV::Repairing => 4,
        IsoStageV::Dismounting => 5,
        IsoStageV::Over => 6,
    }
}

/// The ISO repair always moves forward, and once the image is mounted it
/// is dismounted before the job ends: with the answers each command asks
/// for, no step after a successful mount ends the job short of the
/// dismount.
pub proof fn law_iso_dismounts(en: bool, iso: Seq<char>, stage: IsoStageV, ev: IsoEvent, found: bool)
    ensures
        !(stage is Over) ==> iso_rank(iso_step(en, iso, stage, ev).0) > iso_rank(stage),
        (iso_step(en, iso, stage, ev).0 is Over <==> iso_step(en, iso, stage, ev).1 is Finish),
        (stage is CheckWim || stage is CheckEsd) ==> !(iso_step(
            en,
            iso,
            stage,
            IsoEvent::Flag(found),
        ).0 is Over),
        stage is Repairing ==> iso_step(en, iso, stage, IsoEvent::Done).1 == IsoCmdV::Capture(
            dismount_args(iso),
        ),
        stage is CheckEsd && !found ==> iso_step(en, iso, stage, IsoEvent::Flag(found)).1
            == IsoCmdV::Capture(dismount_args(iso)),
{
}

/// Windows 10 or 11 is decided by the build number: from build 22000 on a
/// product named "Windows 10 ..." is shown as "Windows 11 ...", below it a
/// "Windows 11 ..." is shown as "Windows 10 ...", and the rest of the name
/// is kept.
pub proof fn law_windows_by_build(prod: Seq<char>, build: Seq<char>)
    ensures
        parse_unsigned(first_segment(build), 10, u32::MAX as nat) matches Some(b) ==> {
            &&& (b >= 22000 && starts_with(prod, "Windows 10"@)) ==> product_text(prod, build)
                == "Windows 11"@ + prod.subrange(10, prod.len() as int)
            &&& (b < 22000 && starts_with(prod, "Windows 11"@)) ==> product_text(prod, build)
                == "Windows 10"@ + prod.subrange(10, prod.len() as int)
        },
{
}

/// Registry text never keeps a null or white space at either end, so a
/// GUID read from the registry is used as it is.
pub proof fn law_reg_text_clean(buf: Seq<u16>, byte_len: nat)
    ensures
        reg_text_view(buf, byte_len) matches Some(t) ==> t.len() > 0 && !is_pad(t[0]) && !is_pad(
            t.last(),
        ),
{
    let n = byte_len / 2;
    let s = utf16_lossy(buf.take(n as int));
    lemma_trim_pad_start(s);
    lemma_trim_pad_end(trim_pad_start(s));
}

proof fn lemma_trim_pad_start(s: Seq<char>)
    ensures
        trim_pad_start(s).len() > 0 ==> !is_pad(trim_pad_start(s)[0]),
    decreases s.len(),
{
    if s.len() > 0 && is_pad(s[0]) {
        lemma_trim_pad_start(s.drop_first());
    }
}

proof fn lemma_trim_pad_end(x: Seq<char>)
    ensures
        trim_pad_end(x).len() > 0 ==> !is_pad(trim_pad_end(x).last()),
        trim_pad_end(x).len() > 0 && x.len() > 0 ==> trim_pad_end(x)[0] == x[0],
        trim_pad_end(x).len() <= x.len(),
    decreases x.len(),
{
    if x.len() > 0 && is_pad(x.last()) {
        lemma_trim_pad_end(x.drop_last());
    }
}

/// The only `powercfg` command a plan job runs with `-setactive` carries a
/// GUID read from `powercfg` output: the plan's line in `-list`, or what
/// `-duplicatescheme` printed. The plan GUID given to the job is never
/// activated on its own account; when the plan is not listed, the job goes
/// straight to `-duplicatescheme` with it.
pub proof fn law_setactive_uses_found_guid(
    en: bool,
    guid: Seq<char>,
    name: Seq<char>,
    active: Seq<char>,
    note: Seq<char>,
    stage: PlanStageV,
    ev: PowerEvent,
)
    ensures
        plan_step(en, guid, name, active, note, stage, ev).1 matches CmdV::Run(a) ==> {
            &&& a.len() == 2
            &&& a[0] == "-setactive"@
            &&& capture_result(ev) matches Some((ok, out, _))
            &&& (stage is List && listed_guid(lines_of(out), lowercase(guid)) == Some(a[1]))
                || (stage is Duplicate && ok && first_guid(words(out)) == Some(a[1]))
        },
        stage is List ==> (capture_result(ev) matches Some((_, out, _)) ==> (listed_guid(
            lines_of(out),
            lowercase(guid),
        ) is None ==> plan_step(en, guid, name, active, note, stage, ev).1 == CmdV::Capture(
            seq!["-duplicatescheme"@, guid],
        ))),
{
}

/// Texture names are unique: the pictures loaded have pairwise different
/// texture names, and every texture name begins with `emoji_`.
pub proof fn law_emoji_labels_distinct()
    ensures
        forall|i: int, j: int|
            0 <= i < j < all_view().len() ==> label_of(all_view()[i]) != label_of(
                all_view()[j],
            ),
        forall|e: Emoji| #![trigger label_of(e)] label_of(e).len() > 6 && label_of(e).subrange(0, 6) == "emoji_"@,
{
    law_every_emoji_once(Emoji::Home);
    let a = all_view();
    assert forall|i: int, j: int| 0 <= i < j < a.len() implies label_of(a[i]) != label_of(a[j]) by {
        lemma_labels_distinct(a[i], a[j]);
    }
    assert forall|e: Emoji| #![trigger label_of(e)] label_of(e).len() > 6 && label_of(e).subrange(0, 6) == "emoji_"@ by {
        lemma_labels_distinct(e, e);
    }
}

/// The microcode revision Windows reports ("Update Revision") is the one
/// judged whenever it is a real revision, whatever the BIOS value
/// ("Previous Update Revision") says: 0x12B or newer is reported current
/// with no risk explanation and no advice to turn turbo off; older is
/// reported old, with that revision, followed by the risk explanation.
pub proof fn law_windows_revision_judged(en: bool, f: CpuFacts, raw: u64)
    requires
        is_affected(f),
        f.update_revision == Some(raw),
        raw % 0x1_0000_0000 != 0,
        raw % 0x1_0000_0000 != 0xffff_ffff,
    ensures
        ({
            let w = (raw % 0x1_0000_0000) as u32;
            let lines = finding_lines(en, f);
            &&& w >= 0x12B ==> lines[2] == LineView::Text(
                LineKind::Success,
                lang(
                    en,
                    "  Mikrokod güncel (0x12B veya üzeri). Ek önlem gerekmiyor."@,
                    "  Microcode is current (0x12B or newer). No extra action needed."@,
                ),
            ) && lines.len() == (if f.turbo == Some(false) { 5int } else { 3int })
            &&& w < 0x12B ==> lines[2] == LineView::Text(
                LineKind::Warn,
                lang(en, "  Mikrokod eski ("@, "  Microcode is old ("@) + hex_text(w) + lang(
                    en,
                    "). Güncel: 0x12B veya üzeri."@,
                    "). Current: 0x12B or newer."@,
                ),
            ) && lines.len() == 8
        }),
{
}

/// The BIOS value ("Previous Update Revision") is judged only when Windows
/// reports no revision (no value, or 0 / 0xFFFFFFFF in its lower half).
pub proof fn law_bios_revision_fallback(en: bool, f: CpuFacts, prev: u64)
    requires
        is_affected(f),
        f.update_revision matches Some(raw) ==> (raw % 0x1_0000_0000 == 0 || raw % 0x1_0000_0000
            == 0xffff_ffff),
        f.previous_revision == Some(prev),
        prev % 0x1_0000_0000 != 0,
        prev % 0x1_0000_0000 != 0xffff_ffff,
    ensures
        ({
            let w = (prev % 0x1_0000_0000) as u32;
            let lines = finding_lines(en, f);
            &&& w >= 0x12B ==> lines[2]->Text_0 == LineKind::Success
            &&& w < 0x12B ==> lines[2] == LineView::Text(
                LineKind::Warn,
                lang(en, "  Mikrokod eski ("@, "  Microcode is old ("@) + hex_text(w) + lang(
                    en,
                    "). Güncel: 0x12B veya üzeri."@,
                    "). Current: 0x12B or newer."@,
                ),
            )
        }),
{
}

/// DLL search protection and network throttling count as a problem
/// exactly when the lower-cased `reg query` output does not contain
/// `0xffffffff`: any other value shown, such as Windows' default
/// throttling index `0xa`, is a problem. The fix writes exactly that
/// value, so what it writes is what stops counting as a problem.
pub proof fn law_ffffffff_settings(i: nat, output: Seq<char>)
    requires
        i == 1 || i == 2,
    ensures
        shows_problem(i, output) <==> !contains_seq(lowercase(output), "0xffffffff"@),
        fix_data(i) == "0xffffffff"@,
        i == 2 ==> fix_value(i) == "NetworkThrottlingIndex"@,
        shows_problem(i, output) <==> !contains_seq(lowercase(output), fix_data(i)),
{
}

/// Fast Startup counts as on exactly when the lower-cased `reg query`
/// output contains `0x1`, and GameDVR as allowed exactly when it does not
/// contain `0x0`; the fixes write 0 to both.
pub proof fn law_zero_settings(output: Seq<char>)
    ensures
        shows_problem(0, output) <==> contains_seq(lowercase(output), "0x1"@),
        shows_problem(3, output) <==> !contains_seq(lowercase(output), "0x0"@),
        fix_value(0) == "HiberbootEnabled"@ && fix_data(0) == "0"@,
        fix_value(3) == "AllowGameDVR"@ && fix_data(3) == "0"@,
{
}

/// Turbo On sets the maximum processor state to 100 and the boost mode to
/// 2 (Aggressive), Turbo Off to 99 and 0 (disabled); on AC and on DC. The
/// four value commands the job runs, after its start and after each of
/// the first three answers, set these values; the registry fallback writes
/// the same maximum state.
pub proof fn law_turbo_values(en: bool, m: TurboMode, scheme: Seq<char>, any: bool, last: Seq<char>, k: u8, ev: PowerEvent)
    requires
        k < 3,
        run_result(ev) is Some,
    ensures
        throttle_value(m) == (if m == TurboMode::On { 100u32 } else { 99u32 }),
        ({
            let first = turbo_step(en, m, scheme, any, last, TurboStageV::Start, ev).3;
            let next = turbo_step(en, m, scheme, any, last, TurboStageV::Setting(k), ev).3;
            &&& first == CmdV::Run(seq![
                "-setacvalueindex"@,
                scheme,
                "54533251-82be-4824-96c1-47b60b740d00"@,
                GUID_PROCTHROTTLEMAX@,
                (if m == TurboMode::On { "100"@ } else { "99"@ }),
            ])
            &&& next == CmdV::Run(seq![
                (if k + 1 < 2 { "-setacvalueindex"@ } else { "-setdcvalueindex"@ }),
                scheme,
                "54533251-82be-4824-96c1-47b60b740d00"@,
                (if (k + 1) % 2 == 0 { GUID_PROCTHROTTLEMAX@ } else { GUID_PERFBOOSTMODE@ }),
                (if (k + 1) % 2 == 0 {
                    if m == TurboMode::On { "100"@ } else { "99"@ }
                } else {
                    if m == TurboMode::On { "2"@ } else { "0"@ }
                }),
            ])
        }),
{
}

/// The programs a script streams, in order.
pub open spec fn streamed(ops: Seq<OpV>) -> Seq<(Seq<char>, Seq<Seq<char>>)>
    decreases ops.len(),
{
    if ops.len() == 0 {
        Seq::empty()
    } else {
        let rest = streamed(ops.drop_first());
        match ops[0] {
            OpV::Stream(p, a) => seq![(p, a)] + rest,
            _ => rest,
        }
    }
}

proof fn lemma_streamed_append(a: Seq<OpV>, b: Seq<OpV>)
    ensures
        streamed(a + b) == streamed(a) + streamed(b),
    decreases a.len(),
{
    if a.len() == 0 {
        assert(a + b =~= b);
    } else {
        assert((a + b).drop_first() =~= a.drop_first() + b);
        lemma_streamed_append(a.drop_first(), b);
    }
}

/// The full repair streams exactly six commands, in order: DISM
/// CheckHealth, ScanHealth, RestoreHealth, then `sfc /scannow`, then DISM
/// StartComponentCleanup and CheckHealth again (each DISM command on the
/// running system's image).
#[verifier::spinoff_prover]
#[verifier::rlimit(40)]
pub proof fn law_full_repair_chain(en: bool)
    ensures
        streamed(full_repair_ops(en)) == seq![
            ("dism"@, seq!["/online"@, "/cleanup-image"@, "/checkhealth"@]),
            ("dism"@, seq!["/online"@, "/cleanup-image"@, "/scanhealth"@]),
            ("dism"@, seq!["/online"@, "/cleanup-image"@, "/restorehealth"@]),
            ("sfc"@, seq!["/scannow"@]),
            ("dism"@, seq!["/online"@, "/cleanup-image"@, "/startcomponentcleanup"@]),
            ("dism"@, seq!["/online"@, "/cleanup-image"@, "/checkhealth"@]),
        ],
{
    let ops = full_repair_ops(en);
    let a = ops.subrange(0, 8);
    let b = ops.subrange(8, 16);
    let c = ops.subrange(16, 24);
    let d = ops.subrange(24, 32);
    let e = ops.subrange(32, 37);
    assert(ops =~= (((a + b) + c) + d) + e);
    lemma_streamed_append(((a + b) + c) + d, e);
    lemma_streamed_append((a + b) + c, d);
    lemma_streamed_append(a + b, c);
    lemma_streamed_append(a, b);
    assert(streamed(a) == seq![("dism"@, seq!["/online"@, "/cleanup-image"@, "/checkhealth"@])]) by {
        reveal_with_fuel(streamed, 9);
    }
    assert(streamed(b) == seq![
        ("dism"@, seq!["/online"@, "/cleanup-image"@, "/scanhealth"@]),
        ("dism"@, seq!["/online"@, "/cleanup-image"@, "/restorehealth"@]),
    ]) by {
        reveal_with_fuel(streamed, 9);
    }
    assert(streamed(c) == seq![("sfc"@, seq!["/scannow"@])]) by {
        reveal_with_fuel(streamed, 9);
    }
    assert(streamed(d) == seq![
        ("dism"@, seq!["/online"@, "/cleanup-image"@, "/startcomponentcleanup"@]),
        ("dism"@, seq!["/online"@, "/cleanup-image"@, "/checkhealth"@]),
    ]) by {
        reveal_with_fuel(streamed, 9);
    }
    assert(streamed(e) == Seq::<(Seq<char>, Seq<Seq<char>>)>::empty()) by {
        reveal_with_fuel(streamed, 6);
    }
}

/// The ISO repair hands DISM exactly the image whose existence it just
/// checked: it first checks `<drive>:\sources\install.wim`, uses it when
/// found, and only then checks `install.esd` and uses that when found.
pub proof fn law_iso_uses_checked_image(en: bool, iso: Seq<char>, stage: IsoStageV, ev: IsoEvent, drv: Seq<char>)
    ensures
        ({
            let (s2, c2, _) = iso_step(en, iso, stage, ev);
            (s2 matches IsoStageV::CheckWim(d) ==> c2 == IsoCmdV::IsFile(d + ":\\sources\\"@ + "install.wim"@))
                && (s2 matches IsoStageV::CheckEsd(d) ==> c2 == IsoCmdV::IsFile(
                d + ":\\sources\\"@ + "install.esd"@,
            )) && (c2 matches IsoCmdV::IsFile(p) ==> iso_step(en, iso, s2, IsoEvent::Flag(true)).1
                == IsoCmdV::Stream(
                seq![
                    "/online"@,
                    "/cleanup-image"@,
                    "/restorehealth"@,
                    "/source:"@ + p,
                    "/limitaccess"@,
                ],
            ))
        }),
        iso_step(en, iso, IsoStageV::CheckWim(drv), IsoEvent::Flag(false)).1 == IsoCmdV::IsFile(
            drv + ":\\sources\\"@ + "install.esd"@,
        ),
{
}

} // verus!
