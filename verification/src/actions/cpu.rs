//! CPU and microcode check (help for Intel 13th/14th generation CPUs).
//!
//! Flow: read the facts, write the findings, point to the Power section.
//! Nothing is changed and nothing is asked here.
use vstd::prelude::*;

use crate::console::{rule, text, Con, LineKind, LineView};
use crate::i18n::tr;
use crate::text::{
    ascii_digit, chars_of, contains_chars, digits_upper, hex_upper, is_ascii_digit, join2, join3,
    lang, lowercase, occurs_at, contains_seq, parse_u64, parse_unsigned, to_lowercase,
};

verus! {

// ---------------------------------------------------------------------------
// microcode revision
// ---------------------------------------------------------------------------

/// The little-endian value of the first eight bytes of `b` (fewer when `b`
/// is shorter).
pub open spec fn le_value(b: Seq<u8>) -> nat
    decreases b.len(),
{
    if b.len() == 0 || b.len() > 8 {
        if b.len() > 8 {
            le_value(b.subrange(0, 8))
        } else {
            0
        }
    } else {
        b[0] as nat + 256 * le_value(b.drop_first())
    }
}

spec fn byte_cap(n: nat) -> nat
    decreases n,
{
    if n == 0 {
        1
    } else {
        256 * byte_cap((n - 1) as nat)
    }
}

proof fn lemma_le_value_bound(b: Seq<u8>)
    requires
        b.len() <= 8,
    ensures
        le_value(b) < byte_cap(b.len()),
    decreases b.len(),
{
    if b.len() > 0 {
        lemma_le_value_bound(b.drop_first());
    }
}

/// The raw microcode value stored in a registry value of 8 bytes: the
/// first eight bytes read little-endian.
pub fn le_u64(b: &[u8]) -> (v: u64)
    ensures
        v as nat == le_value(b@),
{
    let k: usize = if b.len() > 8 {
        8
    } else {
        b.len()
    };
    let ghost s = b@.subrange(0, k as int);
    proof {
        if b.len() > 8 {
            assert(le_value(b@) == le_value(s));
        } else {
            assert(s =~= b@);
        }
        reveal_with_fuel(byte_cap, 9);
    }
    let mut v: u64 = 0;
    let mut i: usize = k;
    while i > 0
        invariant
            i <= k <= 8,
            k <= b.len(),
            s == b@.subrange(0, k as int),
            v as nat == le_value(s.subrange(i as int, k as int)),
            byte_cap(8) == 0x1_0000_0000_0000_0000,
        decreases i,
    {
        let ghost tail = s.subrange(i as int, k as int);
        proof {
            lemma_le_value_bound(tail);
            lemma_cap_mono((k - i) as nat, 7);
            let t2 = s.subrange(i - 1, k as int);
            assert(t2.drop_first() =~= tail);
            assert(t2[0] == b@[i - 1]);
        }
        v = v * 256 + b[i - 1] as u64;
        i = i - 1;
    }
    assert(s.subrange(0, k as int) =~= s);
    v
}

proof fn lemma_cap_mono(a: nat, b: nat)
    requires
        a <= b,
    ensures
        byte_cap(a) <= byte_cap(b),
    decreases b,
{
    if a < b {
        lemma_cap_mono(a, (b - 1) as nat);
    }
}

/// The raw "Update Revision" value (the microcode Windows loaded), from the
/// registry bytes when they could be read.
pub fn microcode_raw(update_revision: Option<&[u8]>) -> (r: Option<u64>)
    ensures
        r matches Some(v) ==> update_revision matches Some(b) && v as nat == le_value(b@),
        r is None <==> update_revision is None,
{
    match update_revision {
        Some(b) => Some(le_u64(b)),
        None => None,
    }
}

/// The raw "Previous Update Revision" value (the microcode the BIOS
/// loaded), from the registry bytes when they could be read.
pub fn microcode_prev(previous_revision: Option<&[u8]>) -> (r: Option<u64>)
    ensures
        r matches Some(v) ==> previous_revision matches Some(b) && v as nat == le_value(b@),
        r is None <==> previous_revision is None,
{
    match previous_revision {
        Some(b) => Some(le_u64(b)),
        None => None,
    }
}

/// The microcode revision in a raw registry value: its lower 32 bits (the
/// upper half is dropped, also when it is all ones as Windows writes it
/// when nothing is loaded). 0 and 0xFFFFFFFF mean "no revision reported"
/// and are never a revision.
pub open spec fn microcode_revision(raw: u64) -> Option<u32> {
    let w = raw % 0x1_0000_0000;
    if w == 0 || w == 0xffff_ffff {
        None
    } else {
        Some(w as u32)
    }
}

/// The microcode revision held in a raw registry value (see
/// `microcode_revision`).
pub fn microcode_low(raw: u64) -> (r: Option<u32>)
    ensures
        r == microcode_revision(raw),
        r != Some(0u32) && r != Some(0xFFFF_FFFFu32),
{
    assert(raw & 0xffff_ffffu64 == raw % 0x1_0000_0000) by (bit_vector);
    let w = raw & 0xffff_ffff;
    if w == 0xffff_ffff || w == 0 {
        None
    } else {
        assert(w as u32 == w % 0x1_0000_0000) by (bit_vector);
        Some(w as u32)
    }
}

/// The revision of an optional raw value.
pub open spec fn revision_of(raw: Option<u64>) -> Option<u32> {
    match raw {
        Some(r) => microcode_revision(r),
        None => None,
    }
}

fn revision(raw: Option<u64>) -> (r: Option<u32>)
    ensures
        r == revision_of(raw),
{
    match raw {
        Some(r) => microcode_low(r),
        None => None,
    }
}

// ---------------------------------------------------------------------------
// CPU generation
// ---------------------------------------------------------------------------

/// `s[i..j]` is a maximal, non-empty run of ASCII digits.
pub open spec fn digit_run(s: Seq<char>, i: int, j: int) -> bool {
    &&& 0 <= i < j <= s.len()
    &&& (i == 0 || !is_ascii_digit(s[i - 1]))
    &&& (j == s.len() || !is_ascii_digit(s[j]))
    &&& forall|k: int| i <= k < j ==> is_ascii_digit(#[trigger] s[k])
}

/// The processor name holds a number from 13000 to 14999 (such as the
/// model number in "Core i9-13900K"): some maximal run of digits reads as
/// such a number.
pub open spec fn names_gen13_14(s: Seq<char>) -> bool {
    exists|i: int, j: int|
        #![trigger digit_run(s, i, j)]
        digit_run(s, i, j) && (parse_unsigned(s.subrange(i, j), 10, u64::MAX as nat) matches Some(
            n,
        ) && 13000 <= n < 15000)
}

/// Whether the processor name names an Intel 13th or 14th generation model
/// (see `names_gen13_14`).
pub fn is_gen13_14(name: &str) -> (r: bool)
    ensures
        r == names_gen13_14(name@),
{
    let s = chars_of(name);
    let n = s.len();
    let mut i: usize = 0;
    while i < n
        invariant
            i <= n,
            n == s@.len(),
            s@ == name@,
            i == 0 || i == n || !is_ascii_digit(s@[i - 1]) || !is_ascii_digit(s@[i as int]),
            forall|a: int, b: int|
                #![trigger digit_run(s@, a, b)]
                digit_run(s@, a, b) && a < i ==> !(parse_unsigned(
                    s@.subrange(a, b),
                    10,
                    u64::MAX as nat,
                ) matches Some(v) && 13000 <= v < 15000),
        decreases n - i,
    {
        if !ascii_digit(s[i]) {
            i = i + 1;
            assert forall|a: int, b: int|
                #![trigger digit_run(s@, a, b)]
                digit_run(s@, a, b) && a < i implies !(parse_unsigned(
                    s@.subrange(a, b),
                    10,
                    u64::MAX as nat,
                ) matches Some(v) && 13000 <= v < 15000) by {
                if a == i - 1 {
                    assert(is_ascii_digit(s@[a]));
                }
            }
        } else {
            let mut j: usize = i;
            let mut run: Vec<char> = Vec::new();
            while j < n && ascii_digit(s[j])
                invariant
                    i <= j <= n,
                    n == s@.len(),
                    run@ == s@.subrange(i as int, j as int),
                    forall|k: int| i <= k < j ==> is_ascii_digit(#[trigger] s@[k]),
                decreases n - j,
            {
                run.push(s[j]);
                j = j + 1;
            }
            assert(digit_run(s@, i as int, j as int)) by {
                assert(is_ascii_digit(s@[i as int]));
            }
            let parsed = parse_u64(&run, 10);
            if let Some(v) = parsed {
                if 13000 <= v && v < 15000 {
                    return true;
                }
            }
            assert forall|a: int, b: int|
                #![trigger digit_run(s@, a, b)]
                digit_run(s@, a, b) && a < j implies !(parse_unsigned(
                    s@.subrange(a, b),
                    10,
                    u64::MAX as nat,
                ) matches Some(v) && 13000 <= v < 15000) by {
                if a > i {
                    assert(is_ascii_digit(s@[a - 1]));
                } else if a == i {
                    if b < j {
                        assert(is_ascii_digit(s@[b]));
                    } else if b > j {
                        assert(!is_ascii_digit(s@[j as int]));
                        assert(is_ascii_digit(s@[j as int]));
                    }
                }
            }
            i = j;
        }
    }
    false
}

/// The vendor string names Intel ("GenuineIntel", in any case).
pub open spec fn is_intel_text(vendor: Seq<char>) -> bool {
    contains_seq(lowercase(vendor), "genuineintel"@)
}

/// Whether the vendor string names Intel.
pub fn is_intel(vendor: &str) -> (r: bool)
    ensures
        r == is_intel_text(vendor@),
{
    let low = to_lowercase(vendor);
    let hay = chars_of(low.as_str());
    let needle = chars_of("genuineintel");
    contains_chars(&hay, &needle)
}

// ---------------------------------------------------------------------------
// turbo (maximum processor state)
// ---------------------------------------------------------------------------

/// Whether turbo is on, from the maximum processor state of the active
/// plan: `None` when the active plan could not be read; an unset value
/// means the default of 100%, i.e. on; otherwise on exactly at 100%.
pub fn turbo_enabled(index: Option<Option<u32>>) -> (r: Option<bool>)
    ensures
        r == (match index {
            None => None,
            Some(None) => Some(true),
            Some(Some(i)) => Some(i == 100),
        }),
{
    match index {
        None => None,
        Some(None) => Some(true),
        Some(Some(i)) => Some(i == 100),
    }
}

/// The maximum processor state from its AC and DC setting values: the AC
/// value when set, else the DC value, else unset.
pub fn throttle_index(ac: Option<u32>, dc: Option<u32>) -> (r: Option<u32>)
    ensures
        r == (if ac is Some {
            ac
        } else {
            dc
        }),
{
    match ac {
        Some(v) => Some(v),
        None => dc,
    }
}

// ---------------------------------------------------------------------------
// the report
// ---------------------------------------------------------------------------

/// What the registry says about the processor.
pub struct CpuFacts {
    /// "ProcessorNameString" (empty when unreadable).
    pub identifier: String,
    /// "VendorIdentifier" (empty when unreadable).
    pub vendor: String,
    /// "Identifier" (empty when unreadable).
    pub signature: String,
    /// The raw "Update Revision" value.
    pub update_revision: Option<u64>,
    /// The raw "Previous Update Revision" value.
    pub previous_revision: Option<u64>,
    /// Whether turbo is on (`None`: unreadable).
    pub turbo: Option<bool>,
}

/// `0x` followed by the upper-case hexadecimal digits of `v`.
pub open spec fn hex_text(v: u32) -> Seq<char> {
    "0x"@ + digits_upper(v as nat, 16)
}

/// The revision the findings use: the one Windows reports, else the BIOS's.
pub open spec fn effective_revision(f: CpuFacts) -> Option<u32> {
    match revision_of(f.update_revision) {
        Some(v) => Some(v),
        None => revision_of(f.previous_revision),
    }
}

/// Microcode older than 0x12B, or unknown, counts as risky.
pub open spec fn is_risky(eff: Option<u32>) -> bool {
    !(eff matches Some(v) && v >= 0x12B)
}

/// The CPU is an Intel 13th/14th generation part.
pub open spec fn is_affected(f: CpuFacts) -> bool {
    is_intel_text(f.vendor@) && names_gen13_14(f.identifier@)
}

/// The lines before the findings: the header, the processor, its ID and
/// both microcode revisions.
pub open spec fn intro_lines(en: bool, f: CpuFacts) -> Seq<LineView> {
    let unavailable = lang(en, "okunamadı"@, "unavailable"@);
    let head = seq![
        text(LineKind::Big, rule('-')),
        text(LineKind::Info, lang(en, "CPU / BIOS - MİKRO KOD KONTROLÜ"@, "CPU / BIOS - MICROCODE CHECK"@)),
        text(LineKind::Dim, rule('-')),
        text(
            LineKind::Plain,
            "  "@ + lang(en, "İşlemci"@, "Processor"@) + " : "@ + (if f.identifier@.len() == 0 {
                unavailable
            } else {
                f.identifier@
            }),
        ),
    ];
    let id = if f.signature@.len() == 0 {
        Seq::<LineView>::empty()
    } else {
        seq![text(LineKind::Plain, "  "@ + lang(en, "Kimlik"@, "ID"@) + "   : "@ + f.signature@)]
    };
    let mc = seq![
        text(
            LineKind::Plain,
            "  "@ + lang(en, "Mikrokod (Windows)"@, "Microcode (Windows)"@) + "  : "@ + (
            match revision_of(f.update_revision) {
                Some(v) => hex_text(v),
                None => lang(en, "bildirilmiyor"@, "not reported"@),
            }),
        ),
    ];
    let bios_label = lang(en, "Mikrokod (BIOS)"@, "Microcode (BIOS)"@);
    let bios = match revision_of(f.previous_revision) {
        Some(v) => seq![text(LineKind::Plain, "  "@ + bios_label + "     : "@ + hex_text(v))],
        None => seq![text(LineKind::Dim, "  "@ + bios_label + "     : "@ + unavailable)],
    };
    head + id + mc + bios
}

/// The line about the turbo state.
pub open spec fn turbo_line(en: bool, turbo: Option<bool>) -> LineView {
    match turbo {
        Some(true) => text(
            LineKind::Warn,
            lang(en, "  Turbo (Maksimum İşlemci): AÇIK (%100)."@, "  Turbo (Max Processor): ON (100%)."@),
        ),
        Some(false) => text(
            LineKind::Success,
            lang(
                en,
                "  Turbo (Maksimum İşlemci): kapalı (%99) - koruma aktif."@,
                "  Turbo (Max Processor): off (99%) - protection active."@,
            ),
        ),
        None => text(LineKind::Warn, lang(en, "  Turbo durumu okunamadı."@, "  Turbo status unreadable."@)),
    }
}

/// The line about the microcode age.
pub open spec fn revision_line(en: bool, eff: Option<u32>) -> LineView {
    match eff {
        Some(v) => if v >= 0x12B {
            text(
                LineKind::Success,
                lang(
                    en,
                    "  Mikrokod güncel (0x12B veya üzeri). Ek önlem gerekmiyor."@,
                    "  Microcode is current (0x12B or newer). No extra action needed."@,
                ),
            )
        } else {
            text(
                LineKind::Warn,
                lang(en, "  Mikrokod eski ("@, "  Microcode is old ("@) + hex_text(v) + lang(
                    en,
                    "). Güncel: 0x12B veya üzeri."@,
                    "). Current: 0x12B or newer."@,
                ),
            )
        },
        None => text(
            LineKind::Warn,
            lang(
                en,
                "  Mikrokod okunamadı - işlemci 13./14. nesil olduğu için riskli sayılır."@,
                "  Microcode unreadable - treated as risky since CPU is 13/14th gen."@,
            ),
        ),
    }
}

/// The explanation printed when the microcode is risky.
pub open spec fn risk_lines(en: bool) -> Seq<LineView> {
    seq![
        text(LineKind::Dim, lang(en, "  - Bu nesilde hatalı üretim voltajı nedeniyle eski mikrokodla"@, "  - On this generation, with old microcode"@)),
        text(LineKind::Dim, lang(en, "    yük altında (özellikle Hyper-V / sanal makine) mavi ekran olabilir."@, "    heavy load (especially Hyper-V / VMs) can cause blue screens."@)),
        text(LineKind::Dim, lang(en, "    Kalıcı çözüm: ana kart üreticisinden güncel BIOS (mikrokod 0x12B+)."@, "    Permanent fix: updated BIOS from the motherboard vendor (microcode 0x12B+)."@)),
    ]
}

/// The closing advice: how to turn turbo back on when it is off; how to
/// turn it off when it is on (or unknown) and the microcode is risky.
pub open spec fn advice_lines(en: bool, turbo: Option<bool>, risky: bool) -> Seq<LineView> {
    if turbo == Some(false) {
        seq![
            text(LineKind::Success, lang(en, "  Turbo kapalı (%99) - CPU taban hızında çalışıyor, oyunlar kasabilir."@, "  Turbo off (99%) - CPU runs at base clock, games may stutter."@)),
            text(LineKind::Dim, lang(en, "  - Geri açmak için: soldaki 'Güç Yönetimi' bölümü → 'Turbo Aç (%100)'."@, "  - To re-enable: left panel 'Power' section → 'Turbo On (100%)'."@)),
        ]
    } else if !risky {
        Seq::empty()
    } else {
        seq![
            text(LineKind::Warn, lang(en, "  Turbo açık + mikrokod eski. Geçici koruma için kapatman önerilir."@, "  Turbo on + old microcode. Turning it off is recommended for protection."@)),
            text(LineKind::Dim, lang(en, "  - Kapatmak için: soldaki 'Güç Yönetimi' bölümü → 'Turbo Kapat (%99)'."@, "  - To turn it off: left panel 'Power' section → 'Turbo Off (99%)'."@)),
        ]
    }
}

/// The findings: "not affected" for other CPUs; for affected ones the
/// detection, the turbo state, the microcode age, the risk explanation
/// when risky, and the advice.
pub open spec fn finding_lines(en: bool, f: CpuFacts) -> Seq<LineView> {
    if !is_affected(f) {
        seq![
            text(
                LineKind::Success,
                lang(en, "  İşlemci Intel 13./14. nesil değil - mikrokod riski yok."@, "  CPU is not Intel 13/14th gen - no microcode risk."@),
            ),
        ]
    } else {
        let eff = effective_revision(f);
        let risky = is_risky(eff);
        seq![
            text(LineKind::Warn, lang(en, "  TESPİT: Intel 13./14. nesil işlemci."@, "  DETECTED: Intel 13/14th gen CPU."@)),
            turbo_line(en, f.turbo),
            revision_line(en, eff),
        ] + (if risky {
            risk_lines(en)
        } else {
            Seq::empty()
        }) + advice_lines(en, f.turbo, risky)
    }
}

fn hex_string(v: u32) -> (s: String)
    ensures
        s@ == hex_text(v),
{
    let h = hex_upper(v as u64);
    join2("0x", h.as_str())
}

fn intro(bus: &mut Con, en: bool, f: &CpuFacts)
    ensures
        final(bus)@ == old(bus)@ + intro_lines(en, *f),
{
    let ghost start = bus@;
    bus.header(tr(en, "CPU / BIOS - MİKRO KOD KONTROLÜ", "CPU / BIOS - MICROCODE CHECK"));
    let unavailable = tr(en, "okunamadı", "unavailable");
    let shown: &str = if f.identifier.as_str().is_empty() {
        unavailable
    } else {
        f.identifier.as_str()
    };
    let l1 = join3("  ", tr(en, "İşlemci", "Processor"), " : ");
    let l1 = join2(l1.as_str(), shown);
    bus.plain(l1.as_str());
    let ghost after_head = bus@;
    if !f.signature.as_str().is_empty() {
        let l2 = join3("  ", tr(en, "Kimlik", "ID"), "   : ");
        let l2 = join2(l2.as_str(), f.signature.as_str());
        bus.plain(l2.as_str());
    }
    let ghost after_id = bus@;
    let mc = revision(f.update_revision);
    let mc_txt = match mc {
        Some(v) => hex_string(v),
        None => crate::text::owned(tr(en, "bildirilmiyor", "not reported")),
    };
    let l3 = join3("  ", tr(en, "Mikrokod (Windows)", "Microcode (Windows)"), "  : ");
    let l3 = join2(l3.as_str(), mc_txt.as_str());
    bus.plain(l3.as_str());
    let ghost after_mc = bus@;
    let bios_label = tr(en, "Mikrokod (BIOS)", "Microcode (BIOS)");
    let lb = join3("  ", bios_label, "     : ");
    match revision(f.previous_revision) {
        Some(v) => {
            let h = hex_string(v);
            let l4 = join2(lb.as_str(), h.as_str());
            bus.plain(l4.as_str());
        },
        None => {
            let l4 = join2(lb.as_str(), unavailable);
            bus.dim(l4.as_str());
        },
    }
    proof {
        let il = intro_lines(en, *f);
        assert(bus@ =~= start + il);
    }
}

fn findings(bus: &mut Con, en: bool, f: &CpuFacts)
    ensures
        final(bus)@ == old(bus)@ + finding_lines(en, *f),
{
    let ghost start = bus@;
    let intel = is_intel(f.vendor.as_str());
    let gen = is_gen13_14(f.identifier.as_str());
    if !(intel && gen) {
        bus.ok(
            tr(
                en,
                "  İşlemci Intel 13./14. nesil değil - mikrokod riski yok.",
                "  CPU is not Intel 13/14th gen - no microcode risk.",
            ),
        );
        assert(bus@ =~= start + finding_lines(en, *f));
        return;
    }
    bus.warn(tr(en, "  TESPİT: Intel 13./14. nesil işlemci.", "  DETECTED: Intel 13/14th gen CPU."));
    match f.turbo {
        Some(true) => bus.warn(
            tr(en, "  Turbo (Maksimum İşlemci): AÇIK (%100).", "  Turbo (Max Processor): ON (100%)."),
        ),
        Some(false) => bus.ok(
            tr(
                en,
                "  Turbo (Maksimum İşlemci): kapalı (%99) - koruma aktif.",
                "  Turbo (Max Processor): off (99%) - protection active.",
            ),
        ),
        None => bus.warn(tr(en, "  Turbo durumu okunamadı.", "  Turbo status unreadable.")),
    }
    let mc = revision(f.update_revision);
    let effective = match mc {
        Some(v) => Some(v),
        None => revision(f.previous_revision),
    };
    let risky = match effective {
        Some(v) => v < 0x12B,
        None => true,
    };
    match effective {
        Some(v) => {
            if v >= 0x12B {
                bus.ok(
                    tr(
                        en,
                        "  Mikrokod güncel (0x12B veya üzeri). Ek önlem gerekmiyor.",
                        "  Microcode is current (0x12B or newer). No extra action needed.",
                    ),
                );
            } else {
                let h = hex_string(v);
                let l = join3(
                    tr(en, "  Mikrokod eski (", "  Microcode is old ("),
                    h.as_str(),
                    tr(en, "). Güncel: 0x12B veya üzeri.", "). Current: 0x12B or newer."),
                );
                bus.warn(l.as_str());
            }
        },
        None => {
            bus.warn(
                tr(
                    en,
                    "  Mikrokod okunamadı - işlemci 13./14. nesil olduğu için riskli sayılır.",
                    "  Microcode unreadable - treated as risky since CPU is 13/14th gen.",
                ),
            );
        },
    }
    let ghost after_rev = bus@;
    if risky {
        bus.dim(
            tr(
                en,
                "  - Bu nesilde hatalı üretim voltajı nedeniyle eski mikrokodla",
                "  - On this generation, with old microcode",
            ),
        );
        bus.dim(
            tr(
                en,
                "    yük altında (özellikle Hyper-V / sanal makine) mavi ekran olabilir.",
                "    heavy load (especially Hyper-V / VMs) can cause blue screens.",
            ),
        );
        bus.dim(
            tr(
                en,
                "    Kalıcı çözüm: ana kart üreticisinden güncel BIOS (mikrokod 0x12B+).",
                "    Permanent fix: updated BIOS from the motherboard vendor (microcode 0x12B+).",
            ),
        );
    }
    let ghost after_risk = bus@;
    let turbo_off = match f.turbo {
        Some(false) => true,
        _ => false,
    };
    if turbo_off {
        bus.ok(
            tr(
                en,
                "  Turbo kapalı (%99) - CPU taban hızında çalışıyor, oyunlar kasabilir.",
                "  Turbo off (99%) - CPU runs at base clock, games may stutter.",
            ),
        );
        bus.dim(
            tr(
                en,
                "  - Geri açmak için: soldaki 'Güç Yönetimi' bölümü → 'Turbo Aç (%100)'.",
                "  - To re-enable: left panel 'Power' section → 'Turbo On (100%)'.",
            ),
        );
    } else if risky {
        bus.warn(
            tr(
                en,
                "  Turbo açık + mikrokod eski. Geçici koruma için kapatman önerilir.",
                "  Turbo on + old microcode. Turning it off is recommended for protection.",
            ),
        );
        bus.dim(
            tr(
                en,
                "  - Kapatmak için: soldaki 'Güç Yönetimi' bölümü → 'Turbo Kapat (%99)'.",
                "  - To turn it off: left panel 'Power' section → 'Turbo Off (99%)'.",
            ),
        );
    }
    proof {
        let eff = effective_revision(*f);
        assert(effective == eff);
        assert(risky == is_risky(eff));
        assert(after_rev =~= start + seq![
            text(LineKind::Warn, lang(en, "  TESPİT: Intel 13./14. nesil işlemci."@, "  DETECTED: Intel 13/14th gen CPU."@)),
            turbo_line(en, f.turbo),
            revision_line(en, eff),
        ]);
        assert(after_risk =~= after_rev + (if risky {
            risk_lines(en)
        } else {
            Seq::empty()
        }));
        assert(bus@ =~= after_risk + advice_lines(en, f.turbo, risky));
        assert(bus@ =~= start + finding_lines(en, *f));
    }
}

/// Writes the microcode check: the processor, its microcode revisions and,
/// for Intel 13th/14th generation CPUs, the turbo state, the findings on
/// the microcode (0x12B or newer is current) and what to do in the Power
/// section. Asks nothing and changes nothing.
pub fn microcode_status(bus: &mut Con, en: bool, f: &CpuFacts)
    ensures
        final(bus)@ == old(bus)@ + intro_lines(en, *f) + finding_lines(en, *f),
{
    intro(bus, en, f);
    findings(bus, en, f);
}

} // verus!
