//! Themes: the dark and light palettes and the user's colour overrides.
use vstd::prelude::*;

use crate::console::LineKind;
use crate::text::{
    chars_of, digit_lower, digit_value, digits_value, hex2, is_white_space, parse_u64,
    parse_unsigned, push_char, push_hex2, trim, trim_chars, trim_end, trim_start,
};

verus! {

/// A colour as the window stores it: red, green, blue and alpha, with the
/// colour already multiplied by alpha (opaque colours are unchanged).
#[derive(Clone, Copy, Debug, PartialEq, Eq, Structural)]
pub struct Rgba {
    pub r: u8,
    pub g: u8,
    pub b: u8,
    pub a: u8,
}

/// The opaque colour with these components.
pub open spec fn rgb(r: u8, g: u8, b: u8) -> Rgba {
    Rgba { r, g, b, a: 255 }
}

/// The opaque colour `0xRRGGBB`.
pub open spec fn hex_color(v: u32) -> Rgba {
    rgb(((v / 0x10000) % 0x100) as u8, ((v / 0x100) % 0x100) as u8, (v % 0x100) as u8)
}

/// The opaque colour `0xRRGGBB` (the upper byte is ignored).
pub fn hx(v: u32) -> (c: Rgba)
    ensures
        c == hex_color(v),
{
    assert((v >> 16u32) & 0xffu32 == (v / 0x10000) % 0x100) by (bit_vector);
    assert((v >> 8u32) & 0xffu32 == (v / 0x100) % 0x100) by (bit_vector);
    assert(v & 0xffu32 == v % 0x100) by (bit_vector);
    Rgba { r: ((v >> 16) & 0xff) as u8, g: ((v >> 8) & 0xff) as u8, b: (v & 0xff) as u8, a: 255 }
}

/// `egui::Color32::from_rgba_unmultiplied`: an opaque colour is kept as
/// it is, a fully transparent one becomes all zeros, and alpha is always
/// kept. The other components of a translucent colour come from a lookup
/// table egui computes at run time with floating point, which may differ
/// between machines; nothing is claimed of them.
#[verifier::external_body]
fn from_unmultiplied(r: u8, g: u8, b: u8, a: u8) -> (c: (u8, u8, u8, u8))
    ensures
        a == 255 ==> c == (r, g, b, 255u8),
        a == 0 ==> c == (0u8, 0u8, 0u8, 0u8),
        c.3 == a,
{
    let c = egui::Color32::from_rgba_unmultiplied(r, g, b, a);
    (c.r(), c.g(), c.b(), c.a())
}

/// The palette.
#[derive(Clone, Copy, Debug, PartialEq, Eq, Structural)]
pub struct Theme {
    pub bg: Rgba,
    pub panel: Rgba,
    pub card: Rgba,
    pub card_h: Rgba,
    pub accent: Rgba,
    pub accent_d: Rgba,
    pub text: Rgba,
    pub muted: Rgba,
    pub ok: Rgba,
    pub err: Rgba,
    pub warn: Rgba,
    pub outbg: Rgba,
    pub outfg: Rgba,
    pub accent_text: Rgba,
}

/// The dark palette.
pub open spec fn dark_theme() -> Theme {
    Theme {
        bg: hex_color(0x0b1119),
        panel: hex_color(0x131b29),
        card: hex_color(0x182234),
        card_h: hex_color(0x22314a),
        accent: hex_color(0x28d5e0),
        accent_d: hex_color(0x1aa8b4),
        text: hex_color(0xd7e3f0),
        muted: hex_color(0x7d8da3),
        ok: hex_color(0x3fd68f),
        err: hex_color(0xff5f6d),
        warn: hex_color(0xffc857),
        outbg: hex_color(0x0a0f17),
        outfg: hex_color(0xc9d6e5),
        accent_text: hex_color(0x06222a),
    }
}

/// The light palette.
pub open spec fn light_theme() -> Theme {
    Theme {
        bg: hex_color(0xeef2f7),
        panel: hex_color(0xdde5ef),
        card: hex_color(0xffffff),
        card_h: hex_color(0xe6edf6),
        accent: hex_color(0x0e9ab0),
        accent_d: hex_color(0x0b8296),
        text: hex_color(0x1c2b3a),
        muted: hex_color(0x5b6b7d),
        ok: hex_color(0x12805c),
        err: hex_color(0xcf2f43),
        warn: hex_color(0xb97912),
        outbg: hex_color(0xffffff),
        outfg: hex_color(0x22303f),
        accent_text: hex_color(0xffffff),
    }
}

/// The dark palette.
pub fn dark() -> (t: Theme)
    ensures
        t == dark_theme(),
{
    Theme {
        bg: hx(0x0b1119),
        panel: hx(0x131b29),
        card: hx(0x182234),
        card_h: hx(0x22314a),
        accent: hx(0x28d5e0),
        accent_d: hx(0x1aa8b4),
        text: hx(0xd7e3f0),
        muted: hx(0x7d8da3),
        ok: hx(0x3fd68f),
        err: hx(0xff5f6d),
        warn: hx(0xffc857),
        outbg: hx(0x0a0f17),
        outfg: hx(0xc9d6e5),
        accent_text: hx(0x06222a),
    }
}

/// The light palette.
pub fn light() -> (t: Theme)
    ensures
        t == light_theme(),
{
    Theme {
        bg: hx(0xeef2f7),
        panel: hx(0xdde5ef),
        card: hx(0xffffff),
        card_h: hx(0xe6edf6),
        accent: hx(0x0e9ab0),
        accent_d: hx(0x0b8296),
        text: hx(0x1c2b3a),
        muted: hx(0x5b6b7d),
        ok: hx(0x12805c),
        err: hx(0xcf2f43),
        warn: hx(0xb97912),
        outbg: hx(0xffffff),
        outfg: hx(0x22303f),
        accent_text: hx(0xffffff),
    }
}

/// The roles the user can recolour: key, Turkish label, English label.
pub const ROLES: [(&'static str, &'static str, &'static str); 11] = [
    ("accent", "Vurgu rengi", "Accent color"),
    ("bg", "Arka plan", "Background"),
    ("panel", "Kenar panel", "Side panel"),
    ("card", "Kartlar", "Cards"),
    ("text", "Metin", "Text"),
    ("muted", "Soluk metin", "Muted text"),
    ("ok", "Başarı / yeşil", "Success / green"),
    ("err", "Hata / kırmızı", "Error / red"),
    ("warn", "Uyarı / sarı", "Warning / yellow"),
    ("outbg", "Konsol arka planı", "Console background"),
    ("outfg", "Konsol metni", "Console text"),
];

// ---------------------------------------------------------------------------
// parsing and printing colours
// ---------------------------------------------------------------------------

/// `s` without its leading `#` characters.
pub open spec fn strip_hashes(s: Seq<char>) -> Seq<char>
    decreases s.len(),
{
    if s.len() > 0 && s[0] == '#' {
        strip_hashes(s.drop_first())
    } else {
        s
    }
}

/// What a colour written in hexadecimal holds: `#RRGGBB` gives an opaque
/// colour, `#RRGGBBAA` red, green, blue and alpha before they are
/// multiplied by alpha.
pub ghost enum HexColor {
    Opaque(u32),
    Translucent(u8, u8, u8, u8),
}

/// The colour written as `#RRGGBB` or `#RRGGBBAA` (white space around and
/// any number of leading `#` allowed; the digits as `u32::from_str_radix`
/// takes them in base 16); `None` for anything else.
pub open spec fn hex_parts(s: Seq<char>) -> Option<HexColor> {
    let t = strip_hashes(trim(s));
    if t.len() == 6 {
        match parse_unsigned(t, 16, u32::MAX as nat) {
            Some(v) => Some(HexColor::Opaque(v as u32)),
            None => None,
        }
    } else if t.len() == 8 {
        match parse_unsigned(t, 16, u32::MAX as nat) {
            Some(v) => {
                let w = v as u32;
                Some(
                    HexColor::Translucent(
                        ((w / 0x1000000) % 0x100) as u8,
                        ((w / 0x10000) % 0x100) as u8,
                        ((w / 0x100) % 0x100) as u8,
                        (w % 0x100) as u8,
                    ),
                )
            },
            None => None,
        }
    } else {
        None
    }
}

/// `c` is a colour the window may store for the unmultiplied components
/// `r`, `g`, `b`, `a`: alpha kept, an opaque colour unchanged, a fully
/// transparent one all zeros.
pub open spec fn premultiplied_from(c: Rgba, r: u8, g: u8, b: u8, a: u8) -> bool {
    &&& c.a == a
    &&& a == 255 ==> c == rgb(r, g, b)
    &&& a == 0 ==> c == Rgba { r: 0, g: 0, b: 0, a: 0 }
}

/// `c` is the colour the text `s` gives (see `hex_parts`).
pub open spec fn hex_gives(s: Seq<char>, c: Rgba) -> bool {
    match hex_parts(s) {
        Some(HexColor::Opaque(v)) => c == hex_color(v),
        Some(HexColor::Translucent(r, g, b, a)) => premultiplied_from(c, r, g, b, a),
        None => false,
    }
}

/// Parses a colour written in hexadecimal (see `hex_parts`, `hex_gives`).
pub fn parse_hex(s: &str) -> (r: Option<Rgba>)
    ensures
        r is None <==> hex_parts(s@) is None,
        r matches Some(c) ==> hex_gives(s@, c),
{
    let c = chars_of(s);
    let t = trim_chars(&c);
    let mut i: usize = 0;
    assert(t@.subrange(0, t.len() as int) =~= t@);
    while i < t.len() && t[i] == '#'
        invariant
            i <= t.len(),
            strip_hashes(t@) == strip_hashes(t@.subrange(i as int, t.len() as int)),
        decreases t.len() - i,
    {
        proof {
            let u = t@.subrange(i as int, t.len() as int);
            assert(u.drop_first() =~= t@.subrange(i + 1, t.len() as int));
        }
        i = i + 1;
    }
    let mut d: Vec<char> = Vec::new();
    let mut k = i;
    while k < t.len()
        invariant
            i <= k <= t.len(),
            d@ == t@.subrange(i as int, k as int),
        decreases t.len() - k,
    {
        d.push(t[k]);
        k = k + 1;
    }
    proof {
        assert(t@.subrange(0, t.len() as int) =~= t@);
        if i < t.len() {
            assert(d@[0] == t@[i as int]);
        }
        assert(strip_hashes(d@) == d@);
    }
    if d.len() == 6 {
        match parse_u64(&d, 16) {
            Some(v) => {
                if v > 0xffff_ffff {
                    return None;
                }
                Some(hx(v as u32))
            },
            None => None,
        }
    } else if d.len() == 8 {
        match parse_u64(&d, 16) {
            Some(v) => {
                if v > 0xffff_ffff {
                    return None;
                }
                let w = v as u32;
                assert((w >> 24u32) & 0xffu32 == (w / 0x1000000) % 0x100) by (bit_vector);
                assert((w >> 16u32) & 0xffu32 == (w / 0x10000) % 0x100) by (bit_vector);
                assert((w >> 8u32) & 0xffu32 == (w / 0x100) % 0x100) by (bit_vector);
                assert(w & 0xffu32 == w % 0x100) by (bit_vector);
                let p = from_unmultiplied(
                    ((w >> 24) & 0xff) as u8,
                    ((w >> 16) & 0xff) as u8,
                    ((w >> 8) & 0xff) as u8,
                    (w & 0xff) as u8,
                );
                Some(Rgba { r: p.0, g: p.1, b: p.2, a: p.3 })
            },
            None => None,
        }
    } else {
        None
    }
}

/// `#rrggbb` in lower-case hexadecimal (alpha is left out).
pub open spec fn hex_text(c: Rgba) -> Seq<char> {
    seq!['#'] + hex2(c.r) + hex2(c.g) + hex2(c.b)
}

// ---------------------------------------------------------------------------
// roles
// ---------------------------------------------------------------------------

/// The colour of role `key`; an unknown key gives the accent colour.
pub open spec fn role_of(t: Theme, key: Seq<char>) -> Rgba {
    if key == "accent"@ {
        t.accent
    } else if key == "bg"@ {
        t.bg
    } else if key == "panel"@ {
        t.panel
    } else if key == "card"@ {
        t.card
    } else if key == "text"@ {
        t.text
    } else if key == "muted"@ {
        t.muted
    } else if key == "ok"@ {
        t.ok
    } else if key == "err"@ {
        t.err
    } else if key == "warn"@ {
        t.warn
    } else if key == "outbg"@ {
        t.outbg
    } else if key == "outfg"@ {
        t.outfg
    } else {
        t.accent
    }
}

/// The palette with role `key` recoloured to `c`; an unknown key changes
/// nothing.
pub open spec fn with_role(t: Theme, key: Seq<char>, c: Rgba) -> Theme {
    if key == "accent"@ {
        Theme { accent: c, ..t }
    } else if key == "bg"@ {
        Theme { bg: c, ..t }
    } else if key == "panel"@ {
        Theme { panel: c, ..t }
    } else if key == "card"@ {
        Theme { card: c, ..t }
    } else if key == "text"@ {
        Theme { text: c, ..t }
    } else if key == "muted"@ {
        Theme { muted: c, ..t }
    } else if key == "ok"@ {
        Theme { ok: c, ..t }
    } else if key == "err"@ {
        Theme { err: c, ..t }
    } else if key == "warn"@ {
        Theme { warn: c, ..t }
    } else if key == "outbg"@ {
        Theme { outbg: c, ..t }
    } else if key == "outfg"@ {
        Theme { outfg: c, ..t }
    } else {
        t
    }
}

/// Whether two texts are equal.
pub fn same_text(a: &str, b: &str) -> (r: bool)
    ensures
        r == (a@ == b@),
{
    let x = chars_of(a);
    let y = chars_of(b);
    if x.len() != y.len() {
        return false;
    }
    let mut i: usize = 0;
    while i < x.len()
        invariant
            i <= x.len(),
            x.len() == y.len(),
            x@ == a@,
            y@ == b@,
            forall|k: int| 0 <= k < i ==> x@[k] == y@[k],
        decreases x.len() - i,
    {
        if x[i] != y[i] {
            assert(x@[i as int] != y@[i as int]);
            return false;
        }
        i = i + 1;
    }
    assert(x@ =~= y@);
    true
}

/// The palette an override list starts from: the light one for "light",
/// the dark one for anything else.
pub open spec fn base_theme(mode: Seq<char>) -> Theme {
    if mode == "light"@ {
        light_theme()
    } else {
        dark_theme()
    }
}

/// `t` is the palette built for `mode` with the overrides `ov`, applied in
/// order: the base palette, then for each pair whose value is a colour
/// (see `hex_gives`) its role recoloured; a value that is not a colour is
/// skipped.
pub open spec fn built_as(mode: Seq<char>, ov: Seq<(Seq<char>, Seq<char>)>, t: Theme) -> bool
    decreases ov.len(),
{
    if ov.len() == 0 {
        t == base_theme(mode)
    } else {
        let (k, v) = ov.last();
        if hex_parts(v) is Some {
            exists|t0: Theme, c: Rgba|
                #![trigger with_role(t0, k, c)]
                built_as(mode, ov.drop_last(), t0) && hex_gives(v, c) && t == with_role(t0, k, c)
        } else {
            built_as(mode, ov.drop_last(), t)
        }
    }
}

/// The views of some key/value pairs.
pub open spec fn pairs_view(v: Seq<(String, String)>) -> Seq<(Seq<char>, Seq<char>)> {
    v.map_values(|p: (String, String)| (p.0@, p.1@))
}

impl Theme {
    /// The colour of role `key` (see `role_of`).
    pub fn role(&self, key: &str) -> (c: Rgba)
        ensures
            c == role_of(*self, key@),
    {
        if same_text(key, "accent") {
            self.accent
        } else if same_text(key, "bg") {
            self.bg
        } else if same_text(key, "panel") {
            self.panel
        } else if same_text(key, "card") {
            self.card
        } else if same_text(key, "text") {
            self.text
        } else if same_text(key, "muted") {
            self.muted
        } else if same_text(key, "ok") {
            self.ok
        } else if same_text(key, "err") {
            self.err
        } else if same_text(key, "warn") {
            self.warn
        } else if same_text(key, "outbg") {
            self.outbg
        } else if same_text(key, "outfg") {
            self.outfg
        } else {
            self.accent
        }
    }

    /// Recolours role `key` (see `with_role`).
    pub fn set_role(&mut self, key: &str, c: Rgba)
        ensures
            *final(self) == with_role(*old(self), key@, c),
    {
        if same_text(key, "accent") {
            self.accent = c;
        } else if same_text(key, "bg") {
            self.bg = c;
        } else if same_text(key, "panel") {
            self.panel = c;
        } else if same_text(key, "card") {
            self.card = c;
        } else if same_text(key, "text") {
            self.text = c;
        } else if same_text(key, "muted") {
            self.muted = c;
        } else if same_text(key, "ok") {
            self.ok = c;
        } else if same_text(key, "err") {
            self.err = c;
        } else if same_text(key, "warn") {
            self.warn = c;
        } else if same_text(key, "outbg") {
            self.outbg = c;
        } else if same_text(key, "outfg") {
            self.outfg = c;
        }
    }

    /// `#rrggbb` for a colour (see `hex_text`).
    pub fn to_hex(c: Rgba) -> (s: String)
        ensures
            s@ == hex_text(c),
    {
        let mut s = String::new();
        push_char(&mut s, '#');
        push_hex2(&mut s, c.r);
        push_hex2(&mut s, c.g);
        push_hex2(&mut s, c.b);
        assert(s@ =~= hex_text(c));
        s
    }

    /// The palette for `mode` with the user's overrides (see `built_as`).
    pub fn build(mode: &str, overrides: &Vec<(String, String)>) -> (t: Theme)
        ensures
            built_as(mode@, pairs_view(overrides@), t),
    {
        let mut t = if same_text(mode, "light") {
            light()
        } else {
            dark()
        };
        let ghost pv = pairs_view(overrides@);
        let mut i: usize = 0;
        assert(pv.take(0) =~= Seq::<(Seq<char>, Seq<char>)>::empty());
        while i < overrides.len()
            invariant
                i <= overrides.len(),
                pv == pairs_view(overrides@),
                built_as(mode@, pv.take(i as int), t),
            decreases overrides.len() - i,
        {
            let ghost p = pv.take(i + 1);
            let ghost t0 = t;
            proof {
                assert(p.drop_last() =~= pv.take(i as int));
                assert(p.last() == (overrides@[i as int].0@, overrides@[i as int].1@));
            }
            let (k, v) = &overrides[i];
            match parse_hex(v.as_str()) {
                Some(c) => {
                    t.set_role(k.as_str(), c);
                    proof {
                        assert(built_as(mode@, p.drop_last(), t0) && hex_gives(v@, c) && t
                            == with_role(t0, k@, c));
                        assert(p.last().0 == k@ && p.last().1 == v@);
                        assert(hex_parts(p.last().1) is Some);
                        assert(built_as(mode@, p, t));
                    }
                },
                None => {
                    assert(built_as(mode@, p, t));
                },
            }
            i = i + 1;
        }
        assert(pv.take(overrides.len() as int) =~= pv);
        t
    }
}

/// A lower-case hexadecimal digit reads back as its value.
proof fn lemma_digit_lower(d: nat)
    requires
        d < 16,
    ensures
        digit_value(digit_lower(d), 16) == Some(d),
        digit_lower(d) != '#',
        digit_lower(d) != '+',
        !is_white_space(digit_lower(d)),
{
}

/// Two more hexadecimal digits multiply the value by 256 and add the byte.
proof fn lemma_digits_push2(a: Seq<char>, b: u8)
    requires
        digits_value(a, 16) is Some,
    ensures
        digits_value(a + hex2(b), 16) == Some(digits_value(a, 16)->0 * 256 + b as nat),
{
    let hi = (b / 16) as nat;
    let lo = (b % 16) as nat;
    lemma_digit_lower(hi);
    lemma_digit_lower(lo);
    let s = a + hex2(b);
    let m = a.push(digit_lower(hi));
    assert(s.drop_last() =~= m);
    assert(s.last() == digit_lower(lo));
    assert(m.drop_last() =~= a);
    assert(m.last() == digit_lower(hi));
    let v = digits_value(a, 16)->0;
    assert(digits_value(m, 16) == Some(v * 16 + hi));
    assert(digits_value(s, 16) == Some((v * 16 + hi) * 16 + lo));
    assert((v * 16 + hi) * 16 + lo == v * 256 + b as nat) by (nonlinear_arith)
        requires
            hi == (b / 16) as nat,
            lo == (b % 16) as nat,
    ;
}

/// The digits `to_hex` writes: a `#`, then six hexadecimal digits that
/// trimming and the removal of `#` leave as they are.
proof fn lemma_hex_shape(c: Rgba)
    ensures
        strip_hashes(trim(hex_text(c))) == hex2(c.r) + hex2(c.g) + hex2(c.b),
        (hex2(c.r) + hex2(c.g) + hex2(c.b)).len() == 6,
        (hex2(c.r) + hex2(c.g) + hex2(c.b))[0] != '+',
{
    let s = hex_text(c);
    let h = hex2(c.r) + hex2(c.g) + hex2(c.b);
    lemma_digit_lower((c.r / 16) as nat);
    lemma_digit_lower((c.b % 16) as nat);
    assert(s =~= seq!['#'] + h);
    assert(h[0] == digit_lower((c.r / 16) as nat));
    assert(h[5] == digit_lower((c.b % 16) as nat));
    assert(trim_start(s) == s);
    assert(trim_end(s) == s);
    assert(s.drop_first() =~= h);
    assert(strip_hashes(h) == h);
}

/// The value of the six digits.
proof fn lemma_hex_value(c: Rgba)
    ensures
        digits_value(hex2(c.r) + hex2(c.g) + hex2(c.b), 16) == Some(
            (c.r as nat * 256 + c.g as nat) * 256 + c.b as nat,
        ),
{
    let e = Seq::<char>::empty();
    assert(e + hex2(c.r) =~= hex2(c.r));
    lemma_digits_push2(e, c.r);
    lemma_digits_push2(hex2(c.r), c.g);
    lemma_digits_push2(hex2(c.r) + hex2(c.g), c.b);
}

/// The bytes of a 24-bit value come back out.
proof fn lemma_rgb_bytes(r: u8, g: u8, b: u8, v: nat)
    requires
        v == (r as nat * 256 + g as nat) * 256 + b as nat,
    ensures
        v <= u32::MAX,
        hex_color(v as u32) == rgb(r, g, b),
{
    assert(v <= 0xff_ffff && ((v as u32) / 0x10000) % 0x100 == r && ((v as u32) / 0x100) % 0x100
        == g && (v as u32) % 0x100 == b) by (nonlinear_arith)
        requires
            v == (r as nat * 256 + g as nat) * 256 + b as nat,
            r < 256,
            g < 256,
            b < 256,
    ;
}

/// The colour written by `to_hex` parses back to the same colour, made
/// opaque: a colour saved as an override is the colour the palette gets.
pub proof fn lemma_hex_roundtrip(c: Rgba)
    ensures
        hex_parts(hex_text(c)) matches Some(HexColor::Opaque(v)) && hex_color(v) == rgb(c.r, c.g, c.b),
        forall|x: Rgba| hex_gives(hex_text(c), x) <==> x == rgb(c.r, c.g, c.b),
{
    let h = hex2(c.r) + hex2(c.g) + hex2(c.b);
    let v: nat = (c.r as nat * 256 + c.g as nat) * 256 + c.b as nat;
    lemma_hex_shape(c);
    lemma_hex_value(c);
    lemma_rgb_bytes(c.r, c.g, c.b, v);
    assert(parse_unsigned(h, 16, u32::MAX as nat) == Some(v));
}

// ---------------------------------------------------------------------------
// editing overrides
// ---------------------------------------------------------------------------

/// A key the palette has a role for.
pub open spec fn is_role(key: Seq<char>) -> bool {
    ||| key == "accent"@
    ||| key == "bg"@
    ||| key == "panel"@
    ||| key == "card"@
    ||| key == "text"@
    ||| key == "muted"@
    ||| key == "ok"@
    ||| key == "err"@
    ||| key == "warn"@
    ||| key == "outbg"@
    ||| key == "outfg"@
}

/// The value stored for `key` (the last entry for it, which is the one
/// applied last).
pub open spec fn value_of(s: Seq<(Seq<char>, Seq<char>)>, key: Seq<char>) -> Option<Seq<char>>
    decreases s.len(),
{
    if s.len() == 0 {
        None
    } else if s.last().0 == key {
        Some(s.last().1)
    } else {
        value_of(s.drop_last(), key)
    }
}

/// The pairs without those of `key`, in order.
pub open spec fn drop_key(s: Seq<(Seq<char>, Seq<char>)>, key: Seq<char>) -> Seq<
    (Seq<char>, Seq<char>),
>
    decreases s.len(),
{
    if s.len() == 0 {
        s
    } else if s.last().0 == key {
        drop_key(s.drop_last(), key)
    } else {
        drop_key(s.drop_last(), key).push(s.last())
    }
}

/// Dropping `key` leaves the values of the other keys.
pub proof fn lemma_drop_key_value(s: Seq<(Seq<char>, Seq<char>)>, key: Seq<char>, other: Seq<char>)
    requires
        other != key,
    ensures
        value_of(drop_key(s, key), other) == value_of(s, other),
        value_of(drop_key(s, key), key) is None,
    decreases s.len(),
{
    if s.len() > 0 {
        lemma_drop_key_value(s.drop_last(), key, other);
        if s.last().0 != key {
            assert(drop_key(s, key).drop_last() =~= drop_key(s.drop_last(), key));
        }
    }
}

/// Sets the value of `key` among `pairs`, as a map insert does: the old
/// entries of `key` go and `(key, value)` comes last. Returns whether the
/// value of `key` changed.
pub fn put_pair(pairs: &mut Vec<(String, String)>, key: &str, value: String) -> (changed: bool)
    ensures
        pairs_view(final(pairs)@) == drop_key(pairs_view(old(pairs)@), key@).push((key@, value@)),
        changed == (value_of(pairs_view(old(pairs)@), key@) != Some(value@)),
{
    let ghost old_v = pairs_view(pairs@);
    let mut prev: Option<&String> = None;
    let mut kept: Vec<(String, String)> = Vec::new();
    let mut i: usize = 0;
    assert(old_v.take(0) =~= Seq::<(Seq<char>, Seq<char>)>::empty());
    while i < pairs.len()
        invariant
            i <= pairs.len(),
            old_v == pairs_view(pairs@),
            pairs_view(kept@) == drop_key(old_v.take(i as int), key@),
            match prev {
                Some(p) => value_of(old_v.take(i as int), key@) == Some(p@),
                None => value_of(old_v.take(i as int), key@) is None,
            },
        decreases pairs.len() - i,
    {
        let ghost t = old_v.take(i + 1);
        assert(t.drop_last() =~= old_v.take(i as int));
        assert(t.last() == (pairs@[i as int].0@, pairs@[i as int].1@));
        if same_text(pairs[i].0.as_str(), key) {
            prev = Some(&pairs[i].1);
        } else {
            let ghost before = kept@;
            kept.push((pairs[i].0.clone(), pairs[i].1.clone()));
            assert(pairs_view(kept@) =~= pairs_view(before).push(t.last()));
        }
        i = i + 1;
    }
    assert(old_v.take(pairs.len() as int) =~= old_v);
    let changed = match prev {
        Some(p) => !same_text(p.as_str(), value.as_str()),
        None => true,
    };
    let ghost before = kept@;
    kept.push((crate::text::owned(key), value));
    assert(pairs_view(kept@) =~= pairs_view(before).push((key@, value@)));
    *pairs = kept;
    changed
}

/// Recolouring a role: once the colour `c` is stored for role `key` (as
/// `put_pair` stores `to_hex(c)`), the palette built from the overrides
/// shows `c`, made opaque, for that role.
pub proof fn lemma_override_shows(
    mode: Seq<char>,
    pairs: Seq<(Seq<char>, Seq<char>)>,
    key: Seq<char>,
    c: Rgba,
    t: Theme,
)
    requires
        is_role(key),
        built_as(mode, drop_key(pairs, key).push((key, hex_text(c))), t),
    ensures
        role_of(t, key) == rgb(c.r, c.g, c.b),
{
    let s = drop_key(pairs, key).push((key, hex_text(c)));
    lemma_hex_roundtrip(c);
    assert(s.last() == (key, hex_text(c)));
    let (t0, x) = choose|t0: Theme, x: Rgba|
        #![trigger with_role(t0, key, x)]
        built_as(mode, s.drop_last(), t0) && hex_gives(hex_text(c), x) && t == with_role(t0, key, x);
    assert(x == rgb(c.r, c.g, c.b));
}

/// The palette the colour editor starts from: the dark one in dark mode,
/// the light one otherwise.
pub fn editor_base(mode: &str) -> (t: Theme)
    ensures
        t == (if mode@ == "dark"@ {
            dark_theme()
        } else {
            light_theme()
        }),
{
    if same_text(mode, "dark") {
        dark()
    } else {
        light()
    }
}

/// The colour the editor shows for role `key`: the stored override when it
/// parses as a colour, else the role's colour in `base`.
pub fn editor_color(pairs: &Vec<(String, String)>, key: &str, base: &Theme) -> (c: Rgba)
    ensures
        match value_of(pairs_view(pairs@), key@) {
            Some(v) => if hex_parts(v) is Some {
                hex_gives(v, c)
            } else {
                c == role_of(*base, key@)
            },
            None => c == role_of(*base, key@),
        },
{
    let ghost pv = pairs_view(pairs@);
    let mut i: usize = pairs.len();
    assert(pv.take(pairs.len() as int) =~= pv);
    while i > 0
        invariant
            i <= pairs.len(),
            pv == pairs_view(pairs@),
            value_of(pv, key@) == value_of(pv.take(i as int), key@),
        decreases i,
    {
        let ghost t = pv.take(i as int);
        assert(t.drop_last() =~= pv.take(i - 1));
        assert(t.last() == (pairs@[i - 1].0@, pairs@[i - 1].1@));
        if same_text(pairs[i - 1].0.as_str(), key) {
            return match parse_hex(pairs[i - 1].1.as_str()) {
                Some(x) => x,
                None => base.role(key),
            };
        }
        i = i - 1;
    }
    base.role(key)
}

/// The colour a console line is drawn in: success, failure and warning
/// lines in their colours, information and rules in the accent colour,
/// muted lines and progress in the muted colour, plain lines in the text
/// colour.
pub open spec fn line_color_of(t: Theme, k: LineKind) -> Rgba {
    match k {
        LineKind::Success => t.ok,
        LineKind::Failure => t.err,
        LineKind::Warn => t.warn,
        LineKind::Info => t.accent,
        LineKind::Dim => t.muted,
        LineKind::Big => t.accent,
        LineKind::Plain => t.text,
        LineKind::Progress => t.muted,
    }
}

/// The colour of a console line (see `line_color_of`); rules (`Big`) are
/// also drawn bold.
pub fn line_color(t: &Theme, k: LineKind) -> (c: Rgba)
    ensures
        c == line_color_of(*t, k),
{
    match k {
        LineKind::Success => t.ok,
        LineKind::Failure => t.err,
        LineKind::Warn => t.warn,
        LineKind::Info => t.accent,
        LineKind::Dim => t.muted,
        LineKind::Big => t.accent,
        LineKind::Plain => t.text,
        LineKind::Progress => t.muted,
    }
}

} // verus!
