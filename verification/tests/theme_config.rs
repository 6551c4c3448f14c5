use sistem_bakim_araci::config::{default_lang, default_mode, Config};
use sistem_bakim_araci::theme::{
    dark, editor_base, editor_color, hx, light, parse_hex, put_pair, Rgba, Theme, ROLES,
};

fn rgb(r: u8, g: u8, b: u8) -> Rgba {
    Rgba { r, g, b, a: 255 }
}

fn pairs(v: &[(&str, &str)]) -> Vec<(String, String)> {
    v.iter().map(|(a, b)| (a.to_string(), b.to_string())).collect()
}

#[test]
fn hex_colours_parse() {
    assert_eq!(parse_hex("#ff0000"), Some(rgb(255, 0, 0)));
    assert_eq!(parse_hex("  ##0A0b0C \n"), Some(rgb(10, 11, 12)));
    assert_eq!(parse_hex("123456"), Some(rgb(0x12, 0x34, 0x56)));
    assert_eq!(parse_hex("#12345"), None);
    assert_eq!(parse_hex("#1234567"), None);
    assert_eq!(parse_hex("#12345g"), None);
    assert_eq!(parse_hex(""), None);
    assert_eq!(parse_hex("#+12345"), Some(rgb(0x01, 0x23, 0x45)));
}

#[test]
fn hex_colours_with_alpha_are_premultiplied() {
    assert_eq!(parse_hex("#102030ff"), Some(rgb(0x10, 0x20, 0x30)));
    assert_eq!(parse_hex("#10203000"), Some(Rgba { r: 0, g: 0, b: 0, a: 0 }));
    let c = parse_hex("#ff000080").unwrap();
    assert_eq!(c.a, 0x80);
    assert!(c.r > 0 && c.r < 255);
    assert_eq!((c.g, c.b), (0, 0));
}

#[test]
fn to_hex_writes_lower_case_without_alpha() {
    assert_eq!(Theme::to_hex(Rgba { r: 0xAB, g: 0x01, b: 0xff, a: 7 }), "#ab01ff");
    let c = Rgba { r: 1, g: 200, b: 99, a: 10 };
    assert_eq!(parse_hex(&Theme::to_hex(c)), Some(rgb(1, 200, 99)));
}

#[test]
fn palettes() {
    assert_eq!(hx(0x0b1119), rgb(0x0b, 0x11, 0x19));
    assert_eq!(hx(0xff123456), rgb(0x12, 0x34, 0x56));
    let d = dark();
    assert_eq!(d.bg, rgb(0x0b, 0x11, 0x19));
    assert_eq!(d.accent, rgb(0x28, 0xd5, 0xe0));
    let l = light();
    assert_eq!(l.bg, rgb(0xee, 0xf2, 0xf7));
    assert_eq!(l.accent_text, rgb(0xff, 0xff, 0xff));
    assert_eq!(ROLES.len(), 11);
}

#[test]
fn roles_read_and_write() {
    let mut t = dark();
    assert_eq!(t.role("ok"), rgb(0x3f, 0xd6, 0x8f));
    assert_eq!(t.role("nonsense"), t.accent);
    t.set_role("warn", rgb(1, 2, 3));
    assert_eq!(t.role("warn"), rgb(1, 2, 3));
    assert_eq!(t.role("err"), dark().err);
    let before = t;
    t.set_role("card_h", rgb(9, 9, 9));
    assert_eq!(t, before);
}

#[test]
fn build_applies_overrides() {
    let t = Theme::build("light", &pairs(&[("bg", "#000001"), ("text", "nope"), ("zzz", "#ffffff")]));
    assert_eq!(t.bg, rgb(0, 0, 1));
    assert_eq!(t.text, light().text);
    let t = Theme::build("other", &Vec::new());
    assert_eq!(t, dark());
    let t = Theme::build("dark", &pairs(&[("outfg", "#010203"), ("outfg", "#040506")]));
    assert_eq!(t.outfg, rgb(4, 5, 6));
}

#[test]
fn putting_a_colour_replaces_the_old_one() {
    let mut p = pairs(&[("bg", "#111111"), ("text", "#222222"), ("bg", "#333333")]);
    let changed = put_pair(&mut p, "bg", "#444444".to_string());
    assert!(changed);
    assert_eq!(p, pairs(&[("text", "#222222"), ("bg", "#444444")]));
    let changed = put_pair(&mut p, "bg", "#444444".to_string());
    assert!(!changed);
    let changed = put_pair(&mut p, "accent", Theme::to_hex(rgb(5, 6, 7)));
    assert!(changed);
    let t = Theme::build("dark", &p);
    assert_eq!(t.role("accent"), rgb(5, 6, 7));
    assert_eq!(t.role("bg"), rgb(0x44, 0x44, 0x44));
}

#[test]
fn editor_shows_override_or_base() {
    let base = editor_base("dark");
    assert_eq!(base, dark());
    assert_eq!(editor_base("light"), light());
    assert_eq!(editor_base("whatever"), light());
    let p = pairs(&[("muted", "#010101"), ("ok", "bad")]);
    assert_eq!(editor_color(&p, "muted", &base), rgb(1, 1, 1));
    assert_eq!(editor_color(&p, "ok", &base), dark().ok);
    assert_eq!(editor_color(&p, "warn", &base), dark().warn);
}

#[test]
fn config_defaults_and_normalize() {
    assert_eq!(default_mode(), "dark");
    assert_eq!(default_lang(), "tr");
    let mut c = Config::empty();
    assert_eq!(c.mode, "");
    assert!(c.overrides.is_empty());
    c.normalize();
    assert_eq!((c.mode.as_str(), c.lang.as_str()), ("dark", "tr"));
    c.mode = "light".to_string();
    c.lang = "en".to_string();
    c.normalize();
    assert_eq!((c.mode.as_str(), c.lang.as_str()), ("light", "en"));
    c.mode = "Light".to_string();
    c.lang = "de".to_string();
    c.normalize();
    assert_eq!((c.mode.as_str(), c.lang.as_str()), ("dark", "tr"));
    c.normalize();
    assert_eq!((c.mode.as_str(), c.lang.as_str()), ("dark", "tr"));
}

#[test]
fn config_overrides_per_mode() {
    let mut c = Config::empty();
    assert!(c.overrides_of("dark").is_empty());
    c.set_overrides("dark", pairs(&[("bg", "#010203")]));
    c.set_overrides("light", pairs(&[("text", "#000000")]));
    assert_eq!(c.overrides_of("dark"), pairs(&[("bg", "#010203")]));
    c.set_overrides("dark", pairs(&[("accent", "#ffffff")]));
    assert_eq!(c.overrides_of("dark"), pairs(&[("accent", "#ffffff")]));
    assert_eq!(c.overrides_of("light"), pairs(&[("text", "#000000")]));
    assert_eq!(c.overrides.len(), 2);
    c.remove_overrides("dark");
    assert!(c.overrides_of("dark").is_empty());
    assert_eq!(c.overrides_of("light"), pairs(&[("text", "#000000")]));
    c.remove_overrides("dark");
    assert_eq!(c.overrides.len(), 1);
}
