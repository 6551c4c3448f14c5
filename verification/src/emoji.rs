//! The colour emoji drawn on the sidebar and cards: which pictures exist,
//! their texture names and files, and the decoding of their PNG data.
use vstd::prelude::*;

verus! {

/// A picture of the interface.
#[derive(Clone, Copy, Debug, PartialEq, Eq, Structural, Hash)]
pub enum Emoji {
    Home,
    Broom,
    Sponge,
    Shield,
    Disk,
    Optical,
    Info,
    Trash,
    Recycle,
    Refresh,
    Chart,
    Inbox,
    Moon,
    Palette,
    Clipboard,
    Pill,
    Stethoscope,
    Wrench,
    Sun,
    Magnifier,
    Bolt,
    Computer,
    Rocket,
    FlagTr,
    FlagUs,
    Laptop,
    Controls,
    Battery,
    Scale,
}

/// Every picture, in the order they are loaded.
pub open spec fn all_view() -> Seq<Emoji> {
    seq![
        Emoji::Home,
        Emoji::Broom,
        Emoji::Sponge,
        Emoji::Shield,
        Emoji::Disk,
        Emoji::Optical,
        Emoji::Info,
        Emoji::Trash,
        Emoji::Recycle,
        Emoji::Refresh,
        Emoji::Chart,
        Emoji::Inbox,
        Emoji::Moon,
        Emoji::Palette,
        Emoji::Clipboard,
        Emoji::Pill,
        Emoji::Stethoscope,
        Emoji::Wrench,
        Emoji::Sun,
        Emoji::Magnifier,
        Emoji::Bolt,
        Emoji::Computer,
        Emoji::Rocket,
        Emoji::FlagTr,
        Emoji::FlagUs,
        Emoji::Laptop,
        Emoji::Controls,
        Emoji::Battery,
        Emoji::Scale,
    ]
}

/// Every picture (see `all_view`).
pub fn all_emojis() -> (v: Vec<Emoji>)
    ensures
        v@ == all_view(),
{
    let v = vec![
        Emoji::Home,
        Emoji::Broom,
        Emoji::Sponge,
        Emoji::Shield,
        Emoji::Disk,
        Emoji::Optical,
        Emoji::Info,
        Emoji::Trash,
        Emoji::Recycle,
        Emoji::Refresh,
        Emoji::Chart,
        Emoji::Inbox,
        Emoji::Moon,
        Emoji::Palette,
        Emoji::Clipboard,
        Emoji::Pill,
        Emoji::Stethoscope,
        Emoji::Wrench,
        Emoji::Sun,
        Emoji::Magnifier,
        Emoji::Bolt,
        Emoji::Computer,
        Emoji::Rocket,
        Emoji::FlagTr,
        Emoji::FlagUs,
        Emoji::Laptop,
        Emoji::Controls,
        Emoji::Battery,
        Emoji::Scale,
    ];
    assert(v@ =~= all_view());
    v
}

/// The texture name of a picture.
pub open spec fn label_of(e: Emoji) -> Seq<char> {
    match e {
        Emoji::Home => "emoji_home"@,
        Emoji::Broom => "emoji_broom"@,
        Emoji::Sponge => "emoji_sponge"@,
        Emoji::Shield => "emoji_shield"@,
        Emoji::Disk => "emoji_disk"@,
        Emoji::Optical => "emoji_optical"@,
        Emoji::Info => "emoji_info"@,
        Emoji::Trash => "emoji_trash"@,
        Emoji::Recycle => "emoji_recycle"@,
        Emoji::Refresh => "emoji_refresh"@,
        Emoji::Chart => "emoji_chart"@,
        Emoji::Inbox => "emoji_inbox"@,
        Emoji::Moon => "emoji_moon"@,
        Emoji::Palette => "emoji_palette"@,
        Emoji::Clipboard => "emoji_clipboard"@,
        Emoji::Pill => "emoji_pill"@,
        Emoji::Stethoscope => "emoji_stethoscope"@,
        Emoji::Wrench => "emoji_wrench"@,
        Emoji::Sun => "emoji_sun"@,
        Emoji::Magnifier => "emoji_magnifier"@,
        Emoji::Bolt => "emoji_bolt"@,
        Emoji::Computer => "emoji_computer"@,
        Emoji::Rocket => "emoji_rocket"@,
        Emoji::FlagTr => "emoji_flagtr"@,
        Emoji::FlagUs => "emoji_flagus"@,
        Emoji::Laptop => "emoji_laptop"@,
        Emoji::Controls => "emoji_controls"@,
        Emoji::Battery => "emoji_battery"@,
        Emoji::Scale => "emoji_scale"@,
    }
}

/// The length, seventh and last characters of a texture name: enough to
/// tell the names apart.
spec fn label_key(s: Seq<char>) -> (int, char, char) {
    (s.len() as int, s[6], s[s.len() - 1])
}

/// The key of each picture's texture name.
spec fn key_of(e: Emoji) -> (int, char, char) {
    match e {
        Emoji::Home => (10, 'h', 'e'),
        Emoji::Broom => (11, 'b', 'm'),
        Emoji::Sponge => (12, 's', 'e'),
        Emoji::Shield => (12, 's', 'd'),
        Emoji::Disk => (10, 'd', 'k'),
        Emoji::Optical => (13, 'o', 'l'),
        Emoji::Info => (10, 'i', 'o'),
        Emoji::Trash => (11, 't', 'h'),
        Emoji::Recycle => (13, 'r', 'e'),
        Emoji::Refresh => (13, 'r', 'h'),
        Emoji::Chart => (11, 'c', 't'),
        Emoji::Inbox => (11, 'i', 'x'),
        Emoji::Moon => (10, 'm', 'n'),
        Emoji::Palette => (13, 'p', 'e'),
        Emoji::Clipboard => (15, 'c', 'd'),
        Emoji::Pill => (10, 'p', 'l'),
        Emoji::Stethoscope => (17, 's', 'e'),
        Emoji::Wrench => (12, 'w', 'h'),
        Emoji::Sun => (9, 's', 'n'),
        Emoji::Magnifier => (15, 'm', 'r'),
        Emoji::Bolt => (10, 'b', 't'),
        Emoji::Computer => (14, 'c', 'r'),
        Emoji::Rocket => (12, 'r', 't'),
        Emoji::FlagTr => (12, 'f', 'r'),
        Emoji::FlagUs => (12, 'f', 's'),
        Emoji::Laptop => (12, 'l', 'p'),
        Emoji::Controls => (14, 'c', 's'),
        Emoji::Battery => (13, 'b', 'y'),
        Emoji::Scale => (11, 's', 'e'),
    }
}

/// Each texture name has the key `key_of` lists for it.
proof fn lemma_label_key(e: Emoji)
    ensures
        label_key(label_of(e)) == key_of(e),
{
    match e {
        Emoji::Home => {
            reveal_strlit("emoji_home");
        },
        Emoji::Broom => {
            reveal_strlit("emoji_broom");
        },
        Emoji::Sponge => {
            reveal_strlit("emoji_sponge");
        },
        Emoji::Shield => {
            reveal_strlit("emoji_shield");
        },
        Emoji::Disk => {
            reveal_strlit("emoji_disk");
        },
        Emoji::Optical => {
            reveal_strlit("emoji_optical");
        },
        Emoji::Info => {
            reveal_strlit("emoji_info");
        },
        Emoji::Trash => {
            reveal_strlit("emoji_trash");
        },
        Emoji::Recycle => {
            reveal_strlit("emoji_recycle");
        },
        Emoji::Refresh => {
            reveal_strlit("emoji_refresh");
        },
        Emoji::Chart => {
            reveal_strlit("emoji_chart");
        },
        Emoji::Inbox => {
            reveal_strlit("emoji_inbox");
        },
        Emoji::Moon => {
            reveal_strlit("emoji_moon");
        },
        Emoji::Palette => {
            reveal_strlit("emoji_palette");
        },
        Emoji::Clipboard => {
            reveal_strlit("emoji_clipboard");
        },
        Emoji::Pill => {
            reveal_strlit("emoji_pill");
        },
        Emoji::Stethoscope => {
            reveal_strlit("emoji_stethoscope");
        },
        Emoji::Wrench => {
            reveal_strlit("emoji_wrench");
        },
        Emoji::Sun => {
            reveal_strlit("emoji_sun");
        },
        Emoji::Magnifier => {
            reveal_strlit("emoji_magnifier");
        },
        Emoji::Bolt => {
            reveal_strlit("emoji_bolt");
        },
        Emoji::Computer => {
            reveal_strlit("emoji_computer");
        },
        Emoji::Rocket => {
            reveal_strlit("emoji_rocket");
        },
        Emoji::FlagTr => {
            reveal_strlit("emoji_flagtr");
        },
        Emoji::FlagUs => {
            reveal_strlit("emoji_flagus");
        },
        Emoji::Laptop => {
            reveal_strlit("emoji_laptop");
        },
        Emoji::Controls => {
            reveal_strlit("emoji_controls");
        },
        Emoji::Battery => {
            reveal_strlit("emoji_battery");
        },
        Emoji::Scale => {
            reveal_strlit("emoji_scale");
        },
    }
}

/// Texture names tell the pictures apart: two pictures with the same
/// texture name are the same picture, and every name begins with
/// `emoji_`.
pub(crate) proof fn lemma_labels_distinct(e1: Emoji, e2: Emoji)
    ensures
        label_of(e1) == label_of(e2) ==> e1 == e2,
        label_of(e1).len() > 6,
        label_of(e1).subrange(0, 6) == "emoji_"@,
{
    lemma_label_key(e1);
    lemma_label_key(e2);
    lemma_label_prefix(e1);
}

/// Every texture name begins with `emoji_`.
proof fn lemma_label_prefix(e: Emoji)
    ensures
        label_of(e).len() > 6,
        label_of(e).subrange(0, 6) == "emoji_"@,
{
    reveal_strlit("emoji_");
    match e {
        Emoji::Home => {
            reveal_strlit("emoji_home");
        },
        Emoji::Broom => {
            reveal_strlit("emoji_broom");
        },
        Emoji::Sponge => {
            reveal_strlit("emoji_sponge");
        },
        Emoji::Shield => {
            reveal_strlit("emoji_shield");
        },
        Emoji::Disk => {
            reveal_strlit("emoji_disk");
        },
        Emoji::Optical => {
            reveal_strlit("emoji_optical");
        },
        Emoji::Info => {
            reveal_strlit("emoji_info");
        },
        Emoji::Trash => {
            reveal_strlit("emoji_trash");
        },
        Emoji::Recycle => {
            reveal_strlit("emoji_recycle");
        },
        Emoji::Refresh => {
            reveal_strlit("emoji_refresh");
        },
        Emoji::Chart => {
            reveal_strlit("emoji_chart");
        },
        Emoji::Inbox => {
            reveal_strlit("emoji_inbox");
        },
        Emoji::Moon => {
            reveal_strlit("emoji_moon");
        },
        Emoji::Palette => {
            reveal_strlit("emoji_palette");
        },
        Emoji::Clipboard => {
            reveal_strlit("emoji_clipboard");
        },
        Emoji::Pill => {
            reveal_strlit("emoji_pill");
        },
        Emoji::Stethoscope => {
            reveal_strlit("emoji_stethoscope");
        },
        Emoji::Wrench => {
            reveal_strlit("emoji_wrench");
        },
        Emoji::Sun => {
            reveal_strlit("emoji_sun");
        },
        Emoji::Magnifier => {
            reveal_strlit("emoji_magnifier");
        },
        Emoji::Bolt => {
            reveal_strlit("emoji_bolt");
        },
        Emoji::Computer => {
            reveal_strlit("emoji_computer");
        },
        Emoji::Rocket => {
            reveal_strlit("emoji_rocket");
        },
        Emoji::FlagTr => {
            reveal_strlit("emoji_flagtr");
        },
        Emoji::FlagUs => {
            reveal_strlit("emoji_flagus");
        },
        Emoji::Laptop => {
            reveal_strlit("emoji_laptop");
        },
        Emoji::Controls => {
            reveal_strlit("emoji_controls");
        },
        Emoji::Battery => {
            reveal_strlit("emoji_battery");
        },
        Emoji::Scale => {
            reveal_strlit("emoji_scale");
        },
    }
    assert(label_of(e).subrange(0, 6) =~= "emoji_"@);
}

/// The file of a picture (a Twemoji PNG, 72x72), under `assets/emoji`.
pub open spec fn file_of(e: Emoji) -> Seq<char> {
    match e {
        Emoji::Home => "1f3e0.png"@,
        Emoji::Broom => "1f9f9.png"@,
        Emoji::Sponge => "1f9fd.png"@,
        Emoji::Shield => "1f6e1.png"@,
        Emoji::Disk => "1f4be.png"@,
        Emoji::Optical => "1f4bf.png"@,
        Emoji::Info => "2139.png"@,
        Emoji::Trash => "1f5d1.png"@,
        Emoji::Recycle => "267b.png"@,
        Emoji::Refresh => "1f504.png"@,
        Emoji::Chart => "1f4ca.png"@,
        Emoji::Inbox => "1f4e5.png"@,
        Emoji::Moon => "1f319.png"@,
        Emoji::Palette => "1f3a8.png"@,
        Emoji::Clipboard => "1f4cb.png"@,
        Emoji::Pill => "1f48a.png"@,
        Emoji::Stethoscope => "1fa7a.png"@,
        Emoji::Wrench => "1f6e0.png"@,
        Emoji::Sun => "2600.png"@,
        Emoji::Magnifier => "1f50d.png"@,
        Emoji::Bolt => "26a1.png"@,
        Emoji::Computer => "1f5a5.png"@,
        Emoji::Rocket => "1f680.png"@,
        Emoji::FlagTr => "1f1f9-1f1f7.png"@,
        Emoji::FlagUs => "1f1fa-1f1f8.png"@,
        Emoji::Laptop => "1f4bb.png"@,
        Emoji::Controls => "1f39b.png"@,
        Emoji::Battery => "1f50b.png"@,
        Emoji::Scale => "2696.png"@,
    }
}

impl Emoji {
    /// The texture name (see `label_of`).
    pub fn label(self) -> (s: &'static str)
        ensures
            s@ == label_of(self),
    {
        match self {
            Emoji::Home => "emoji_home",
            Emoji::Broom => "emoji_broom",
            Emoji::Sponge => "emoji_sponge",
            Emoji::Shield => "emoji_shield",
            Emoji::Disk => "emoji_disk",
            Emoji::Optical => "emoji_optical",
            Emoji::Info => "emoji_info",
            Emoji::Trash => "emoji_trash",
            Emoji::Recycle => "emoji_recycle",
            Emoji::Refresh => "emoji_refresh",
            Emoji::Chart => "emoji_chart",
            Emoji::Inbox => "emoji_inbox",
            Emoji::Moon => "emoji_moon",
            Emoji::Palette => "emoji_palette",
            Emoji::Clipboard => "emoji_clipboard",
            Emoji::Pill => "emoji_pill",
            Emoji::Stethoscope => "emoji_stethoscope",
            Emoji::Wrench => "emoji_wrench",
            Emoji::Sun => "emoji_sun",
            Emoji::Magnifier => "emoji_magnifier",
            Emoji::Bolt => "emoji_bolt",
            Emoji::Computer => "emoji_computer",
            Emoji::Rocket => "emoji_rocket",
            Emoji::FlagTr => "emoji_flagtr",
            Emoji::FlagUs => "emoji_flagus",
            Emoji::Laptop => "emoji_laptop",
            Emoji::Controls => "emoji_controls",
            Emoji::Battery => "emoji_battery",
            Emoji::Scale => "emoji_scale",
        }
    }

    /// The PNG file the picture is read from (see `file_of`).
    pub fn file(self) -> (s: &'static str)
        ensures
            s@ == file_of(self),
    {
        match self {
            Emoji::Home => "1f3e0.png",
            Emoji::Broom => "1f9f9.png",
            Emoji::Sponge => "1f9fd.png",
            Emoji::Shield => "1f6e1.png",
            Emoji::Disk => "1f4be.png",
            Emoji::Optical => "1f4bf.png",
            Emoji::Info => "2139.png",
            Emoji::Trash => "1f5d1.png",
            Emoji::Recycle => "267b.png",
            Emoji::Refresh => "1f504.png",
            Emoji::Chart => "1f4ca.png",
            Emoji::Inbox => "1f4e5.png",
            Emoji::Moon => "1f319.png",
            Emoji::Palette => "1f3a8.png",
            Emoji::Clipboard => "1f4cb.png",
            Emoji::Pill => "1f48a.png",
            Emoji::Stethoscope => "1fa7a.png",
            Emoji::Wrench => "1f6e0.png",
            Emoji::Sun => "2600.png",
            Emoji::Magnifier => "1f50d.png",
            Emoji::Bolt => "26a1.png",
            Emoji::Computer => "1f5a5.png",
            Emoji::Rocket => "1f680.png",
            Emoji::FlagTr => "1f1f9-1f1f7.png",
            Emoji::FlagUs => "1f1fa-1f1f8.png",
            Emoji::Laptop => "1f4bb.png",
            Emoji::Controls => "1f39b.png",
            Emoji::Battery => "1f50b.png",
            Emoji::Scale => "2696.png",
        }
    }
}

/// What the `image` crate decodes from the bytes of a picture file:
/// width, height and the pixels as RGBA bytes (row by row, not
/// premultiplied), or nothing when the bytes are not an image it reads.
pub uninterp spec fn png_rgba(bytes: Seq<u8>) -> Option<(u32, u32, Seq<u8>)>;

/// `image::load_from_memory`, then `to_rgba8`, `dimensions` and
/// `into_raw` on the result: the decoded picture as named by `png_rgba`.
/// Nothing is claimed about the pixels beyond that name.
#[verifier::external_body]
fn load_rgba(bytes: &[u8]) -> (r: Option<(u32, u32, Vec<u8>)>)
    ensures
        match r {
            Some((w, h, px)) => png_rgba(bytes@) == Some((w, h, px@)),
            None => png_rgba(bytes@) is None,
        },
{
    match image::load_from_memory(bytes) {
        Ok(img) => {
            let rgba = img.to_rgba8();
            let (w, h) = rgba.dimensions();
            Some((w, h, rgba.into_raw()))
        },
        Err(_) => None,
    }
}

/// A decoded picture: its size and RGBA pixels (not premultiplied).
pub struct Picture {
    pub width: u32,
    pub height: u32,
    pub rgba: Vec<u8>,
}

/// Decodes a picture file (PNG, palette or RGBA) into RGBA pixels; `None`
/// when the bytes are not a picture.
pub fn decode_png(bytes: &[u8]) -> (r: Option<Picture>)
    ensures
        match r {
            Some(p) => png_rgba(bytes@) == Some((p.width, p.height, p.rgba@)),
            None => png_rgba(bytes@) is None,
        },
{
    match load_rgba(bytes) {
        Some((width, height, rgba)) => Some(Picture { width, height, rgba }),
        None => None,
    }
}

} // verus!
