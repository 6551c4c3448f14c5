//! The computing side of the Windows helpers: UTF-16 strings for the API,
//! the command line of a restarted process, the cleaning of registry text,
//! and the conclusions drawn from API results. The calls themselves are made by
//! the program.
use vstd::prelude::*;

use crate::actions::script::strings;
use crate::i18n::tr;
use crate::text::{chars_of, has_char, is_white_space, joined, lang, string_of, white_space};
use crate::theme::same_text;

verus! {

// ---------------------------------------------------------------------------
// UTF-16
// ---------------------------------------------------------------------------

/// The UTF-16 code units of one character: one unit below U+10000, else a
/// surrogate pair.
pub open spec fn utf16_char(c: char) -> Seq<u16> {
    let u = c as u32;
    if u < 0x10000 {
        seq![u as u16]
    } else {
        let v = (u - 0x10000) as u32;
        seq![(0xD800 + v / 0x400) as u16, (0xDC00 + v % 0x400) as u16]
    }
}

/// The UTF-16 encoding of a text.
pub open spec fn utf16_of(s: Seq<char>) -> Seq<u16>
    decreases s.len(),
{
    if s.len() == 0 {
        Seq::empty()
    } else {
        utf16_of(s.drop_last()) + utf16_char(s.last())
    }
}

fn push_utf16(v: &mut Vec<u16>, c: char)
    ensures
        final(v)@ == old(v)@ + utf16_char(c),
{
    let u = c as u32;
    if u < 0x10000 {
        v.push(u as u16);
    } else {
        assert(u <= 0x10FFFF) by {
            vstd::utf8::char_is_scalar(c);
        }
        let w = u - 0x10000;
        v.push((0xD800 + w / 0x400) as u16);
        v.push((0xDC00 + w % 0x400) as u16);
    }
    assert(final(v)@ =~= old(v)@ + utf16_char(c));
}

/// A text as a null-terminated UTF-16 string, as the Windows API takes it.
pub fn wide(s: &str) -> (v: Vec<u16>)
    ensures
        v@ == utf16_of(s@).push(0),
{
    let cs = chars_of(s);
    let mut v: Vec<u16> = Vec::new();
    let mut i: usize = 0;
    assert(cs@.take(0) =~= Seq::<char>::empty());
    while i < cs.len()
        invariant
            i <= cs.len(),
            v@ == utf16_of(cs@.take(i as int)),
        decreases cs.len() - i,
    {
        assert(cs@.take(i + 1).drop_last() =~= cs@.take(i as int));
        push_utf16(&mut v, cs[i]);
        i = i + 1;
    }
    assert(cs@.take(cs.len() as int) =~= s@);
    v.push(0);
    v
}

// ---------------------------------------------------------------------------
// command line
// ---------------------------------------------------------------------------

/// `s` with every `"` written as `\"`.
pub open spec fn escape_quotes(s: Seq<char>) -> Seq<char>
    decreases s.len(),
{
    if s.len() == 0 {
        Seq::empty()
    } else {
        escape_quotes(s.drop_last()) + (if s.last() == '"' {
            seq!['\\', '"']
        } else {
            seq![s.last()]
        })
    }
}

/// One argument on the command line: in double quotes (with inner quotes
/// escaped) when it is empty or holds a space or a quote, else as it is.
pub open spec fn quote_arg(a: Seq<char>) -> Seq<char> {
    if a.len() == 0 || a.contains(' ') || a.contains('"') {
        seq!['"'] + escape_quotes(a) + seq!['"']
    } else {
        a
    }
}

/// The command line of some arguments: each quoted as needed, separated by
/// single spaces.
pub open spec fn cmdline(args: Seq<Seq<char>>) -> Seq<char> {
    joined(args.map_values(|a: Seq<char>| quote_arg(a)), " "@)
}

fn quoted(a: &str) -> (r: Vec<char>)
    ensures
        r@ == quote_arg(a@),
{
    let cs = chars_of(a);
    if cs.len() > 0 && !has_char(&cs, ' ') && !has_char(&cs, '"') {
        return cs;
    }
    let mut r: Vec<char> = Vec::new();
    r.push('"');
    let mut i: usize = 0;
    assert(cs@.take(0) =~= Seq::<char>::empty());
    while i < cs.len()
        invariant
            i <= cs.len(),
            r@ == seq!['"'] + escape_quotes(cs@.take(i as int)),
        decreases cs.len() - i,
    {
        assert(cs@.take(i + 1).drop_last() =~= cs@.take(i as int));
        if cs[i] == '"' {
            r.push('\\');
            r.push('"');
        } else {
            r.push(cs[i]);
        }
        assert(r@ =~= seq!['"'] + escape_quotes(cs@.take(i + 1)));
        i = i + 1;
    }
    assert(cs@.take(cs.len() as int) =~= a@);
    r.push('"');
    assert(r@ =~= seq!['"'] + escape_quotes(a@) + seq!['"']);
    r
}

/// The parameters of a restarted process as one null-terminated UTF-16
/// command line (see `cmdline`).
pub fn list2cmdline(args: &Vec<String>) -> (v: Vec<u16>)
    ensures
        v@ == utf16_of(cmdline(strings(args@))).push(0),
{
    let ghost q = strings(args@).map_values(|a: Seq<char>| quote_arg(a));
    let mut out: Vec<char> = Vec::new();
    let mut i: usize = 0;
    assert(q.take(0) =~= Seq::<Seq<char>>::empty());
    while i < args.len()
        invariant
            i <= args.len(),
            q == strings(args@).map_values(|a: Seq<char>| quote_arg(a)),
            out@ == joined(q.take(i as int), " "@),
        decreases args.len() - i,
    {
        assert(q[i as int] == quote_arg(args@[i as int]@));
        assert(q.take(i + 1).drop_last() =~= q.take(i as int));
        assert(q.take(i + 1).last() == q[i as int]);
        let piece = quoted(args[i].as_str());
        if i > 0 {
            out.push(' ');
        }
        let ghost before = out@;
        let mut k: usize = 0;
        while k < piece.len()
            invariant
                k <= piece.len(),
                out@ == before + piece@.take(k as int),
            decreases piece.len() - k,
        {
            out.push(piece[k]);
            k = k + 1;
            assert(out@ =~= before + piece@.take(k as int));
        }
        assert(piece@.take(piece.len() as int) =~= piece@);
        proof {
            if i == 0 {
                assert(q.take(1) =~= seq![q[0]]);
                assert(Seq::<char>::empty() + piece@ =~= piece@);
            } else {
                reveal_strlit(" ");
                assert(q.take(i + 1).len() == i + 1);
                assert(out@ =~= joined(q.take(i as int), " "@) + " "@ + piece@);
            }
        }
        i = i + 1;
    }
    assert(q.take(args.len() as int) =~= q);
    let s = string_of(&out);
    wide(s.as_str())
}

// ---------------------------------------------------------------------------
// registry text
// ---------------------------------------------------------------------------

/// What `String::from_utf16_lossy` gives for some code units.
pub uninterp spec fn utf16_lossy(units: Seq<u16>) -> Seq<char>;

/// `String::from_utf16_lossy`: the code units decoded, each invalid unit
/// replaced by U+FFFD. Claimed: valid UTF-16 decodes to the text it
/// encodes; how invalid units are replaced is left to the name.
#[verifier::external_body]
fn from_utf16_lossy(units: &[u16]) -> (s: String)
    ensures
        s@ == utf16_lossy(units@),
        forall|t: Seq<char>| #[trigger] utf16_of(t) == units@ ==> s@ == t,
{
    String::from_utf16_lossy(units)
}

/// A character trimmed from registry text: a null or white space.
pub open spec fn is_pad(c: char) -> bool {
    c == '\0' || is_white_space(c)
}

/// `s` without leading pads.
pub open spec fn trim_pad_start(s: Seq<char>) -> Seq<char>
    decreases s.len(),
{
    if s.len() > 0 && is_pad(s[0]) {
        trim_pad_start(s.drop_first())
    } else {
        s
    }
}

/// `s` without trailing pads.
pub open spec fn trim_pad_end(s: Seq<char>) -> Seq<char>
    decreases s.len(),
{
    if s.len() > 0 && is_pad(s.last()) {
        trim_pad_end(s.drop_last())
    } else {
        s
    }
}

/// `s` without leading and trailing nulls and white space.
pub open spec fn trim_pad(s: Seq<char>) -> Seq<char> {
    trim_pad_end(trim_pad_start(s))
}

proof fn lemma_pad_start_at(s: Seq<char>, i: int)
    requires
        0 <= i <= s.len(),
        forall|k: int| 0 <= k < i ==> is_pad(#[trigger] s[k]),
        i == s.len() || !is_pad(s[i]),
    ensures
        trim_pad_start(s) == s.subrange(i, s.len() as int),
    decreases i,
{
    if i > 0 {
        let t = s.drop_first();
        assert forall|k: int| 0 <= k < i - 1 implies is_pad(#[trigger] t[k]) by {
            assert(t[k] == s[k + 1]);
        }
        lemma_pad_start_at(t, i - 1);
        assert(t.subrange(i - 1, t.len() as int) =~= s.subrange(i, s.len() as int));
    } else {
        assert(s.subrange(0, s.len() as int) =~= s);
    }
}

proof fn lemma_pad_end_at(s: Seq<char>, j: int)
    requires
        0 <= j <= s.len(),
        forall|k: int| j <= k < s.len() ==> is_pad(#[trigger] s[k]),
        j == 0 || !is_pad(s[j - 1]),
    ensures
        trim_pad_end(s) == s.subrange(0, j),
    decreases s.len() - j,
{
    if j < s.len() {
        let t = s.drop_last();
        assert forall|k: int| j <= k < t.len() implies is_pad(#[trigger] t[k]) by {
            assert(t[k] == s[k]);
        }
        lemma_pad_end_at(t, j);
        assert(t.subrange(0, j) =~= s.subrange(0, j));
    } else {
        assert(s.subrange(0, j) =~= s);
    }
}

fn pad(c: char) -> (r: bool)
    ensures
        r == is_pad(c),
{
    c == '\0' || white_space(c)
}

fn trim_pad_chars(s: &[char]) -> (r: Vec<char>)
    ensures
        r@ == trim_pad(s@),
{
    let n = s.len();
    let mut i: usize = 0;
    while i < n && pad(s[i])
        invariant
            i <= n,
            n == s@.len(),
            forall|k: int| 0 <= k < i ==> is_pad(#[trigger] s@[k]),
        decreases n - i,
    {
        i = i + 1;
    }
    proof {
        lemma_pad_start_at(s@, i as int);
    }
    let ghost t = s@.subrange(i as int, n as int);
    let mut j: usize = n;
    while j > i && pad(s[j - 1])
        invariant
            i <= j <= n,
            n == s@.len(),
            t == s@.subrange(i as int, n as int),
            forall|k: int| j <= k < n ==> is_pad(#[trigger] s@[k]),
        decreases j - i,
    {
        j = j - 1;
    }
    proof {
        assert forall|k: int| j - i <= k < t.len() implies is_pad(#[trigger] t[k]) by {
            assert(t[k] == s@[k + i]);
        }
        if j > i {
            assert(t[j - i - 1] == s@[j - 1]);
        }
        lemma_pad_end_at(t, j - i);
        assert(t.subrange(0, j - i) =~= s@.subrange(i as int, j as int));
    }
    let mut r: Vec<char> = Vec::new();
    let mut k: usize = i;
    while k < j
        invariant
            i <= k <= j <= n,
            n == s@.len(),
            r@ == s@.subrange(i as int, k as int),
        decreases j - k,
    {
        r.push(s[k]);
        k = k + 1;
    }
    r
}

/// The text of a registry string value read into `buf`, of which the API
/// filled `byte_len` bytes: the code units decoded (see `utf16_lossy`) and
/// stripped of nulls and white space at both ends; `None` when nothing
/// is left.
pub open spec fn reg_text_view(buf: Seq<u16>, byte_len: nat) -> Option<Seq<char>> {
    let n = byte_len / 2;
    let t = trim_pad(utf16_lossy(buf.take(n as int)));
    if n == 0 || t.len() == 0 {
        None
    } else {
        Some(t)
    }
}

/// The text of a registry string value (see `reg_text_view`).
pub fn reg_text(buf: &[u16], byte_len: u32) -> (r: Option<String>)
    requires
        byte_len / 2 <= buf@.len(),
    ensures
        match r {
            Some(s) => reg_text_view(buf@, byte_len as nat) == Some(s@),
            None => reg_text_view(buf@, byte_len as nat) is None,
        },
        forall|t: Seq<char>|
            t.len() > 0 && #[trigger] utf16_of(t) == buf@.take((byte_len / 2) as int) ==> match r {
                Some(s) => trim_pad(t).len() > 0 && s@ == trim_pad(t),
                None => trim_pad(t).len() == 0,
            },
{
    let n = (byte_len / 2) as usize;
    if n == 0 {
        proof {
            assert(buf@.take((byte_len / 2) as int) =~= Seq::<u16>::empty());
            assert forall|t: Seq<char>| t.len() > 0 implies #[trigger] utf16_of(t) != buf@.take(
                (byte_len / 2) as int,
            ) by {
                assert(utf16_char(t.last()).len() > 0);
                assert(utf16_of(t).len() > 0);
            }
        }
        return None;
    }
    let mut units: Vec<u16> = Vec::new();
    let mut i: usize = 0;
    while i < n
        invariant
            i <= n,
            n <= buf@.len(),
            units@ == buf@.take(i as int),
        decreases n - i,
    {
        units.push(buf[i]);
        i = i + 1;
        assert(units@ =~= buf@.take(i as int));
    }
    let s = from_utf16_lossy(units.as_slice());
    let cs = chars_of(s.as_str());
    let t = trim_pad_chars(&cs);
    proof {
        assert forall|x: Seq<char>| x.len() > 0 && #[trigger] utf16_of(x) == buf@.take(n as int) implies s@
            == x by {
            assert(units@ == utf16_of(x));
        }
    }
    if t.len() == 0 {
        None
    } else {
        Some(string_of(&t))
    }
}

// ---------------------------------------------------------------------------
// conclusions from API results
// ---------------------------------------------------------------------------

/// Whether user account control is on, from the `EnableLUA` value: off only
/// when it reads "0"; on when it is missing.
pub fn lua_enabled(value: Option<String>) -> (r: bool)
    ensures
        r == (match value {
            Some(s) => s@ != "0"@,
            None => true,
        }),
{
    match value {
        Some(s) => !same_text(s.as_str(), "0"),
        None => true,
    }
}

/// The DWORD read from the registry: the data when the query succeeded
/// (status 0) and the value's type is `REG_DWORD` (4).
pub fn dword_value(status: i32, ty: u32, data: u32) -> (r: Option<u32>)
    ensures
        r == (if status == 0 && ty == 4 {
            Some(data)
        } else {
            None
        }),
{
    if status == 0 && ty == 4 {
        Some(data)
    } else {
        None
    }
}

/// The name of the mutex that keeps a second copy of the program from
/// starting.
pub const MUTEX_NAME: &'static str = "Global\\SistemBakimAraci_v4_8b2e11";

/// The error `CreateMutexW` leaves when the mutex already exists.
pub const ERROR_ALREADY_EXISTS: u32 = 183;

/// Whether another copy of the program already runs, after creating the
/// mutex: only when a handle was returned and the last error says the
/// mutex existed (a failed creation lets the program go on).
pub fn already_running(handle_null: bool, last_error: u32) -> (r: bool)
    ensures
        r == (!handle_null && last_error == ERROR_ALREADY_EXISTS),
{
    !handle_null && last_error == ERROR_ALREADY_EXISTS
}

/// Whether `ShellExecuteW` started the elevated copy: its result, read as a
/// signed number, is above 32.
pub fn shell_execute_ok(ret: usize) -> (r: bool)
    ensures
        r == ((ret as i64) > 32),
{
    (ret as i64) > 32
}

/// The warning shown when the program is already open.
pub fn already_open_text(en: bool) -> (s: &'static str)
    ensures
        s@ == lang(
            en,
            "Uygulama zaten açık.\nAçık olan pencereye yönlendiriliyorsunuz."@,
            "The app is already open.\nTaking you to the open window."@,
        ),
{
    tr(
        en,
        "Uygulama zaten açık.\nAçık olan pencereye yönlendiriliyorsunuz.",
        "The app is already open.\nTaking you to the open window.",
    )
}

} // verus!
