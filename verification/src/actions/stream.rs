//! Streaming a program's output to the console: what each output line
//! becomes, and the messages around a run (failed start, stop, exit code).
use vstd::prelude::*;

use crate::actions::decode::{decode, decoded, is_progress, is_progress_text};
use crate::console::{Line, LineKind, LineView, text};
use crate::i18n::tr;
use crate::text::{chars_of, digits_upper, join2, join4, lang, string_of};

verus! {

/// `s` without its trailing `\r` and `\n` characters.
pub open spec fn trim_newlines(s: Seq<char>) -> Seq<char>
    decreases s.len(),
{
    if s.len() > 0 && (s.last() == '\r' || s.last() == '\n') {
        trim_newlines(s.drop_last())
    } else {
        s
    }
}

/// What one line of output (its raw bytes, up to and including `\n`)
/// shows: nothing when it is empty once decoded and stripped of its line
/// end, else a progress line or a plain line.
pub open spec fn stream_view(bytes: Seq<u8>) -> Option<LineView> {
    let t = trim_newlines(decoded(bytes));
    if t.len() == 0 {
        None
    } else if is_progress_text(t) {
        Some(text(LineKind::Progress, t))
    } else {
        Some(text(LineKind::Plain, t))
    }
}

/// The console line for one line of a program's output (see
/// `stream_view`).
pub fn stream_line(bytes: &[u8]) -> (r: Option<Line>)
    ensures
        match r {
            Some(l) => stream_view(bytes@) == Some(l@),
            None => stream_view(bytes@) is None,
        },
{
    let d = decode(bytes);
    let mut v = chars_of(d.as_str());
    while v.len() > 0 && (v[v.len() - 1] == '\r' || v[v.len() - 1] == '\n')
        invariant
            trim_newlines(v@) == trim_newlines(decoded(bytes@)),
        decreases v.len(),
    {
        let ghost before = v@;
        v.pop();
        assert(v@ =~= before.drop_last());
    }
    if v.len() == 0 {
        return None;
    }
    let s = string_of(&v);
    if is_progress(s.as_str()) {
        Some(Line::Text(LineKind::Progress, s))
    } else {
        Some(Line::Text(LineKind::Plain, s))
    }
}

/// The message when a program cannot be started.
pub open spec fn spawn_failed_text(en: bool, cmd: Seq<char>, err: Seq<char>) -> Seq<char> {
    "("@ + cmd + lang(en, ") başlatılamadı: "@, ") failed to start: "@) + err
}

/// The error line when `cmd` cannot be started (`err` says why).
pub fn spawn_failed(en: bool, cmd: &str, err: &str) -> (s: String)
    ensures
        s@ == spawn_failed_text(en, cmd@, err@),
{
    join4("(", cmd, tr(en, ") başlatılamadı: ", ") failed to start: "), err)
}

/// The warning when the user stopped a running program.
pub fn stopped_text(en: bool) -> (s: &'static str)
    ensures
        s@ == lang(en, "İşlem durduruldu."@, "Process stopped."@),
{
    tr(en, "İşlem durduruldu.", "Process stopped.")
}

/// A signed number in decimal (`{}`).
pub open spec fn signed_text(n: int) -> Seq<char> {
    if n < 0 {
        "-"@ + digits_upper((-n) as nat, 10)
    } else {
        digits_upper(n as nat, 10)
    }
}

fn signed_decimal(n: i32) -> (s: String)
    ensures
        s@ == signed_text(n as int),
{
    if n < 0 {
        let m: i64 = -(n as i64);
        let d = crate::text::decimal(m as u64);
        join2("-", d.as_str())
    } else {
        crate::text::decimal(n as u64)
    }
}

/// The exit-code warning.
pub open spec fn exit_text(en: bool, code: int) -> Seq<char> {
    lang(en, "Çıkış kodu: "@, "Exit code: "@) + signed_text(code)
}

/// The warning after a program ended: none when it succeeded, else its
/// exit code (-1 when it has none, as when it was killed).
pub fn exit_warning(en: bool, success: bool, code: Option<i32>) -> (r: Option<String>)
    ensures
        success <==> r is None,
        r matches Some(s) ==> s@ == exit_text(
            en,
            match code {
                Some(c) => c as int,
                None => -1,
            },
        ),
{
    if success {
        return None;
    }
    let c: i32 = match code {
        Some(c) => c,
        None => -1,
    };
    let d = signed_decimal(c);
    Some(join2(tr(en, "Çıkış kodu: ", "Exit code: "), d.as_str()))
}

/// The error when waiting for a program failed (`err` says why).
pub fn wait_failed(en: bool, err: &str) -> (s: String)
    ensures
        s@ == lang(en, "Bekleme hatası: "@, "Wait error: "@) + err@,
{
    join2(tr(en, "Bekleme hatası: ", "Wait error: "), err)
}

} // verus!
