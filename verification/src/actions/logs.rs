//! Copying the servicing logs (CBS, DISM) to a folder on the desktop.
use vstd::prelude::*;

use crate::console::{Line, LineKind, LineView, lines_view, text};
use crate::i18n::tr;
use crate::text::{join2, join3, join_all, joined, lang, owned};

verus! {

/// The log files looked for, in order, as (path, file name): each name in
/// the CBS folder, then in the DISM folder.
pub open spec fn log_sources_view(windir: Seq<char>) -> Seq<(Seq<char>, Seq<char>)> {
    let cbs = windir + "\\Logs\\CBS\\"@;
    let dism = windir + "\\Logs\\DISM\\"@;
    seq![
        (cbs + "CBS.log"@, "CBS.log"@),
        (dism + "CBS.log"@, "CBS.log"@),
        (cbs + "DISM.log"@, "DISM.log"@),
        (dism + "DISM.log"@, "DISM.log"@),
        (cbs + "dism.log"@, "dism.log"@),
        (dism + "dism.log"@, "dism.log"@),
    ]
}

/// The log files to copy (see `log_sources_view`).
pub fn log_sources(windir: &str) -> (v: Vec<(String, String)>)
    ensures
        v@.map_values(|p: (String, String)| (p.0@, p.1@)) == log_sources_view(windir@),
{
    let cbs = join2(windir, "\\Logs\\CBS\\");
    let dism = join2(windir, "\\Logs\\DISM\\");
    let mut v: Vec<(String, String)> = Vec::new();
    v.push((join2(cbs.as_str(), "CBS.log"), owned("CBS.log")));
    v.push((join2(dism.as_str(), "CBS.log"), owned("CBS.log")));
    v.push((join2(cbs.as_str(), "DISM.log"), owned("DISM.log")));
    v.push((join2(dism.as_str(), "DISM.log"), owned("DISM.log")));
    v.push((join2(cbs.as_str(), "dism.log"), owned("dism.log")));
    v.push((join2(dism.as_str(), "dism.log"), owned("dism.log")));
    assert(v@.map_values(|p: (String, String)| (p.0@, p.1@)) =~= log_sources_view(windir@));
    v
}

/// The folder the logs go to: `bakim_loglari` on the user's desktop
/// (`C:\Users\Public` standing in for an unset `USERPROFILE`).
pub open spec fn log_folder_view(profile: Option<Seq<char>>) -> Seq<char> {
    match profile {
        Some(p) => p + "\\Desktop\\bakim_loglari"@,
        None => "C:\\Users\\Public\\Desktop\\bakim_loglari"@,
    }
}

/// The target folder from the `USERPROFILE` variable (see
/// `log_folder_view`).
pub fn log_folder(profile: Option<String>) -> (r: String)
    ensures
        r@ == log_folder_view(
            match profile {
                Some(p) => Some(p@),
                None => None,
            },
        ),
{
    match profile {
        Some(p) => join2(p.as_str(), "\\Desktop\\bakim_loglari"),
        None => owned("C:\\Users\\Public\\Desktop\\bakim_loglari"),
    }
}

/// The report after copying: a warning when nothing was copied, else the
/// names copied (joined by ", ") and the folder.
pub open spec fn log_report_view(en: bool, copied: Seq<Seq<char>>, folder: Seq<char>) -> Seq<
    LineView,
> {
    if copied.len() == 0 {
        seq![
            text(
                LineKind::Warn,
                lang(en, "Log bulunamadı veya erişim engellendi."@, "No logs found or access denied."@),
            ),
        ]
    } else {
        seq![
            text(LineKind::Success, lang(en, "Kopyalandı: "@, "Copied: "@) + joined(copied, ", "@)),
            text(LineKind::Plain, lang(en, "  Klasör: "@, "  Folder: "@) + folder),
        ]
    }
}

/// The console lines after copying the logs (see `log_report_view`).
pub fn log_report(en: bool, copied: &Vec<String>, folder: &str) -> (r: Vec<Line>)
    ensures
        lines_view(r@) == log_report_view(en, copied@.map_values(|p: String| p@), folder@),
{
    let mut r: Vec<Line> = Vec::new();
    if copied.len() == 0 {
        r.push(
            Line::Text(
                LineKind::Warn,
                owned(
                    tr(en, "Log bulunamadı veya erişim engellendi.", "No logs found or access denied."),
                ),
            ),
        );
    } else {
        let names = join_all(copied, ", ");
        r.push(Line::Text(LineKind::Success, join2(tr(en, "Kopyalandı: ", "Copied: "), names.as_str())));
        r.push(Line::Text(LineKind::Plain, join2(tr(en, "  Klasör: ", "  Folder: "), folder)));
    }
    assert(lines_view(r@) =~= log_report_view(en, copied@.map_values(|p: String| p@), folder@));
    r
}

} // verus!
