use sistem_bakim_araci::actions::jobs::{
    cleared_line, deep_clean, empty_recycle_dialog, full_repair, local, quick_clean,
    restart_explorer, simple_dism, windir, Paths,
};
use sistem_bakim_araci::actions::logs::{log_folder, log_report, log_sources};
use sistem_bakim_araci::actions::script::{name_matches, Op, Script};
use sistem_bakim_araci::actions::turbo::TurboMode;
use sistem_bakim_araci::console::{Con, Line, LineKind};
use sistem_bakim_araci::emoji::{all_emojis, decode_png, Emoji};
use sistem_bakim_araci::fit::FitSearch;
use sistem_bakim_araci::i18n::{pick, tr, LangFlag};
use sistem_bakim_araci::sections::{all, nav_items, section, Action, SectionId};
use sistem_bakim_araci::ui::{
    greeting, lang_button, lang_switched, may_start, needs_refresh, next_lang, next_theme_mode, status_line,
    system_info, task_for, theme_button, ConsolePos, PlanKind, SidebarMode, SystemFacts, Task,
};

fn s(x: &str) -> String {
    x.to_string()
}

fn texts(lines: Vec<Line>) -> Vec<(LineKind, String)> {
    lines
        .into_iter()
        .map(|l| match l {
            Line::Text(k, t) => (k, t),
            Line::Clear => (LineKind::Plain, s("<clear>")),
        })
        .collect()
}

fn paths() -> Paths {
    Paths { windir: s("C:\\Windows"), local: s("C:\\Users\\u\\AppData\\Local"), temp: s("C:\\Temp") }
}

#[test]
fn layout_toggles_undo_themselves() {
    assert_eq!(ConsolePos::Bottom.toggled(), ConsolePos::Right);
    assert_eq!(ConsolePos::Bottom.toggled().toggled(), ConsolePos::Bottom);
    assert_eq!(SidebarMode::Full.toggled(), SidebarMode::Icons);
    assert_eq!(SidebarMode::Icons.toggled().toggled(), SidebarMode::Icons);
}

#[test]
fn theme_and_language_switches() {
    assert_eq!(next_theme_mode("dark"), "light");
    assert_eq!(next_theme_mode("light"), "dark");
    assert_eq!(next_theme_mode(&next_theme_mode("dark")), "dark");
    assert_eq!(next_theme_mode("weird"), "dark");
    assert_eq!(next_lang("en"), "tr");
    assert_eq!(next_lang("tr"), "en");
    assert_eq!(next_lang(""), "en");
    assert_eq!(next_lang(&next_lang("tr")), "tr");
    assert_eq!(lang_switched(true), "Language: English");
    assert_eq!(lang_switched(false), "Dil: Türkçe");
    assert_eq!(theme_button(true, "dark"), (Emoji::Sun, "Light Mode"));
    assert_eq!(theme_button(false, "light"), (Emoji::Moon, "Koyu Mod"));
    assert_eq!(lang_button(true), (Emoji::FlagUs, "English"));
    assert_eq!(lang_button(false), (Emoji::FlagTr, "Türkçe"));
    assert_eq!(
        greeting(true, false),
        "This tool is built for Windows. Full features run on Windows."
    );
    assert!(greeting(false, true).starts_with("Hazır."));
    assert!(needs_refresh(true, 0));
    assert!(!needs_refresh(false, 5000));
    assert!(needs_refresh(false, 5001));
}

#[test]
fn one_job_at_a_time() {
    assert!(may_start(false));
    assert!(!may_start(true));
}

#[test]
fn language_texts() {
    assert_eq!(tr(true, "a", "b"), "b");
    assert_eq!(tr(false, "a", "b"), "a");
    assert_eq!(pick(true, s("x"), s("y")), "y");
    let mut f = LangFlag::new();
    assert!(!f.is_en());
    f.set_en(true);
    assert!(f.is_en());
}

#[test]
fn system_info_report() {
    let mut bus = Con::new();
    let f = SystemFacts {
        os: s("Windows 11 Pro 24H2 build 26100.2605"),
        user: s("ali"),
        computer: s("PC1"),
        free_gb: Some(s("123.45")),
        admin: false,
        uac: true,
        dark: true,
    };
    system_info(&mut bus, true, &f);
    let eq = "=".repeat(52);
    assert_eq!(
        texts(bus.take()),
        vec![
            (LineKind::Big, eq.clone()),
            (LineKind::Info, s("SYSTEM INFO")),
            (LineKind::Big, eq.clone()),
            (LineKind::Plain, s("  Operating System : Windows 11 Pro 24H2 build 26100.2605")),
            (LineKind::Plain, s("  User       : ali")),
            (LineKind::Plain, s("  Computer      : PC1")),
            (LineKind::Plain, s("  C: free space     : 123.45 GB")),
            (LineKind::Plain, s("  Is admin     : No (some tools won't work)")),
            (LineKind::Plain, s("  UAC             : On")),
            (LineKind::Plain, s("  Theme            : Dark")),
            (LineKind::Big, eq),
        ]
    );
    let f = SystemFacts {
        os: s("x"),
        user: String::new(),
        computer: String::new(),
        free_gb: None,
        admin: true,
        uac: false,
        dark: false,
    };
    system_info(&mut bus, false, &f);
    let got = texts(bus.take());
    assert_eq!(got[6], (LineKind::Plain, s("  C: boş alan     : ?")));
    assert_eq!(got[7], (LineKind::Plain, s("  Yönetici mi     : Evet")));
    assert_eq!(got[8], (LineKind::Plain, s("  UAC             : Kapalı")));
    assert_eq!(got[9], (LineKind::Plain, s("  Tema            : Açık")));
}

#[test]
fn status_line_text() {
    assert_eq!(
        status_line(true, "Windows 10 Pro", Some("12.3"), true),
        "Windows 10 Pro   |   C: 12.3 GB free   |   Admin"
    );
    assert_eq!(
        status_line(false, "bilinmiyor", None, false),
        "bilinmiyor   |   C: boş alan ?   |   Yönetici değil"
    );
}

#[test]
fn each_tool_starts_its_task() {
    let p = paths();
    assert!(matches!(task_for(Action::SysInfo, true, &p), Task::ShowInfo));
    assert!(matches!(task_for(Action::About, true, &p), Task::ToggleAbout));
    assert!(matches!(task_for(Action::CpuInfo, true, &p), Task::Microcode));
    assert!(matches!(task_for(Action::KnownIssues, true, &p), Task::KnownIssues));
    assert!(matches!(task_for(Action::PowerUltimate, true, &p), Task::Plan(PlanKind::Ultimate)));
    assert!(matches!(task_for(Action::TurboOff, true, &p), Task::Turbo(TurboMode::Off)));
    assert!(matches!(task_for(Action::RestoreIso, true, &p), Task::PickIso));
    assert!(matches!(task_for(Action::Logs, true, &p), Task::CopyLogs));
    match task_for(Action::CheckHealth, true, &p) {
        Task::Run(sc) => match &sc.ops[3] {
            Op::Stream(prog, a) => {
                assert_eq!(prog, "dism");
                assert_eq!(a, &vec![s("/online"), s("/cleanup-image"), s("/checkhealth")]);
            },
            _ => panic!("expected dism"),
        },
        _ => panic!("expected a script"),
    }
    match task_for(Action::Sfc, false, &p) {
        Task::Run(sc) => match &sc.ops[1] {
            Op::Say(LineKind::Info, t) => assert_eq!(t, "SFC /scannow"),
            _ => panic!("expected the title"),
        },
        _ => panic!("expected a script"),
    }
}

fn say_text(op: &Op) -> Option<(LineKind, String)> {
    match op {
        Op::Say(k, t) => Some((*k, t.clone())),
        _ => None,
    }
}

#[test]
fn quick_clean_steps() {
    let sc = quick_clean(true, &paths());
    assert_eq!(say_text(&sc.ops[1]), Some((LineKind::Info, s("QUICK CLEAN"))));
    match &sc.ops[4] {
        Op::ClearDir(p, report) => {
            assert_eq!(p, "C:\\Temp");
            assert!(*report);
        },
        _ => panic!("expected the temp folder"),
    }
    match &sc.ops[5] {
        Op::ClearDir(p, _) => assert_eq!(p, "C:\\Windows\\Temp"),
        _ => panic!("expected the Windows temp folder"),
    }
    match &sc.ops[6] {
        Op::GlobDelete(f, n) => {
            assert_eq!(f, "C:\\Users\\u\\AppData\\Local\\Microsoft\\Windows\\Explorer");
            assert_eq!(n, "thumbcache_");
        },
        _ => panic!("expected the thumbnail cache"),
    }
    assert_eq!(say_text(sc.ops.last().unwrap()), Some((LineKind::Success, s("Quick clean finished."))));
}

#[test]
fn script_follows_answers() {
    let mut sc: Script = empty_recycle_dialog(true);
    assert!(matches!(sc.current(), Some(Op::Ask(_, _, 4))));
    sc.advance(false);
    assert_eq!(sc.pc, 4);
    assert_eq!(say_text(sc.current().unwrap()), Some((LineKind::Warn, s("Cancelled."))));
    sc.advance(false);
    assert!(matches!(sc.current(), Some(Op::End)));
    sc.advance(false);
    assert!(sc.done());
    assert!(sc.current().is_none());

    let mut sc = empty_recycle_dialog(false);
    sc.advance(true);
    assert!(matches!(sc.current(), Some(Op::Quiet(_, _))));
    sc.advance(false);
    sc.advance(false);
    assert!(matches!(sc.current(), Some(Op::End)));
    sc.advance(true);
    assert!(sc.done());
    let n = sc.ops.len();
    sc.advance(true);
    assert_eq!(sc.pc, n);

    let mut sc = restart_explorer(true);
    let mut seen = 0;
    while !sc.done() {
        seen += 1;
        sc.advance(true);
    }
    assert_eq!(seen, 5);
}

#[test]
fn glob_names_and_cleared_lines() {
    assert!(name_matches("ThumbCache_32.db", "thumbcache_"));
    assert!(!name_matches("iconcache_32.db", "thumbcache_"));
    assert!(name_matches("anything", ""));
    assert_eq!(cleared_line(true, "C:\\Temp", 12), "   - C:\\Temp  (12 items)");
    assert_eq!(cleared_line(false, "X", 0), "   - X  (0 öğe)");
    assert_eq!(windir(None), "C:\\Windows");
    assert_eq!(windir(Some(s("D:\\Win"))), "D:\\Win");
    assert_eq!(local(None), "");
}

#[test]
fn dism_script_is_titled() {
    let sc = simple_dism(true, "ScanHealth", "/scanhealth");
    assert_eq!(say_text(&sc.ops[1]), Some((LineKind::Info, s("ScanHealth"))));
    assert_eq!(say_text(&sc.ops[4]), Some((LineKind::Success, s("Done."))));
}

#[test]
fn logs_are_looked_for_and_reported() {
    let v = log_sources("C:\\Windows");
    assert_eq!(v.len(), 6);
    assert_eq!(v[0], (s("C:\\Windows\\Logs\\CBS\\CBS.log"), s("CBS.log")));
    assert_eq!(v[1], (s("C:\\Windows\\Logs\\DISM\\CBS.log"), s("CBS.log")));
    assert_eq!(v[5], (s("C:\\Windows\\Logs\\DISM\\dism.log"), s("dism.log")));
    assert_eq!(log_folder(Some(s("C:\\Users\\ali"))), "C:\\Users\\ali\\Desktop\\bakim_loglari");
    assert_eq!(log_folder(None), "C:\\Users\\Public\\Desktop\\bakim_loglari");
    assert_eq!(
        texts(log_report(true, &vec![s("CBS.log"), s("DISM.log")], "D")),
        vec![
            (LineKind::Success, s("Copied: CBS.log, DISM.log")),
            (LineKind::Plain, s("  Folder: D")),
        ]
    );
    assert_eq!(
        texts(log_report(false, &Vec::new(), "D")),
        vec![(LineKind::Warn, s("Log bulunamadı veya erişim engellendi."))]
    );
}

#[test]
fn sections_and_sidebar() {
    let secs = all();
    assert_eq!(secs.len(), 6);
    assert_eq!(secs[0].id, SectionId::Home);
    assert_eq!(secs[0].items.len(), 5);
    assert_eq!(secs[2].items[0].title_en, "FULL AUTO REPAIR");
    assert!(secs[2].items[0].accent);
    assert_eq!(secs[4].items[5].action, Action::TurboOn);
    let nav = nav_items(true);
    assert_eq!(nav.len(), 6);
    assert_eq!(nav[4], (SectionId::Guc, Emoji::Controls, "Power"));
    assert_eq!(nav_items(false)[5].2, "Bilgi & Log");
    let b = section(SectionId::Bilgi);
    assert_eq!(b.items.len(), 3);
    assert_eq!(b.items[1].action, Action::Logs);
}

#[test]
fn emoji_names_and_files() {
    let all = all_emojis();
    assert_eq!(all.len(), 29);
    assert_eq!(all[0], Emoji::Home);
    for i in 0..all.len() {
        for j in i + 1..all.len() {
            assert_ne!(all[i], all[j]);
        }
    }
    assert_eq!(Emoji::Home.label(), "emoji_home");
    assert_eq!(Emoji::FlagTr.label(), "emoji_flagtr");
    assert_eq!(Emoji::FlagTr.file(), "1f1f9-1f1f7.png");
    assert_eq!(Emoji::Info.file(), "2139.png");
}

#[test]
fn emoji_labels_distinct_with_prefix() {
    let all = all_emojis();
    for i in 0..all.len() {
        assert!(all[i].label().starts_with("emoji_"));
        for j in i + 1..all.len() {
            assert_ne!(all[i].label(), all[j].label());
        }
    }
}

#[test]
fn png_decoding() {
    let png: [u8; 71] = [
        0x89, 0x50, 0x4e, 0x47, 0x0d, 0x0a, 0x1a, 0x0a, 0x00, 0x00, 0x00, 0x0d, 0x49, 0x48, 0x44,
        0x52, 0x00, 0x00, 0x00, 0x02, 0x00, 0x00, 0x00, 0x01, 0x08, 0x06, 0x00, 0x00, 0x00, 0xf4,
        0x22, 0x7f, 0x8a, 0x00, 0x00, 0x00, 0x0e, 0x49, 0x44, 0x41, 0x54, 0x78, 0x9c, 0x63, 0xf8,
        0xcf, 0xc0, 0x00, 0x42, 0x0d, 0x00, 0x0f, 0x7a, 0x03, 0x7e, 0x77, 0xe9, 0x7f, 0x97, 0x00,
        0x00, 0x00, 0x00, 0x49, 0x45, 0x4e, 0x44, 0xae, 0x42, 0x60, 0x82,
    ];
    let p = decode_png(&png).unwrap();
    assert_eq!((p.width, p.height), (2, 1));
    assert_eq!(p.rgba, vec![255, 0, 0, 255, 0, 0, 255, 128]);
    assert!(decode_png(b"not a picture").is_none());
}

fn shorten(text: &str, fits: impl Fn(&str) -> bool) -> String {
    if fits(text) {
        return text.to_string();
    }
    let mut f = FitSearch::new(text);
    while let Some(c) = f.candidate() {
        let ok = fits(&c);
        f.answer(ok);
    }
    f.result()
}

#[test]
fn status_text_is_shortened_to_fit() {
    let t = "Windows 11 Pro   |   C: 10.5 GB free   |   Admin";
    assert_eq!(shorten(t, |c| c.len() <= 100), t);
    let r = shorten(t, |c| c.len() <= 20);
    assert_eq!(r, "Windows 11 Pro   ...");
    assert_eq!(shorten(t, |c| c.len() <= 2), "...");
    // multi-byte characters are never cut in half
    let u = "ğğğğğ";
    let r = shorten(u, |c| c.len() <= 8);
    assert_eq!(r, "ğğ...");
}

/// Runs a script, answering every question with `yes`, every folder check
/// with `entries` and every stop check with `stop`; the lines it says.
fn walk(mut sc: Script, yes: bool, entries: bool, stop: bool) -> Vec<(LineKind, String)> {
    let mut said = Vec::new();
    let mut guard = 0;
    while let Some(op) = sc.current() {
        let answer = match op {
            Op::Say(k, t) => {
                said.push((*k, t.clone()));
                false
            },
            Op::Ask(_, _, _) => yes,
            Op::IfEntries(_, _) => entries,
            Op::StopPoint => stop,
            _ => false,
        };
        sc.advance(answer);
        guard += 1;
        assert!(guard < 1000);
    }
    said
}

#[test]
fn deep_clean_branches() {
    let p = paths();
    let all_yes = walk(deep_clean(true, &p), true, true, false);
    assert!(all_yes.contains(&(LineKind::Warn, s("   - Minidump deleted."))));
    assert!(all_yes.contains(&(LineKind::Dim, s("   - Browser caches cleared."))));
    assert_eq!(all_yes.last().unwrap().clone(), (LineKind::Success, s("Deep clean finished.")));

    let no_dumps = walk(deep_clean(true, &p), true, false, false);
    assert!(!no_dumps.iter().any(|(_, t)| t.contains("Minidump")));

    let kept = walk(deep_clean(false, &p), false, true, false);
    assert_eq!(kept, vec![(LineKind::Warn, s("İptal edildi."))]);

    let mut sc = deep_clean(true, &p);
    sc.advance(true);
    assert_eq!(sc.pc, 1);
    match &sc.ops[19] {
        Op::ClearDir(d, report) => {
            assert_eq!(d, "C:\\Windows\\Minidump");
            assert!(!*report);
        },
        _ => panic!("expected the minidump folder"),
    }
    match &sc.ops[25] {
        Op::ClearDir(d, _) => assert_eq!(d, "C:\\Users\\u\\AppData\\Local\\Microsoft\\Edge\\User Data\\Default\\Cache"),
        _ => panic!("expected the Edge cache"),
    }
}

#[test]
fn full_repair_stops_between_steps() {
    let done = walk(full_repair(true), true, true, false);
    assert_eq!(done[1], (LineKind::Info, s("> [1/6] CheckHealth")));
    assert_eq!(done[done.len() - 2], (LineKind::Success, s("All steps complete.")));
    let stopped = walk(full_repair(true), true, true, true);
    assert!(stopped.is_empty());
    let cancelled = walk(full_repair(false), false, true, false);
    assert_eq!(cancelled, vec![(LineKind::Warn, s("İptal edildi."))]);
}
