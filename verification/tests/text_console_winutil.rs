use sistem_bakim_araci::actions::decode::{cp1254, decode, is_progress};
use sistem_bakim_araci::actions::guid::{extract_guid, looks_like_guid};
use sistem_bakim_araci::actions::osinfo::{os_build_string, os_string, product_name};
use sistem_bakim_araci::actions::stream::{exit_warning, spawn_failed, stopped_text, stream_line, wait_failed};
use sistem_bakim_araci::console::{Con, Console, Line, LineKind, MAX_LINES};
use sistem_bakim_araci::winutil::{
    already_open_text, already_running, dword_value, list2cmdline, lua_enabled, reg_text,
    shell_execute_ok, wide, ERROR_ALREADY_EXISTS, MUTEX_NAME,
};

fn s(x: &str) -> String {
    x.to_string()
}

fn texts(lines: &[Line]) -> Vec<(LineKind, String)> {
    lines
        .iter()
        .map(|l| match l {
            Line::Text(k, t) => (*k, t.clone()),
            Line::Clear => (LineKind::Plain, s("<clear>")),
        })
        .collect()
}

fn one(l: Option<Line>) -> Option<(LineKind, String)> {
    l.map(|l| match l {
        Line::Text(k, t) => (k, t),
        Line::Clear => (LineKind::Plain, s("<clear>")),
    })
}

#[test]
fn output_is_decoded_utf8_then_code_page() {
    assert_eq!(decode(b"abc"), "abc");
    assert_eq!(decode(&[0xC4, 0x9F]), "ğ");
    assert_eq!(decode(&[0x44, 0xF0, 0xFD]), "Dğı");
    assert_eq!(decode(&[0x81]), "\u{FFFD}");
    assert_eq!(decode(&[]), "");
    assert_eq!(cp1254(0x41), 'A');
    assert_eq!(cp1254(0x80), '\u{20AC}');
    assert_eq!(cp1254(0xDD), '\u{0130}');
    assert_eq!(cp1254(0xFE), '\u{015F}');
}

#[test]
fn progress_lines_are_recognised() {
    assert!(is_progress("  [=====          42.0%          ]  "));
    assert!(!is_progress("[no percent]"));
    assert!(!is_progress("50% done"));
    let long = format!("[{}%]", "=".repeat(78));
    assert!(!is_progress(&long));
    let short = format!("[{}%]", "=".repeat(76));
    assert!(is_progress(&short));
    assert!(!is_progress(""));
}

#[test]
fn stream_lines() {
    assert_eq!(one(stream_line(b"hello\r\n")), Some((LineKind::Plain, s("hello"))));
    assert_eq!(one(stream_line(b"  x  \n")), Some((LineKind::Plain, s("  x  "))));
    assert_eq!(one(stream_line(b"\r\n")), None);
    assert_eq!(one(stream_line(b"")), None);
    assert_eq!(
        one(stream_line(b"[==        10.0%        ]\r")),
        Some((LineKind::Progress, s("[==        10.0%        ]")))
    );
    assert_eq!(one(stream_line(&[0x47, 0xFC, 0x6E, 0x0A])), Some((LineKind::Plain, s("Gün"))));
}

#[test]
fn run_messages() {
    assert_eq!(spawn_failed(true, "dism", "not found"), "(dism) failed to start: not found");
    assert_eq!(spawn_failed(false, "sfc", "x"), "(sfc) başlatılamadı: x");
    assert_eq!(stopped_text(true), "Process stopped.");
    assert_eq!(stopped_text(false), "İşlem durduruldu.");
    assert_eq!(exit_warning(true, true, Some(0)), None);
    assert_eq!(exit_warning(true, false, Some(3)), Some(s("Exit code: 3")));
    assert_eq!(exit_warning(false, false, None), Some(s("Çıkış kodu: -1")));
    assert_eq!(exit_warning(true, false, Some(i32::MIN)), Some(s("Exit code: -2147483648")));
    assert_eq!(wait_failed(true, "boom"), "Wait error: boom");
}

#[test]
fn guids() {
    let g = "381b4222-f694-41f0-9685-ff5bb260df2e";
    assert!(looks_like_guid(g));
    assert!(looks_like_guid(&g.to_uppercase()));
    assert!(!looks_like_guid("381b4222-f694-41f0-9685-ff5bb260df2g"));
    assert!(!looks_like_guid("381b4222f694-41f0-9685-ff5bb260df2e0"));
    assert_eq!(
        extract_guid("Power Scheme GUID: 381b4222-f694-41f0-9685-ff5bb260df2e  (Balanced) *"),
        Some(s(g))
    );
    assert_eq!(extract_guid("{381b4222-f694-41f0-9685-ff5bb260df2e}"), Some(s(g)));
    assert_eq!(extract_guid("nothing here"), None);
    assert_eq!(extract_guid(""), None);
}

#[test]
fn operating_system_line() {
    assert_eq!(os_build_string("26100", Some(2605)), "26100.2605");
    assert_eq!(os_build_string("22631", None), "22631");
    assert_eq!(os_build_string("", Some(1)), "");
    assert_eq!(
        product_name("Windows 10 IoT Enterprise LTSC 2024", "26100.2605"),
        "Windows 11 IoT Enterprise LTSC 2024"
    );
    assert_eq!(product_name("Windows 11 Home", "19045"), "Windows 10 Home");
    assert_eq!(product_name("Windows 10 Pro", "19045"), "Windows 10 Pro");
    assert_eq!(product_name("Windows 10 Pro", "abc"), "Windows 10 Pro");
    assert_eq!(
        os_string("Windows 10 IoT Enterprise LTSC 2024", "24H2", "26100.2605"),
        "Windows 11 IoT Enterprise LTSC 2024 24H2 build 26100.2605"
    );
    assert_eq!(os_string("", "", "19045"), "build 19045");
    assert_eq!(os_string("", "", ""), "bilinmiyor");
}

#[test]
fn writer_appends_in_order() {
    let mut c = Con::new();
    c.ok("a");
    c.err("b");
    c.warn("c");
    c.info("d");
    c.dim("e");
    c.big("f");
    c.plain("g");
    c.progress("h");
    c.clear();
    c.header("T");
    let out = c.take();
    let dash = "-".repeat(52);
    assert_eq!(
        texts(&out),
        vec![
            (LineKind::Success, s("a")),
            (LineKind::Failure, s("b")),
            (LineKind::Warn, s("c")),
            (LineKind::Info, s("d")),
            (LineKind::Dim, s("e")),
            (LineKind::Big, s("f")),
            (LineKind::Plain, s("g")),
            (LineKind::Progress, s("h")),
            (LineKind::Plain, s("<clear>")),
            (LineKind::Big, dash.clone()),
            (LineKind::Info, s("T")),
            (LineKind::Dim, dash),
        ]
    );
    assert!(c.take().is_empty());
}

#[test]
fn console_collapses_progress_and_clears() {
    let mut con = Console::new();
    assert!(con.visible && con.autoscroll);
    con.poll(vec![
        Line::Text(LineKind::Plain, s("start")),
        Line::Text(LineKind::Progress, s("[ 10%]")),
        Line::Text(LineKind::Progress, s("[ 20%]")),
        Line::Text(LineKind::Plain, s("mid")),
        Line::Text(LineKind::Progress, s("[ 30%]")),
    ]);
    con.poll(vec![Line::Text(LineKind::Progress, s("[ 40%]"))]);
    assert_eq!(
        texts(con.lines()),
        vec![
            (LineKind::Plain, s("start")),
            (LineKind::Progress, s("[ 20%]")),
            (LineKind::Plain, s("mid")),
            (LineKind::Progress, s("[ 40%]")),
        ]
    );
    con.poll(vec![Line::Text(LineKind::Plain, s("x")), Line::Clear, Line::Text(LineKind::Info, s("y"))]);
    assert_eq!(texts(con.lines()), vec![(LineKind::Info, s("y"))]);
    con.clear();
    assert!(con.lines().is_empty());
}

#[test]
fn console_keeps_the_last_lines() {
    let mut con = Console::new();
    let incoming: Vec<Line> = (0..MAX_LINES + 3).map(|i| Line::Text(LineKind::Plain, i.to_string())).collect();
    con.poll(incoming);
    assert_eq!(con.lines().len(), MAX_LINES);
    assert_eq!(texts(&con.lines()[..1]), vec![(LineKind::Plain, s("3"))]);
    assert_eq!(texts(&con.lines()[MAX_LINES - 1..]), vec![(LineKind::Plain, (MAX_LINES + 2).to_string())]);
}

#[test]
fn wide_strings() {
    assert_eq!(wide("A"), vec![0x41, 0]);
    assert_eq!(wide("ğ😀"), vec![0x011F, 0xD83D, 0xDE00, 0]);
    assert_eq!(wide(""), vec![0]);
    let expected: Vec<u16> = "a".encode_utf16().chain(std::iter::once(0)).collect();
    assert_eq!(wide("a"), expected);
}

#[test]
fn command_lines_quote_as_needed() {
    let args = vec![s("a b"), s("c"), s(""), s("say \"hi\"")];
    let expected: Vec<u16> = "\"a b\" c \"\" \"say \\\"hi\\\"\""
        .encode_utf16()
        .chain(std::iter::once(0))
        .collect();
    assert_eq!(list2cmdline(&args), expected);
    assert_eq!(list2cmdline(&Vec::new()), vec![0]);
    let expected: Vec<u16> = "--x".encode_utf16().chain(std::iter::once(0)).collect();
    assert_eq!(list2cmdline(&vec![s("--x")]), expected);
}

#[test]
fn registry_text_is_cleaned() {
    assert_eq!(reg_text(&[0x41, 0x42, 0, 0], 6), Some(s("AB")));
    assert_eq!(reg_text(&[0x20, 0x41, 0x20, 0], 8), Some(s("A")));
    assert_eq!(reg_text(&[0x41], 1), None);
    assert_eq!(reg_text(&[0, 0, 0x20], 6), None);
    assert_eq!(reg_text(&[0xD800, 0x41], 4), Some(s("\u{FFFD}A")));
    assert_eq!(reg_text(&[0x41, 0x42, 0x43], 4), Some(s("AB")));
    let g = wide(" 381b4222-f694-41f0-9685-ff5bb260df2e\0");
    let bytes = (g.len() * 2) as u32;
    assert_eq!(reg_text(&g, bytes), Some(s("381b4222-f694-41f0-9685-ff5bb260df2e")));
}

#[test]
fn api_conclusions() {
    assert!(lua_enabled(None));
    assert!(lua_enabled(Some(s("1"))));
    assert!(!lua_enabled(Some(s("0"))));
    assert!(lua_enabled(Some(s("00"))));
    assert_eq!(dword_value(0, 4, 7), Some(7));
    assert_eq!(dword_value(0, 1, 7), None);
    assert_eq!(dword_value(2, 4, 7), None);
    assert!(already_running(false, ERROR_ALREADY_EXISTS));
    assert!(!already_running(true, 183));
    assert!(!already_running(false, 0));
    assert!(shell_execute_ok(33));
    assert!(!shell_execute_ok(32));
    assert!(!shell_execute_ok(usize::MAX));
    assert_eq!(MUTEX_NAME, "Global\\SistemBakimAraci_v4_8b2e11");
    assert_eq!(already_open_text(true), "The app is already open.\nTaking you to the open window.");
}
