use sistem_bakim_araci::actions::power::{
    balanced, high_perf, power_saver, read_capture_result, read_run_result, ultimate, PowerCmd,
    PowerEvent, BALANCED, HIGH_PERF, POWER_SAVER, ULTIMATE,
};
use sistem_bakim_araci::actions::turbo::{turbo_off, turbo_on};
use sistem_bakim_araci::console::{Con, Line, LineKind};

fn texts(lines: Vec<Line>) -> Vec<(LineKind, String)> {
    lines
        .into_iter()
        .map(|l| match l {
            Line::Text(k, t) => (k, t),
            Line::Clear => (LineKind::Plain, "<clear>".to_string()),
        })
        .collect()
}

fn args(cmd: &PowerCmd) -> Vec<String> {
    match cmd {
        PowerCmd::Run(a) | PowerCmd::Capture(a) => a.clone(),
        _ => Vec::new(),
    }
}

fn dash() -> String {
    "-".repeat(52)
}

#[test]
fn already_active_plan_is_reported_without_commands() {
    let mut bus = Con::new();
    let mut job = balanced(&mut bus, true, BALANCED.to_uppercase());
    let cmd = job.step(&mut bus, true, PowerEvent::Start);
    assert!(matches!(cmd, PowerCmd::Finish(true)));
    let got = texts(bus.take());
    assert_eq!(
        got,
        vec![
            (LineKind::Big, dash()),
            (LineKind::Info, "BALANCED".to_string()),
            (LineKind::Dim, dash()),
            (LineKind::Success, "  Already active: \"Balanced\".".to_string()),
            (LineKind::Dim, "  - Windows default: switches automatically as needed.".to_string()),
        ]
    );
}

#[test]
fn plan_found_in_list_is_activated() {
    let mut bus = Con::new();
    let mut job = high_perf(&mut bus, false, String::new());
    bus.take();
    let c1 = job.step(&mut bus, false, PowerEvent::Start);
    assert!(matches!(c1, PowerCmd::Capture(_)));
    assert_eq!(args(&c1), vec!["-list".to_string()]);
    let list = format!(
        "Existing Power Schemes (* Active)\n-----------------------------------\nPower Scheme GUID: {}  (Balanced) *\nPower Scheme GUID: {}  (High performance)\n",
        BALANCED,
        HIGH_PERF.to_uppercase()
    );
    let c2 = job.step(&mut bus, false, PowerEvent::Captured(true, list.into_bytes(), Vec::new()));
    assert_eq!(args(&c2), vec!["-setactive".to_string(), HIGH_PERF.to_uppercase()]);
    let c3 = job.step(&mut bus, false, PowerEvent::Ran(true, Vec::new()));
    assert!(matches!(c3, PowerCmd::Finish(true)));
    assert_eq!(
        texts(bus.take()),
        vec![
            (LineKind::Success, "  Etkinleştirildi: \"Yüksek Performans\".".to_string()),
            (LineKind::Dim, "  - CPU yüksek frekansta tutulur; fan gürültüsü artabilir.".to_string()),
        ]
    );
}

#[test]
fn ultimate_plan_uses_the_guid_from_duplicatescheme() {
    let mut bus = Con::new();
    let mut job = ultimate(&mut bus, true, "381b4222-f694-41f0-9685-ff5bb260df2e".to_string());
    let head = texts(bus.take());
    assert_eq!(head.len(), 4);
    assert_eq!(
        head[3],
        (LineKind::Dim, "  - Chris Titus style: the hidden top-performance plan is unlocked.".to_string())
    );
    let c1 = job.step(&mut bus, true, PowerEvent::Start);
    assert_eq!(args(&c1), vec!["-list".to_string()]);
    let c2 = job.step(
        &mut bus,
        true,
        PowerEvent::Captured(true, b"Power Scheme GUID: 381b4222-f694-41f0-9685-ff5bb260df2e  (Balanced) *".to_vec(), Vec::new()),
    );
    assert!(matches!(c2, PowerCmd::Capture(_)));
    assert_eq!(args(&c2), vec!["-duplicatescheme".to_string(), ULTIMATE.to_string()]);
    let new_guid = "0a1b2c3d-4e5f-6071-8293-a4b5c6d7e8f9";
    let out = format!("Power Scheme GUID: {}  (Ultimate Performance)", new_guid);
    let c4 = job.step(&mut bus, true, PowerEvent::Captured(true, out.into_bytes(), Vec::new()));
    assert_eq!(args(&c4), vec!["-setactive".to_string(), new_guid.to_string()]);
    let c5 = job.step(&mut bus, true, PowerEvent::Ran(true, Vec::new()));
    assert!(matches!(c5, PowerCmd::Finish(true)));
    assert_eq!(
        texts(bus.take()),
        vec![
            (LineKind::Success, "  Activated: \"Ultimate Performance\".".to_string()),
            (LineKind::Dim, "  - The plan is auto-added if missing (powercfg -duplicatescheme).".to_string()),
        ]
    );
}

#[test]
fn plan_failure_reports_the_last_powercfg_error() {
    let mut bus = Con::new();
    let mut job = power_saver(&mut bus, true, String::new());
    bus.take();
    job.step(&mut bus, true, PowerEvent::Start);
    let c2 = job.step(&mut bus, true, PowerEvent::Captured(true, Vec::new(), Vec::new()));
    assert_eq!(args(&c2), vec!["-duplicatescheme".to_string(), POWER_SAVER.to_string()]);
    let c3 = job.step(&mut bus, true, PowerEvent::Captured(false, Vec::new(), b"  dup failed  ".to_vec()));
    assert!(matches!(c3, PowerCmd::Finish(false)));
    assert_eq!(
        texts(bus.take()),
        vec![
            (LineKind::Failure, "  Failed to activate: \"Power Saver\".".to_string()),
            (LineKind::Dim, "    powercfg: dup failed".to_string()),
        ]
    );
}

#[test]
fn plan_spawn_failure_counts_as_failed_command() {
    let mut bus = Con::new();
    let mut job = power_saver(&mut bus, false, String::new());
    bus.take();
    job.step(&mut bus, false, PowerEvent::Start);
    let c = job.step(&mut bus, false, PowerEvent::SpawnFailed("not found".to_string()));
    assert_eq!(args(&c), vec!["-duplicatescheme".to_string(), POWER_SAVER.to_string()]);
    let c = job.step(&mut bus, false, PowerEvent::SpawnFailed("program not found".to_string()));
    assert!(matches!(c, PowerCmd::Finish(false)));
    assert_eq!(
        texts(bus.take()),
        vec![
            (LineKind::Failure, "  Etkinleştirilemedi: \"Güç Tasarrufu\".".to_string()),
            (LineKind::Dim, "    powercfg: program not found".to_string()),
        ]
    );
}

#[test]
fn run_and_capture_results_are_decoded_and_trimmed() {
    let ev = PowerEvent::Ran(false, b"  hata \xfe\r\n".to_vec());
    let (ok, e) = read_run_result(&ev).unwrap();
    assert!(!ok);
    assert_eq!(e.into_iter().collect::<String>(), "hata ş");
    let ev = PowerEvent::Captured(true, b" out ".to_vec(), b"".to_vec());
    let (ok, o, e) = read_capture_result(&ev).unwrap();
    assert!(ok);
    assert_eq!(o.into_iter().collect::<String>(), "out");
    assert!(e.is_empty());
    assert!(read_run_result(&PowerEvent::Wrote(true)).is_none());
    assert!(read_capture_result(&PowerEvent::Active("x".to_string())).is_none());
}

#[test]
fn turbo_off_runs_five_commands_then_reports() {
    let mut bus = Con::new();
    let scheme = "381b4222-f694-41f0-9685-ff5bb260df2e";
    let mut job = turbo_off(&mut bus, true, scheme);
    let head = texts(bus.take());
    assert_eq!(head[1], (LineKind::Info, "TURBO OFF (99%)".to_string()));
    let c = job.step(&mut bus, true, PowerEvent::Start);
    assert_eq!(
        args(&c),
        vec![
            "-setacvalueindex".to_string(),
            scheme.to_string(),
            "54533251-82be-4824-96c1-47b60b740d00".to_string(),
            "bc5038f7-23e0-4960-96da-33abaf5935ec".to_string(),
            "99".to_string(),
        ]
    );
    let c = job.step(&mut bus, true, PowerEvent::Ran(true, Vec::new()));
    assert_eq!(args(&c)[3], "be337238-0d82-4146-a960-4f3749d470c7".to_string());
    assert_eq!(args(&c)[4], "0".to_string());
    let c = job.step(&mut bus, true, PowerEvent::Ran(false, b"denied".to_vec()));
    assert_eq!(args(&c)[0], "-setdcvalueindex".to_string());
    let c = job.step(&mut bus, true, PowerEvent::Ran(true, Vec::new()));
    assert_eq!(args(&c)[0], "-setdcvalueindex".to_string());
    let c = job.step(&mut bus, true, PowerEvent::Ran(true, Vec::new()));
    assert_eq!(args(&c), vec!["-setactive".to_string(), scheme.to_string()]);
    let c = job.step(&mut bus, true, PowerEvent::Ran(true, Vec::new()));
    assert!(matches!(c, PowerCmd::Finish(true)));
    assert_eq!(
        texts(bus.take()),
        vec![
            (LineKind::Dim, "  - (Temporary protection is set; any error shown below is harmless.)".to_string()),
            (LineKind::Success, "  Applied: Turbo off (99%). CPU at base clock, cooler.".to_string()),
            (LineKind::Dim, "    powercfg: denied".to_string()),
            (LineKind::Dim, "  - If games stutter, undo with 'Turbo On'.".to_string()),
        ]
    );
}

#[test]
fn turbo_on_falls_back_on_the_registry() {
    let mut bus = Con::new();
    let mut job = turbo_on(&mut bus, true, "");
    bus.take();
    let c = job.step(&mut bus, true, PowerEvent::Start);
    assert_eq!(args(&c)[1], "SCHEME_CURRENT".to_string());
    assert_eq!(args(&c)[4], "100".to_string());
    for _ in 0..4 {
        job.step(&mut bus, true, PowerEvent::Ran(false, Vec::new()));
    }
    let c = job.step(&mut bus, true, PowerEvent::Ran(false, Vec::new()));
    assert!(matches!(c, PowerCmd::ReadActive));
    let c = job.step(&mut bus, true, PowerEvent::Active("abc".to_string()));
    let key = "SYSTEM\\CurrentControlSet\\Control\\Power\\User\\PowerSchemes\\abc\\54533251-82be-4824-96c1-47b60b740d00\\bc5038f7-23e0-4960-96da-33abaf5935ec";
    match &c {
        PowerCmd::SetDword(k, v, d) => {
            assert_eq!(k, key);
            assert_eq!(v, "ACSettingIndex");
            assert_eq!(*d, 100);
        },
        _ => panic!("expected a registry write"),
    }
    let c = job.step(&mut bus, true, PowerEvent::Wrote(true));
    match &c {
        PowerCmd::SetDword(k, v, d) => {
            assert_eq!(k, key);
            assert_eq!(v, "DCSettingIndex");
            assert_eq!(*d, 100);
        },
        _ => panic!("expected a registry write"),
    }
    let c = job.step(&mut bus, true, PowerEvent::Wrote(false));
    assert!(matches!(c, PowerCmd::Finish(true)));
    assert_eq!(
        texts(bus.take()),
        vec![
            (LineKind::Dim, "  - powercfg didn't respond; the value was written directly to the registry.".to_string()),
            (LineKind::Success, "  Applied: Turbo on (100%). You can run at full speed.".to_string()),
        ]
    );
}

#[test]
fn turbo_off_without_any_effect_gives_manual_steps() {
    let mut bus = Con::new();
    let mut job = turbo_off(&mut bus, false, "");
    bus.take();
    job.step(&mut bus, false, PowerEvent::Start);
    for _ in 0..5 {
        job.step(&mut bus, false, PowerEvent::Ran(false, Vec::new()));
    }
    let c = job.step(&mut bus, false, PowerEvent::Active(String::new()));
    assert!(matches!(c, PowerCmd::Finish(false)));
    assert_eq!(
        texts(bus.take()),
        vec![
            (LineKind::Failure, "  Uygulanamadı. Görünüşe göre komutlar sessizce başarısız oluyor.".to_string()),
            (LineKind::Dim, "    powercfg: (çıktı/ipucu yok)".to_string()),
            (LineKind::Success, "  EL İLE YAP: Yönetici olarak şunu çalıştır:".to_string()),
            (LineKind::Big, "    powercfg /setacvalueindex SCHEME_CURRENT SUB_PROCESSOR PROCTHROTTLEMAX 99".to_string()),
            (LineKind::Big, "    powercfg /setdcvalueindex SCHEME_CURRENT SUB_PROCESSOR PROCTHROTTLEMAX 99".to_string()),
            (LineKind::Big, "    powercfg /setactive SCHEME_CURRENT".to_string()),
        ]
    );
}
