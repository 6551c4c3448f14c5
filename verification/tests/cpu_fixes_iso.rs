use sistem_bakim_araci::actions::cpu::{
    is_gen13_14, is_intel, le_u64, microcode_low, microcode_prev, microcode_raw, microcode_status,
    throttle_index, turbo_enabled, CpuFacts,
};
use sistem_bakim_araci::actions::fixes::{detect, known_issues, FixCmd, FixEvent, KEY_MM, KEY_POWER};
use sistem_bakim_araci::actions::iso::{dismount_iso, drive_letter, mount_iso, restore_iso, IsoCmd, IsoEvent};
use sistem_bakim_araci::console::{Con, Line, LineKind};

fn texts(lines: Vec<Line>) -> Vec<(LineKind, String)> {
    lines
        .into_iter()
        .map(|l| match l {
            Line::Text(k, t) => (k, t),
            Line::Clear => (LineKind::Plain, "<clear>".to_string()),
        })
        .collect()
}

fn s(x: &str) -> String {
    x.to_string()
}

#[test]
fn microcode_low_reads_the_revision() {
    assert_eq!(microcode_low(0x0000_0000_0000_0119), Some(0x119));
    assert_eq!(microcode_low(0xFFFF_FFFF_0000_012B), Some(0x12B));
    assert_eq!(microcode_low(0xFFFF_FFFF_FFFF_FFFF), None);
    assert_eq!(microcode_low(0x0000_0000_FFFF_FFFF), None);
    assert_eq!(microcode_low(0), None);
    assert_eq!(microcode_low(0xFFFF_FFFF_0000_0000), None);
    // 0 and 0xFFFFFFFF in the lower half are never a revision, whatever the
    // upper half holds
    assert_eq!(microcode_low(0x0000_0002_FFFF_FFFF), None);
    assert_eq!(microcode_low(0x0000_0001_0000_0000), None);
    assert_eq!(microcode_low(0x0000_012B_0000_0000), None);
    assert_eq!(microcode_low(0x0000_0003_0000_0129), Some(0x129));
}

#[test]
fn raw_microcode_is_little_endian_over_eight_bytes() {
    assert_eq!(le_u64(&[0x19, 0x01]), 0x119);
    assert_eq!(le_u64(&[1, 2, 3, 4, 5, 6, 7, 8, 9]), 0x0807_0605_0403_0201);
    assert_eq!(microcode_raw(Some(&[0x2B, 0x01, 0, 0, 0, 0, 0, 0])), Some(0x12B));
    assert_eq!(microcode_raw(None), None);
    assert_eq!(microcode_prev(Some(&[])), Some(0));
    assert_eq!(microcode_prev(None), None);
}

#[test]
fn generation_and_vendor() {
    assert!(is_gen13_14("13th Gen Intel(R) Core(TM) i7-13700K"));
    assert!(is_gen13_14("Intel(R) Core(TM) i9-14900KF"));
    assert!(!is_gen13_14("12th Gen Intel(R) Core(TM) i5-12400F"));
    assert!(!is_gen13_14("AMD Ryzen 7 5800X 8-Core Processor"));
    assert!(is_gen13_14("99999999999999999999999 13500"));
    assert!(!is_gen13_14("15000"));
    assert!(is_intel("GenuineIntel"));
    assert!(is_intel("xxGENUINEINTELxx"));
    assert!(!is_intel("AuthenticAMD"));
}

#[test]
fn turbo_state_from_the_throttle_setting() {
    assert_eq!(turbo_enabled(None), None);
    assert_eq!(turbo_enabled(Some(None)), Some(true));
    assert_eq!(turbo_enabled(Some(Some(100))), Some(true));
    assert_eq!(turbo_enabled(Some(Some(99))), Some(false));
    assert_eq!(throttle_index(Some(99), Some(100)), Some(99));
    assert_eq!(throttle_index(None, Some(100)), Some(100));
    assert_eq!(throttle_index(None, None), None);
}

#[test]
fn microcode_report_for_an_affected_cpu() {
    let mut bus = Con::new();
    let f = CpuFacts {
        identifier: s("13th Gen Intel(R) Core(TM) i9-13900K"),
        vendor: s("GenuineIntel"),
        signature: s("Intel64 Family 6 Model 183 Stepping 1"),
        update_revision: Some(0x119),
        previous_revision: None,
        turbo: Some(true),
    };
    microcode_status(&mut bus, true, &f);
    let dash = "-".repeat(52);
    assert_eq!(
        texts(bus.take()),
        vec![
            (LineKind::Big, dash.clone()),
            (LineKind::Info, s("CPU / BIOS - MICROCODE CHECK")),
            (LineKind::Dim, dash),
            (LineKind::Plain, s("  Processor : 13th Gen Intel(R) Core(TM) i9-13900K")),
            (LineKind::Plain, s("  ID   : Intel64 Family 6 Model 183 Stepping 1")),
            (LineKind::Plain, s("  Microcode (Windows)  : 0x119")),
            (LineKind::Dim, s("  Microcode (BIOS)     : unavailable")),
            (LineKind::Warn, s("  DETECTED: Intel 13/14th gen CPU.")),
            (LineKind::Warn, s("  Turbo (Max Processor): ON (100%).")),
            (LineKind::Warn, s("  Microcode is old (0x119). Current: 0x12B or newer.")),
            (LineKind::Dim, s("  - On this generation, with old microcode")),
            (LineKind::Dim, s("    heavy load (especially Hyper-V / VMs) can cause blue screens.")),
            (LineKind::Dim, s("    Permanent fix: updated BIOS from the motherboard vendor (microcode 0x12B+).")),
            (LineKind::Warn, s("  Turbo on + old microcode. Turning it off is recommended for protection.")),
            (LineKind::Dim, s("  - To turn it off: left panel 'Power' section → 'Turbo Off (99%)'.")),
        ]
    );
}

#[test]
fn microcode_report_for_other_cpus() {
    let mut bus = Con::new();
    let f = CpuFacts {
        identifier: String::new(),
        vendor: s("AuthenticAMD"),
        signature: String::new(),
        update_revision: Some(0xFFFF_FFFF),
        previous_revision: Some(0x0A20_1210),
        turbo: None,
    };
    microcode_status(&mut bus, false, &f);
    let got = texts(bus.take());
    assert_eq!(
        got[3..].to_vec(),
        vec![
            (LineKind::Plain, s("  İşlemci : okunamadı")),
            (LineKind::Plain, s("  Mikrokod (Windows)  : bildirilmiyor")),
            (LineKind::Plain, s("  Mikrokod (BIOS)     : 0xA201210")),
            (LineKind::Success, s("  İşlemci Intel 13./14. nesil değil - mikrokod riski yok.")),
        ]
    );
}

#[test]
fn microcode_report_with_turbo_already_off() {
    let mut bus = Con::new();
    let f = CpuFacts {
        identifier: s("Intel(R) Core(TM) i7-14700"),
        vendor: s("GenuineIntel"),
        signature: String::new(),
        update_revision: None,
        previous_revision: Some(0x12F),
        turbo: Some(false),
    };
    microcode_status(&mut bus, true, &f);
    let got = texts(bus.take());
    assert_eq!(
        got[6..].to_vec(),
        vec![
            (LineKind::Warn, s("  DETECTED: Intel 13/14th gen CPU.")),
            (LineKind::Success, s("  Turbo (Max Processor): off (99%) - protection active.")),
            (LineKind::Success, s("  Microcode is current (0x12B or newer). No extra action needed.")),
            (LineKind::Success, s("  Turbo off (99%) - CPU runs at base clock, games may stutter.")),
            (LineKind::Dim, s("  - To re-enable: left panel 'Power' section → 'Turbo On (100%)'.")),
        ]
    );
}

#[test]
fn detectors_read_reg_query_output() {
    assert!(detect(0, "    HiberbootEnabled    REG_DWORD    0x1"));
    assert!(!detect(0, "    HiberbootEnabled    REG_DWORD    0x0"));
    assert!(!detect(1, "    CWDIllegalInDllSearch    REG_DWORD    0xFFFFFFFF"));
    assert!(detect(1, ""));
    assert!(detect(2, "ERROR: The system was unable to find the specified registry key or value."));
    assert!(!detect(3, "    AllowGameDVR    REG_DWORD    0x0"));
    assert!(detect(3, "    AllowGameDVR    REG_DWORD    0x1"));
}

fn cmd_args(c: &FixCmd) -> Vec<String> {
    match c {
        FixCmd::Query(a) | FixCmd::Apply(a) => a.clone(),
        _ => Vec::new(),
    }
}

#[test]
fn known_issues_scans_asks_once_and_applies() {
    let mut bus = Con::new();
    let mut job = known_issues();
    let c = job.step(&mut bus, true, FixEvent::Start);
    assert_eq!(cmd_args(&c), vec![s("query"), s(KEY_POWER), s("/v"), s("HiberbootEnabled")]);
    let c = job.step(&mut bus, true, FixEvent::Output(b"    HiberbootEnabled    REG_DWORD    0x1\r\n".to_vec()));
    assert_eq!(cmd_args(&c)[3], s("CWDIllegalInDllSearch"));
    let c = job.step(&mut bus, true, FixEvent::Output(b"CWDIllegalInDllSearch REG_DWORD 0xffffffff".to_vec()));
    assert_eq!(cmd_args(&c)[1], s(KEY_MM));
    let c = job.step(&mut bus, true, FixEvent::Output(Vec::new()));
    assert_eq!(cmd_args(&c)[3], s("AllowGameDVR"));
    let c = job.step(&mut bus, true, FixEvent::Output(b"AllowGameDVR REG_DWORD 0x0".to_vec()));
    match &c {
        FixCmd::Ask(t, m) => {
            assert_eq!(t, "Known Issues");
            assert_eq!(
                m,
                "Apply these fixes?\n\n  - Fast Startup will be disabled\n  - Network throttling will be disabled (for game/stream latency)\n\nOnly safe settings change; reversible."
            );
        },
        _ => panic!("expected the question"),
    }
    let c = job.step(&mut bus, true, FixEvent::Answer(true));
    assert_eq!(
        cmd_args(&c),
        vec![
            s("add"),
            s(KEY_POWER),
            s("/v"),
            s("HiberbootEnabled"),
            s("/t"),
            s("REG_DWORD"),
            s("/d"),
            s("0"),
            s("/f")
        ]
    );
    let c = job.step(&mut bus, true, FixEvent::Applied(true));
    assert_eq!(cmd_args(&c)[7], s("0xffffffff"));
    let c = job.step(&mut bus, true, FixEvent::Applied(false));
    assert!(matches!(c, FixCmd::Finish));
    let dash = "-".repeat(52);
    assert_eq!(
        texts(bus.take()),
        vec![
            (LineKind::Big, dash.clone()),
            (LineKind::Info, s("KNOWN ISSUES SCAN")),
            (LineKind::Dim, dash),
            (LineKind::Warn, s("  - Fast Startup: ON")),
            (LineKind::Success, s("  - DLL search protection: present (good)")),
            (LineKind::Warn, s("  - Network throttling: ON")),
            (LineKind::Success, s("  - GameDVR: off (good)")),
            (LineKind::Dim, s("  To apply: 2 fixes")),
            (LineKind::Success, s("  Applied: Fast Startup will be disabled")),
            (LineKind::Failure, s("  Failed: Network throttling will be disabled (for game/stream latency)")),
            (LineKind::Success, s("Done.")),
        ]
    );
}

#[test]
fn known_issues_clean_system_and_cancel() {
    let mut bus = Con::new();
    let mut job = known_issues();
    job.step(&mut bus, false, FixEvent::Start);
    job.step(&mut bus, false, FixEvent::Output(b"0x0".to_vec()));
    job.step(&mut bus, false, FixEvent::Output(b"0xffffffff".to_vec()));
    job.step(&mut bus, false, FixEvent::Output(b"0xffffffff".to_vec()));
    let c = job.step(&mut bus, false, FixEvent::Output(b"0x0".to_vec()));
    assert!(matches!(c, FixCmd::Finish));
    let got = texts(bus.take());
    assert_eq!(
        got.last().unwrap().clone(),
        (LineKind::Success, s("Bilinen sorun bulunamadı - sistem bu kontrollerde temiz."))
    );

    let mut job = known_issues();
    job.step(&mut bus, false, FixEvent::Start);
    for _ in 0..4 {
        job.step(&mut bus, false, FixEvent::Output(Vec::new()));
    }
    let c = job.step(&mut bus, false, FixEvent::Answer(false));
    assert!(matches!(c, FixCmd::Finish));
    let got = texts(bus.take());
    assert_eq!(got[got.len() - 2], (LineKind::Dim, s("  Uygulanacak: 3 düzeltme")));
    assert_eq!(got[got.len() - 1], (LineKind::Warn, s("İptal edildi.")));
}

#[test]
fn iso_commands_quote_the_path() {
    assert_eq!(
        mount_iso("C:\\a'b.iso"),
        vec![
            s("-NoProfile"),
            s("-Command"),
            s("try { (Mount-DiskImage -ImagePath 'C:\\a''b.iso' -PassThru | Get-Volume).DriveLetter } catch { '' }")
        ]
    );
    assert_eq!(
        dismount_iso("D:\\x.iso"),
        vec![
            s("-NoProfile"),
            s("-Command"),
            s("Dismount-DiskImage -ImagePath 'D:\\x.iso' -ErrorAction SilentlyContinue")
        ]
    );
    assert_eq!(drive_letter("\r\n  E  \r\n\r\n"), s("E"));
    assert_eq!(drive_letter("F:\n"), s("F"));
    assert_eq!(drive_letter("   \n"), s(""));
    assert_eq!(drive_letter("junk\nG::"), s("G"));
}

#[test]
fn iso_repair_mounts_repairs_and_dismounts() {
    let mut bus = Con::new();
    let mut job = restore_iso("C:\\win.iso");
    let c = job.step(&mut bus, true, IsoEvent::Start);
    assert!(matches!(c, IsoCmd::Capture(_)));
    let c = job.step(&mut bus, true, IsoEvent::Output(b"E\r\n".to_vec()));
    match &c {
        IsoCmd::IsFile(p) => assert_eq!(p, "E:\\sources\\install.wim"),
        _ => panic!("expected a file check"),
    }
    let c = job.step(&mut bus, true, IsoEvent::Flag(false));
    match &c {
        IsoCmd::IsFile(p) => assert_eq!(p, "E:\\sources\\install.esd"),
        _ => panic!("expected a file check"),
    }
    let c = job.step(&mut bus, true, IsoEvent::Flag(true));
    match &c {
        IsoCmd::Stream(a) => assert_eq!(
            a,
            &vec![
                s("/online"),
                s("/cleanup-image"),
                s("/restorehealth"),
                s("/source:E:\\sources\\install.esd"),
                s("/limitaccess")
            ]
        ),
        _ => panic!("expected dism"),
    }
    let c = job.step(&mut bus, true, IsoEvent::Done);
    match &c {
        IsoCmd::Capture(a) => assert_eq!(a, &dismount_iso("C:\\win.iso")),
        _ => panic!("expected the dismount"),
    }
    let c = job.step(&mut bus, true, IsoEvent::Output(Vec::new()));
    assert!(matches!(c, IsoCmd::Finish));
    let got = texts(bus.take());
    assert_eq!(got[1], (LineKind::Info, s("RestoreHealth + ISO")));
    assert_eq!(got[3], (LineKind::Dim, s("ISO: C:\\win.iso")));
    assert_eq!(got.last().unwrap().clone(), (LineKind::Success, s("ISO repair finished.")));
}

#[test]
fn iso_repair_reports_a_failed_mount_and_a_missing_image() {
    let mut bus = Con::new();
    let mut job = restore_iso("C:\\bad.iso");
    job.step(&mut bus, false, IsoEvent::Start);
    let c = job.step(&mut bus, false, IsoEvent::Output(Vec::new()));
    assert!(matches!(c, IsoCmd::Finish));
    assert_eq!(texts(bus.take()).last().unwrap().clone(), (LineKind::Failure, s("ISO mount edilemedi.")));

    let mut job = restore_iso("C:\\empty.iso");
    job.step(&mut bus, true, IsoEvent::Start);
    job.step(&mut bus, true, IsoEvent::Output(b"H".to_vec()));
    job.step(&mut bus, true, IsoEvent::Flag(false));
    let c = job.step(&mut bus, true, IsoEvent::Flag(false));
    assert!(matches!(c, IsoCmd::Capture(_)));
    let c = job.step(&mut bus, true, IsoEvent::Output(Vec::new()));
    assert!(matches!(c, IsoCmd::Finish));
    let got = texts(bus.take());
    let n = got.len();
    assert_eq!(got[n - 2], (LineKind::Failure, s("install.wim / install.esd not found in ISO.")));
    assert_eq!(got[n - 1], (LineKind::Success, s("ISO repair finished.")));
}
