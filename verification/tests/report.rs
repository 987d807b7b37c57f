use localtcp::report::{
    already_reported, banner, fail, install_outcome, push_decimal, record, recorded_node_report,
    reg_delete_failure, reg_run_failure, removal_failure, say, uninstall_outcome, verify_install,
    verify_removal, warn, LogLine,
};

fn lines(log: &[LogLine]) -> Vec<(bool, String)> {
    log.iter().map(|l| (l.to_stderr, l.text.clone())).collect()
}

fn out(s: &str) -> (bool, String) {
    (false, s.to_string())
}

fn err(s: &str) -> (bool, String) {
    (true, s.to_string())
}

#[test]
fn record_appends_the_line_and_a_newline() {
    let mut t = String::new();
    record(&mut t, "[OK] first");
    record(&mut t, "");
    record(&mut t, "second");
    assert_eq!(t, "[OK] first\n\nsecond\n");
}

#[test]
fn say_and_warn_pick_the_stream() {
    let s = say("hello".to_string());
    assert!(!s.to_stderr);
    assert_eq!(s.text, "hello");
    let w = warn("careful".to_string());
    assert!(w.to_stderr);
    assert_eq!(w.text, "careful");
}

#[test]
fn banner_frames_the_title() {
    assert_eq!(
        banner("Local TCP Bridge — Installer v2.1.1"),
        vec![
            "\n----------------------------------------------------".to_string(),
            " Local TCP Bridge — Installer v2.1.1".to_string(),
            "----------------------------------------------------".to_string(),
        ]
    );
}

#[test]
fn push_decimal_writes_numerals() {
    let mut s = String::from("n=");
    push_decimal(&mut s, 0);
    s.push(' ');
    push_decimal(&mut s, 7);
    s.push(' ');
    push_decimal(&mut s, 1234567890);
    assert_eq!(s, "n=0 7 1234567890");
    let mut big = String::new();
    push_decimal(&mut big, usize::MAX);
    assert_eq!(big, usize::MAX.to_string());
}

#[test]
fn fail_records_and_reports() {
    let mut problems = vec!["earlier".to_string()];
    let l = fail(&mut problems, "could not remove /x: denied".to_string());
    assert_eq!(problems, vec!["earlier".to_string(), "could not remove /x: denied".to_string()]);
    assert!(l.to_stderr);
    assert_eq!(l.text, "  [FAIL] could not remove /x: denied");
}

#[test]
fn already_reported_looks_for_the_path_in_any_problem() {
    let problems = vec![
        "could not delete HKCU\\Software\\X: access denied".to_string(),
        removal_failure("/home/me/.config/chromium/NativeMessagingHosts/com.algoramming.localtcp.json", "Permission denied"),
    ];
    assert!(already_reported(&problems, "/home/me/.config/chromium/NativeMessagingHosts/com.algoramming.localtcp.json"));
    assert!(already_reported(&problems, "HKCU\\Software\\X"));
    assert!(!already_reported(&problems, "/home/me/.local/lib/algoramming/localtcp"));
    assert!(!already_reported(&Vec::new(), "/x"));
}

#[test]
fn removal_failure_names_path_and_error() {
    assert_eq!(removal_failure("/a/b", "busy"), "could not remove /a/b: busy");
}

#[test]
fn verify_removal_of_a_clean_uninstall_passes() {
    let mut problems: Vec<String> = Vec::new();
    let manifests = vec![("/m/a.json".to_string(), false), ("/m/b.json".to_string(), false)];
    let log = verify_removal("/inst", false, &manifests, &Vec::new(), &mut problems);
    assert!(problems.is_empty());
    assert_eq!(
        lines(&log),
        vec![
            out(""),
            out("[CHECK] Verifying the removal"),
            out("  [OK]   install directory is gone"),
            out("  [OK]   no registrations left behind"),
            out("[OK] All checks passed."),
        ]
    );
    assert!(uninstall_outcome(&problems).is_ok());
}

#[test]
fn verify_removal_reports_each_leftover_once() {
    let mut problems: Vec<String> = Vec::new();
    let manifests = vec![("/m/a.json".to_string(), true), ("/m/b.json".to_string(), false)];
    let keys = vec![("HKCU\\K1".to_string(), false), ("HKCU\\K2".to_string(), true)];
    let log = verify_removal("/inst", true, &manifests, &keys, &mut problems);
    assert_eq!(
        problems,
        vec![
            "/inst still exists".to_string(),
            "/m/a.json still exists".to_string(),
            "registry key HKCU\\K2 is still registered".to_string(),
        ]
    );
    assert_eq!(
        lines(&log),
        vec![
            out(""),
            out("[CHECK] Verifying the removal"),
            err("  [FAIL] /inst still exists"),
            err("  [FAIL] /m/a.json still exists"),
            err("  [FAIL] registry key HKCU\\K2 is still registered"),
            err("[WARN] Some items could not be verified as removed."),
        ]
    );
    assert_eq!(
        uninstall_outcome(&problems),
        Err("uninstall finished with 3 problem(s) — see the [FAIL] lines above".to_string())
    );
}

#[test]
fn verify_removal_does_not_repeat_a_failed_removal() {
    let mut problems = vec![removal_failure("/inst", "Directory not empty")];
    let log = verify_removal("/inst", true, &vec![("/m/a.json".to_string(), false)], &Vec::new(), &mut problems);
    assert_eq!(problems, vec!["could not remove /inst: Directory not empty".to_string()]);
    assert_eq!(lines(&log), vec![out(""), out("[CHECK] Verifying the removal")]);
    assert_eq!(
        uninstall_outcome(&problems),
        Err("uninstall finished with 1 problem(s) — see the [FAIL] lines above".to_string())
    );
}

#[test]
fn verify_removal_keeps_earlier_problems_in_front() {
    let mut problems = vec!["first".to_string(), "second".to_string()];
    let _ = verify_removal("/inst", false, &vec![("/m/x.json".to_string(), true)], &Vec::new(), &mut problems);
    assert_eq!(problems[..2], ["first".to_string(), "second".to_string()]);
    assert_eq!(problems.len(), 3);
}

#[test]
fn install_outcome_fails_unless_every_check_passed() {
    assert_eq!(install_outcome(0), Ok(()));
    assert_eq!(
        install_outcome(2),
        Err("the install did not verify (2 failed check(s) above) — the bridge may not work".to_string())
    );
}

#[test]
fn verify_install_counts_missing_files_and_a_silent_node() {
    let files = vec![("/i/index.js".to_string(), true), ("/m/com.algoramming.localtcp.json".to_string(), false)];
    let c = verify_install(&files, "/usr/bin/node", &None, &None);
    assert_eq!(c.failures, 2);
    assert_eq!(
        lines(&c.log),
        vec![
            out(""),
            out("[CHECK] Verifying the installation"),
            out("  [OK]   /i/index.js"),
            err("  [FAIL] missing /m/com.algoramming.localtcp.json"),
            err("  [FAIL] /usr/bin/node did not run — the Node.js install looks broken"),
        ]
    );
    assert!(install_outcome(c.failures).is_err());
}

#[test]
fn verify_install_passes_when_all_is_there() {
    let files = vec![("C:\\i\\index.js".to_string(), true), ("C:\\i\\run_bridge.bat".to_string(), true)];
    let c = verify_install(&files, "C:\\node.exe", &Some("v22.11.0\r\n".to_string()), &Some(Some("C:\\i\\m.json".to_string())));
    assert_eq!(c.failures, 0);
    assert_eq!(
        lines(&c.log),
        vec![
            out(""),
            out("[CHECK] Verifying the installation"),
            out("  [OK]   C:\\i\\index.js"),
            out("  [OK]   C:\\i\\run_bridge.bat"),
            out("  [OK]   node v22.11.0 responds"),
            out("  [OK]   registry -> C:\\i\\m.json"),
            out("[OK] All checks passed."),
        ]
    );
}

#[test]
fn verify_install_warns_when_the_registry_does_not_read_back() {
    let c = verify_install(&Vec::new(), "node", &Some("v20.0.0".to_string()), &Some(None));
    assert_eq!(c.failures, 0);
    assert_eq!(
        lines(&c.log),
        vec![
            out(""),
            out("[CHECK] Verifying the installation"),
            out("  [OK]   node v20.0.0 responds"),
            err("  [WARN] could not read back HKCU\\Software\\Google\\Chrome\\NativeMessagingHosts\\com.algoramming.localtcp (the write itself succeeded)"),
            out("[OK] All checks passed."),
        ]
    );
}

#[test]
fn recorded_node_report_says_whether_node_is_still_there() {
    assert_eq!(recorded_node_report("/usr/bin/node", true), vec!["[INFO] Host was using Node at: /usr/bin/node".to_string()]);
    assert_eq!(
        recorded_node_report("/gone/node", false),
        vec![
            "[INFO] Host referenced Node at /gone/node, which no longer exists.".to_string(),
            "       That's fine — removal doesn't need Node.js.".to_string(),
        ]
    );
}

#[test]
fn registry_failure_messages() {
    assert_eq!(reg_delete_failure("HKCU\\K", "  ERROR: Access is denied.\r\n"), "could not delete HKCU\\K: ERROR: Access is denied.");
    assert_eq!(reg_run_failure("HKCU\\K", "program not found"), "could not run reg.exe for HKCU\\K: program not found");
}
