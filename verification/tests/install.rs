use localtcp::install::{
    install_start, install_step, InstallAction, InstallEvent, InstallStage, InstallState, InstallStep,
    KeyAddition,
};
use localtcp::platform::Platform;
use localtcp::report::LogLine;

const INDEX_JS: &str = "#!/usr/bin/env node\n'use strict';\nrun();\n";
const TEMPLATE: &str = "{\"name\":\"com.algoramming.localtcp\",\"path\":\"HOST_PATH\",\"type\":\"stdio\"}";
const HOME: &str = "/home/me";
const BAR: &str = "----------------------------------------------------";

fn texts(log: &[LogLine]) -> Vec<(bool, String)> {
    log.iter().map(|l| (l.to_stderr, l.text.clone())).collect()
}

fn out(s: &str) -> (bool, String) {
    (false, s.to_string())
}

fn banner(title: &str) -> Vec<(bool, String)> {
    vec![out(&format!("\n{BAR}")), out(&format!(" {title}")), out(BAR)]
}

fn step(state: InstallState, event: InstallEvent) -> InstallStep {
    install_step(state, event)
}

fn finished(s: &InstallStep) -> Option<Result<(), String>> {
    match &s.action {
        InstallAction::Finish(r) => Some(r.clone()),
        _ => None,
    }
}

fn written(s: &InstallStep) -> Option<(String, String, bool)> {
    match &s.action {
        InstallAction::WriteFile { name, contents, executable } => Some((name.clone(), contents.clone(), *executable)),
        _ => None,
    }
}

#[test]
fn install_on_linux_end_to_end() {
    let dir = "/home/me/.local/lib/algoramming/localtcp";
    let st = install_start(Platform::Linux, "2.1.1", INDEX_JS, TEMPLATE);
    let s = step(st, InstallEvent::Begin { home: HOME.to_string(), appdata: String::new(), is_relative: false });
    assert!(matches!(&s.action, InstallAction::CreateDir(d) if d == dir));
    assert_eq!(texts(&s.log), banner("Local TCP Bridge — Installer v2.1.1"));

    let s = step(s.state, InstallEvent::DirCreated(Ok(())));
    assert!(matches!(&s.action, InstallAction::FindNode(d) if d == dir));
    assert_eq!(texts(&s.log), vec![out(&format!("[INFO] Install dir: {dir}"))]);

    let s = step(s.state, InstallEvent::NodeFound(Some("/usr/bin/node".to_string())));
    assert_eq!(texts(&s.log), vec![out("[OK] Using Node at: /usr/bin/node")]);
    assert_eq!(
        written(&s),
        Some(("index.js".to_string(), "#!/usr/bin/node\n'use strict';\nrun();\n".to_string(), true))
    );

    let index_path = format!("{dir}/index.js");
    let s = step(s.state, InstallEvent::Written(Ok(index_path.clone())));
    assert_eq!(texts(&s.log), vec![out(&format!("[INFO] Wrote {index_path}"))]);
    assert_eq!(
        written(&s),
        Some((
            "com.algoramming.localtcp.json".to_string(),
            format!("{{\"name\":\"com.algoramming.localtcp\",\"path\":\"{index_path}\",\"type\":\"stdio\"}}"),
            false
        ))
    );

    let manifest_path = format!("{dir}/com.algoramming.localtcp.json");
    let s = step(s.state, InstallEvent::Written(Ok(manifest_path.clone())));
    assert!(s.log.is_empty());
    let chrome = format!("{HOME}/.config/google-chrome/NativeMessagingHosts");
    assert!(matches!(&s.action, InstallAction::CheckBrowser(d) if d == &chrome));

    // Chrome's directory is created even without a Chrome profile.
    let s = step(s.state, InstallEvent::BrowserPresent(false));
    assert!(matches!(&s.action, InstallAction::CreateDir(d) if d == &chrome));
    let s = step(s.state, InstallEvent::DirCreated(Ok(())));
    let chrome_manifest = format!("{chrome}/com.algoramming.localtcp.json");
    match &s.action {
        InstallAction::WriteFileAt { path, contents } => {
            assert_eq!(path, &chrome_manifest);
            assert!(contents.contains(&index_path));
        }
        _ => panic!("expected the browser manifest"),
    }
    let s = step(s.state, InstallEvent::Written(Ok(chrome_manifest.clone())));
    assert_eq!(texts(&s.log), vec![out(&format!("[INFO] Registered: {chrome_manifest}"))]);

    // Chromium is not installed; Edge is, but its directory cannot be created; Brave's
    // manifest cannot be written.
    let chromium = format!("{HOME}/.config/chromium/NativeMessagingHosts");
    assert!(matches!(&s.action, InstallAction::CheckBrowser(d) if d == &chromium));
    let s = step(s.state, InstallEvent::BrowserPresent(false));
    assert!(s.log.is_empty());
    let edge = format!("{HOME}/.config/microsoft-edge/NativeMessagingHosts");
    assert!(matches!(&s.action, InstallAction::CheckBrowser(d) if d == &edge));
    let s = step(s.state, InstallEvent::BrowserPresent(true));
    let s = step(s.state, InstallEvent::DirCreated(Err("Permission denied (os error 13)".to_string())));
    assert_eq!(texts(&s.log), vec![(true, format!("[WARN] skip {edge}: Permission denied (os error 13)"))]);
    let s = step(s.state, InstallEvent::BrowserPresent(true));
    let s = step(s.state, InstallEvent::DirCreated(Ok(())));
    let s = step(s.state, InstallEvent::Written(Err("write failed".to_string())));
    assert!(s.log.is_empty());

    let s = step(
        s.state,
        InstallEvent::Verified {
            files: vec![(index_path.clone(), true), (manifest_path.clone(), true)],
            node_reply: Some("v22.11.0\n".to_string()),
            readback: None,
        },
    );
    assert_eq!(s.state.stage, InstallStage::Done);
    assert_eq!(finished(&s), Some(Ok(())));
    let mut want = vec![
        out(""),
        out("[CHECK] Verifying the installation"),
        out(&format!("  [OK]   {index_path}")),
        out(&format!("  [OK]   {manifest_path}")),
        out("  [OK]   node v22.11.0 responds"),
        out("[OK] All checks passed."),
    ];
    want.extend(banner("✅ Installed"));
    want.push(out("Restart your browser completely, then use the Local TCP extension."));
    want.push(out("Tip: the extension popup's bridge check should report version from index.js."));
    assert_eq!(texts(&s.log), want);
}

#[test]
fn install_on_windows_writes_a_launcher_and_checks_it() {
    let dir = r"C:\Users\me\AppData\Roaming\Algoramming\LocalTCP";
    let node = r"C:\Program Files\nodejs\node.exe";
    let st = install_start(Platform::Windows, "2.1.1", INDEX_JS, TEMPLATE);
    let s = step(st, InstallEvent::Begin { home: r"C:\Users\me".to_string(), appdata: r"C:\Users\me\AppData\Roaming".to_string(), is_relative: false });
    let s = step(s.state, InstallEvent::DirCreated(Ok(())));
    let s = step(s.state, InstallEvent::NodeFound(None));
    assert_eq!(texts(&s.log), vec![(true, "[WARN] Node.js was not found in PATH or in any known install location.".to_string())]);
    assert!(matches!(&s.action, InstallAction::InstallNode(d) if d == dir));

    let s = step(s.state, InstallEvent::NodeInstalled(Ok(node.to_string())));
    assert_eq!(written(&s), Some(("index.js".to_string(), INDEX_JS.to_string(), true)));

    let index_path = format!(r"{dir}\index.js");
    let s = step(s.state, InstallEvent::Written(Ok(index_path.clone())));
    assert_eq!(
        written(&s),
        Some((
            "run_bridge.bat".to_string(),
            format!("@echo off\r\n\"{node}\" \"%~dp0index.js\" %*\r\n"),
            false
        ))
    );

    let bat = format!(r"{dir}\run_bridge.bat");
    let s = step(s.state, InstallEvent::Written(Ok(bat.clone())));
    assert_eq!(texts(&s.log), vec![out(&format!("[INFO] Wrote {bat}"))]);
    let escaped = bat.replace('\\', "\\\\");
    assert_eq!(
        written(&s),
        Some((
            "com.algoramming.localtcp.json".to_string(),
            format!("{{\"name\":\"com.algoramming.localtcp\",\"path\":\"{escaped}\",\"type\":\"stdio\"}}"),
            false
        ))
    );

    let manifest_path = format!(r"{dir}\com.algoramming.localtcp.json");
    let s = step(s.state, InstallEvent::Written(Ok(manifest_path.clone())));
    let keys = [
        r"HKCU\Software\Google\Chrome\NativeMessagingHosts\com.algoramming.localtcp",
        r"HKCU\Software\Microsoft\Edge\NativeMessagingHosts\com.algoramming.localtcp",
        r"HKCU\Software\BraveSoftware\Brave-Browser\NativeMessagingHosts\com.algoramming.localtcp",
        r"HKCU\Software\Chromium\NativeMessagingHosts\com.algoramming.localtcp",
    ];
    match &s.action {
        InstallAction::AddKey { key, value } => {
            assert_eq!(key, keys[0]);
            assert_eq!(value, &manifest_path);
        }
        _ => panic!("expected a registry write"),
    }
    let s = step(s.state, InstallEvent::KeyAdded(KeyAddition::Added));
    assert_eq!(texts(&s.log), vec![out(&format!("[INFO] Registered: {}", keys[0]))]);
    let s = step(s.state, InstallEvent::KeyAdded(KeyAddition::Refused("ERROR: Access is denied.\r\n".to_string())));
    assert_eq!(texts(&s.log), vec![(true, format!("[WARN] could not write {}: ERROR: Access is denied.", keys[1]))]);
    let s = step(s.state, InstallEvent::KeyAdded(KeyAddition::NotStarted("program not found".to_string())));
    assert_eq!(texts(&s.log), vec![(true, format!("[WARN] could not run reg.exe for {}: program not found", keys[2]))]);
    let s = step(s.state, InstallEvent::KeyAdded(KeyAddition::Added));
    match &s.action {
        InstallAction::Verify { files, node: n, registry_key } => {
            assert_eq!(files, &vec![index_path.clone(), manifest_path.clone(), bat.clone()]);
            assert_eq!(n, node);
            assert_eq!(
                registry_key,
                &Some(r"HKCU\Software\Google\Chrome\NativeMessagingHosts\com.algoramming.localtcp".to_string())
            );
        }
        _ => panic!("expected the post-install check"),
    }

    let s = step(
        s.state,
        InstallEvent::Verified {
            files: vec![(index_path.clone(), true), (manifest_path.clone(), true), (bat.clone(), false)],
            node_reply: Some("v22.11.0\r\n".to_string()),
            readback: Some(Some(manifest_path.clone())),
        },
    );
    assert_eq!(
        finished(&s),
        Some(Err("the install did not verify (1 failed check(s) above) — the bridge may not work".to_string()))
    );
    assert_eq!(
        texts(&s.log),
        vec![
            out(""),
            out("[CHECK] Verifying the installation"),
            out(&format!("  [OK]   {index_path}")),
            out(&format!("  [OK]   {manifest_path}")),
            (true, format!("  [FAIL] missing {bat}")),
            out("  [OK]   node v22.11.0 responds"),
            out(&format!("  [OK]   registry -> {manifest_path}")),
        ]
    );
}

#[test]
fn install_refuses_an_unresolved_directory() {
    let st = install_start(Platform::Linux, "2.1.1", INDEX_JS, TEMPLATE);
    let s = step(st, InstallEvent::Begin { home: String::new(), appdata: String::new(), is_relative: true });
    assert_eq!(s.state.stage, InstallStage::Done);
    assert_eq!(
        finished(&s),
        Some(Err("could not determine your user data directory — HOME is not set".to_string()))
    );
    assert_eq!(texts(&s.log), banner("Local TCP Bridge — Installer v2.1.1"));
}

#[test]
fn install_stops_at_the_first_failed_action() {
    let dir = "/home/me/.local/lib/algoramming/localtcp";
    let begun = || {
        step(install_start(Platform::Linux, "2.1.1", INDEX_JS, TEMPLATE), InstallEvent::Begin { home: HOME.to_string(), appdata: String::new(), is_relative: false })
            .state
    };
    let s = step(begun(), InstallEvent::DirCreated(Err("Permission denied (os error 13)".to_string())));
    assert_eq!(finished(&s), Some(Err(format!("create {dir}: Permission denied (os error 13)"))));

    let finding = step(begun(), InstallEvent::DirCreated(Ok(()))).state;
    let s = step(finding, InstallEvent::NodeFound(None));
    let s = step(s.state, InstallEvent::NodeInstalled(Err("no official Node.js build exists for this CPU.".to_string())));
    assert_eq!(finished(&s), Some(Err("no official Node.js build exists for this CPU.".to_string())));

    let finding = step(begun(), InstallEvent::DirCreated(Ok(()))).state;
    let s = step(finding, InstallEvent::NodeFound(Some("/usr/bin/node".to_string())));
    let s = step(s.state, InstallEvent::Written(Err(format!("write {dir}/index.js: disk full"))));
    assert_eq!(finished(&s), Some(Err(format!("write {dir}/index.js: disk full"))));

    let finding = step(begun(), InstallEvent::DirCreated(Ok(()))).state;
    let s = step(finding, InstallEvent::NodeFound(Some("/usr/bin/node".to_string())));
    let s = step(s.state, InstallEvent::Written(Ok(format!("{dir}/index.js"))));
    let mut s = step(s.state, InstallEvent::Written(Ok(format!("{dir}/com.algoramming.localtcp.json"))));
    for _ in 0..4 {
        s = step(s.state, InstallEvent::BrowserPresent(true));
        s = step(s.state, InstallEvent::DirCreated(Err("read-only file system".to_string())));
    }
    assert_eq!(finished(&s), Some(Err("could not register the host with any browser".to_string())));
}
