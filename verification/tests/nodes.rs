use std::cell::RefCell;

use localtcp::nodes::{
    expected_checksum, find_node, installed_node, known_node_locations, locate_brew,
    locate_candidates, located_path, managed_node_candidate, node_install_hint, private_node,
    sort_newest_first, verify_sha256, version_manager_dirs, windows_fixed_locations,
    windows_managed_node_candidate, names_exe,
    windows_location_vars, windows_version_managers,
};
use localtcp::platform::Platform;

fn strings(a: &[&str]) -> Vec<String> {
    a.iter().map(|s| s.to_string()).collect()
}

const SUMS: &str = "\
1111111111111111111111111111111111111111111111111111111111111111  node-v22.11.0-darwin-arm64.tar.gz
ABCDEF0123456789abcdef0123456789ABCDEF0123456789abcdef0123456789  node-v22.11.0-linux-x64.tar.gz
2222222222222222222222222222222222222222222222222222222222222222  node-v22.11.0-win-x64.zip
";

#[test]
fn install_hints() {
    assert_eq!(node_install_hint(Platform::MacOs), "Install it with Homebrew: `brew install node`, or from https://nodejs.org/");
    assert_eq!(node_install_hint(Platform::Windows), "Install it with `winget install OpenJS.NodeJS.LTS`, or from https://nodejs.org/");
    assert_eq!(
        node_install_hint(Platform::Linux),
        "Install it via your package manager (e.g. `sudo apt install nodejs`), or from https://nodejs.org/"
    );
    assert_eq!(node_install_hint(Platform::Other), node_install_hint(Platform::Linux));
}

#[test]
fn locate_candidates_trims_and_drops_blank_lines() {
    let out = "C:\\Program Files\\nodejs\\node.exe\r\n  C:\\Users\\me\\AppData\\Roaming\\npm\\node.cmd \r\n\r\n";
    assert_eq!(
        locate_candidates(out),
        strings(&["C:\\Program Files\\nodejs\\node.exe", "C:\\Users\\me\\AppData\\Roaming\\npm\\node.cmd"])
    );
    assert_eq!(locate_candidates(""), Vec::<String>::new());
}

#[test]
fn located_path_prefers_a_real_exe_on_windows() {
    let cands = vec![
        ("C:\\npm\\node.cmd".to_string(), true),
        ("C:\\gone\\node.exe".to_string(), false),
        ("C:\\Program Files\\nodejs\\NODE.EXE".to_string(), true),
    ];
    assert_eq!(located_path(Platform::Windows, &cands), Some("C:\\Program Files\\nodejs\\NODE.EXE".to_string()));
    assert_eq!(located_path(Platform::Linux, &cands), Some("C:\\npm\\node.cmd".to_string()));
    let shims = vec![("C:\\npm\\node.cmd".to_string(), true)];
    assert_eq!(located_path(Platform::Windows, &shims), Some("C:\\npm\\node.cmd".to_string()));
    let gone = vec![("/usr/bin/node".to_string(), false)];
    assert_eq!(located_path(Platform::Linux, &gone), None);
}

#[test]
fn find_node_tries_candidates_in_order_until_one_runs() {
    let runs = |p: &String| p != "/usr/local/bin/node";
    let known = vec![
        ("/opt/homebrew/bin/node".to_string(), false),
        ("/usr/local/bin/node".to_string(), true),
        ("/usr/bin/node".to_string(), true),
    ];
    assert_eq!(find_node(Some("/home/me/bin/node".to_string()), None, &known, runs), Some("/home/me/bin/node".to_string()));
    assert_eq!(find_node(None, Some("C:\\nodejs\\node.exe".to_string()), &known, runs), Some("C:\\nodejs\\node.exe".to_string()));
    assert_eq!(find_node(None, None, &known, runs), Some("/usr/bin/node".to_string()));
    assert_eq!(find_node(None, None, &known, |_p: &String| false), None);
}

#[test]
fn find_node_stops_running_candidates_once_one_works() {
    let tried = RefCell::new(Vec::new());
    let known = vec![("/a".to_string(), true), ("/b".to_string(), true), ("/c".to_string(), true)];
    let r = find_node(Some("/located".to_string()), None, &known, |p: &String| {
        tried.borrow_mut().push(p.clone());
        p == "/b"
    });
    assert_eq!(r, Some("/b".to_string()));
    assert_eq!(*tried.borrow(), strings(&["/located", "/a", "/b"]));
}

#[test]
fn private_node_is_under_the_install_dir() {
    let dir = "/home/me/.local/lib/algoramming/localtcp";
    let want = "/home/me/.local/lib/algoramming/localtcp/node/bin/node";
    assert_eq!(private_node(Platform::Linux, dir, |p: &String| p == want, |_p: &String| true), Some(want.to_string()));
    assert_eq!(private_node(Platform::Linux, dir, |_p: &String| false, |_p: &String| true), None);
    assert_eq!(private_node(Platform::MacOs, dir, |_p: &String| true, |_p: &String| false), None);
    assert_eq!(private_node(Platform::Windows, "C:\\x", |_p: &String| true, |_p: &String| true), None);
}

#[test]
fn locate_brew_falls_back_to_both_prefixes() {
    assert_eq!(locate_brew(Some("/custom/brew".to_string()), |_p: &String| false), Some("/custom/brew".to_string()));
    assert_eq!(locate_brew(None, |_p: &String| true), Some("/opt/homebrew/bin/brew".to_string()));
    assert_eq!(locate_brew(None, |p: &String| p == "/usr/local/bin/brew"), Some("/usr/local/bin/brew".to_string()));
    assert_eq!(locate_brew(None, |_p: &String| false), None);
}

#[test]
fn version_manager_roots_and_candidates() {
    assert_eq!(
        version_manager_dirs("/home/me"),
        vec![
            ("/home/me/.nvm/versions/node".to_string(), "bin".to_string()),
            ("/home/me/.local/share/fnm/node-versions".to_string(), "installation/bin".to_string()),
            ("/home/me/.fnm/node-versions".to_string(), "installation/bin".to_string()),
        ]
    );
    assert_eq!(
        managed_node_candidate("/home/me/.nvm/versions/node/v20.11.0", "bin"),
        "/home/me/.nvm/versions/node/v20.11.0/bin/node"
    );
}

#[test]
fn managed_installs_sort_newest_looking_first() {
    let managed = strings(&["/n/v18.20.4/bin/node", "/n/v9.0.0/bin/node", "/n/v22.11.0/bin/node", "/n/v18.20.4/bin/node"]);
    assert_eq!(
        sort_newest_first(&managed),
        strings(&["/n/v9.0.0/bin/node", "/n/v22.11.0/bin/node", "/n/v18.20.4/bin/node", "/n/v18.20.4/bin/node"])
    );
    assert_eq!(sort_newest_first(&Vec::new()), Vec::<String>::new());
}

#[test]
fn known_unix_locations_in_order() {
    let managed = strings(&["/home/me/.nvm/versions/node/v18.0.0/bin/node", "/home/me/.nvm/versions/node/v20.0.0/bin/node"]);
    assert_eq!(
        known_node_locations("/home/me", &managed),
        strings(&[
            "/opt/homebrew/bin/node",
            "/usr/local/bin/node",
            "/usr/bin/node",
            "/snap/bin/node",
            "/home/me/.volta/bin/node",
            "/home/me/.nvm/versions/node/v20.0.0/bin/node",
            "/home/me/.nvm/versions/node/v18.0.0/bin/node",
        ])
    );
}

#[test]
fn windows_tables() {
    let vars: Vec<String> = windows_location_vars().into_iter().map(|(v, _)| v).collect();
    assert_eq!(vars, strings(&["ProgramFiles", "ProgramFiles(x86)", "LOCALAPPDATA", "LOCALAPPDATA", "ProgramData", "USERPROFILE"]));
    assert_eq!(
        windows_version_managers(),
        vec![
            ("APPDATA".to_string(), "nvm".to_string(), "".to_string()),
            ("ProgramData".to_string(), "nvm".to_string(), "".to_string()),
            ("LOCALAPPDATA".to_string(), "fnm\\node-versions".to_string(), "installation".to_string()),
        ]
    );
}

#[test]
fn windows_fixed_locations_skip_unset_and_empty_variables() {
    let vals = vec![
        Some("C:\\Program Files".to_string()),
        None,
        Some("C:\\Users\\me\\AppData\\Local".to_string()),
        Some("".to_string()),
        Some("C:\\ProgramData".to_string()),
        Some("C:\\Users\\me".to_string()),
    ];
    assert_eq!(
        windows_fixed_locations(&vals),
        strings(&[
            "C:\\Program Files\\nodejs\\node.exe",
            "C:\\Users\\me\\AppData\\Local\\Programs\\nodejs\\node.exe",
            "C:\\ProgramData\\chocolatey\\bin\\node.exe",
            "C:\\Users\\me\\scoop\\shims\\node.exe",
        ])
    );
    assert_eq!(windows_fixed_locations(&Vec::new()), Vec::<String>::new());
}

#[test]
fn expected_checksum_reads_the_line_for_the_file() {
    assert_eq!(
        expected_checksum(SUMS, "node-v22.11.0-linux-x64.tar.gz"),
        Some("ABCDEF0123456789abcdef0123456789ABCDEF0123456789abcdef0123456789".to_string())
    );
    assert_eq!(expected_checksum(SUMS, "node-v22.11.0-linux-arm64.tar.gz"), None);
    assert_eq!(expected_checksum("", "x"), None);
}

#[test]
fn verify_sha256_accepts_a_matching_digest_in_any_case() {
    let file = "node-v22.11.0-linux-x64.tar.gz";
    let actual: Result<String, String> = Ok("abcdef0123456789ABCDEF0123456789abcdef0123456789ABCDEF0123456789".to_string());
    assert_eq!(verify_sha256(file, SUMS, &actual), Ok(()));
}

#[test]
fn verify_sha256_refuses_a_mismatch() {
    let file = "node-v22.11.0-darwin-arm64.tar.gz";
    let actual: Result<String, String> = Ok("3333333333333333333333333333333333333333333333333333333333333333".to_string());
    assert_eq!(
        verify_sha256(file, SUMS, &actual),
        Err("checksum mismatch for node-v22.11.0-darwin-arm64.tar.gz — refusing to use it\n  expected 1111111111111111111111111111111111111111111111111111111111111111\n  actual   3333333333333333333333333333333333333333333333333333333333333333".to_string())
    );
}

#[test]
fn verify_sha256_needs_a_published_checksum_and_a_digest() {
    let digest: Result<String, String> = Ok("11".to_string());
    assert_eq!(
        verify_sha256("node-v1.0.0-linux-x64.tar.gz", SUMS, &digest),
        Err("nodejs.org published no checksum for node-v1.0.0-linux-x64.tar.gz".to_string())
    );
    let no_tool: Result<String, String> = Err("no shasum/sha256sum available to verify the download".to_string());
    assert_eq!(
        verify_sha256("node-v22.11.0-linux-x64.tar.gz", SUMS, &no_tool),
        Err("no shasum/sha256sum available to verify the download".to_string())
    );
}

#[test]
fn installed_node_after_a_package_manager() {
    let known = vec![("C:\\a\\node.exe".to_string(), false), ("C:\\b\\node.exe".to_string(), true)];
    assert_eq!(installed_node(Some("C:\\p\\node.exe".to_string()), &known), Some("C:\\p\\node.exe".to_string()));
    assert_eq!(installed_node(None, &known), Some("C:\\b\\node.exe".to_string()));
    assert_eq!(installed_node(None, &vec![("C:\\a\\node.exe".to_string(), false)]), None);
}

#[test]
fn windows_version_manager_candidates() {
    assert_eq!(
        windows_managed_node_candidate(r"C:\Users\me\AppData\Roaming\nvm\v20.11.0", ""),
        r"C:\Users\me\AppData\Roaming\nvm\v20.11.0\node.exe"
    );
    assert_eq!(
        windows_managed_node_candidate(r"C:\Users\me\AppData\Local\fnm\node-versions\v22.0.0", "installation"),
        r"C:\Users\me\AppData\Local\fnm\node-versions\v22.0.0\installation\node.exe"
    );
}

#[test]
fn names_exe_looks_at_the_end_only() {
    assert!(names_exe(r"c:\program files\nodejs\node.exe"));
    assert!(names_exe(".exe"));
    assert!(!names_exe(r"c:\npm\node.cmd"));
    assert!(!names_exe(r"c:\x.exe\node"));
    assert!(!names_exe("exe"));
    assert!(!names_exe("NODE.EXE"));
}
