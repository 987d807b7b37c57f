use localtcp::platform::Platform;
use localtcp::provision::{
    find_unpacked_dir, install_node_automatically, install_node_from_tarball, node_build_arch,
    tarball_start, NodeInstallAction, NodeInstallEvent, NodeInstallStep, RunOutcome, TarballAction,
    TarballEvent, TarballStage, TarballState, TarballStep,
};
use localtcp::report::LogLine;

const INDEX: &str = r#"[
{"version":"v23.3.0","date":"2024-11-20","files":["linux-x64"],"lts":false,"security":false},
{"version":"v22.11.0","date":"2024-10-29","files":["linux-x64"],"lts":"Jod","security":false}
]"#;

const SUMS: &str = "\
abababababababababababababababababababababababababababababababab  node-v22.11.0-linux-x64.tar.gz
cdcdcdcdcdcdcdcdcdcdcdcdcdcdcdcdcdcdcdcdcdcdcdcdcdcdcdcdcdcdcdcd  node-v22.11.0-darwin-arm64.tar.gz
";

const DIR: &str = "/home/me/.local/lib/algoramming/localtcp";

fn texts(log: &[LogLine]) -> Vec<(bool, String)> {
    log.iter().map(|l| (l.to_stderr, l.text.clone())).collect()
}

fn finished(step: &NodeInstallStep) -> Option<Result<String, String>> {
    match &step.action {
        NodeInstallAction::Finish(r) => Some(r.clone()),
        _ => None,
    }
}

fn tarball_os(step: &NodeInstallStep) -> Option<String> {
    match &step.action {
        NodeInstallAction::InstallTarball(os) => Some(os.clone()),
        _ => None,
    }
}

fn stopped(step: &TarballStep) -> Option<(Result<String, String>, Vec<String>)> {
    match &step.action {
        TarballAction::Finish { result, remove } => Some((result.clone(), remove.clone())),
        _ => None,
    }
}

const LINUX_HINT: &str = "\n  Install it via your package manager (e.g. `sudo apt install nodejs`), or from https://nodejs.org/";

#[test]
fn automatic_install_starts_per_platform() {
    let s = install_node_automatically(Platform::Windows, NodeInstallEvent::Start);
    assert!(matches!(s.action, NodeInstallAction::LocateWinget));
    assert!(s.log.is_empty());
    let s = install_node_automatically(Platform::MacOs, NodeInstallEvent::Start);
    assert!(matches!(s.action, NodeInstallAction::LocateBrew));
    let s = install_node_automatically(Platform::Linux, NodeInstallEvent::Start);
    assert_eq!(tarball_os(&s), Some("linux".to_string()));
    assert_eq!(texts(&s.log), vec![(false, "[INFO] Fetching Node.js from nodejs.org (no administrator rights needed).".to_string())]);
    let s = install_node_automatically(Platform::Other, NodeInstallEvent::Start);
    assert_eq!(
        finished(&s),
        Some(Err(format!("automatic Node.js install isn't supported on this platform.{LINUX_HINT}")))
    );
}

#[test]
fn automatic_install_with_winget() {
    let s = install_node_automatically(Platform::Windows, NodeInstallEvent::WingetLocated(false));
    assert_eq!(
        finished(&s),
        Some(Err("Node.js is missing and winget is unavailable, so it can't be installed automatically.\n  Install it with `winget install OpenJS.NodeJS.LTS`, or from https://nodejs.org/".to_string()))
    );
    let s = install_node_automatically(Platform::Windows, NodeInstallEvent::WingetLocated(true));
    assert!(matches!(s.action, NodeInstallAction::RunWinget));
    assert_eq!(s.log.len(), 2);
    let s = install_node_automatically(Platform::Windows, NodeInstallEvent::WingetRan(RunOutcome::Failed("exit code: 1".to_string())));
    assert!(matches!(s.action, NodeInstallAction::LookForInstalledNode));
    assert_eq!(texts(&s.log), vec![(true, "[WARN] winget exited with exit code: 1 — checking for Node anyway.".to_string())]);
    let s = install_node_automatically(Platform::Windows, NodeInstallEvent::WingetRan(RunOutcome::NotStarted("not found".to_string())));
    assert_eq!(
        finished(&s),
        Some(Err("could not run winget: not found\n  Install it with `winget install OpenJS.NodeJS.LTS`, or from https://nodejs.org/".to_string()))
    );
    let s = install_node_automatically(Platform::Windows, NodeInstallEvent::InstalledNodeFound(Some("C:\\nodejs\\node.exe".to_string())));
    assert_eq!(finished(&s), Some(Ok("C:\\nodejs\\node.exe".to_string())));
    let s = install_node_automatically(Platform::Windows, NodeInstallEvent::InstalledNodeFound(None));
    assert!(matches!(finished(&s), Some(Err(e)) if e.starts_with("winget ran but Node.js still isn't detectable")));
}

#[test]
fn automatic_install_with_homebrew_falls_back_to_the_tarball() {
    let s = install_node_automatically(Platform::MacOs, NodeInstallEvent::BrewLocated(Some("/opt/homebrew/bin/brew".to_string())));
    assert!(matches!(&s.action, NodeInstallAction::RunBrew(b) if b == "/opt/homebrew/bin/brew"));
    assert_eq!(texts(&s.log), vec![(false, "[INFO] Installing Node.js with Homebrew (/opt/homebrew/bin/brew) — this can take a few minutes.".to_string())]);
    let s = install_node_automatically(Platform::MacOs, NodeInstallEvent::BrewLocated(None));
    assert_eq!(tarball_os(&s), Some("darwin".to_string()));
    let s = install_node_automatically(Platform::MacOs, NodeInstallEvent::BrewRan(RunOutcome::Succeeded));
    assert!(matches!(s.action, NodeInstallAction::FindNode));
    let s = install_node_automatically(Platform::MacOs, NodeInstallEvent::BrewRan(RunOutcome::NotStarted("denied".to_string())));
    assert_eq!(tarball_os(&s), Some("darwin".to_string()));
    assert_eq!(texts(&s.log), vec![(true, "[WARN] could not run Homebrew (denied) — fetching a private copy instead.".to_string())]);
    let s = install_node_automatically(Platform::MacOs, NodeInstallEvent::NodeFound(None));
    assert_eq!(tarball_os(&s), Some("darwin".to_string()));
    let s = install_node_automatically(Platform::MacOs, NodeInstallEvent::NodeFound(Some("/opt/homebrew/bin/node".to_string())));
    assert_eq!(finished(&s), Some(Ok("/opt/homebrew/bin/node".to_string())));
    let s = install_node_automatically(Platform::Linux, NodeInstallEvent::TarballDone(Err("boom".to_string())));
    assert_eq!(finished(&s), Some(Err("boom".to_string())));
}

#[test]
fn build_arch_names() {
    assert_eq!(node_build_arch("aarch64"), Some("arm64".to_string()));
    assert_eq!(node_build_arch("x86_64"), Some("x64".to_string()));
    assert_eq!(node_build_arch("riscv64"), None);
}

#[test]
fn unpacked_dir_is_the_first_node_v_directory() {
    let entries = vec![
        ("/s/node-v22.11.0-linux-x64.tar.gz".to_string(), "node-v22.11.0-linux-x64.tar.gz".to_string(), false),
        ("/s/other".to_string(), "other".to_string(), true),
        ("/s/node-v22.11.0-linux-x64".to_string(), "node-v22.11.0-linux-x64".to_string(), true),
    ];
    assert_eq!(find_unpacked_dir(&entries), Some("/s/node-v22.11.0-linux-x64".to_string()));
    assert_eq!(find_unpacked_dir(&entries[..2].to_vec()), None);
}

fn step(state: TarballState, event: TarballEvent) -> TarballStep {
    install_node_from_tarball(state, event)
}

#[test]
fn tarball_install_happy_path() {
    let st = tarball_start(Platform::Linux, DIR, "linux");
    assert_eq!(st.stage, TarballStage::Begin);

    let s = step(st, TarballEvent::Begin(Some("x64".to_string())));
    assert!(matches!(&s.action, TarballAction::FetchIndex(u) if u == "https://nodejs.org/dist/index.json"));
    assert_eq!(texts(&s.log), vec![(false, "[INFO] Looking up the current Node.js LTS release...".to_string())]);

    let s = step(s.state, TarballEvent::IndexFetched(Some(INDEX.to_string())));
    assert_eq!(s.state.version, "v22.11.0");
    assert!(matches!(&s.action, TarballAction::PrepareDir(d) if d == &format!("{DIR}/.node-download")));
    assert_eq!(texts(&s.log), vec![(false, "[INFO] Current LTS is v22.11.0".to_string())]);

    let s = step(s.state, TarballEvent::StagingReady(Ok(())));
    match &s.action {
        TarballAction::Download { url, to } => {
            assert_eq!(url, "https://nodejs.org/dist/v22.11.0/node-v22.11.0-linux-x64.tar.gz");
            assert_eq!(to, &format!("{DIR}/.node-download/node-v22.11.0-linux-x64.tar.gz"));
        }
        _ => panic!("expected a download"),
    }
    assert_eq!(texts(&s.log), vec![(false, "[INFO] Downloading node-v22.11.0-linux-x64.tar.gz".to_string())]);

    let s = step(s.state, TarballEvent::Downloaded(true));
    assert!(matches!(&s.action, TarballAction::FetchSums(u) if u == "https://nodejs.org/dist/v22.11.0/SHASUMS256.txt"));

    let s = step(s.state, TarballEvent::SumsFetched(Some(SUMS.to_string())));
    assert!(matches!(&s.action, TarballAction::Hash(p) if p == &format!("{DIR}/.node-download/node-v22.11.0-linux-x64.tar.gz")));

    let s = step(s.state, TarballEvent::Hashed(Some("ABABABABABABABABABABABABABABABABABABABABABABABABABABABABABABABAB".to_string())));
    match &s.action {
        TarballAction::Unpack { archive, into } => {
            assert_eq!(archive, &format!("{DIR}/.node-download/node-v22.11.0-linux-x64.tar.gz"));
            assert_eq!(into, &format!("{DIR}/.node-download"));
        }
        _ => panic!("expected unpacking"),
    }
    assert_eq!(texts(&s.log), vec![(false, "[OK] Checksum verified.".to_string())]);

    let s = step(s.state, TarballEvent::Unpacked(RunOutcome::Succeeded));
    assert!(matches!(&s.action, TarballAction::List(p) if p == &format!("{DIR}/.node-download")));

    let entries = vec![(format!("{DIR}/.node-download/node-v22.11.0-linux-x64"), "node-v22.11.0-linux-x64".to_string(), true)];
    let s = step(s.state, TarballEvent::Listed(Ok(entries)));
    match &s.action {
        TarballAction::Move { from, to } => {
            assert_eq!(from, &format!("{DIR}/.node-download/node-v22.11.0-linux-x64"));
            assert_eq!(to, &format!("{DIR}/node"));
        }
        _ => panic!("expected a move"),
    }

    let s = step(s.state, TarballEvent::Moved(Ok(())));
    assert!(matches!(&s.action, TarballAction::RunNode(p) if p == &format!("{DIR}/node/bin/node")));

    let s = step(s.state, TarballEvent::NodeRan(Some("v22.11.0\n".to_string())));
    assert_eq!(s.state.stage, TarballStage::Done);
    assert_eq!(stopped(&s), Some((Ok(format!("{DIR}/node/bin/node")), vec![format!("{DIR}/.node-download")])));
    assert_eq!(texts(&s.log), vec![(false, format!("[OK] Installed Node v22.11.0 into {DIR}/node"))]);
}

fn at_hashing() -> TarballState {
    let s = step(tarball_start(Platform::Linux, DIR, "linux"), TarballEvent::Begin(Some("x64".to_string())));
    let s = step(s.state, TarballEvent::IndexFetched(Some(INDEX.to_string())));
    let s = step(s.state, TarballEvent::StagingReady(Ok(())));
    let s = step(s.state, TarballEvent::Downloaded(true));
    let s = step(s.state, TarballEvent::SumsFetched(Some(SUMS.to_string())));
    assert_eq!(s.state.stage, TarballStage::Hashing);
    s.state
}

#[test]
fn tarball_install_refuses_an_unknown_cpu() {
    let s = step(tarball_start(Platform::Linux, DIR, "linux"), TarballEvent::Begin(None));
    assert_eq!(s.state.stage, TarballStage::Done);
    assert_eq!(stopped(&s), Some((Err(format!("no official Node.js build exists for this CPU.{LINUX_HINT}")), vec![])));
}

#[test]
fn tarball_install_errors_before_the_staging_dir_leave_nothing_to_remove() {
    let begun = || step(tarball_start(Platform::Linux, DIR, "linux"), TarballEvent::Begin(Some("x64".to_string()))).state;
    let s = step(begun(), TarballEvent::IndexFetched(None));
    assert_eq!(
        stopped(&s),
        Some((Err(format!("could not fetch https://nodejs.org/dist/index.json (need curl or wget).{LINUX_HINT}")), vec![]))
    );
    let s = step(begun(), TarballEvent::IndexFetched(Some("[]".to_string())));
    assert_eq!(
        stopped(&s),
        Some((Err(format!("could not determine the current Node.js LTS from nodejs.org.{LINUX_HINT}")), vec![]))
    );
    let s = step(begun(), TarballEvent::IndexFetched(Some(INDEX.to_string())));
    let s = step(s.state, TarballEvent::StagingReady(Err("Permission denied".to_string())));
    assert_eq!(
        stopped(&s),
        Some((Err(format!("create {DIR}/.node-download: Permission denied")), vec![]))
    );
}

#[test]
fn tarball_install_removes_the_staging_dir_on_every_later_failure() {
    let staging = vec![format!("{DIR}/.node-download")];

    let s = step(at_hashing(), TarballEvent::Hashed(Some("00".to_string())));
    assert_eq!(
        stopped(&s),
        Some((
            Err("checksum mismatch for node-v22.11.0-linux-x64.tar.gz — refusing to use it\n  expected abababababababababababababababababababababababababababababababab\n  actual   00".to_string()),
            staging.clone()
        ))
    );

    let s = step(at_hashing(), TarballEvent::Hashed(None));
    assert_eq!(stopped(&s), Some((Err("no shasum/sha256sum available to verify the download".to_string()), staging.clone())));

    let ok = || step(at_hashing(), TarballEvent::Hashed(Some("abababababababababababababababababababababababababababababababab".to_string()))).state;
    let s = step(ok(), TarballEvent::Unpacked(RunOutcome::Failed("exit status: 2".to_string())));
    assert_eq!(stopped(&s), Some((Err("tar failed to unpack node-v22.11.0-linux-x64.tar.gz".to_string()), staging.clone())));

    let s = step(ok(), TarballEvent::Unpacked(RunOutcome::NotStarted("No such file".to_string())));
    assert_eq!(stopped(&s), Some((Err("could not run tar: No such file".to_string()), staging.clone())));

    let listed = || step(ok(), TarballEvent::Unpacked(RunOutcome::Succeeded)).state;
    let s = step(listed(), TarballEvent::Listed(Ok(vec![])));
    assert_eq!(stopped(&s), Some((Err("the downloaded archive did not contain a node-* directory".to_string()), staging.clone())));

    let s = step(listed(), TarballEvent::Listed(Err("gone".to_string())));
    assert_eq!(stopped(&s), Some((Err(format!("read {DIR}/.node-download: gone")), staging.clone())));

    let entries = vec![(format!("{DIR}/.node-download/node-v22.11.0-linux-x64"), "node-v22.11.0-linux-x64".to_string(), true)];
    let moving = step(listed(), TarballEvent::Listed(Ok(entries))).state;
    let s = step(moving, TarballEvent::Moved(Err("cross-device link".to_string())));
    assert_eq!(
        stopped(&s),
        Some((
            Err(format!("move {DIR}/.node-download/node-v22.11.0-linux-x64 -> {DIR}/node: cross-device link")),
            staging.clone()
        ))
    );
}

#[test]
fn tarball_install_removes_a_build_that_does_not_run() {
    let st = tarball_start(Platform::Linux, DIR, "linux");
    let s = step(st, TarballEvent::Begin(Some("x64".to_string())));
    let s = step(s.state, TarballEvent::IndexFetched(Some(INDEX.to_string())));
    let s = step(s.state, TarballEvent::StagingReady(Ok(())));
    let s = step(s.state, TarballEvent::Downloaded(false));
    assert_eq!(
        stopped(&s),
        Some((
            Err(format!("could not download https://nodejs.org/dist/v22.11.0/node-v22.11.0-linux-x64.tar.gz (need curl or wget).{LINUX_HINT}")),
            vec![format!("{DIR}/.node-download")]
        ))
    );

    let st = at_hashing();
    let s = step(st, TarballEvent::Hashed(Some("abababababababababababababababababababababababababababababababab".to_string())));
    let s = step(s.state, TarballEvent::Unpacked(RunOutcome::Succeeded));
    let entries = vec![(format!("{DIR}/.node-download/node-v22.11.0-linux-x64"), "node-v22.11.0-linux-x64".to_string(), true)];
    let s = step(s.state, TarballEvent::Listed(Ok(entries)));
    let s = step(s.state, TarballEvent::Moved(Ok(())));
    let s = step(s.state, TarballEvent::NodeRan(None));
    assert_eq!(
        stopped(&s),
        Some((
            Err(format!("the downloaded Node.js build does not run on this system (musl-based distro?).{LINUX_HINT}")),
            vec![format!("{DIR}/node"), format!("{DIR}/.node-download")]
        ))
    );
}

#[test]
fn tarball_install_without_a_published_checksum_stops() {
    let s = step(tarball_start(Platform::MacOs, "/Users/me/Library/Application Support/LocalTCP", "darwin"), TarballEvent::Begin(Some("x64".to_string())));
    let s = step(s.state, TarballEvent::IndexFetched(Some(INDEX.to_string())));
    let s = step(s.state, TarballEvent::StagingReady(Ok(())));
    let s = step(s.state, TarballEvent::Downloaded(true));
    let s = step(s.state, TarballEvent::SumsFetched(Some(SUMS.to_string())));
    assert_eq!(
        stopped(&s),
        Some((
            Err("nodejs.org published no checksum for node-v22.11.0-darwin-x64.tar.gz".to_string()),
            vec!["/Users/me/Library/Application Support/LocalTCP/.node-download".to_string()]
        ))
    );
}
