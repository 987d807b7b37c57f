//! Getting Node.js when it is missing, as step functions: each takes what the last outside
//! action produced and says what to do next (the driver performs the actions).
use vstd::prelude::*;
use crate::json::{latest_lts, latest_lts_version};
use crate::nodes::{
    checksum_in, found_node, installed_choice, passed_over, checksum_verdict, expected_checksum, install_hint_text, node_install_hint,
    result_view, verify_sha256,
};
use crate::paths::{join, join_unix};
use crate::platform::Platform;
use crate::report::{log_view, say, warn, LogLine};
use crate::text::{chars_of, lines_of, starts_with, starts_with_chars, string_of, trim, trimmed};

verus! {

/// How running an outside program went.
pub enum RunOutcome {
    Succeeded,
    /// It ran and failed; how it exited, as text.
    Failed(String),
    /// It could not be started; why, as text.
    NotStarted(String),
}

// ---------------------------------------------------------------------------
// Installing with the platform's package manager

/// What happened since the last step of an automatic install.
pub enum NodeInstallEvent {
    Start,
    /// Whether `winget` is on `PATH`.
    WingetLocated(bool),
    WingetRan(RunOutcome),
    /// The Node.js that winget installed, found on the persisted `PATH` or in a known
    /// location that exists.
    InstalledNodeFound(Option<String>),
    /// Where Homebrew is, if anywhere.
    BrewLocated(Option<String>),
    BrewRan(RunOutcome),
    /// A Node.js that runs, searched for again after Homebrew.
    NodeFound(Option<String>),
    /// How the install from nodejs.org's tarball ended.
    TarballDone(Result<String, String>),
}

/// What to do next.
pub enum NodeInstallAction {
    LocateWinget,
    /// `winget install --id OpenJS.NodeJS.LTS --exact --source winget --silent
    /// --accept-package-agreements --accept-source-agreements`.
    RunWinget,
    /// Look on the persisted `PATH`, then in the known locations that exist.
    LookForInstalledNode,
    LocateBrew,
    /// `<brew> install node`.
    RunBrew(String),
    /// Search for a Node.js that runs, as at the start of an install.
    FindNode,
    /// Install from nodejs.org's tarball for this OS name.
    InstallTarball(String),
    /// Stop with this Node.js path, or this error.
    Finish(Result<String, String>),
}

pub struct NodeInstallStep {
    pub log: Vec<LogLine>,
    pub action: NodeInstallAction,
}

/// The events each platform's automatic install can meet.
pub open spec fn node_event_fits(platform: Platform, event: NodeInstallEvent) -> bool {
    match event {
        NodeInstallEvent::Start => true,
        NodeInstallEvent::WingetLocated(_) => platform == Platform::Windows,
        NodeInstallEvent::WingetRan(_) => platform == Platform::Windows,
        NodeInstallEvent::InstalledNodeFound(_) => platform == Platform::Windows,
        NodeInstallEvent::BrewLocated(_) => platform == Platform::MacOs,
        NodeInstallEvent::BrewRan(_) => platform == Platform::MacOs,
        NodeInstallEvent::NodeFound(_) => platform == Platform::MacOs,
        NodeInstallEvent::TarballDone(_) => platform == Platform::MacOs || platform
            == Platform::Linux,
    }
}

/// `event` reports the Node.js at `p` as ready: found after winget (on the persisted `PATH`
/// or in a known location that exists), found running after Homebrew, or installed from
/// the tarball (which hands back only a Node.js that ran).
pub open spec fn node_reported(platform: Platform, event: NodeInstallEvent, p: Seq<char>) -> bool {
    match event {
        NodeInstallEvent::InstalledNodeFound(Some(n)) => platform == Platform::Windows && n@ == p,
        NodeInstallEvent::NodeFound(Some(n)) => platform == Platform::MacOs && n@ == p,
        NodeInstallEvent::TarballDone(Ok(n)) => (platform == Platform::MacOs || platform
            == Platform::Linux) && n@ == p,
        _ => false,
    }
}

/// A Node.js an automatic install hands back is one the search found ready. On Windows it
/// exists: it is the one on the persisted `PATH`, or a known location found to exist, when
/// the search after winget was `installed_node`. On macOS after Homebrew it ran, when the
/// search was `find_node`. (From the tarball, `install_node_from_tarball` hands back only
/// the unpacked Node.js after `node --version` ran.)
pub proof fn lemma_automatic_node_ready<W: Fn(&String) -> bool>(
    platform: Platform,
    event: NodeInstallEvent,
    p: Seq<char>,
    located: Option<String>,
    persisted: Option<String>,
    known: Seq<(String, bool)>,
    works: W,
)
    requires
        node_reported(platform, event, p),
        event matches NodeInstallEvent::InstalledNodeFound(r) ==> installed_choice(
            persisted,
            known,
            r,
        ),
        event matches NodeInstallEvent::NodeFound(r) ==> found_node(
            located,
            persisted,
            known,
            works,
            r,
        ),
    ensures
        event is InstalledNodeFound ==> platform == Platform::Windows && ((persisted matches Some(
            q,
        ) && q@ == p) || exists|i: int| 0 <= i < known.len() && known[i].0@ == p && known[i].1),
        event is NodeFound ==> platform == Platform::MacOs && exists|q: String|
            q@ == p && call_ensures(works, (&q,), true),
        event is TarballDone ==> platform == Platform::MacOs || platform == Platform::Linux,
{
    match event {
        NodeInstallEvent::InstalledNodeFound(r) => {
            let n = r->0;
            if persisted is None {
                let i = choose|i: int|
                    0 <= i < known.len() && known[i].0 == n && known[i].1 && forall|j: int|
                        0 <= j < i ==> !known[j].1;
                assert(known[i].0@ == p);
            }
        },
        NodeInstallEvent::NodeFound(r) => {
            let n = r->0;
            if !(located == Some(n) && call_ensures(works, (&n,), true)) && !(persisted == Some(n)
                && call_ensures(works, (&n,), true)) {
                let i = choose|i: int|
                    0 <= i < known.len() && known[i].0 == n && known[i].1 && call_ensures(
                        works,
                        (&known[i].0,),
                        true,
                    ) && forall|j: int| 0 <= j < i ==> passed_over(works, known[j]);
                assert(call_ensures(works, (&known[i].0,), true));
            }
            assert(call_ensures(works, (&n,), true));
        },
        _ => {},
    }
}

pub open spec fn hint_after(text: Seq<char>, platform: Platform) -> Seq<char> {
    text + "\n  "@ + install_hint_text(platform)
}

pub open spec fn ends_with_error(step: NodeInstallStep, e: Seq<char>) -> bool {
    &&& step.action matches NodeInstallAction::Finish(Err(m))
    &&& m@ == e
    &&& step.log@.len() == 0
}

pub open spec fn ends_with_node(step: NodeInstallStep, n: Seq<char>) -> bool {
    &&& step.action matches NodeInstallAction::Finish(Ok(p))
    &&& p@ == n
    &&& step.log@.len() == 0
}

pub open spec fn goes_to_tarball(step: NodeInstallStep, os: Seq<char>) -> bool {
    step.action matches NodeInstallAction::InstallTarball(o) && o@ == os
}

fn text(s: &str) -> (r: String)
    ensures
        r@ == s@,
{
    String::from_str(s)
}

fn with_hint(mut s: String, platform: Platform) -> (r: String)
    ensures
        r@ == hint_after(s@, platform),
{
    s.append("\n  ");
    s.append(node_install_hint(platform).as_str());
    s
}

/// One step of installing Node.js automatically: winget on Windows; Homebrew when present
/// on macOS, else (or when it fails) the official tarball; the tarball on Linux, which
/// needs no administrator rights; elsewhere, a refusal.
pub fn install_node_automatically(platform: Platform, event: NodeInstallEvent) -> (step:
    NodeInstallStep)
    requires
        node_event_fits(platform, event),
    ensures
        platform == Platform::Other ==> step.action matches NodeInstallAction::Finish(Err(_)),
        step.action matches NodeInstallAction::Finish(Ok(p)) ==> node_reported(platform, event, p@),
        event is Start ==> (platform == Platform::Windows ==> (step.action is LocateWinget
            && step.log@.len() == 0)) && (platform == Platform::MacOs ==> (step.action is LocateBrew
            && step.log@.len() == 0)) && (platform == Platform::Linux ==> (goes_to_tarball(
            step,
            "linux"@,
        ) && log_view(step.log@) == seq![
            (false, "[INFO] Fetching Node.js from nodejs.org (no administrator rights needed)."@),
        ])) && (platform == Platform::Other ==> ends_with_error(
            step,
            hint_after("automatic Node.js install isn't supported on this platform."@, platform),
        )),
        event matches NodeInstallEvent::WingetLocated(found) ==> if found {
            step.action is RunWinget && log_view(step.log@) == seq![
                (false, "[INFO] Installing Node.js LTS with winget — this can take a few minutes."@),
                (false, "       Approve the Windows permission prompt if one appears."@),
            ]
        } else {
            ends_with_error(
                step,
                hint_after(
                    "Node.js is missing and winget is unavailable, so it can't be installed automatically."@,
                    platform,
                ),
            )
        },
        event matches NodeInstallEvent::WingetRan(o) ==> match o {
            RunOutcome::Succeeded => step.action is LookForInstalledNode && log_view(step.log@)
                == seq![(false, "[OK] winget reported Node.js as installed."@)],
            RunOutcome::Failed(s) => step.action is LookForInstalledNode && log_view(step.log@)
                == seq![(true, "[WARN] winget exited with "@ + s@ + " — checking for Node anyway."@)],
            RunOutcome::NotStarted(e) => ends_with_error(
                step,
                hint_after("could not run winget: "@ + e@, platform),
            ),
        },
        event matches NodeInstallEvent::InstalledNodeFound(found) ==> match found {
            Some(n) => ends_with_node(step, n@),
            None => ends_with_error(
                step,
                hint_after(
                    "winget ran but Node.js still isn't detectable — a sign-out/in may be needed."@,
                    platform,
                ),
            ),
        },
        event matches NodeInstallEvent::BrewLocated(found) ==> match found {
            Some(b) => step.action matches NodeInstallAction::RunBrew(r) && r@ == b@ && log_view(
                step.log@,
            ) == seq![
                (false, "[INFO] Installing Node.js with Homebrew ("@ + b@
                    + ") — this can take a few minutes."@),
            ],
            None => goes_to_tarball(step, "darwin"@) && log_view(step.log@) == seq![
                (false, "[INFO] Homebrew isn't installed — fetching Node.js from nodejs.org instead."@),
            ],
        },
        event matches NodeInstallEvent::BrewRan(o) ==> match o {
            RunOutcome::Succeeded => step.action is FindNode && log_view(step.log@) == seq![
                (false, "[OK] Homebrew reported Node.js as installed."@),
            ],
            RunOutcome::Failed(s) => goes_to_tarball(step, "darwin"@) && log_view(step.log@)
                == seq![
                (true, "[WARN] Homebrew exited with "@ + s@
                    + " — fetching a private copy instead."@),
            ],
            RunOutcome::NotStarted(e) => goes_to_tarball(step, "darwin"@) && log_view(step.log@)
                == seq![
                (true, "[WARN] could not run Homebrew ("@ + e@
                    + ") — fetching a private copy instead."@),
            ],
        },
        event matches NodeInstallEvent::NodeFound(found) ==> match found {
            Some(n) => ends_with_node(step, n@),
            None => goes_to_tarball(step, "darwin"@) && log_view(step.log@) == seq![
                (true, "[WARN] Homebrew finished but Node still isn't visible — fetching a private copy."@),
            ],
        },
        event matches NodeInstallEvent::TarballDone(r) ==> step.action matches NodeInstallAction::Finish(
            f,
        ) && result_view(f) == result_view(r) && step.log@.len() == 0,
{
    let mut log: Vec<LogLine> = Vec::new();
    let action = match event {
        NodeInstallEvent::Start => {
            if platform == Platform::Windows {
                NodeInstallAction::LocateWinget
            } else if platform == Platform::MacOs {
                NodeInstallAction::LocateBrew
            } else if platform == Platform::Linux {
                log.push(
                    say(
                        text(
                            "[INFO] Fetching Node.js from nodejs.org (no administrator rights needed).",
                        ),
                    ),
                );
                NodeInstallAction::InstallTarball(text("linux"))
            } else {
                NodeInstallAction::Finish(
                    Err(
                        with_hint(
                            text("automatic Node.js install isn't supported on this platform."),
                            platform,
                        ),
                    ),
                )
            }
        },
        NodeInstallEvent::WingetLocated(found) => {
            if found {
                log.push(
                    say(
                        text(
                            "[INFO] Installing Node.js LTS with winget — this can take a few minutes.",
                        ),
                    ),
                );
                log.push(say(text("       Approve the Windows permission prompt if one appears.")));
                NodeInstallAction::RunWinget
            } else {
                NodeInstallAction::Finish(
                    Err(
                        with_hint(
                            text(
                                "Node.js is missing and winget is unavailable, so it can't be installed automatically.",
                            ),
                            platform,
                        ),
                    ),
                )
            }
        },
        NodeInstallEvent::WingetRan(o) => match o {
            RunOutcome::Succeeded => {
                log.push(say(text("[OK] winget reported Node.js as installed.")));
                NodeInstallAction::LookForInstalledNode
            },
            RunOutcome::Failed(s) => {
                let mut t = text("[WARN] winget exited with ");
                t.append(s.as_str());
                t.append(" — checking for Node anyway.");
                log.push(warn(t));
                NodeInstallAction::LookForInstalledNode
            },
            RunOutcome::NotStarted(e) => {
                let mut t = text("could not run winget: ");
                t.append(e.as_str());
                NodeInstallAction::Finish(Err(with_hint(t, platform)))
            },
        },
        NodeInstallEvent::InstalledNodeFound(found) => match found {
            Some(n) => NodeInstallAction::Finish(Ok(n)),
            None => NodeInstallAction::Finish(
                Err(
                    with_hint(
                        text(
                            "winget ran but Node.js still isn't detectable — a sign-out/in may be needed.",
                        ),
                        platform,
                    ),
                ),
            ),
        },
        NodeInstallEvent::BrewLocated(found) => match found {
            Some(b) => {
                let mut t = text("[INFO] Installing Node.js with Homebrew (");
                t.append(b.as_str());
                t.append(") — this can take a few minutes.");
                log.push(say(t));
                NodeInstallAction::RunBrew(b)
            },
            None => {
                log.push(
                    say(
                        text(
                            "[INFO] Homebrew isn't installed — fetching Node.js from nodejs.org instead.",
                        ),
                    ),
                );
                NodeInstallAction::InstallTarball(text("darwin"))
            },
        },
        NodeInstallEvent::BrewRan(o) => match o {
            RunOutcome::Succeeded => {
                log.push(say(text("[OK] Homebrew reported Node.js as installed.")));
                NodeInstallAction::FindNode
            },
            RunOutcome::Failed(s) => {
                let mut t = text("[WARN] Homebrew exited with ");
                t.append(s.as_str());
                t.append(" — fetching a private copy instead.");
                log.push(warn(t));
                NodeInstallAction::InstallTarball(text("darwin"))
            },
            RunOutcome::NotStarted(e) => {
                let mut t = text("[WARN] could not run Homebrew (");
                t.append(e.as_str());
                t.append(") — fetching a private copy instead.");
                log.push(warn(t));
                NodeInstallAction::InstallTarball(text("darwin"))
            },
        },
        NodeInstallEvent::NodeFound(found) => match found {
            Some(n) => NodeInstallAction::Finish(Ok(n)),
            None => {
                log.push(
                    warn(
                        text(
                            "[WARN] Homebrew finished but Node still isn't visible — fetching a private copy.",
                        ),
                    ),
                );
                NodeInstallAction::InstallTarball(text("darwin"))
            },
        },
        NodeInstallEvent::TarballDone(r) => NodeInstallAction::Finish(r),
    };
    NodeInstallStep { log, action }
}

// ---------------------------------------------------------------------------
// Installing from nodejs.org's tarball

pub open spec fn dist_text() -> Seq<char> {
    "https://nodejs.org/dist"@
}

pub open spec fn index_url_text() -> Seq<char> {
    dist_text() + "/index.json"@
}

pub open spec fn release_base_text(version: Seq<char>) -> Seq<char> {
    dist_text() + "/"@ + version
}

pub open spec fn tarball_file_text(version: Seq<char>, os: Seq<char>, arch: Seq<char>) -> Seq<
    char,
> {
    "node-"@ + version + "-"@ + os + "-"@ + arch + ".tar.gz"@
}

pub open spec fn download_url_text(version: Seq<char>, os: Seq<char>, arch: Seq<char>) -> Seq<
    char,
> {
    release_base_text(version) + "/"@ + tarball_file_text(version, os, arch)
}

pub open spec fn sums_url_text(version: Seq<char>) -> Seq<char> {
    release_base_text(version) + "/SHASUMS256.txt"@
}

/// The download is unpacked under `<dir>/.node-download`, then moved to `<dir>/node`, so
/// that removing the install directory removes it too.
pub open spec fn staging_text(dir: Seq<char>) -> Seq<char> {
    join_unix(dir, ".node-download"@)
}

pub open spec fn target_text(dir: Seq<char>) -> Seq<char> {
    join_unix(dir, "node"@)
}

pub open spec fn archive_text(dir: Seq<char>, version: Seq<char>, os: Seq<char>, arch: Seq<char>) -> Seq<
    char,
> {
    join_unix(staging_text(dir), tarball_file_text(version, os, arch))
}

pub open spec fn unpacked_node_text(dir: Seq<char>) -> Seq<char> {
    join_unix(join_unix(target_text(dir), "bin"@), "node"@)
}

pub open spec fn fetch_failed_text(url: Seq<char>, platform: Platform) -> Seq<char> {
    hint_after("could not fetch "@ + url + " (need curl or wget)."@, platform)
}

pub open spec fn download_failed_text(url: Seq<char>, platform: Platform) -> Seq<char> {
    hint_after("could not download "@ + url + " (need curl or wget)."@, platform)
}

/// The name of this CPU in nodejs.org's build names, for the CPUs it builds for.
pub open spec fn build_arch(cpu: Seq<char>) -> Option<Seq<char>> {
    if cpu == "aarch64"@ {
        Some("arm64"@)
    } else if cpu == "x86_64"@ {
        Some("x64"@)
    } else {
        None
    }
}

pub fn node_build_arch(cpu: &str) -> (r: Option<String>)
    ensures
        match r {
            Some(a) => build_arch(cpu@) == Some(a@),
            None => build_arch(cpu@) is None,
        },
{
    let c = String::from_str(cpu);
    if c == text("aarch64") {
        Some(text("arm64"))
    } else if c == text("x86_64") {
        Some(text("x64"))
    } else {
        None
    }
}

/// Where the tarball install stands: the next event it expects.
#[derive(Clone, Copy, Debug, PartialEq, Eq, Structural)]
pub enum TarballStage {
    Begin,
    FetchingIndex,
    PreparingStaging,
    Downloading,
    FetchingSums,
    Hashing,
    Unpacking,
    Listing,
    Moving,
    RunningNode,
    Done,
}

/// The tarball install's state: its settings and what it has learnt so far.
pub struct TarballState {
    pub stage: TarballStage,
    pub platform: Platform,
    /// The install directory.
    pub dir: String,
    /// `darwin` or `linux`.
    pub os: String,
    /// The CPU's build name, once known.
    pub arch: String,
    /// The release version, once known.
    pub version: String,
    /// The published `SHASUMS256.txt`, once fetched.
    pub sums: String,
    /// The unpacked `node-v*` directory, once found.
    pub unpacked: String,
}

/// What happened since the last step.
pub enum TarballEvent {
    /// The CPU's build name (`node_build_arch`), if nodejs.org builds for it.
    Begin(Option<String>),
    /// The text fetched, or `None` when neither curl nor wget could fetch it.
    IndexFetched(Option<String>),
    /// The staging directory was (re)created, or why not.
    StagingReady(Result<(), String>),
    /// Whether curl or wget downloaded the archive.
    Downloaded(bool),
    SumsFetched(Option<String>),
    /// The archive's SHA-256, or `None` when neither shasum nor sha256sum gave one.
    Hashed(Option<String>),
    Unpacked(RunOutcome),
    /// The staging directory's entries as (path, file name, is a directory), or why it could
    /// not be read.
    Listed(Result<Vec<(String, String, bool)>, String>),
    /// The unpacked directory was moved into place, or why not.
    Moved(Result<(), String>),
    /// What `node --version` printed when the unpacked Node.js ran, or `None`.
    NodeRan(Option<String>),
}

pub enum TarballAction {
    /// Fetch the release index at this URL.
    FetchIndex(String),
    /// Fetch the published checksums at this URL.
    FetchSums(String),
    /// Remove this directory if present (ignoring failure), then create it.
    PrepareDir(String),
    /// Download `url` into the file `to`.
    Download { url: String, to: String },
    /// Compute this file's SHA-256.
    Hash(String),
    /// `tar -xzf <archive> -C <into>`.
    Unpack { archive: String, into: String },
    /// Read this directory's entries.
    List(String),
    /// Remove `to` if present (ignoring failure), then rename `from` to `to`.
    Move { from: String, to: String },
    /// Run `<path> --version`.
    RunNode(String),
    /// Remove these directories (ignoring failures), then stop with this result.
    Finish { result: Result<String, String>, remove: Vec<String> },
}

pub struct TarballStep {
    pub state: TarballState,
    pub action: TarballAction,
    pub log: Vec<LogLine>,
}

/// A tarball install into `dir` for the OS named `os` (`darwin` or `linux`).
pub fn tarball_start(platform: Platform, dir: &str, os: &str) -> (s: TarballState)
    ensures
        s.stage == TarballStage::Begin,
        s.platform == platform,
        s.dir@ == dir@,
        s.os@ == os@,
{
    TarballState {
        stage: TarballStage::Begin,
        platform,
        dir: text(dir),
        os: text(os),
        arch: String::new(),
        version: String::new(),
        sums: String::new(),
        unpacked: String::new(),
    }
}

pub open spec fn tarball_event_fits(stage: TarballStage, event: TarballEvent) -> bool {
    match event {
        TarballEvent::Begin(_) => stage == TarballStage::Begin,
        TarballEvent::IndexFetched(_) => stage == TarballStage::FetchingIndex,
        TarballEvent::StagingReady(_) => stage == TarballStage::PreparingStaging,
        TarballEvent::Downloaded(_) => stage == TarballStage::Downloading,
        TarballEvent::SumsFetched(_) => stage == TarballStage::FetchingSums,
        TarballEvent::Hashed(_) => stage == TarballStage::Hashing,
        TarballEvent::Unpacked(_) => stage == TarballStage::Unpacking,
        TarballEvent::Listed(_) => stage == TarballStage::Listing,
        TarballEvent::Moved(_) => stage == TarballStage::Moving,
        TarballEvent::NodeRan(_) => stage == TarballStage::RunningNode,
    }
}

/// The settings and findings carry over from one step to the next.
pub open spec fn keeps_settings(a: TarballState, b: TarballState) -> bool {
    &&& a.platform == b.platform
    &&& a.dir@ == b.dir@
    &&& a.os@ == b.os@
}

pub open spec fn keeps_findings(a: TarballState, b: TarballState) -> bool {
    &&& keeps_settings(a, b)
    &&& a.arch@ == b.arch@
    &&& a.version@ == b.version@
    &&& a.sums@ == b.sums@
    &&& a.unpacked@ == b.unpacked@
}

/// The step stops with `result`, after removing `remove`.
pub open spec fn stops(step: TarballStep, result: Result<Seq<char>, Seq<char>>, remove: Seq<Seq<char>>) -> bool {
    &&& step.state.stage == TarballStage::Done
    &&& step.action matches TarballAction::Finish { result: r, remove: rm }
    &&& result_view(r) == result
    &&& rm.deep_view() == remove
}

/// The first entry that is a directory whose name begins with `node-v`.
pub open spec fn unpacked_dir(entries: Seq<(Seq<char>, Seq<char>, bool)>) -> Option<Seq<char>>
    decreases entries.len(),
{
    if entries.len() == 0 {
        None
    } else if entries[0].2 && starts_with(entries[0].1, "node-v"@) {
        Some(entries[0].0)
    } else {
        unpacked_dir(entries.skip(1))
    }
}

pub open spec fn entries_view(v: Seq<(String, String, bool)>) -> Seq<(Seq<char>, Seq<char>, bool)> {
    v.map_values(|e: (String, String, bool)| (e.0@, e.1@, e.2))
}

/// Picks the directory the archive unpacked into.
pub fn find_unpacked_dir(entries: &Vec<(String, String, bool)>) -> (r: Option<String>)
    ensures
        match r {
            Some(p) => unpacked_dir(entries_view(entries@)) == Some(p@),
            None => unpacked_dir(entries_view(entries@)) is None,
        },
{
    let ghost ev = entries_view(entries@);
    let prefix = chars_of("node-v");
    let mut i: usize = 0;
    assert(ev.skip(0) =~= ev);
    while i < entries.len()
        invariant
            i <= entries.len(),
            ev == entries_view(entries@),
            prefix@ == "node-v"@,
            unpacked_dir(ev.skip(i as int)) == unpacked_dir(ev),
        decreases entries.len() - i,
    {
        assert(ev.skip(i as int)[0] == ev[i as int]);
        let e = &entries[i];
        if e.2 && starts_with_chars(&chars_of(e.1.as_str()), &prefix) {
            return Some(e.0.clone());
        }
        assert(ev.skip(i as int).skip(1) =~= ev.skip(i + 1));
        i = i + 1;
    }
    None
}

fn release_base(version: &String) -> (r: String)
    ensures
        r@ == release_base_text(version@),
{
    let mut r = text("https://nodejs.org/dist/");
    r.append(version.as_str());
    proof {
        reveal_strlit("https://nodejs.org/dist/");
        reveal_strlit("https://nodejs.org/dist");
        reveal_strlit("/");
        assert("https://nodejs.org/dist/"@ =~= dist_text() + "/"@);
    }
    r
}

fn tarball_file(st: &TarballState) -> (r: String)
    ensures
        r@ == tarball_file_text(st.version@, st.os@, st.arch@),
{
    let mut r = text("node-");
    r.append(st.version.as_str());
    r.append("-");
    r.append(st.os.as_str());
    r.append("-");
    r.append(st.arch.as_str());
    r.append(".tar.gz");
    r
}

fn staging(st: &TarballState) -> (r: String)
    ensures
        r@ == staging_text(st.dir@),
{
    join(st.dir.as_str(), ".node-download")
}

fn target(st: &TarballState) -> (r: String)
    ensures
        r@ == target_text(st.dir@),
{
    join(st.dir.as_str(), "node")
}

fn with_stage(st: TarballState, stage: TarballStage) -> (r: TarballState)
    ensures
        r.stage == stage,
        keeps_findings(st, r),
{
    TarballState { stage, ..st }
}

fn stop(st: TarballState, result: Result<String, String>, remove: Vec<String>) -> (step: TarballStep)
    ensures
        step.state.stage == TarballStage::Done,
        keeps_findings(st, step.state),
        step.action == (TarballAction::Finish { result, remove }),
        step.log@.len() == 0,
{
    TarballStep {
        state: with_stage(st, TarballStage::Done),
        action: TarballAction::Finish { result, remove },
        log: Vec::new(),
    }
}

fn no_dirs() -> (v: Vec<String>)
    ensures
        v.deep_view() == Seq::<Seq<char>>::empty(),
{
    let v: Vec<String> = Vec::new();
    assert(v.deep_view() =~= Seq::<Seq<char>>::empty());
    v
}

fn stop_cleaning(st: TarballState, e: String) -> (step: TarballStep)
    ensures
        stops(step, Err(e@), seq![staging_text(st.dir@)]),
        step.action matches TarballAction::Finish { remove, .. } ==> remove.deep_view().contains(
            staging_text(st.dir@),
        ),
        keeps_findings(st, step.state),
        step.log@.len() == 0,
{
    let mut rm: Vec<String> = Vec::new();
    rm.push(staging(&st));
    assert(rm.deep_view() =~~= seq![staging_text(st.dir@)]);
    assert(rm.deep_view()[0] == staging_text(st.dir@));
    stop(st, Err(e), rm)
}

/// One step of installing Node.js from nodejs.org: look up the current LTS in
/// `index.json` (no version is pinned), download the archive for this OS and CPU into a
/// staging directory, check it against the published SHA-256, unpack it, move the
/// `node-v*` directory to `<dir>/node`, and prove that it runs before using it. Once the
/// staging directory exists, every way out removes it; a build that does not run is
/// removed too.
pub fn install_node_from_tarball(state: TarballState, event: TarballEvent) -> (step: TarballStep)
    requires
        tarball_event_fits(state.stage, event),
    ensures
        keeps_settings(state, step.state),
        state.stage != TarballStage::Begin && state.stage != TarballStage::FetchingIndex
            && state.stage != TarballStage::PreparingStaging ==> (
        step.action matches TarballAction::Finish { remove, .. } ==> remove.deep_view().contains(
            staging_text(state.dir@),
        )),
        step.action matches TarballAction::Finish { result: Ok(p), .. } ==> (
        event matches TarballEvent::NodeRan(Some(_)) && p@ == unpacked_node_text(state.dir@)),
        event matches TarballEvent::Begin(arch) ==> match arch {
            None => stops(
                step,
                Err(hint_after("no official Node.js build exists for this CPU."@, state.platform)),
                seq![],
            ) && step.log@.len() == 0,
            Some(a) => step.state.stage == TarballStage::FetchingIndex && step.state.arch@ == a@
                && (step.action matches TarballAction::FetchIndex(u) && u@ == index_url_text())
                && log_view(step.log@) == seq![
                (false, "[INFO] Looking up the current Node.js LTS release..."@),
            ],
        },
        event matches TarballEvent::IndexFetched(index) ==> match index {
            None => stops(step, Err(fetch_failed_text(index_url_text(), state.platform)), seq![])
                && step.log@.len() == 0,
            Some(t) => match latest_lts(t@) {
                None => stops(
                    step,
                    Err(
                        hint_after(
                            "could not determine the current Node.js LTS from nodejs.org."@,
                            state.platform,
                        ),
                    ),
                    seq![],
                ) && step.log@.len() == 0,
                Some(v) => step.state.stage == TarballStage::PreparingStaging && step.state.version@
                    == v && step.state.arch@ == state.arch@ && (step.action matches TarballAction::PrepareDir(
                    d,
                ) && d@ == staging_text(state.dir@)) && log_view(step.log@) == seq![
                    (false, "[INFO] Current LTS is "@ + v),
                ],
            },
        },
        event matches TarballEvent::StagingReady(r) ==> match r {
            Err(e) => stops(step, Err("create "@ + staging_text(state.dir@) + ": "@ + e@), seq![])
                && step.log@.len() == 0,
            Ok(()) => step.state.stage == TarballStage::Downloading && keeps_findings(
                state,
                step.state,
            ) && (step.action matches TarballAction::Download { url, to } && url@
                == download_url_text(state.version@, state.os@, state.arch@) && to@ == archive_text(
                state.dir@,
                state.version@,
                state.os@,
                state.arch@,
            )) && log_view(step.log@) == seq![
                (false, "[INFO] Downloading "@ + tarball_file_text(
                    state.version@,
                    state.os@,
                    state.arch@,
                )),
            ],
        },
        event matches TarballEvent::Downloaded(ok) ==> if ok {
            step.state.stage == TarballStage::FetchingSums && keeps_findings(state, step.state) && (
            step.action matches TarballAction::FetchSums(u) && u@ == sums_url_text(state.version@))
                && step.log@.len() == 0
        } else {
            stops(
                step,
                Err(
                    download_failed_text(
                        download_url_text(state.version@, state.os@, state.arch@),
                        state.platform,
                    ),
                ),
                seq![staging_text(state.dir@)],
            ) && step.log@.len() == 0
        },
        event matches TarballEvent::SumsFetched(sums) ==> match sums {
            None => stops(
                step,
                Err(fetch_failed_text(sums_url_text(state.version@), state.platform)),
                seq![staging_text(state.dir@)],
            ) && step.log@.len() == 0,
            Some(t) => if checksum_in(
                lines_of(t@),
                tarball_file_text(state.version@, state.os@, state.arch@),
            ) is None {
                stops(
                    step,
                    Err(
                        crate::nodes::no_checksum_text(
                            tarball_file_text(state.version@, state.os@, state.arch@),
                        ),
                    ),
                    seq![staging_text(state.dir@)],
                ) && step.log@.len() == 0
            } else {
                step.state.stage == TarballStage::Hashing && step.state.sums@ == t@
                    && step.state.version@ == state.version@ && step.state.arch@ == state.arch@
                    && (step.action matches TarballAction::Hash(p) && p@ == archive_text(
                    state.dir@,
                    state.version@,
                    state.os@,
                    state.arch@,
                )) && step.log@.len() == 0
            },
        },
        event matches TarballEvent::Hashed(h) ==> ({
            let actual = match h {
                Some(x) => Ok(x@),
                None => Err("no shasum/sha256sum available to verify the download"@),
            };
            let verdict = checksum_verdict(
                tarball_file_text(state.version@, state.os@, state.arch@),
                state.sums@,
                actual,
            );
            match verdict {
                Err(m) => stops(step, Err(m), seq![staging_text(state.dir@)]) && step.log@.len()
                    == 0,
                Ok(()) => step.state.stage == TarballStage::Unpacking && keeps_findings(
                    state,
                    step.state,
                ) && (step.action matches TarballAction::Unpack { archive, into } && archive@
                    == archive_text(state.dir@, state.version@, state.os@, state.arch@) && into@
                    == staging_text(state.dir@)) && log_view(step.log@) == seq![
                    (false, "[OK] Checksum verified."@),
                ],
            }
        }),
        event matches TarballEvent::Unpacked(o) ==> match o {
            RunOutcome::Succeeded => step.state.stage == TarballStage::Listing && keeps_findings(
                state,
                step.state,
            ) && (step.action matches TarballAction::List(p) && p@ == staging_text(state.dir@))
                && step.log@.len() == 0,
            RunOutcome::Failed(_) => stops(
                step,
                Err(
                    "tar failed to unpack "@ + tarball_file_text(
                        state.version@,
                        state.os@,
                        state.arch@,
                    ),
                ),
                seq![staging_text(state.dir@)],
            ) && step.log@.len() == 0,
            RunOutcome::NotStarted(e) => stops(
                step,
                Err("could not run tar: "@ + e@),
                seq![staging_text(state.dir@)],
            ) && step.log@.len() == 0,
        },
        event matches TarballEvent::Listed(l) ==> match l {
            Err(e) => stops(
                step,
                Err("read "@ + staging_text(state.dir@) + ": "@ + e@),
                seq![staging_text(state.dir@)],
            ) && step.log@.len() == 0,
            Ok(entries) => match unpacked_dir(entries_view(entries@)) {
                None => stops(
                    step,
                    Err("the downloaded archive did not contain a node-* directory"@),
                    seq![staging_text(state.dir@)],
                ) && step.log@.len() == 0,
                Some(u) => step.state.stage == TarballStage::Moving && step.state.unpacked@ == u
                    && (step.action matches TarballAction::Move { from, to } && from@ == u && to@
                    == target_text(state.dir@)) && step.log@.len() == 0,
            },
        },
        event matches TarballEvent::Moved(r) ==> match r {
            Err(e) => stops(
                step,
                Err(
                    "move "@ + state.unpacked@ + " -> "@ + target_text(state.dir@) + ": "@ + e@,
                ),
                seq![staging_text(state.dir@)],
            ) && step.log@.len() == 0,
            Ok(()) => step.state.stage == TarballStage::RunningNode && (
            step.action matches TarballAction::RunNode(p) && p@ == unpacked_node_text(state.dir@))
                && step.log@.len() == 0,
        },
        event matches TarballEvent::NodeRan(v) ==> match v {
            Some(out) => stops(
                step,
                Ok(unpacked_node_text(state.dir@)),
                seq![staging_text(state.dir@)],
            ) && log_view(step.log@) == seq![
                (false, "[OK] Installed Node "@ + trim(out@) + " into "@ + target_text(state.dir@)),
            ],
            None => stops(
                step,
                Err(
                    hint_after(
                        "the downloaded Node.js build does not run on this system (musl-based distro?)."@,
                        state.platform,
                    ),
                ),
                seq![target_text(state.dir@), staging_text(state.dir@)],
            ) && step.log@.len() == 0,
        },
{
    let platform = state.platform;
    match event {
        TarballEvent::Begin(arch) => match arch {
            None => {
                let e = with_hint(text("no official Node.js build exists for this CPU."), platform);
                let rm = no_dirs();
                let step = stop(state, Err(e), rm);
                assert(stops(step, Err(hint_after("no official Node.js build exists for this CPU."@, platform)), seq![]));
                step
            },
            Some(a) => {
                let mut log: Vec<LogLine> = Vec::new();
                log.push(say(text("[INFO] Looking up the current Node.js LTS release...")));
                let mut st = with_stage(state, TarballStage::FetchingIndex);
                st.arch = a;
                let mut u = text("https://nodejs.org/dist");
                u.append("/index.json");
                assert(u@ == index_url_text());
                assert(log_view(log@) =~= seq![
                    (false, "[INFO] Looking up the current Node.js LTS release..."@),
                ]);
                TarballStep { state: st, action: TarballAction::FetchIndex(u), log }
            },
        },
        TarballEvent::IndexFetched(index) => match index {
            None => {
                let mut e = text("could not fetch ");
                e.append("https://nodejs.org/dist");
                e.append("/index.json");
                e.append(" (need curl or wget).");
                assert(e@ =~= "could not fetch "@ + index_url_text() + " (need curl or wget)."@);
                stop(state, Err(with_hint(e, platform)), no_dirs())
            },
            Some(t) => match latest_lts_version(t.as_str()) {
                None => {
                    let e = with_hint(
                        text("could not determine the current Node.js LTS from nodejs.org."),
                        platform,
                    );
                    stop(state, Err(e), no_dirs())
                },
                Some(v) => {
                    let mut log: Vec<LogLine> = Vec::new();
                    let mut line = text("[INFO] Current LTS is ");
                    line.append(v.as_str());
                    log.push(say(line));
                    let mut st = with_stage(state, TarballStage::PreparingStaging);
                    st.version = v;
                    let d = staging(&st);
                    TarballStep { state: st, action: TarballAction::PrepareDir(d), log }
                },
            },
        },
        TarballEvent::StagingReady(r) => match r {
            Err(err) => {
                let mut e = text("create ");
                e.append(staging(&state).as_str());
                e.append(": ");
                e.append(err.as_str());
                let rm = no_dirs();
                stop(state, Err(e), rm)
            },
            Ok(()) => {
                let file = tarball_file(&state);
                let mut log: Vec<LogLine> = Vec::new();
                let mut line = text("[INFO] Downloading ");
                line.append(file.as_str());
                log.push(say(line));
                let mut url = release_base(&state.version);
                url.append("/");
                url.append(file.as_str());
                let to = join(staging(&state).as_str(), file.as_str());
                let st = with_stage(state, TarballStage::Downloading);
                TarballStep { state: st, action: TarballAction::Download { url, to }, log }
            },
        },
        TarballEvent::Downloaded(ok) => {
            if ok {
                let mut u = release_base(&state.version);
                u.append("/SHASUMS256.txt");
                let st = with_stage(state, TarballStage::FetchingSums);
                TarballStep { state: st, action: TarballAction::FetchSums(u), log: Vec::new() }
            } else {
                let file = tarball_file(&state);
                let mut url = release_base(&state.version);
                url.append("/");
                url.append(file.as_str());
                let mut e = text("could not download ");
                e.append(url.as_str());
                e.append(" (need curl or wget).");
                stop_cleaning(state, with_hint(e, platform))
            }
        },
        TarballEvent::SumsFetched(sums) => match sums {
            None => {
                let mut u = release_base(&state.version);
                u.append("/SHASUMS256.txt");
                let mut e = text("could not fetch ");
                e.append(u.as_str());
                e.append(" (need curl or wget).");
                stop_cleaning(state, with_hint(e, platform))
            },
            Some(t) => {
                let file = tarball_file(&state);
                match expected_checksum(t.as_str(), file.as_str()) {
                    None => {
                        let mut e = text("nodejs.org published no checksum for ");
                        e.append(file.as_str());
                        stop_cleaning(state, e)
                    },
                    Some(_) => {
                        let p = join(staging(&state).as_str(), file.as_str());
                        let mut st = with_stage(state, TarballStage::Hashing);
                        st.sums = t;
                        TarballStep { state: st, action: TarballAction::Hash(p), log: Vec::new() }
                    },
                }
            },
        },
        TarballEvent::Hashed(h) => {
            let actual: Result<String, String> = match h {
                Some(x) => Ok(x),
                None => Err(text("no shasum/sha256sum available to verify the download")),
            };
            let file = tarball_file(&state);
            match verify_sha256(file.as_str(), state.sums.as_str(), &actual) {
                Err(m) => stop_cleaning(state, m),
                Ok(()) => {
                    let mut log: Vec<LogLine> = Vec::new();
                    log.push(say(text("[OK] Checksum verified.")));
                    let archive = join(staging(&state).as_str(), file.as_str());
                    let into = staging(&state);
                    let st = with_stage(state, TarballStage::Unpacking);
                    TarballStep { state: st, action: TarballAction::Unpack { archive, into }, log }
                },
            }
        },
        TarballEvent::Unpacked(o) => match o {
            RunOutcome::Succeeded => {
                let p = staging(&state);
                let st = with_stage(state, TarballStage::Listing);
                TarballStep { state: st, action: TarballAction::List(p), log: Vec::new() }
            },
            RunOutcome::Failed(_) => {
                let mut e = text("tar failed to unpack ");
                e.append(tarball_file(&state).as_str());
                stop_cleaning(state, e)
            },
            RunOutcome::NotStarted(err) => {
                let mut e = text("could not run tar: ");
                e.append(err.as_str());
                stop_cleaning(state, e)
            },
        },
        TarballEvent::Listed(l) => match l {
            Err(err) => {
                let mut e = text("read ");
                e.append(staging(&state).as_str());
                e.append(": ");
                e.append(err.as_str());
                stop_cleaning(state, e)
            },
            Ok(entries) => match find_unpacked_dir(&entries) {
                None => stop_cleaning(
                    state,
                    text("the downloaded archive did not contain a node-* directory"),
                ),
                Some(u) => {
                    let to = target(&state);
                    let mut st = with_stage(state, TarballStage::Moving);
                    st.unpacked = u.clone();
                    TarballStep {
                        state: st,
                        action: TarballAction::Move { from: u, to },
                        log: Vec::new(),
                    }
                },
            },
        },
        TarballEvent::Moved(r) => match r {
            Err(err) => {
                let mut e = text("move ");
                e.append(state.unpacked.as_str());
                e.append(" -> ");
                e.append(target(&state).as_str());
                e.append(": ");
                e.append(err.as_str());
                stop_cleaning(state, e)
            },
            Ok(()) => {
                let b = join(target(&state).as_str(), "bin");
                let n = join(b.as_str(), "node");
                let st = with_stage(state, TarballStage::RunningNode);
                TarballStep { state: st, action: TarballAction::RunNode(n), log: Vec::new() }
            },
        },
        TarballEvent::NodeRan(v) => match v {
            Some(out) => {
                let oc = chars_of(out.as_str());
                let tv = trimmed(&oc);
                let mut line = text("[OK] Installed Node ");
                line.append(string_of(tv.as_slice()).as_str());
                line.append(" into ");
                line.append(target(&state).as_str());
                let b = join(target(&state).as_str(), "bin");
                let n = join(b.as_str(), "node");
                let mut rm: Vec<String> = Vec::new();
                rm.push(staging(&state));
                assert(rm.deep_view() =~~= seq![staging_text(state.dir@)]);
                assert(rm.deep_view()[0] == staging_text(state.dir@));
                let mut step = stop(state, Ok(n), rm);
                step.log.push(say(line));
                step
            },
            None => {
                let e = with_hint(
                    text(
                        "the downloaded Node.js build does not run on this system (musl-based distro?).",
                    ),
                    platform,
                );
                let mut rm: Vec<String> = Vec::new();
                rm.push(target(&state));
                rm.push(staging(&state));
                assert(rm.deep_view() =~~= seq![target_text(state.dir@), staging_text(state.dir@)]);
                assert(rm.deep_view()[1] == staging_text(state.dir@));
                stop(state, Err(e), rm)
            },
        },
    }
}

} // verus!
