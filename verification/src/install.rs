//! A whole install, as a step function: each step takes what the last outside action
//! produced and says what to do next. The program around the library performs the
//! actions (creating directories, writing files, running programs) and reports back.
use vstd::prelude::*;
use crate::host::{
    after_first_line, index_contents, launcher_script, launcher_text, lemma_shebang_read_back,
    manifest_for_host, no_newline, recorded_node_path, shebang_patched,
};
use crate::json::json_escaped;
use crate::paths::{
    browser_nm_dirs, is_primary_dir, join, join_unix, nm_dirs, reg_keys, registration_outcome,
    install_dir_path, install_dir_text, resolved_install_dir, should_register, unresolved_dir_text, windows_reg_keys,
};
use crate::platform::{host_name_text, manifest_file_name, Platform};
use crate::report::{
    banner_log, install_check_log, install_error_text, install_failures, install_outcome,
    log_view, opt_view, pairs_view, push_banner, readback_view, say, verify_install, warn, LogLine,
};
use crate::text::{replace_all, trim};

verus! {

/// Where an install stands: the next event it expects.
#[derive(Clone, Copy, Debug, PartialEq, Eq, Structural)]
pub enum InstallStage {
    Begin,
    CreatingDir,
    FindingNode,
    InstallingNode,
    WritingIndex,
    WritingLauncher,
    WritingManifest,
    /// Asking whether the browser of `targets[next]` is installed.
    CheckingBrowser,
    CreatingBrowserDir,
    WritingBrowserManifest,
    /// Writing the registry key `targets[next]`.
    AddingKey,
    Verifying,
    Done,
}

/// An install's settings and what it has done so far.
pub struct InstallState {
    pub stage: InstallStage,
    pub platform: Platform,
    /// The installer's version, for the banner.
    pub version: String,
    /// The host script that ships inside the installer.
    pub index_js: String,
    /// The manifest template that ships inside the installer (`HOST_PATH` marks the path).
    pub manifest_template: String,
    /// The install directory, once resolved.
    pub dir: String,
    /// The Node.js the host runs, once chosen.
    pub node: String,
    /// Where `index.js` was written.
    pub index_path: String,
    /// The program the manifest names: the launcher on Windows, `index.js` elsewhere.
    pub host_path: String,
    /// The manifest, once built.
    pub manifest: String,
    /// Where the install directory's copy of the manifest was written.
    pub manifest_path: String,
    /// The user's home directory.
    pub home: String,
    /// Where the host is registered: the registry keys on Windows, the browsers'
    /// native-messaging directories elsewhere.
    pub targets: Vec<String>,
    /// The index in `targets` of the one being handled.
    pub next: usize,
    /// How many targets the host was registered in so far.
    pub registered: usize,
}

/// How `reg add` went.
pub enum KeyAddition {
    Added,
    /// It ran and failed; what it printed on standard error.
    Refused(String),
    /// It could not be started; why.
    NotStarted(String),
}

/// What happened since the last step.
pub enum InstallEvent {
    /// The user's home directory and (Windows) `APPDATA`, and whether the platform's path
    /// rules call the install directory built from them (`install_dir_text`) relative.
    Begin { home: String, appdata: String, is_relative: bool },
    /// The directory was created, or why not.
    DirCreated(Result<(), String>),
    /// A Node.js that runs, found in the usual places or left by an earlier run, if any.
    NodeFound(Option<String>),
    /// How installing Node.js automatically ended.
    NodeInstalled(Result<String, String>),
    /// The file was written, at this path; or why not.
    Written(Result<String, String>),
    /// Whether the browser's profile directory (the parent of its native-messaging
    /// directory) exists.
    BrowserPresent(bool),
    KeyAdded(KeyAddition),
    /// What the post-install check observed: each file to check and whether it exists;
    /// what `node --version` printed when it ran successfully; and (Windows) the registry
    /// value read back, if any.
    Verified { files: Vec<(String, bool)>, node_reply: Option<String>, readback: Option<Option<String>> },
}

/// What to do next.
pub enum InstallAction {
    /// Create this directory and its parents.
    CreateDir(String),
    /// Look for a Node.js that runs (`find_node`), then for one an earlier run left in
    /// this install directory (`private_node`).
    FindNode(String),
    /// Install Node.js automatically (`install_node_automatically`) for this install
    /// directory.
    InstallNode(String),
    /// Write `contents` to the file `name` in the install directory, creating missing
    /// directories; make it executable when `executable`.
    WriteFile { name: String, contents: String, executable: bool },
    /// Write `contents` to the file at `path`, creating missing directories.
    WriteFileAt { path: String, contents: String },
    /// Check whether the parent of this browser directory exists.
    CheckBrowser(String),
    /// `reg add <key> /ve /t REG_SZ /d <value> /f`.
    AddKey { key: String, value: String },
    /// Check that each of `files` exists, run `<node> --version`, and read back the default
    /// value of `registry_key` when there is one.
    Verify { files: Vec<String>, node: String, registry_key: Option<String> },
    /// Stop with this result.
    Finish(Result<(), String>),
}

pub struct InstallStep {
    pub state: InstallState,
    pub action: InstallAction,
    pub log: Vec<LogLine>,
}

pub open spec fn install_title(version: Seq<char>) -> Seq<char> {
    "Local TCP Bridge — Installer v"@ + version
}

/// A fresh install for `platform`, shipping `index_js` and `manifest_template`.
pub fn install_start(platform: Platform, version: &str, index_js: &str, manifest_template: &str) -> (s:
    InstallState)
    ensures
        s.stage == InstallStage::Begin,
        s.platform == platform,
        s.version@ == version@,
        s.index_js@ == index_js@,
        s.manifest_template@ == manifest_template@,
        install_state_ok(s),
{
    InstallState {
        stage: InstallStage::Begin,
        platform,
        version: String::from_str(version),
        index_js: String::from_str(index_js),
        manifest_template: String::from_str(manifest_template),
        dir: String::new(),
        node: String::new(),
        index_path: String::new(),
        host_path: String::new(),
        manifest: String::new(),
        manifest_path: String::new(),
        home: String::new(),
        targets: Vec::new(),
        next: 0,
        registered: 0,
    }
}

/// The stages that handle `targets[next]`.
pub open spec fn handles_target(stage: InstallStage) -> bool {
    stage == InstallStage::CheckingBrowser || stage == InstallStage::CreatingBrowserDir || stage
        == InstallStage::WritingBrowserManifest || stage == InstallStage::AddingKey
}

pub open spec fn install_state_ok(s: InstallState) -> bool {
    &&& s.registered <= s.next <= s.targets@.len()
    &&& handles_target(s.stage) ==> s.next < s.targets@.len()
}

pub open spec fn install_event_fits(state: InstallState, event: InstallEvent) -> bool {
    &&& install_state_ok(state)
    &&& match event {
        InstallEvent::Begin { .. } => state.stage == InstallStage::Begin,
        InstallEvent::DirCreated(_) => state.stage == InstallStage::CreatingDir || state.stage
            == InstallStage::CreatingBrowserDir,
        InstallEvent::NodeFound(_) => state.stage == InstallStage::FindingNode,
        InstallEvent::NodeInstalled(_) => state.stage == InstallStage::InstallingNode,
        InstallEvent::Written(_) => state.stage == InstallStage::WritingIndex || state.stage
            == InstallStage::WritingLauncher || state.stage == InstallStage::WritingManifest
            || state.stage == InstallStage::WritingBrowserManifest,
        InstallEvent::BrowserPresent(_) => state.stage == InstallStage::CheckingBrowser,
        InstallEvent::KeyAdded(_) => state.stage == InstallStage::AddingKey,
        InstallEvent::Verified { files, .. } => state.stage == InstallStage::Verifying
            && files@.len() < usize::MAX,
    }
}

/// The settings never change from one step to the next.
pub open spec fn keeps_install_settings(a: InstallState, b: InstallState) -> bool {
    &&& a.platform == b.platform
    &&& a.version@ == b.version@
    &&& a.index_js@ == b.index_js@
    &&& a.manifest_template@ == b.manifest_template@
}

/// What the install has settled (its directory, the Node.js, the files it wrote and the
/// registration targets) stays as it is.
pub open spec fn keeps_install_plan(a: InstallState, b: InstallState) -> bool {
    &&& a.dir@ == b.dir@
    &&& a.node@ == b.node@
    &&& a.index_path@ == b.index_path@
    &&& a.host_path@ == b.host_path@
    &&& a.manifest@ == b.manifest@
    &&& a.manifest_path@ == b.manifest_path@
    &&& a.home@ == b.home@
    &&& a.targets.deep_view() == b.targets.deep_view()
}

/// The step stops the install with `r`.
pub open spec fn install_finishes(step: InstallStep, r: Result<(), Seq<char>>) -> bool {
    &&& step.state.stage == InstallStage::Done
    &&& step.action matches InstallAction::Finish(x)
    &&& match (x, r) {
        (Ok(()), Ok(())) => true,
        (Err(m), Err(e)) => m@ == e,
        _ => false,
    }
}

/// The step writes `contents` to `name`.
pub open spec fn writes(step: InstallStep, name: Seq<char>, contents: Seq<char>, executable: bool) -> bool {
    step.action matches InstallAction::WriteFile { name: n, contents: c, executable: x } && n@
        == name && c@ == contents && x == executable
}

/// The installed `index.js`.
pub open spec fn index_text(platform: Platform, index_js: Seq<char>, node: Seq<char>) -> Seq<char> {
    if platform == Platform::Windows {
        index_js
    } else {
        shebang_patched(index_js, node)
    }
}

/// The `index.js` an install writes: on Windows the shipped script as it is (the launcher
/// names Node.js); elsewhere the shipped script with its first line replaced by `#!` and
/// the chosen Node.js, so that running it never depends on `PATH`; and the uninstaller
/// reads that Node.js back from it (trimmed), for a path without a newline.
pub proof fn lemma_index_names_node(platform: Platform, index_js: Seq<char>, node: Seq<char>)
    ensures
        platform == Platform::Windows ==> index_text(platform, index_js, node) == index_js,
        platform != Platform::Windows ==> index_text(platform, index_js, node).take(
            node.len() + 3int,
        ) == seq!['#', '!'] + node + seq!['\n'],
        platform != Platform::Windows ==> index_text(platform, index_js, node).skip(
            node.len() + 3int,
        ) == after_first_line(index_js),
        platform != Platform::Windows && no_newline(node) ==> recorded_node_path(
            platform,
            index_text(platform, index_js, node),
        ) == Some(trim(node)),
{
    if platform != Platform::Windows {
        let t = index_text(platform, index_js, node);
        assert(t.take(node.len() + 3int) =~= seq!['#', '!'] + node + seq!['\n']);
        assert(t.skip(node.len() + 3int) =~= after_first_line(index_js));
        if no_newline(node) {
            lemma_shebang_read_back(platform, index_js, node);
        }
    }
}


/// The manifest, naming `host_path`.
pub open spec fn manifest_text(template: Seq<char>, host_path: Seq<char>) -> Seq<char> {
    replace_all(template, "HOST_PATH"@, json_escaped(host_path))
}

/// The manifest's file name.
pub open spec fn manifest_name() -> Seq<char> {
    host_name_text() + ".json"@
}

/// Where the host is registered: the registry keys on Windows, each browser's
/// native-messaging directory elsewhere.
pub open spec fn registration_targets(platform: Platform, home: Seq<char>) -> Seq<Seq<char>> {
    if platform == Platform::Windows {
        reg_keys()
    } else {
        nm_dirs(platform, home)
    }
}

/// The files the post-install check looks at: `index.js` and the manifest copy, then the
/// program the manifest names unless it is one of those.
pub open spec fn files_to_check(index_path: Seq<char>, manifest_path: Seq<char>, host_path: Seq<char>) -> Seq<
    Seq<char>,
> {
    if host_path == index_path || host_path == manifest_path {
        seq![index_path, manifest_path]
    } else {
        seq![index_path, manifest_path, host_path]
    }
}

/// The step writes the manifest copy, naming `host_path`, into the install directory.
pub open spec fn writes_manifest(step: InstallStep, state: InstallState, host_path: Seq<char>) -> bool {
    &&& step.state.stage == InstallStage::WritingManifest
    &&& step.state.host_path@ == host_path
    &&& step.state.manifest@ == manifest_text(state.manifest_template@, host_path)
    &&& writes(step, manifest_name(), manifest_text(state.manifest_template@, host_path), false)
}

/// With a Node.js chosen: the step writes `index.js` for it.
pub open spec fn writes_index(step: InstallStep, state: InstallState, node: Seq<char>) -> bool {
    &&& step.state.stage == InstallStage::WritingIndex
    &&& step.state.node@ == node
    &&& step.state.dir@ == state.dir@
    &&& step.state.home@ == state.home@
    &&& writes(step, "index.js"@, index_text(state.platform, state.index_js@, node), true)
}

/// The step runs the post-install check of `s`'s files and Node.js.
pub open spec fn starts_check(step: InstallStep, s: InstallState) -> bool {
    &&& step.state.stage == InstallStage::Verifying
    &&& step.action matches InstallAction::Verify { files, node, registry_key }
    &&& files.deep_view() == files_to_check(s.index_path@, s.manifest_path@, s.host_path@)
    &&& node@ == s.node@
    &&& if s.platform == Platform::Windows {
        registry_key matches Some(k) && k@ == reg_keys()[0]
    } else {
        registry_key is None
    }
}

/// The step goes on to registration target `i` of `s` (past the last one: to the
/// post-install check when the host was registered somewhere, else to a refusal), with
/// `count` registrations made, after printing `lines`.
pub open spec fn registers_from(
    step: InstallStep,
    s: InstallState,
    i: int,
    count: int,
    lines: Seq<(bool, Seq<char>)>,
) -> bool {
    &&& step.state.next == i
    &&& step.state.registered == count
    &&& log_view(step.log@) == lines
    &&& if i < s.targets@.len() {
        if s.platform == Platform::Windows {
            step.state.stage == InstallStage::AddingKey && (
            step.action matches InstallAction::AddKey { key, value } && key@ == s.targets@[i]@
                && value@ == s.manifest_path@)
        } else {
            step.state.stage == InstallStage::CheckingBrowser && (
            step.action matches InstallAction::CheckBrowser(d) && d@ == s.targets@[i]@)
        }
    } else if count > 0 {
        starts_check(step, s)
    } else {
        install_finishes(
            step,
            Err(
                if s.platform == Platform::Windows {
                    "failed to register the host in the Windows registry"@
                } else {
                    "could not register the host with any browser"@
                },
            ),
        )
    }
}

pub open spec fn success_lines() -> Seq<(bool, Seq<char>)> {
    banner_log("✅ Installed"@) + seq![
        (false, "Restart your browser completely, then use the Local TCP extension."@),
        (false, "Tip: the extension popup's bridge check should report version from index.js."@),
    ]
}

fn text(s: &str) -> (r: String)
    ensures
        r@ == s@,
{
    String::from_str(s)
}

fn with_stage(st: InstallState, stage: InstallStage) -> (r: InstallState)
    ensures
        r.stage == stage,
        keeps_install_settings(st, r),
        keeps_install_plan(st, r),
        r.targets == st.targets,
        r.next == st.next,
        r.registered == st.registered,
{
    InstallState { stage, ..st }
}

fn finish(st: InstallState, result: Result<(), String>, log: Vec<LogLine>) -> (step: InstallStep)
    ensures
        step.state.stage == InstallStage::Done,
        keeps_install_settings(st, step.state),
        keeps_install_plan(st, step.state),
        step.state.next == st.next,
        step.state.registered == st.registered,
        step.action == InstallAction::Finish(result),
        step.log == log,
{
    InstallStep { state: with_stage(st, InstallStage::Done), action: InstallAction::Finish(result), log }
}

/// With `node` chosen: say so, and write `index.js` for it.
fn use_node(st: InstallState, node: String) -> (step: InstallStep)
    requires
        install_state_ok(st),
    ensures
        keeps_install_settings(st, step.state),
        writes_index(step, st, node@),
        install_state_ok(step.state),
        log_view(step.log@) == seq![(false, "[OK] Using Node at: "@ + node@)],
{
    let mut log: Vec<LogLine> = Vec::new();
    let mut line = text("[OK] Using Node at: ");
    line.append(node.as_str());
    log.push(say(line));
    let contents = index_contents(st.platform, st.index_js.as_str(), node.as_str());
    let mut s = with_stage(st, InstallStage::WritingIndex);
    s.node = node;
    assert(log_view(log@) =~= seq![(false, "[OK] Using Node at: "@ + s.node@)]);
    InstallStep {
        state: s,
        action: InstallAction::WriteFile { name: text("index.js"), contents, executable: true },
        log,
    }
}

/// With the program the manifest names known: build the manifest and write its copy.
fn write_manifest(st: InstallState, host_path: String, log: Vec<LogLine>) -> (step: InstallStep)
    requires
        install_state_ok(st),
    ensures
        keeps_install_settings(st, step.state),
        writes_manifest(step, st, host_path@),
        step.state.index_path@ == st.index_path@,
        step.state.node@ == st.node@,
        step.state.dir@ == st.dir@,
        step.state.home@ == st.home@,
        install_state_ok(step.state),
        step.log == log,
{
    let manifest = manifest_for_host(st.manifest_template.as_str(), host_path.as_str());
    let contents = manifest.clone();
    let mut s = with_stage(st, InstallStage::WritingManifest);
    s.host_path = host_path;
    s.manifest = manifest;
    InstallStep {
        state: s,
        action: InstallAction::WriteFile { name: manifest_file_name(), contents, executable: false },
        log,
    }
}

/// Goes on to registration target `i` with `count` registrations made; past the last
/// target, checks the install when the host was registered somewhere.
fn register_from(st: InstallState, i: usize, count: usize, log: Vec<LogLine>) -> (step: InstallStep)
    requires
        count <= i <= st.targets@.len(),
    ensures
        registers_from(step, st, i as int, count as int, log_view(log@)),
        keeps_install_settings(st, step.state),
        keeps_install_plan(st, step.state),
        step.state.targets == st.targets,
        step.state.stage != InstallStage::Done ==> install_state_ok(step.state),
{
    let n = st.targets.len();
    if i < n {
        let target = st.targets[i].clone();
        if st.platform == Platform::Windows {
            let value = st.manifest_path.clone();
            let mut s = with_stage(st, InstallStage::AddingKey);
            s.next = i;
            s.registered = count;
            InstallStep { state: s, action: InstallAction::AddKey { key: target, value }, log }
        } else {
            let mut s = with_stage(st, InstallStage::CheckingBrowser);
            s.next = i;
            s.registered = count;
            InstallStep { state: s, action: InstallAction::CheckBrowser(target), log }
        }
    } else {
        let platform = st.platform;
        match registration_outcome(platform, count) {
            Err(e) => {
                let mut s = with_stage(st, InstallStage::Done);
                s.next = i;
                s.registered = count;
                InstallStep { state: s, action: InstallAction::Finish(Err(e)), log }
            },
            Ok(()) => {
                let mut files: Vec<String> = Vec::new();
                files.push(st.index_path.clone());
                files.push(st.manifest_path.clone());
                let ghost listed = files.deep_view();
                if !(st.host_path == st.index_path) && !(st.host_path == st.manifest_path) {
                    files.push(st.host_path.clone());
                    assert(files.deep_view() =~~= listed.push(st.host_path@));
                }
                assert(files.deep_view() =~~= files_to_check(
                    st.index_path@,
                    st.manifest_path@,
                    st.host_path@,
                ));
                let registry_key = if platform == Platform::Windows {
                    let mut keys = windows_reg_keys();
                    assert(keys.deep_view().len() == 4);
                    assert(keys@[0]@ == keys.deep_view()[0]);
                    Some(keys.remove(0))
                } else {
                    None
                };
                let node = st.node.clone();
                let mut s = with_stage(st, InstallStage::Verifying);
                s.next = i;
                s.registered = count;
                InstallStep { state: s, action: InstallAction::Verify { files, node, registry_key }, log }
            },
        }
    }
}

fn one_line(t: String, to_stderr: bool) -> (log: Vec<LogLine>)
    ensures
        log_view(log@) == seq![(to_stderr, t@)],
{
    let mut log: Vec<LogLine> = Vec::new();
    if to_stderr {
        log.push(warn(t));
    } else {
        log.push(say(t));
    }
    assert(log_view(log@) =~= seq![(to_stderr, t@)]);
    log
}

fn no_lines() -> (log: Vec<LogLine>)
    ensures
        log_view(log@) == Seq::<(bool, Seq<char>)>::empty(),
{
    let log: Vec<LogLine> = Vec::new();
    assert(log_view(log@) =~= Seq::<(bool, Seq<char>)>::empty());
    log
}

/// One step of an install: resolve and create the install directory; choose a Node.js
/// that runs (installing one if there is none); write `index.js` (its `#!` line naming
/// that Node.js, except on Windows), the Windows launcher, and the manifest naming the
/// program the browser launches; register the host (in the registry on Windows; elsewhere
/// in the primary browser's directory and in each other browser's whose profile exists),
/// failing when it was registered nowhere; and report success only when every
/// post-install check passed.
pub fn install_step(state: InstallState, event: InstallEvent) -> (step: InstallStep)
    requires
        install_event_fits(state, event),
    ensures
        keeps_install_settings(state, step.state),
        step.state.stage != InstallStage::Done ==> install_state_ok(step.state),
        step.action matches InstallAction::Finish(Ok(())) ==> (
        event matches InstallEvent::Verified { files, node_reply, .. } && install_failures(
            pairs_view(files@),
            opt_view(node_reply),
        ) == 0),
        event matches InstallEvent::Begin { home, appdata, is_relative } ==> ({
            let dir = install_dir_path(state.platform, home@, appdata@);
            if dir.len() > 0 && !is_relative {
                step.state.stage == InstallStage::CreatingDir && step.state.dir@ == dir
                    && step.state.home@ == home@ && (step.action matches InstallAction::CreateDir(d)
                    && d@ == dir) && log_view(step.log@) == banner_log(install_title(state.version@))
            } else {
                install_finishes(step, Err(unresolved_dir_text(state.platform))) && log_view(
                    step.log@,
                ) == banner_log(install_title(state.version@))
            }
        }),
        event matches InstallEvent::DirCreated(r) ==> if state.stage == InstallStage::CreatingDir {
            match r {
                Err(e) => install_finishes(step, Err("create "@ + state.dir@ + ": "@ + e@))
                    && step.log@.len() == 0,
                Ok(()) => step.state.stage == InstallStage::FindingNode && step.state.dir@
                    == state.dir@ && step.state.home@ == state.home@ && (
                step.action matches InstallAction::FindNode(d) && d@ == state.dir@) && log_view(
                    step.log@,
                ) == seq![(false, "[INFO] Install dir: "@ + state.dir@)],
            }
        } else {
            keeps_install_plan(state, step.state) && ({
                let d = state.targets@[state.next as int]@;
                match r {
                    Err(e) => registers_from(
                        step,
                        state,
                        state.next + 1,
                        state.registered as int,
                        seq![(true, "[WARN] skip "@ + d + ": "@ + e@)],
                    ),
                    Ok(()) => step.state.stage == InstallStage::WritingBrowserManifest
                        && step.state.next == state.next && step.state.registered
                        == state.registered && step.log@.len() == 0 && (
                    step.action matches InstallAction::WriteFileAt { path, contents } && path@
                        == join_unix(d, manifest_name()) && contents@ == state.manifest@),
                }
            })
        },
        event matches InstallEvent::NodeFound(found) ==> match found {
            Some(n) => writes_index(step, state, n@) && log_view(step.log@) == seq![
                (false, "[OK] Using Node at: "@ + n@),
            ],
            None => step.state.stage == InstallStage::InstallingNode && step.state.dir@
                == state.dir@ && step.state.home@ == state.home@ && (
            step.action matches InstallAction::InstallNode(d) && d@ == state.dir@) && log_view(
                step.log@,
            ) == seq![
                (true, "[WARN] Node.js was not found in PATH or in any known install location."@),
            ],
        },
        event matches InstallEvent::NodeInstalled(r) ==> match r {
            Err(e) => install_finishes(step, Err(e@)) && step.log@.len() == 0,
            Ok(n) => writes_index(step, state, n@) && log_view(step.log@) == seq![
                (false, "[OK] Using Node at: "@ + n@),
            ],
        },
        event matches InstallEvent::Written(r) ==> if state.stage
            == InstallStage::WritingBrowserManifest {
            keeps_install_plan(state, step.state) && ({
                let f = join_unix(state.targets@[state.next as int]@, manifest_name());
                match r {
                    Ok(_) => registers_from(
                        step,
                        state,
                        state.next + 1,
                        state.registered + 1,
                        seq![(false, "[INFO] Registered: "@ + f)],
                    ),
                    Err(_) => registers_from(
                        step,
                        state,
                        state.next + 1,
                        state.registered as int,
                        seq![],
                    ),
                }
            })
        } else {
            match r {
                Err(e) => install_finishes(step, Err(e@)) && step.log@.len() == 0,
                Ok(path) => if state.stage == InstallStage::WritingIndex {
                    step.state.index_path@ == path@ && log_view(step.log@) == seq![
                        (false, "[INFO] Wrote "@ + path@),
                    ] && if state.platform == Platform::Windows {
                        step.state.stage == InstallStage::WritingLauncher && writes(
                            step,
                            "run_bridge.bat"@,
                            launcher_text(state.node@),
                            false,
                        )
                    } else {
                        writes_manifest(step, state, path@)
                    }
                } else if state.stage == InstallStage::WritingLauncher {
                    step.state.index_path@ == state.index_path@ && writes_manifest(
                        step,
                        state,
                        path@,
                    ) && log_view(step.log@) == seq![(false, "[INFO] Wrote "@ + path@)]
                } else {
                    step.state.manifest_path@ == path@ && step.state.targets.deep_view()
                        == registration_targets(state.platform, state.home@)
                        && step.state.index_path@ == state.index_path@ && step.state.host_path@
                        == state.host_path@ && step.state.manifest@ == state.manifest@
                        && step.state.node@ == state.node@ && registers_from(
                        step,
                        step.state,
                        0,
                        0,
                        seq![],
                    )
                },
            }
        },
        event matches InstallEvent::BrowserPresent(present) ==> keeps_install_plan(state, step.state)
            && ({
            let d = state.targets@[state.next as int]@;
            if is_primary_dir(d) || present {
                step.state.stage == InstallStage::CreatingBrowserDir && step.state.next
                    == state.next && step.state.registered == state.registered
                    && step.log@.len() == 0 && (step.action matches InstallAction::CreateDir(c)
                    && c@ == d)
            } else {
                registers_from(step, state, state.next + 1, state.registered as int, seq![])
            }
        }),
        event matches InstallEvent::KeyAdded(a) ==> keeps_install_plan(state, step.state) && ({
            let key = state.targets@[state.next as int]@;
            match a {
                KeyAddition::Added => registers_from(
                    step,
                    state,
                    state.next + 1,
                    state.registered + 1,
                    seq![(false, "[INFO] Registered: "@ + key)],
                ),
                KeyAddition::Refused(err) => registers_from(
                    step,
                    state,
                    state.next + 1,
                    state.registered as int,
                    seq![(true, "[WARN] could not write "@ + key + ": "@ + trim(err@))],
                ),
                KeyAddition::NotStarted(err) => registers_from(
                    step,
                    state,
                    state.next + 1,
                    state.registered as int,
                    seq![(true, "[WARN] could not run reg.exe for "@ + key + ": "@ + err@)],
                ),
            }
        }),
        event matches InstallEvent::Verified { files, node_reply, readback } ==> ({
            let fails = install_failures(pairs_view(files@), opt_view(node_reply));
            let checks = install_check_log(
                pairs_view(files@),
                state.node@,
                opt_view(node_reply),
                readback_view(readback),
            );
            if fails == 0 {
                install_finishes(step, Ok(())) && log_view(step.log@) == checks + success_lines()
            } else {
                install_finishes(step, Err(install_error_text(fails))) && log_view(step.log@)
                    == checks
            }
        }),
{
    let platform = state.platform;
    let target_count = state.targets.len();
    assert(state.next <= target_count);
    match event {
        InstallEvent::Begin { home, appdata, is_relative } => {
            let dir = install_dir_text(state.platform, home.as_str(), appdata.as_str());
            let mut log: Vec<LogLine> = Vec::new();
            let mut title = text("Local TCP Bridge — Installer v");
            title.append(state.version.as_str());
            push_banner(&mut log, title.as_str());
            assert(log_view(log@) =~= banner_log(install_title(state.version@)));
            match resolved_install_dir(platform, dir.as_str(), is_relative) {
                Err(e) => finish(state, Err(e), log),
                Ok(d) => {
                    let mut s = with_stage(state, InstallStage::CreatingDir);
                    s.dir = d.clone();
                    s.home = home;
                    InstallStep { state: s, action: InstallAction::CreateDir(d), log }
                },
            }
        },
        InstallEvent::DirCreated(r) => {
            if state.stage == InstallStage::CreatingDir {
                match r {
                    Err(err) => {
                        let mut e = text("create ");
                        e.append(state.dir.as_str());
                        e.append(": ");
                        e.append(err.as_str());
                        finish(state, Err(e), Vec::new())
                    },
                    Ok(()) => {
                        let mut line = text("[INFO] Install dir: ");
                        line.append(state.dir.as_str());
                        let log = one_line(line, false);
                        let d = state.dir.clone();
                        let s = with_stage(state, InstallStage::FindingNode);
                        InstallStep { state: s, action: InstallAction::FindNode(d), log }
                    },
                }
            } else {
                let d = state.targets[state.next].clone();
                match r {
                    Err(err) => {
                        let mut line = text("[WARN] skip ");
                        line.append(d.as_str());
                        line.append(": ");
                        line.append(err.as_str());
                        let next = state.next + 1;
                        let count = state.registered;
                        register_from(state, next, count, one_line(line, true))
                    },
                    Ok(()) => {
                        let path = join(d.as_str(), manifest_file_name().as_str());
                        let contents = state.manifest.clone();
                        let s = with_stage(state, InstallStage::WritingBrowserManifest);
                        InstallStep {
                            state: s,
                            action: InstallAction::WriteFileAt { path, contents },
                            log: Vec::new(),
                        }
                    },
                }
            }
        },
        InstallEvent::NodeFound(found) => match found {
            Some(n) => use_node(state, n),
            None => {
                let log = one_line(
                    text("[WARN] Node.js was not found in PATH or in any known install location."),
                    true,
                );
                let d = state.dir.clone();
                let s = with_stage(state, InstallStage::InstallingNode);
                InstallStep { state: s, action: InstallAction::InstallNode(d), log }
            },
        },
        InstallEvent::NodeInstalled(r) => match r {
            Err(e) => finish(state, Err(e), Vec::new()),
            Ok(n) => use_node(state, n),
        },
        InstallEvent::Written(r) => {
            if state.stage == InstallStage::WritingBrowserManifest {
                let next = state.next + 1;
                match r {
                    Ok(_) => {
                        let f = join(state.targets[state.next].as_str(), manifest_file_name().as_str());
                        let mut line = text("[INFO] Registered: ");
                        line.append(f.as_str());
                        let count = state.registered + 1;
                        register_from(state, next, count, one_line(line, false))
                    },
                    Err(_) => {
                        let count = state.registered;
                        register_from(state, next, count, no_lines())
                    },
                }
            } else {
                match r {
                    Err(e) => finish(state, Err(e), Vec::new()),
                    Ok(path) => {
                        if state.stage == InstallStage::WritingIndex {
                            let mut line = text("[INFO] Wrote ");
                            line.append(path.as_str());
                            let log = one_line(line, false);
                            if platform == Platform::Windows {
                                let contents = launcher_script(state.node.as_str());
                                let mut s = with_stage(state, InstallStage::WritingLauncher);
                                s.index_path = path;
                                InstallStep {
                                    state: s,
                                    action: InstallAction::WriteFile {
                                        name: text("run_bridge.bat"),
                                        contents,
                                        executable: false,
                                    },
                                    log,
                                }
                            } else {
                                let mut st = state;
                                st.index_path = path.clone();
                                write_manifest(st, path, log)
                            }
                        } else if state.stage == InstallStage::WritingLauncher {
                            let mut line = text("[INFO] Wrote ");
                            line.append(path.as_str());
                            write_manifest(state, path, one_line(line, false))
                        } else {
                            let targets = if platform == Platform::Windows {
                                windows_reg_keys()
                            } else {
                                browser_nm_dirs(platform, state.home.as_str())
                            };
                            let mut s = state;
                            s.manifest_path = path;
                            s.targets = targets;
                            s.next = 0;
                            s.registered = 0;
                            let ghost s0 = s;
                            let step = register_from(s, 0, 0, no_lines());
                            assert(registers_from(step, s0, 0, 0, seq![]));
                            assert(registers_from(step, step.state, 0, 0, seq![]));
                            step
                        }
                    },
                }
            }
        },
        InstallEvent::BrowserPresent(present) => {
            let d = state.targets[state.next].clone();
            if should_register(d.as_str(), present) {
                let s = with_stage(state, InstallStage::CreatingBrowserDir);
                InstallStep { state: s, action: InstallAction::CreateDir(d), log: Vec::new() }
            } else {
                let next = state.next + 1;
                let count = state.registered;
                register_from(state, next, count, no_lines())
            }
        },
        InstallEvent::KeyAdded(a) => {
            let key = state.targets[state.next].clone();
            let next = state.next + 1;
            match a {
                KeyAddition::Added => {
                    let mut line = text("[INFO] Registered: ");
                    line.append(key.as_str());
                    let count = state.registered + 1;
                    register_from(state, next, count, one_line(line, false))
                },
                KeyAddition::Refused(err) => {
                    let mut line = text("[WARN] could not write ");
                    line.append(key.as_str());
                    line.append(": ");
                    let ec = crate::text::chars_of(err.as_str());
                    let t = crate::text::trimmed(&ec);
                    line.append(crate::text::string_of(t.as_slice()).as_str());
                    let count = state.registered;
                    register_from(state, next, count, one_line(line, true))
                },
                KeyAddition::NotStarted(err) => {
                    let mut line = text("[WARN] could not run reg.exe for ");
                    line.append(key.as_str());
                    line.append(": ");
                    line.append(err.as_str());
                    let count = state.registered;
                    register_from(state, next, count, one_line(line, true))
                },
            }
        },
        InstallEvent::Verified { files, node_reply, readback } => {
            let check = verify_install(&files, state.node.as_str(), &node_reply, &readback);
            let mut log = check.log;
            match install_outcome(check.failures) {
                Err(e) => finish(state, Err(e), log),
                Ok(()) => {
                    let ghost checks = log_view(log@);
                    push_banner(&mut log, "✅ Installed");
                    let ghost bannered = log_view(log@);
                    log.push(say(text("Restart your browser completely, then use the Local TCP extension.")));
                    log.push(
                        say(text("Tip: the extension popup's bridge check should report version from index.js.")),
                    );
                    assert(log_view(log@) =~= bannered + seq![
                        (false, "Restart your browser completely, then use the Local TCP extension."@),
                        (false, "Tip: the extension popup's bridge check should report version from index.js."@),
                    ]);
                    assert(log_view(log@) =~= checks + success_lines());
                    finish(state, Ok(()), log)
                },
            }
        },
    }
}

} // verus!
