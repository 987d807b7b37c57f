//! A whole uninstall, as a step function. Every step records what actually happened: a
//! half-removed host is worse than a clean failure, because the browser keeps trying to
//! launch it. The program around the library performs the actions and reports back.
use vstd::prelude::*;
use crate::host::{recorded_node, recorded_node_path};
use crate::install::{manifest_name, registration_targets};
use crate::paths::{browser_nm_dirs, join, join_unix, nm_dirs, reg_keys, install_dir_path, install_dir_text, resolved_install_dir, unresolved_dir_text, windows_reg_keys};
use crate::platform::{host_name_text, manifest_file_name, Platform};
use crate::report::{
    banner_log, fail, lemma_removal_keeps_problems, log_view, pairs_view, problems_view,
    push_banner, recorded_node_report, reg_delete_failure, reg_run_failure, removal_failure,
    removal_failure_text, removal_log, removal_problems, say, uninstall_error_text,
    uninstall_outcome, verify_removal, LogLine,
};
use crate::text::trim;

verus! {

/// Where an uninstall stands: the next event it expects.
#[derive(Clone, Copy, Debug, PartialEq, Eq, Structural)]
pub enum UninstallStage {
    Begin,
    ReadingRecord,
    CheckingNode,
    ProbingKey,
    DeletingKey,
    ProbingManifest,
    RemovingManifest,
    ProbingDir,
    RemovingDir,
    CheckingLeftovers,
    Done,
}

/// An uninstall's settings and what it has done so far.
pub struct UninstallState {
    pub stage: UninstallStage,
    pub platform: Platform,
    /// The installer's version, for the banner.
    pub version: String,
    /// The install directory, once resolved.
    pub dir: String,
    /// What registers the host: the registry keys on Windows, each browser's manifest
    /// elsewhere.
    pub items: Vec<String>,
    /// The index in `items` of the one being handled.
    pub next: usize,
    /// Whether a browser manifest was found.
    pub found: bool,
    /// The Node.js path read back from the installed files.
    pub recorded_node: String,
    /// The problems met so far.
    pub problems: Vec<String>,
}

/// How `reg delete` went.
pub enum KeyDeletion {
    Deleted,
    /// It ran and failed; what it printed on standard error.
    Refused(String),
    /// It could not be started; why.
    NotStarted(String),
}

/// What happened since the last step.
pub enum UninstallEvent {
    /// The user's home directory and (Windows) `APPDATA`, and whether the platform's path
    /// rules call the install directory built from them (`install_dir_text`) relative.
    Begin { home: String, appdata: String, is_relative: bool },
    /// The text of the installed file, or `None` when it cannot be read.
    RecordRead(Option<String>),
    /// Whether the recorded Node.js still exists.
    NodeChecked(bool),
    /// Whether the registry key, manifest or install directory asked about exists.
    Exists(bool),
    KeyDeleted(KeyDeletion),
    /// The file or directory was removed, or why not.
    Removed(Result<(), String>),
    /// What is still there: whether the install directory exists, and each browser
    /// manifest and each registry key asked about, with whether it exists.
    Leftovers { dir_exists: bool, manifests: Vec<(String, bool)>, keys: Vec<(String, bool)> },
}

/// What to do next.
pub enum UninstallAction {
    /// Read the file `name` in the install directory `dir`.
    ReadInstalled { dir: String, name: String },
    /// Check whether this Node.js path exists.
    CheckNode(String),
    /// Check whether this registry key exists (`reg query`).
    ProbeKey(String),
    /// `reg delete <key> /f`.
    DeleteKey(String),
    /// Check whether this file exists.
    ProbeFile(String),
    RemoveFile(String),
    /// Check whether this directory exists.
    ProbeDir(String),
    /// Remove this directory and everything in it.
    RemoveDir(String),
    /// Check what is left: the install directory, these manifests and these registry keys.
    CheckLeftovers { dir: String, manifests: Vec<String>, keys: Vec<String> },
    /// Stop with this result.
    Finish(Result<(), String>),
}

pub struct UninstallStep {
    pub state: UninstallState,
    pub action: UninstallAction,
    pub log: Vec<LogLine>,
}

pub open spec fn uninstall_title(version: Seq<char>) -> Seq<char> {
    "Local TCP Bridge — Uninstaller v"@ + version
}

/// What registers the host: the registry keys on Windows, each browser's manifest
/// elsewhere.
pub open spec fn uninstall_items(platform: Platform, home: Seq<char>) -> Seq<Seq<char>> {
    if platform == Platform::Windows {
        reg_keys()
    } else {
        nm_dirs(platform, home).map_values(|d: Seq<char>| join_unix(d, host_name_text() + ".json"@))
    }
}

/// Every place an install registers the host is unregistered: on Windows each registry key
/// the install writes; elsewhere the manifest in each browser directory the install may
/// write to, one for one and in the same order.
pub proof fn lemma_uninstall_covers_registration(platform: Platform, home: Seq<char>)
    ensures
        uninstall_items(platform, home).len() == registration_targets(platform, home).len(),
        platform == Platform::Windows ==> uninstall_items(platform, home) == registration_targets(
            platform,
            home,
        ),
        platform != Platform::Windows ==> forall|i: int|
            0 <= i < nm_dirs(platform, home).len() ==> #[trigger] uninstall_items(platform, home)[i]
                == join_unix(nm_dirs(platform, home)[i], manifest_name()),
        platform != Platform::Windows ==> uninstall_items(platform, home).len() == nm_dirs(
            platform,
            home,
        ).len(),
{
}


/// The installed file that names the Node.js the host runs.
pub open spec fn record_file(platform: Platform) -> Seq<char> {
    if platform == Platform::Windows {
        "run_bridge.bat"@
    } else {
        "index.js"@
    }
}

/// A fresh uninstall for `platform`.
pub fn uninstall_start(platform: Platform, version: &str) -> (s: UninstallState)
    ensures
        s.stage == UninstallStage::Begin,
        s.platform == platform,
        s.version@ == version@,
        s.problems@.len() == 0,
{
    UninstallState {
        stage: UninstallStage::Begin,
        platform,
        version: String::from_str(version),
        dir: String::new(),
        items: Vec::new(),
        next: 0,
        found: false,
        recorded_node: String::new(),
        problems: Vec::new(),
    }
}

/// The stages that handle `items[next]`.
pub open spec fn handles_item(stage: UninstallStage) -> bool {
    stage == UninstallStage::ProbingKey || stage == UninstallStage::DeletingKey || stage
        == UninstallStage::ProbingManifest || stage == UninstallStage::RemovingManifest
}

pub open spec fn uninstall_state_ok(s: UninstallState) -> bool {
    &&& s.next <= s.items@.len()
    &&& handles_item(s.stage) ==> s.next < s.items@.len()
}

pub open spec fn uninstall_event_fits(state: UninstallState, event: UninstallEvent) -> bool {
    &&& uninstall_state_ok(state)
    &&& match event {
        UninstallEvent::Begin { .. } => state.stage == UninstallStage::Begin,
        UninstallEvent::RecordRead(_) => state.stage == UninstallStage::ReadingRecord,
        UninstallEvent::NodeChecked(_) => state.stage == UninstallStage::CheckingNode,
        UninstallEvent::Exists(_) => state.stage == UninstallStage::ProbingKey || state.stage
            == UninstallStage::ProbingManifest || state.stage == UninstallStage::ProbingDir,
        UninstallEvent::KeyDeleted(_) => state.stage == UninstallStage::DeletingKey,
        UninstallEvent::Removed(_) => state.stage == UninstallStage::RemovingManifest
            || state.stage == UninstallStage::RemovingDir,
        UninstallEvent::Leftovers { .. } => state.stage == UninstallStage::CheckingLeftovers,
    }
}

/// The settings never change from one step to the next.
pub open spec fn keeps_uninstall_settings(a: UninstallState, b: UninstallState) -> bool {
    &&& a.platform == b.platform
    &&& a.version@ == b.version@
}

/// Once resolved, the install directory and the items to remove do not change.
pub open spec fn keeps_plan(a: UninstallState, b: UninstallState) -> bool {
    &&& a.dir@ == b.dir@
    &&& a.items.deep_view() == b.items.deep_view()
}

pub open spec fn same_problems(a: UninstallState, b: UninstallState) -> bool {
    problems_view(b.problems@) == problems_view(a.problems@)
}

/// The step records problem `m`, and reports it.
pub open spec fn adds_problem(a: UninstallState, b: UninstallState, m: Seq<char>) -> bool {
    problems_view(b.problems@) == problems_view(a.problems@).push(m)
}

pub open spec fn nothing_found_line() -> (bool, Seq<char>) {
    (false, "[INFO] No browser registrations found — nothing to unregister."@)
}

/// The step goes on to the item at `i` (past the last one, to the install directory),
/// after printing `lines`.
pub open spec fn goes_on(
    step: UninstallStep,
    state: UninstallState,
    i: int,
    found: bool,
    lines: Seq<(bool, Seq<char>)>,
) -> bool {
    &&& step.state.next == i
    &&& step.state.found == found
    &&& if i < state.items@.len() {
        &&& log_view(step.log@) == lines
        &&& if state.platform == Platform::Windows {
            step.state.stage == UninstallStage::ProbingKey && (
            step.action matches UninstallAction::ProbeKey(k) && k@ == state.items@[i]@)
        } else {
            step.state.stage == UninstallStage::ProbingManifest && (
            step.action matches UninstallAction::ProbeFile(f) && f@ == state.items@[i]@)
        }
    } else {
        &&& log_view(step.log@) == lines + if state.platform != Platform::Windows && !found {
            seq![nothing_found_line()]
        } else {
            seq![]
        }
        &&& step.state.stage == UninstallStage::ProbingDir
        &&& step.action matches UninstallAction::ProbeDir(d) && d@ == state.dir@
    }
}

/// The step asks what is left.
pub open spec fn checks_leftovers(step: UninstallStep, state: UninstallState) -> bool {
    &&& step.state.stage == UninstallStage::CheckingLeftovers
    &&& step.state.next == state.next
    &&& step.state.found == state.found
    &&& step.action matches UninstallAction::CheckLeftovers { dir, manifests, keys }
    &&& dir@ == state.dir@
    &&& manifests.deep_view() == if state.platform == Platform::Windows {
        Seq::<Seq<char>>::empty()
    } else {
        state.items.deep_view()
    }
    &&& keys.deep_view() == if state.platform == Platform::Windows {
        state.items.deep_view()
    } else {
        Seq::<Seq<char>>::empty()
    }
}

/// The step stops the uninstall with `r`.
pub open spec fn uninstall_finishes(step: UninstallStep, r: Result<(), Seq<char>>) -> bool {
    &&& step.state.stage == UninstallStage::Done
    &&& step.action matches UninstallAction::Finish(x)
    &&& match (x, r) {
        (Ok(()), Ok(())) => true,
        (Err(m), Err(e)) => m@ == e,
        _ => false,
    }
}

pub open spec fn node_report_log(path: Seq<char>, exists: bool) -> Seq<(bool, Seq<char>)> {
    if exists {
        seq![(false, "[INFO] Host was using Node at: "@ + path)]
    } else {
        seq![
            (false, "[INFO] Host referenced Node at "@ + path + ", which no longer exists."@),
            (false, "       That's fine — removal doesn't need Node.js."@),
        ]
    }
}

/// What a step does with the news of whether the recorded Node.js still exists: it says so,
/// then goes on, with the settings, the plan and the problems as they were.
pub open spec fn after_node_check(state: UninstallState, exists: bool, step: UninstallStep) -> bool {
    &&& keeps_uninstall_settings(state, step.state)
    &&& keeps_plan(state, step.state)
    &&& same_problems(state, step.state)
    &&& goes_on(step, state, state.next as int, state.found, node_report_log(state.recorded_node@, exists))
}

/// Two actions that do the same: the same kind, on the same paths and keys, or the same
/// result.
pub open spec fn same_action(a: UninstallAction, b: UninstallAction) -> bool {
    match (a, b) {
        (
            UninstallAction::ReadInstalled { dir: d1, name: n1 },
            UninstallAction::ReadInstalled { dir: d2, name: n2 },
        ) => d1@ == d2@ && n1@ == n2@,
        (UninstallAction::CheckNode(x), UninstallAction::CheckNode(y)) => x@ == y@,
        (UninstallAction::ProbeKey(x), UninstallAction::ProbeKey(y)) => x@ == y@,
        (UninstallAction::DeleteKey(x), UninstallAction::DeleteKey(y)) => x@ == y@,
        (UninstallAction::ProbeFile(x), UninstallAction::ProbeFile(y)) => x@ == y@,
        (UninstallAction::RemoveFile(x), UninstallAction::RemoveFile(y)) => x@ == y@,
        (UninstallAction::ProbeDir(x), UninstallAction::ProbeDir(y)) => x@ == y@,
        (UninstallAction::RemoveDir(x), UninstallAction::RemoveDir(y)) => x@ == y@,
        (
            UninstallAction::CheckLeftovers { dir: d1, manifests: m1, keys: k1 },
            UninstallAction::CheckLeftovers { dir: d2, manifests: m2, keys: k2 },
        ) => d1@ == d2@ && m1.deep_view() == m2.deep_view() && k1.deep_view() == k2.deep_view(),
        (UninstallAction::Finish(r1), UninstallAction::Finish(r2)) => match (r1, r2) {
            (Ok(()), Ok(())) => true,
            (Err(x), Err(y)) => x@ == y@,
            _ => false,
        },
        _ => false,
    }
}

/// Two states alike in all that an uninstall goes by, the recorded Node.js aside.
pub open spec fn alike(a: UninstallState, b: UninstallState) -> bool {
    &&& a.stage == b.stage
    &&& keeps_uninstall_settings(a, b)
    &&& keeps_plan(a, b)
    &&& a.next == b.next
    &&& a.found == b.found
    &&& same_problems(a, b)
}

/// Removal never needs Node.js: whether the Node.js the host was using still exists changes
/// only the lines that report it. Either way the uninstall goes on to the same probe, in a
/// state alike in all it goes by, and prints the same after the report.
pub proof fn lemma_node_presence_irrelevant(
    sa: UninstallState,
    sb: UninstallState,
    present: UninstallStep,
    gone: UninstallStep,
)
    requires
        alike(sa, sb),
        sa.recorded_node@ == sb.recorded_node@,
        after_node_check(sa, true, present),
        after_node_check(sb, false, gone),
    ensures
        alike(present.state, gone.state),
        same_action(present.action, gone.action),
        log_view(present.log@).skip(1) == log_view(gone.log@).skip(2),
{
    let i = sa.next as int;
    let found = sa.found;
    let a = node_report_log(sa.recorded_node@, true);
    let b = node_report_log(sa.recorded_node@, false);
    assert(sa.items@.len() == sa.items.deep_view().len());
    assert(sb.items@.len() == sb.items.deep_view().len());
    if i < sa.items@.len() {
        assert(sa.items@[i]@ == sa.items.deep_view()[i]);
        assert(sb.items@[i]@ == sb.items.deep_view()[i]);
        assert(log_view(present.log@).skip(1) =~= Seq::<(bool, Seq<char>)>::empty());
        assert(log_view(gone.log@).skip(2) =~= Seq::<(bool, Seq<char>)>::empty());
    } else {
        let tail = if sa.platform != Platform::Windows && !found {
            seq![nothing_found_line()]
        } else {
            seq![]
        };
        assert((a + tail).skip(1) =~= tail);
        assert((b + tail).skip(2) =~= tail);
    }
}

pub open spec fn fail_line(m: Seq<char>) -> (bool, Seq<char>) {
    (true, "  [FAIL] "@ + m)
}

pub open spec fn still_running_hint() -> Seq<(bool, Seq<char>)> {
    seq![
        (false, "[HINT] Close your browser completely and run this uninstaller again —"@),
        (false, "       a running bridge process can hold these files open."@),
    ]
}

pub open spec fn farewell_lines() -> Seq<(bool, Seq<char>)> {
    banner_log("✅ Uninstalled"@) + seq![(false, "Restart your browser to finish removing the host."@)]
}

fn text(s: &str) -> (r: String)
    ensures
        r@ == s@,
{
    String::from_str(s)
}

fn with_stage(st: UninstallState, stage: UninstallStage) -> (r: UninstallState)
    ensures
        r.stage == stage,
        keeps_uninstall_settings(st, r),
        keeps_plan(st, r),
        same_problems(st, r),
        r.problems@.len() == st.problems@.len(),
        r.next == st.next,
        r.found == st.found,
        r.recorded_node@ == st.recorded_node@,
        r.items == st.items,
        r.dir == st.dir,
{
    UninstallState { stage, ..st }
}

/// Goes on to `items[i]`, or past the last one to the install directory.
fn go_on(st: UninstallState, i: usize, found: bool, log: Vec<LogLine>) -> (step: UninstallStep)
    requires
        i <= st.items@.len(),
    ensures
        goes_on(step, st, i as int, found, log_view(log@)),
        keeps_uninstall_settings(st, step.state),
        keeps_plan(st, step.state),
        same_problems(st, step.state),
        step.state.problems@.len() == st.problems@.len(),
        uninstall_state_ok(step.state),
{
    let mut log = log;
    let ghost before = log_view(log@);
    assert(st.items@.len() == st.items.deep_view().len());
    if i < st.items.len() {
        let item = st.items[i].clone();
        let windows = st.platform == Platform::Windows;
        let mut s = with_stage(
            st,
            if windows {
                UninstallStage::ProbingKey
            } else {
                UninstallStage::ProbingManifest
            },
        );
        s.next = i;
        s.found = found;
        let action = if windows {
            UninstallAction::ProbeKey(item)
        } else {
            UninstallAction::ProbeFile(item)
        };
        UninstallStep { state: s, action, log }
    } else {
        if st.platform != Platform::Windows && !found {
            log.push(say(text("[INFO] No browser registrations found — nothing to unregister.")));
        }
        assert(log_view(log@) =~= before + if st.platform != Platform::Windows && !found {
            seq![nothing_found_line()]
        } else {
            seq![]
        });
        let d = st.dir.clone();
        let mut s = with_stage(st, UninstallStage::ProbingDir);
        s.next = i;
        s.found = found;
        UninstallStep { state: s, action: UninstallAction::ProbeDir(d), log }
    }
}

/// Asks what is left after the removal.
fn check_leftovers(st: UninstallState, log: Vec<LogLine>) -> (step: UninstallStep)
    requires
        uninstall_state_ok(st),
    ensures
        checks_leftovers(step, st),
        step.log == log,
        keeps_uninstall_settings(st, step.state),
        keeps_plan(st, step.state),
        same_problems(st, step.state),
        step.state.problems@.len() == st.problems@.len(),
        uninstall_state_ok(step.state),
{
    let mut manifests: Vec<String> = Vec::new();
    let mut keys: Vec<String> = Vec::new();
    let mut i: usize = 0;
    let windows = st.platform == Platform::Windows;
    while i < st.items.len()
        invariant
            i <= st.items@.len(),
            windows == (st.platform == Platform::Windows),
            (if windows {
                keys
            } else {
                manifests
            }).deep_view() == st.items.deep_view().take(i as int),
            (if windows {
                manifests
            } else {
                keys
            }).deep_view() == Seq::<Seq<char>>::empty(),
        decreases st.items@.len() - i,
    {
        let item = st.items[i].clone();
        if windows {
            let ghost before = keys.deep_view();
            keys.push(item);
            assert(keys.deep_view() =~~= before.push(st.items@[i as int]@));
        } else {
            let ghost before = manifests.deep_view();
            manifests.push(item);
            assert(manifests.deep_view() =~~= before.push(st.items@[i as int]@));
        }
        assert(st.items.deep_view().take(i + 1) =~= st.items.deep_view().take(i as int).push(
            st.items@[i as int]@,
        ));
        i = i + 1;
    }
    assert(st.items.deep_view().take(st.items@.len() as int) =~= st.items.deep_view());
    let d = st.dir.clone();
    let s = with_stage(st, UninstallStage::CheckingLeftovers);
    UninstallStep { state: s, action: UninstallAction::CheckLeftovers { dir: d, manifests, keys }, log }
}

/// Records problem `msg`, and the line that reports it.
fn record_failure(st: UninstallState, msg: String) -> (r: (UninstallState, Vec<LogLine>))
    ensures
        adds_problem(st, r.0, msg@),
        log_view(r.1@) == seq![fail_line(msg@)],
        r.0.stage == st.stage,
        keeps_uninstall_settings(st, r.0),
        keeps_plan(st, r.0),
        r.0.next == st.next,
        r.0.found == st.found,
        r.0.problems@.len() == st.problems@.len() + 1,
        r.0.items == st.items,
        r.0.dir == st.dir,
{
    let mut s = st;
    let mut log: Vec<LogLine> = Vec::new();
    let l = fail(&mut s.problems, msg);
    log.push(l);
    assert(problems_view(s.problems@) =~= problems_view(st.problems@).push(msg@));
    assert(log_view(log@) =~= seq![fail_line(msg@)]);
    (s, log)
}

fn no_lines() -> (log: Vec<LogLine>)
    ensures
        log_view(log@) == Seq::<(bool, Seq<char>)>::empty(),
{
    let log: Vec<LogLine> = Vec::new();
    assert(log_view(log@) =~= Seq::<(bool, Seq<char>)>::empty());
    log
}

fn one_line(t: String) -> (log: Vec<LogLine>)
    ensures
        log_view(log@) == seq![(false, t@)],
{
    let mut log: Vec<LogLine> = Vec::new();
    log.push(say(t));
    assert(log_view(log@) =~= seq![(false, t@)]);
    log
}

/// What one step of an uninstall does, for each event: the contract of `uninstall_step`.
pub open spec fn uninstall_contract(state: UninstallState, event: UninstallEvent, step: UninstallStep) -> bool {
    &&& keeps_uninstall_settings(state, step.state)
    &&& step.state.stage != UninstallStage::Done ==> uninstall_state_ok(step.state)
    &&& problems_view(step.state.problems@).len() >= problems_view(state.problems@).len()
    &&& problems_view(step.state.problems@).take(state.problems@.len() as int) == problems_view(
            state.problems@,
        )
    &&& (event is RecordRead || event is NodeChecked) ==> (same_problems(state, step.state)
            && !(step.action is Finish))
    &&& step.action matches UninstallAction::Finish(Ok(())) ==> (
        event matches UninstallEvent::Leftovers { dir_exists, manifests, keys } && removal_problems(
            problems_view(state.problems@),
            state.dir@,
            dir_exists,
            pairs_view(manifests@),
            pairs_view(keys@),
        ).len() == 0)
    &&& event matches UninstallEvent::Begin { home, appdata, is_relative } ==> ({
        let dir = install_dir_path(state.platform, home@, appdata@);
        if dir.len() > 0 && !is_relative {
            step.state.stage == UninstallStage::ReadingRecord && step.state.dir@ == dir
                && step.state.items.deep_view() == uninstall_items(state.platform, home@)
                && step.state.next == 0 && !step.state.found && same_problems(state, step.state)
                && (step.action matches UninstallAction::ReadInstalled { dir: d, name } && d@
                == dir && name@ == record_file(state.platform)) && log_view(step.log@)
                == banner_log(uninstall_title(state.version@))
        } else {
            uninstall_finishes(step, Err(unresolved_dir_text(state.platform))) && log_view(
                step.log@,
            ) == banner_log(uninstall_title(state.version@))
        }
    })
    &&& event matches UninstallEvent::RecordRead(contents) ==> keeps_plan(state, step.state)
            && match contents {
            Some(t) => match recorded_node_path(state.platform, t@) {
                Some(p) => step.state.stage == UninstallStage::CheckingNode
                    && step.state.recorded_node@ == p && step.state.next == state.next
                    && step.state.found == state.found && (
                step.action matches UninstallAction::CheckNode(q) && q@ == p) && step.log@.len()
                    == 0,
                None => goes_on(step, state, state.next as int, state.found, seq![]),
            },
            None => goes_on(step, state, state.next as int, state.found, seq![]),
        }
    &&& event matches UninstallEvent::NodeChecked(exists) ==> after_node_check(state, exists, step)
    &&& event matches UninstallEvent::Exists(present) ==> keeps_plan(state, step.state) && if state.stage
            == UninstallStage::ProbingKey {
            same_problems(state, step.state) && if present {
                step.state.stage == UninstallStage::DeletingKey && step.state.next == state.next
                    && step.state.found == state.found
                    && (step.action matches UninstallAction::DeleteKey(k) && k@
                    == state.items@[state.next as int]@) && step.log@.len() == 0
            } else {
                goes_on(
                    step,
                    state,
                    state.next + 1,
                    state.found,
                    seq![
                        (false, "[INFO] Not registered (nothing to do): "@
                            + state.items@[state.next as int]@),
                    ],
                )
            }
        } else if state.stage == UninstallStage::ProbingManifest {
            same_problems(state, step.state) && if present {
                step.state.stage == UninstallStage::RemovingManifest && step.state.next
                    == state.next && step.state.found && (
                step.action matches UninstallAction::RemoveFile(f) && f@
                    == state.items@[state.next as int]@) && step.log@.len() == 0
            } else {
                goes_on(step, state, state.next + 1, state.found, seq![])
            }
        } else {
            same_problems(state, step.state) && if present {
                step.state.stage == UninstallStage::RemovingDir && step.state.next == state.next
                    && step.state.found == state.found && (
                step.action matches UninstallAction::RemoveDir(d) && d@ == state.dir@)
                    && step.log@.len() == 0
            } else {
                checks_leftovers(step, state) && log_view(step.log@) == seq![
                    (false, "[INFO] Nothing installed at "@ + state.dir@ + " — already clean."@),
                ]
            }
        }
    &&& event matches UninstallEvent::KeyDeleted(d) ==> keeps_plan(state, step.state) && ({
            let key = state.items@[state.next as int]@;
            match d {
                KeyDeletion::Deleted => same_problems(state, step.state) && goes_on(
                    step,
                    state,
                    state.next + 1,
                    state.found,
                    seq![(false, "[INFO] Removed registry key: "@ + key)],
                ),
                KeyDeletion::Refused(err) => {
                    let m = "could not delete "@ + key + ": "@ + trim(err@);
                    adds_problem(state, step.state, m) && goes_on(
                        step,
                        state,
                        state.next + 1,
                        state.found,
                        seq![fail_line(m)],
                    )
                },
                KeyDeletion::NotStarted(err) => {
                    let m = "could not run reg.exe for "@ + key + ": "@ + err@;
                    adds_problem(state, step.state, m) && goes_on(
                        step,
                        state,
                        state.next + 1,
                        state.found,
                        seq![fail_line(m)],
                    )
                },
            }
        })
    &&& event matches UninstallEvent::Removed(r) ==> keeps_plan(state, step.state) && if state.stage
            == UninstallStage::RemovingManifest {
            ({
                let f = state.items@[state.next as int]@;
                match r {
                    Ok(()) => same_problems(state, step.state) && goes_on(
                        step,
                        state,
                        state.next + 1,
                        state.found,
                        seq![(false, "[INFO] Removed "@ + f)],
                    ),
                    Err(e) => adds_problem(state, step.state, removal_failure_text(f, e@))
                        && goes_on(
                        step,
                        state,
                        state.next + 1,
                        state.found,
                        seq![fail_line(removal_failure_text(f, e@))],
                    ),
                }
            })
        } else {
            checks_leftovers(step, state) && match r {
                Ok(()) => same_problems(state, step.state) && log_view(step.log@) == seq![
                    (false, "[INFO] Removed "@ + state.dir@),
                ],
                Err(e) => adds_problem(state, step.state, removal_failure_text(state.dir@, e@))
                    && log_view(step.log@) == seq![fail_line(removal_failure_text(state.dir@, e@))]
                    + still_running_hint(),
            }
        }
    &&& event matches UninstallEvent::Leftovers { dir_exists, manifests, keys } ==> ({
            let before = problems_view(state.problems@);
            let after = removal_problems(
                before,
                state.dir@,
                dir_exists,
                pairs_view(manifests@),
                pairs_view(keys@),
            );
            &&& problems_view(step.state.problems@) == after
            &&& if after.len() == 0 {
                uninstall_finishes(step, Ok(())) && log_view(step.log@) == removal_log(
                    before,
                    after,
                    dir_exists,
                ) + farewell_lines()
            } else {
                uninstall_finishes(step, Err(uninstall_error_text(after.len()))) && log_view(
                    step.log@,
                ) == removal_log(before, after, dir_exists)
            }
        })
}

/// One step of an uninstall: resolve the install directory; report which Node.js the host
/// was using (removal never needs it, and this can never fail the uninstall); delete each
/// browser's registration (the registry keys on Windows, the manifests elsewhere); remove
/// the install directory; then check that nothing was left behind, and report success only
/// when no problem was met.
pub fn uninstall_step(state: UninstallState, event: UninstallEvent) -> (step: UninstallStep)
    requires
        uninstall_event_fits(state, event),
    ensures
        uninstall_contract(state, event, step),
{
    let ghost p0 = problems_view(state.problems@);
    assert(p0.take(state.problems@.len() as int) =~= p0);
    let item_count = state.items.len();
    assert(state.next <= item_count);
    match event {
        UninstallEvent::Begin { home, appdata, is_relative } => {
            let dir = install_dir_text(state.platform, home.as_str(), appdata.as_str());
            let mut log: Vec<LogLine> = Vec::new();
            let mut title = text("Local TCP Bridge — Uninstaller v");
            title.append(state.version.as_str());
            push_banner(&mut log, title.as_str());
            assert(log_view(log@) =~= banner_log(uninstall_title(state.version@)));
            match resolved_install_dir(state.platform, dir.as_str(), is_relative) {
                Err(e) => {
                    let s = with_stage(state, UninstallStage::Done);
                    UninstallStep { state: s, action: UninstallAction::Finish(Err(e)), log }
                },
                Ok(d) => {
                    let windows = state.platform == Platform::Windows;
                    let items = if windows {
                        windows_reg_keys()
                    } else {
                        let dirs = browser_nm_dirs(state.platform, home.as_str());
                        let name = manifest_file_name();
                        let mut v: Vec<String> = Vec::new();
                        let mut i: usize = 0;
                        let ghost ds = dirs.deep_view();
                        while i < dirs.len()
                            invariant
                                i <= dirs@.len(),
                                ds == dirs.deep_view(),
                                name@ == host_name_text() + ".json"@,
                                v.deep_view() == ds.take(i as int).map_values(
                                    |x: Seq<char>| join_unix(x, host_name_text() + ".json"@),
                                ),
                            decreases dirs@.len() - i,
                        {
                            let ghost before = v.deep_view();
                            let m = join(dirs[i].as_str(), name.as_str());
                            v.push(m);
                            assert(ds[i as int] == dirs@[i as int]@);
                            assert(v.deep_view() =~~= before.push(
                                join_unix(ds[i as int], host_name_text() + ".json"@),
                            ));
                            assert(ds.take(i + 1).map_values(
                                |x: Seq<char>| join_unix(x, host_name_text() + ".json"@),
                            ) =~= ds.take(i as int).map_values(
                                |x: Seq<char>| join_unix(x, host_name_text() + ".json"@),
                            ).push(join_unix(ds[i as int], host_name_text() + ".json"@)));
                            i = i + 1;
                        }
                        assert(ds.take(ds.len() as int) =~= ds);
                        v
                    };
                    let name = if windows {
                        text("run_bridge.bat")
                    } else {
                        text("index.js")
                    };
                    let mut s = with_stage(state, UninstallStage::ReadingRecord);
                    s.dir = d.clone();
                    s.items = items;
                    s.next = 0;
                    s.found = false;
                    UninstallStep {
                        state: s,
                        action: UninstallAction::ReadInstalled { dir: d, name },
                        log,
                    }
                },
            }
        },
        UninstallEvent::RecordRead(contents) => {
            let found = state.found;
            let next = state.next;
            match contents {
                None => go_on(state, next, found, no_lines()),
                Some(t) => match recorded_node(state.platform, t.as_str()) {
                    None => go_on(state, next, found, no_lines()),
                    Some(p) => {
                        let q = p.clone();
                        let mut s = with_stage(state, UninstallStage::CheckingNode);
                        s.recorded_node = p;
                        UninstallStep { state: s, action: UninstallAction::CheckNode(q), log: Vec::new() }
                    },
                },
            }
        },
        UninstallEvent::NodeChecked(exists) => {
            let lines = recorded_node_report(state.recorded_node.as_str(), exists);
            let mut log: Vec<LogLine> = Vec::new();
            let mut k: usize = 0;
            while k < lines.len()
                invariant
                    k <= lines@.len(),
                    log_view(log@) == lines.deep_view().take(k as int).map_values(
                        |l: Seq<char>| (false, l),
                    ),
                decreases lines@.len() - k,
            {
                let ghost before = log_view(log@);
                log.push(say(lines[k].clone()));
                assert(log_view(log@) =~= before.push((false, lines@[k as int]@)));
                assert(lines.deep_view().take(k + 1).map_values(|l: Seq<char>| (false, l))
                    =~= lines.deep_view().take(k as int).map_values(|l: Seq<char>| (false, l)).push(
                    (false, lines@[k as int]@),
                ));
                k = k + 1;
            }
            assert(lines.deep_view().take(lines@.len() as int) =~= lines.deep_view());
            assert(log_view(log@) =~= node_report_log(state.recorded_node@, exists));
            let found = state.found;
            let next = state.next;
            go_on(state, next, found, log)
        },
        UninstallEvent::Exists(present) => {
            if state.stage == UninstallStage::ProbingKey {
                let key = state.items[state.next].clone();
                if present {
                    let s = with_stage(state, UninstallStage::DeletingKey);
                    UninstallStep { state: s, action: UninstallAction::DeleteKey(key), log: Vec::new() }
                } else {
                    let mut line = text("[INFO] Not registered (nothing to do): ");
                    line.append(key.as_str());
                    let found = state.found;
                    let next = state.next + 1;
                    go_on(state, next, found, one_line(line))
                }
            } else if state.stage == UninstallStage::ProbingManifest {
                if present {
                    let f = state.items[state.next].clone();
                    let mut s = with_stage(state, UninstallStage::RemovingManifest);
                    s.found = true;
                    UninstallStep { state: s, action: UninstallAction::RemoveFile(f), log: Vec::new() }
                } else {
                    let found = state.found;
                    let next = state.next + 1;
                    go_on(state, next, found, no_lines())
                }
            } else {
                if present {
                    let d = state.dir.clone();
                    let s = with_stage(state, UninstallStage::RemovingDir);
                    UninstallStep { state: s, action: UninstallAction::RemoveDir(d), log: Vec::new() }
                } else {
                    let mut line = text("[INFO] Nothing installed at ");
                    line.append(state.dir.as_str());
                    line.append(" — already clean.");
                    check_leftovers(state, one_line(line))
                }
            }
        },
        UninstallEvent::KeyDeleted(d) => {
            let key = state.items[state.next].clone();
            let found = state.found;
            let next = state.next + 1;
            match d {
                KeyDeletion::Deleted => {
                    let mut line = text("[INFO] Removed registry key: ");
                    line.append(key.as_str());
                    go_on(state, next, found, one_line(line))
                },
                KeyDeletion::Refused(err) => {
                    let (s, log) = record_failure(state, reg_delete_failure(key.as_str(), err.as_str()));
                    let step = go_on(s, next, found, log);
                    proof {
                        assert(problems_view(step.state.problems@).take(state.problems@.len() as int)
                            =~= p0);
                    }
                    step
                },
                KeyDeletion::NotStarted(err) => {
                    let (s, log) = record_failure(state, reg_run_failure(key.as_str(), err.as_str()));
                    let step = go_on(s, next, found, log);
                    proof {
                        assert(problems_view(step.state.problems@).take(state.problems@.len() as int)
                            =~= p0);
                    }
                    step
                },
            }
        },
        UninstallEvent::Removed(r) => {
            if state.stage == UninstallStage::RemovingManifest {
                let f = state.items[state.next].clone();
                let found = state.found;
                let next = state.next + 1;
                match r {
                    Ok(()) => {
                        let mut line = text("[INFO] Removed ");
                        line.append(f.as_str());
                        go_on(state, next, found, one_line(line))
                    },
                    Err(e) => {
                        let (s, log) = record_failure(state, removal_failure(f.as_str(), e.as_str()));
                        let step = go_on(s, next, found, log);
                        proof {
                            assert(problems_view(step.state.problems@).take(
                                state.problems@.len() as int,
                            ) =~= p0);
                        }
                        step
                    },
                }
            } else {
                match r {
                    Ok(()) => {
                        let mut line = text("[INFO] Removed ");
                        line.append(state.dir.as_str());
                        check_leftovers(state, one_line(line))
                    },
                    Err(e) => {
                        let m = removal_failure(state.dir.as_str(), e.as_str());
                        let (s, mut log) = record_failure(state, m);
                        let ghost failed = log_view(log@);
                        log.push(say(text("[HINT] Close your browser completely and run this uninstaller again —")));
                        log.push(say(text("       a running bridge process can hold these files open.")));
                        assert(log_view(log@) =~= failed + still_running_hint());
                        let step = check_leftovers(s, log);
                        proof {
                            assert(problems_view(step.state.problems@).take(
                                state.problems@.len() as int,
                            ) =~= p0);
                        }
                        step
                    },
                }
            }
        },
        UninstallEvent::Leftovers { dir_exists, manifests, keys } => {
            let mut s = state;
            let mut log = verify_removal(s.dir.as_str(), dir_exists, &manifests, &keys, &mut s.problems);
            proof {
                lemma_removal_keeps_problems(
                    p0,
                    state.dir@,
                    dir_exists,
                    pairs_view(manifests@),
                    pairs_view(keys@),
                );
            }
            match uninstall_outcome(&s.problems) {
                Err(e) => {
                    let s2 = with_stage(s, UninstallStage::Done);
                    UninstallStep { state: s2, action: UninstallAction::Finish(Err(e)), log }
                },
                Ok(()) => {
                    let ghost checked = log_view(log@);
                    push_banner(&mut log, "✅ Uninstalled");
                    let ghost bannered = log_view(log@);
                    log.push(say(text("Restart your browser to finish removing the host.")));
                    assert(log_view(log@) =~= bannered.push(
                        (false, "Restart your browser to finish removing the host."@),
                    ));
                    assert(log_view(log@) =~= checked + farewell_lines());
                    let s2 = with_stage(s, UninstallStage::Done);
                    UninstallStep { state: s2, action: UninstallAction::Finish(Ok(())), log }
                },
            }
        },
    }
}

/// The contract fixes what an uninstall does: two steps that answer the same event in
/// states alike in all an uninstall goes by (and, for the news about Node.js, naming the
/// same Node.js) take the same action, print the same, and leave states alike in turn.
pub proof fn lemma_uninstall_step_determined(
    sa: UninstallState,
    sb: UninstallState,
    event: UninstallEvent,
    ta: UninstallStep,
    tb: UninstallStep,
)
    requires
        alike(sa, sb),
        uninstall_event_fits(sa, event),
        event is NodeChecked ==> sa.recorded_node@ == sb.recorded_node@,
        uninstall_contract(sa, event, ta),
        uninstall_contract(sb, event, tb),
    ensures
        same_action(ta.action, tb.action),
        log_view(ta.log@) == log_view(tb.log@),
        ta.state.stage == tb.state.stage,
        ta.state.stage != UninstallStage::Done ==> alike(ta.state, tb.state),
        ta.state.stage == UninstallStage::CheckingNode ==> ta.state.recorded_node@
            == tb.state.recorded_node@,
{
    assert(sa.items@.len() == sa.items.deep_view().len());
    assert(sb.items@.len() == sb.items.deep_view().len());
    if sa.next < sa.items@.len() {
        assert(sa.items@[sa.next as int]@ == sa.items.deep_view()[sa.next as int]);
        assert(sb.items@[sa.next as int]@ == sb.items.deep_view()[sa.next as int]);
    }
    if sa.next + 1 < sa.items@.len() {
        assert(sa.items@[sa.next + 1]@ == sa.items.deep_view()[sa.next + 1]);
        assert(sb.items@[sa.next + 1]@ == sb.items.deep_view()[sa.next + 1]);
    }
    if sa.items@.len() > 0 {
        assert(sa.items@[0]@ == sa.items.deep_view()[0]);
        assert(sb.items@[0]@ == sb.items.deep_view()[0]);
    }
}

/// The state a run is in before its `k`-th step.
pub open spec fn state_before(s0: UninstallState, steps: Seq<UninstallStep>, k: int) -> UninstallState {
    if k == 0 {
        s0
    } else {
        steps[k - 1].state
    }
}

/// `steps` is an uninstall from `s0` that met `events`: each step answers its event in the
/// state the step before left.
pub open spec fn is_uninstall_run(
    s0: UninstallState,
    events: Seq<UninstallEvent>,
    steps: Seq<UninstallStep>,
) -> bool {
    &&& steps.len() == events.len()
    &&& forall|k: int|
        0 <= k < events.len() ==> uninstall_event_fits(state_before(s0, steps, k), #[trigger] events[k])
            && uninstall_contract(state_before(s0, steps, k), events[k], steps[k])
}

/// The same outside answer, or news about Node.js either way.
pub open spec fn alike_but_node(a: UninstallEvent, b: UninstallEvent) -> bool {
    a == b || (a is NodeChecked && b is NodeChecked)
}

proof fn lemma_runs_alike_upto(
    s0: UninstallState,
    ea: Seq<UninstallEvent>,
    eb: Seq<UninstallEvent>,
    ra: Seq<UninstallStep>,
    rb: Seq<UninstallStep>,
    k: int,
)
    requires
        is_uninstall_run(s0, ea, ra),
        is_uninstall_run(s0, eb, rb),
        ea.len() == eb.len(),
        forall|j: int| 0 <= j < ea.len() ==> alike_but_node(#[trigger] ea[j], eb[j]),
        0 <= k < ea.len(),
    ensures
        alike(state_before(s0, ra, k), state_before(s0, rb, k)),
        state_before(s0, ra, k).stage == UninstallStage::CheckingNode ==> state_before(s0, ra, k).recorded_node@
            == state_before(s0, rb, k).recorded_node@,
        same_action(ra[k].action, rb[k].action),
        !(ea[k] is NodeChecked) ==> log_view(ra[k].log@) == log_view(rb[k].log@),
        ra[k].state.stage == rb[k].state.stage,
        ra[k].state.stage != UninstallStage::Done ==> alike(ra[k].state, rb[k].state),
        ra[k].state.stage == UninstallStage::CheckingNode ==> ra[k].state.recorded_node@
            == rb[k].state.recorded_node@,
    decreases k,
{
    let sa = state_before(s0, ra, k);
    let sb = state_before(s0, rb, k);
    if k > 0 {
        lemma_runs_alike_upto(s0, ea, eb, ra, rb, k - 1);
        assert(uninstall_event_fits(sa, ea[k]));
    } else {
        assert(problems_view(s0.problems@) =~= problems_view(s0.problems@));
    }
    assert(uninstall_event_fits(sa, ea[k]) && uninstall_contract(sa, ea[k], ra[k]));
    assert(uninstall_event_fits(sb, eb[k]) && uninstall_contract(sb, eb[k], rb[k]));
    assert(alike_but_node(ea[k], eb[k]));
    if ea[k] == eb[k] {
        lemma_uninstall_step_determined(sa, sb, ea[k], ra[k], rb[k]);
    } else {
        match (ea[k], eb[k]) {
            (UninstallEvent::NodeChecked(x), UninstallEvent::NodeChecked(y)) => {
                if x == y {
                    assert(ea[k] == eb[k]);
                } else if x {
                    lemma_node_presence_irrelevant(sa, sb, ra[k], rb[k]);
                } else {
                    lemma_node_presence_irrelevant(sb, sa, rb[k], ra[k]);
                }
            },
            _ => {},
        }
    }
}

/// Uninstalling never needs Node.js: two uninstalls from the same start whose outside
/// answers differ only in whether the Node.js the host was using still exists take the
/// same actions one for one (they probe and delete the same registry keys and manifests,
/// remove the same directory) and end with the same result; they print alike, but for the
/// lines that report on that Node.js.
pub proof fn lemma_uninstall_ignores_node(
    s0: UninstallState,
    ea: Seq<UninstallEvent>,
    eb: Seq<UninstallEvent>,
    ra: Seq<UninstallStep>,
    rb: Seq<UninstallStep>,
)
    requires
        is_uninstall_run(s0, ea, ra),
        is_uninstall_run(s0, eb, rb),
        ea.len() == eb.len(),
        forall|j: int| 0 <= j < ea.len() ==> alike_but_node(#[trigger] ea[j], eb[j]),
    ensures
        forall|k: int| 0 <= k < ea.len() ==> same_action(#[trigger] ra[k].action, rb[k].action),
        forall|k: int|
            0 <= k < ea.len() && !(ea[k] is NodeChecked) ==> log_view(#[trigger] ra[k].log@)
                == log_view(rb[k].log@),
{
    assert forall|k: int| 0 <= k < ea.len() implies same_action(#[trigger] ra[k].action, rb[k].action) by {
        lemma_runs_alike_upto(s0, ea, eb, ra, rb, k);
    }
    assert forall|k: int| 0 <= k < ea.len() && !(ea[k] is NodeChecked) implies log_view(
        #[trigger] ra[k].log@,
    ) == log_view(rb[k].log@) by {
        lemma_runs_alike_upto(s0, ea, eb, ra, rb, k);
    }
}


} // verus!
