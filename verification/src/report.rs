//! What the installer reports: the transcript, the list of problems an uninstall meets,
//! the post-install and post-uninstall checks, and the messages that end a run.
use vstd::prelude::*;
use crate::platform::host_name_text;
use crate::text::{chars_of, contains, contains_chars, occurs_at, string_of, trim, trimmed};

verus! {

/// One line of output: to standard error when `to_stderr`, else to standard output.
pub struct LogLine {
    pub to_stderr: bool,
    pub text: String,
}

pub open spec fn log_view(v: Seq<LogLine>) -> Seq<(bool, Seq<char>)> {
    v.map_values(|l: LogLine| (l.to_stderr, l.text@))
}

pub fn say(text: String) -> (l: LogLine)
    ensures
        l.to_stderr == false,
        l.text@ == text@,
{
    LogLine { to_stderr: false, text }
}

pub fn warn(text: String) -> (l: LogLine)
    ensures
        l.to_stderr == true,
        l.text@ == text@,
{
    LogLine { to_stderr: true, text }
}

/// Appends one printed line, and its line break, to the run's transcript.
pub fn record(transcript: &mut String, line: &str)
    ensures
        final(transcript)@ == old(transcript)@ + line@ + seq!['\n'],
{
    transcript.append(line);
    crate::text::push_char(transcript, '\n');
}

/// The three lines of a section banner around `title`.
pub fn banner(title: &str) -> (lines: Vec<String>)
    ensures
        lines.len() == 3,
        lines@[0]@ == "\n----------------------------------------------------"@,
        lines@[1]@ == " "@ + title@,
        lines@[2]@ == "----------------------------------------------------"@,
{
    let mut lines: Vec<String> = Vec::new();
    lines.push(String::from_str("\n----------------------------------------------------"));
    let mut t = String::from_str(" ");
    t.append(title);
    lines.push(t);
    lines.push(String::from_str("----------------------------------------------------"));
    lines
}

/// The printed lines of a banner around `title`.
pub open spec fn banner_log(title: Seq<char>) -> Seq<(bool, Seq<char>)> {
    seq![
        (false, "\n----------------------------------------------------"@),
        (false, " "@ + title),
        (false, "----------------------------------------------------"@),
    ]
}

/// Appends the banner around `title` to `log`.
pub fn push_banner(log: &mut Vec<LogLine>, title: &str)
    ensures
        log_view(final(log)@) == log_view(old(log)@) + banner_log(title@),
{
    let mut lines = banner(title);
    let third = lines.pop().unwrap();
    let second = lines.pop().unwrap();
    let first = lines.pop().unwrap();
    log.push(say(first));
    log.push(say(second));
    log.push(say(third));
    assert(log_view(log@) =~= log_view(old(log)@) + banner_log(title@));
}

// ---------------------------------------------------------------------------
// Decimal numerals

pub open spec fn digit(d: nat) -> char {
    seq!['0', '1', '2', '3', '4', '5', '6', '7', '8', '9'][d as int]
}

/// The decimal numeral of `n`, as `{}` formats an unsigned integer.
pub open spec fn decimal(n: nat) -> Seq<char>
    decreases n,
{
    if n < 10 {
        seq![digit(n)]
    } else {
        decimal(n / 10).push(digit(n % 10))
    }
}

/// The number a string of decimal digits stands for.
pub open spec fn decimal_value(s: Seq<char>) -> int
    decreases s.len(),
{
    if s.len() == 0 {
        0
    } else {
        decimal_value(s.drop_last()) * 10 + (s.last() as int - '0' as int)
    }
}

proof fn lemma_digit(d: nat)
    requires
        d < 10,
    ensures
        digit(d) as int - '0' as int == d,
{
    let ds = seq!['0', '1', '2', '3', '4', '5', '6', '7', '8', '9'];
    if d == 0 {
        assert(ds[0] == '0');
    } else if d == 1 {
        assert(ds[1] == '1');
    } else if d == 2 {
        assert(ds[2] == '2');
    } else if d == 3 {
        assert(ds[3] == '3');
    } else if d == 4 {
        assert(ds[4] == '4');
    } else if d == 5 {
        assert(ds[5] == '5');
    } else if d == 6 {
        assert(ds[6] == '6');
    } else if d == 7 {
        assert(ds[7] == '7');
    } else if d == 8 {
        assert(ds[8] == '8');
    } else {
        assert(ds[9] == '9');
    }
}

/// A count written by the library reads back as the same count.
pub proof fn lemma_decimal_value(n: nat)
    ensures
        decimal_value(decimal(n)) == n,
    decreases n,
{
    if n >= 10 {
        lemma_decimal_value(n / 10);
        lemma_digit(n % 10);
        assert(decimal(n).drop_last() =~= decimal(n / 10));
        assert(decimal(n).last() == digit(n % 10));
        assert(n == (n / 10) * 10 + n % 10) by (nonlinear_arith);
    } else {
        lemma_digit(n);
        assert(seq![digit(n)].drop_last() =~= Seq::<char>::empty());
        assert(decimal_value(Seq::<char>::empty()) == 0);
        assert(decimal(n).last() == digit(n));
    }
}

fn digit_of(d: usize) -> (c: char)
    requires
        d < 10,
    ensures
        c == digit(d as nat),
{
    let digits: [char; 10] = ['0', '1', '2', '3', '4', '5', '6', '7', '8', '9'];
    assert(digits@ =~= seq!['0', '1', '2', '3', '4', '5', '6', '7', '8', '9']);
    digits[d]
}

/// Appends the decimal numeral of `n`.
pub fn push_decimal(s: &mut String, n: usize)
    ensures
        final(s)@ == old(s)@ + decimal(n as nat),
    decreases n,
{
    if n >= 10 {
        push_decimal(s, n / 10);
    }
    let c = digit_of(n % 10);
    crate::text::push_char(s, c);
    proof {
        if n >= 10 {
            assert(old(s)@ + decimal(n as nat) =~= old(s)@ + decimal((n / 10) as nat) + seq![c]);
        } else {
            assert(old(s)@ + decimal(n as nat) =~= old(s)@ + seq![c]);
        }
    }
}

// ---------------------------------------------------------------------------
// Problems met while uninstalling

/// Records a problem. Returns the line that reports it where it was found.
pub fn fail(problems: &mut Vec<String>, msg: String) -> (l: LogLine)
    ensures
        final(problems)@ == old(problems)@.push(msg),
        l.to_stderr,
        l.text@ == "  [FAIL] "@ + msg@,
{
    let mut t = String::from_str("  [FAIL] ");
    t.append(msg.as_str());
    problems.push(msg);
    warn(t)
}

pub open spec fn problems_view(ps: Seq<String>) -> Seq<Seq<char>> {
    ps.map_values(|s: String| s@)
}

/// Some problem already mentions `path`.
pub open spec fn reported(ps: Seq<Seq<char>>, path: Seq<char>) -> bool {
    exists|i: int| 0 <= i < ps.len() && contains(ps[i], path)
}

/// Has `path` already been reported by the step that tried to delete it?
pub fn already_reported(problems: &Vec<String>, path: &str) -> (b: bool)
    ensures
        b == reported(problems_view(problems@), path@),
{
    let pc = chars_of(path);
    let mut i: usize = 0;
    while i < problems.len()
        invariant
            i <= problems.len(),
            pc@ == path@,
            forall|k: int| 0 <= k < i ==> !contains(problems@[k]@, path@),
        decreases problems.len() - i,
    {
        let ec = chars_of(problems[i].as_str());
        if contains_chars(&ec, &pc) {
            assert(problems_view(problems@)[i as int] == problems@[i as int]@);
            return true;
        }
        i = i + 1;
    }
    proof {
        let ps = problems_view(problems@);
        if reported(ps, path@) {
            let k = choose|k: int| 0 <= k < ps.len() && contains(ps[k], path@);
            assert(ps[k] == problems@[k]@);
        }
    }
    false
}

/// The problem a failed removal of `path` records.
pub open spec fn removal_failure_text(path: Seq<char>, err: Seq<char>) -> Seq<char> {
    "could not remove "@ + path + ": "@ + err
}

pub fn removal_failure(path: &str, err: &str) -> (m: String)
    ensures
        m@ == removal_failure_text(path@, err@),
{
    let mut m = String::from_str("could not remove ");
    m.append(path);
    m.append(": ");
    m.append(err);
    m
}

pub open spec fn still_exists_text(path: Seq<char>) -> Seq<char> {
    path + " still exists"@
}

pub open spec fn still_registered_text(key: Seq<char>) -> Seq<char> {
    "registry key "@ + key + " is still registered"@
}

/// A left-over item adds a problem, unless an earlier problem already mentions it.
pub open spec fn check_leftover(ps: Seq<Seq<char>>, path: Seq<char>, exists: bool) -> Seq<
    Seq<char>,
> {
    if exists && !reported(ps, path) {
        ps.push(still_exists_text(path))
    } else {
        ps
    }
}

pub open spec fn check_leftovers(ps: Seq<Seq<char>>, items: Seq<(Seq<char>, bool)>) -> Seq<
    Seq<char>,
>
    decreases items.len(),
{
    if items.len() == 0 {
        ps
    } else {
        check_leftover(check_leftovers(ps, items.drop_last()), items.last().0, items.last().1)
    }
}

pub open spec fn check_registry(ps: Seq<Seq<char>>, keys: Seq<(Seq<char>, bool)>) -> Seq<
    Seq<char>,
>
    decreases keys.len(),
{
    if keys.len() == 0 {
        ps
    } else {
        let prev = check_registry(ps, keys.drop_last());
        if keys.last().1 {
            prev.push(still_registered_text(keys.last().0))
        } else {
            prev
        }
    }
}

/// The problems after checking that nothing was left behind: the install directory, then
/// each browser's manifest, then each registry key.
pub open spec fn removal_problems(
    ps: Seq<Seq<char>>,
    dir: Seq<char>,
    dir_exists: bool,
    manifests: Seq<(Seq<char>, bool)>,
    keys: Seq<(Seq<char>, bool)>,
) -> Seq<Seq<char>> {
    check_registry(check_leftovers(check_leftover(ps, dir, dir_exists), manifests), keys)
}

/// The lines `verify_removal` prints, given the problems before and after.
pub open spec fn removal_log(before: Seq<Seq<char>>, after: Seq<Seq<char>>, dir_exists: bool) -> Seq<
    (bool, Seq<char>),
> {
    seq![(false, ""@), (false, "[CHECK] Verifying the removal"@)] + (if dir_exists {
        seq![]
    } else {
        seq![(false, "  [OK]   install directory is gone"@)]
    }) + after.skip(before.len() as int).map_values(|m: Seq<char>| (true, "  [FAIL] "@ + m)) + (
    if after.len() == 0 {
        seq![(false, "  [OK]   no registrations left behind"@), (false, "[OK] All checks passed."@)]
    } else if before.len() == 0 {
        seq![(true, "[WARN] Some items could not be verified as removed."@)]
    } else {
        seq![]
    })
}

pub open spec fn pairs_view(v: Seq<(String, bool)>) -> Seq<(Seq<char>, bool)> {
    v.map_values(|p: (String, bool)| (p.0@, p.1))
}

fn note_leftover(problems: &mut Vec<String>, log: &mut Vec<LogLine>, path: &String, exists: bool)
    ensures
        problems_view(final(problems)@) == check_leftover(problems_view(old(problems)@), path@, exists),
        log_view(final(log)@) == log_view(old(log)@) + problems_view(final(problems)@).skip(
            old(problems)@.len() as int,
        ).map_values(|m: Seq<char>| (true, "  [FAIL] "@ + m)),
{
    let ghost before = problems_view(problems@);
    if exists && !already_reported(problems, path.as_str()) {
        let mut m = path.clone();
        m.append(" still exists");
        let l = fail(problems, m);
        log.push(l);
        assert(problems_view(problems@) =~= before.push(still_exists_text(path@)));
    } else {
        assert(problems_view(problems@) =~= before);
    }
    assert(log_view(log@) =~= log_view(old(log)@) + problems_view(problems@).skip(
        old(problems)@.len() as int,
    ).map_values(|m: Seq<char>| (true, "  [FAIL] "@ + m)));
}

/// Confirms nothing was left behind, rather than trusting that each delete succeeded.
/// Takes what was observed: whether the install directory still exists, and for each
/// browser manifest and each registry key whether it is still there. Records a problem
/// for each left-over item not already reported, and returns the lines to print.
pub fn verify_removal(
    dir: &str,
    dir_exists: bool,
    manifests: &Vec<(String, bool)>,
    reg_keys: &Vec<(String, bool)>,
    problems: &mut Vec<String>,
) -> (log: Vec<LogLine>)
    ensures
        problems_view(final(problems)@) == removal_problems(
            problems_view(old(problems)@),
            dir@,
            dir_exists,
            pairs_view(manifests@),
            pairs_view(reg_keys@),
        ),
        log_view(log@) == removal_log(
            problems_view(old(problems)@),
            problems_view(final(problems)@),
            dir_exists,
        ),
{
    let ghost ps0 = problems_view(problems@);
    let clean_so_far = problems.len() == 0;
    let mut log: Vec<LogLine> = Vec::new();
    log.push(say(String::from_str("")));
    log.push(say(String::from_str("[CHECK] Verifying the removal")));
    if !dir_exists {
        log.push(say(String::from_str("  [OK]   install directory is gone")));
    }
    let ghost head = log_view(log@);
    let dir_s = String::from_str(dir);
    note_leftover(problems, &mut log, &dir_s, dir_exists);
    let ghost ps1 = problems_view(problems@);
    let mut i: usize = 0;
    let ghost ms = pairs_view(manifests@);
    assert(ms.take(0) =~= Seq::<(Seq<char>, bool)>::empty());
    while i < manifests.len()
        invariant
            i <= manifests.len(),
            ms == pairs_view(manifests@),
            problems_view(problems@) == check_leftovers(ps1, ms.take(i as int)),
            ps1.len() >= ps0.len(),
            problems_view(problems@).len() >= ps1.len(),
            problems_view(problems@).take(ps0.len() as int) == ps0,
            log_view(log@) == head + problems_view(problems@).skip(ps0.len() as int).map_values(
                |m: Seq<char>| (true, "  [FAIL] "@ + m),
            ),
        decreases manifests.len() - i,
    {
        let ghost pv = problems_view(problems@);
        let item = &manifests[i];
        note_leftover(problems, &mut log, &item.0, item.1);
        proof {
            assert(ms.take(i + 1).drop_last() =~= ms.take(i as int));
            assert(ms.take(i + 1).last() == (item.0@, item.1));
            let pn = problems_view(problems@);
            assert(pn.take(pv.len() as int) =~= pv);
            assert(pn.take(ps0.len() as int) =~= ps0);
            assert(pn.skip(ps0.len() as int) =~= pv.skip(ps0.len() as int) + pn.skip(
                pv.len() as int,
            ));
            assert(log_view(log@) =~= head + pn.skip(ps0.len() as int).map_values(
                |m: Seq<char>| (true, "  [FAIL] "@ + m),
            ));
        }
        i = i + 1;
    }
    assert(ms.take(ms.len() as int) =~= ms);
    let ghost ps2 = problems_view(problems@);
    let mut j: usize = 0;
    let ghost ks = pairs_view(reg_keys@);
    assert(ks.take(0) =~= Seq::<(Seq<char>, bool)>::empty());
    while j < reg_keys.len()
        invariant
            j <= reg_keys.len(),
            ks == pairs_view(reg_keys@),
            problems_view(problems@) == check_registry(ps2, ks.take(j as int)),
            ps2.len() >= ps0.len(),
            problems_view(problems@).len() >= ps2.len(),
            problems_view(problems@).take(ps0.len() as int) == ps0,
            log_view(log@) == head + problems_view(problems@).skip(ps0.len() as int).map_values(
                |m: Seq<char>| (true, "  [FAIL] "@ + m),
            ),
        decreases reg_keys.len() - j,
    {
        let ghost pv = problems_view(problems@);
        let ghost lv = log_view(log@);
        let item = &reg_keys[j];
        if item.1 {
            let mut m = String::from_str("registry key ");
            m.append(item.0.as_str());
            m.append(" is still registered");
            let l = fail(problems, m);
            log.push(l);
            proof {
                let t = still_registered_text(item.0@);
                assert(problems_view(problems@) =~= pv.push(t));
                assert(log_view(log@) =~= lv.push((true, "  [FAIL] "@ + t)));
                assert(problems_view(problems@).skip(ps0.len() as int) =~= pv.skip(
                    ps0.len() as int,
                ).push(t));
            }
        }
        proof {
            assert(ks.take(j + 1).drop_last() =~= ks.take(j as int));
            assert(ks.take(j + 1).last() == (item.0@, item.1));
            let pn = problems_view(problems@);
            if item.1 {
                assert(pn =~= pv.push(still_registered_text(item.0@)));
            } else {
                assert(pn =~= pv);
            }
            assert(pn.take(ps0.len() as int) =~= ps0);
            assert(log_view(log@) =~= head + pn.skip(ps0.len() as int).map_values(
                |m: Seq<char>| (true, "  [FAIL] "@ + m),
            ));
        }
        j = j + 1;
    }
    assert(ks.take(ks.len() as int) =~= ks);
    let ghost mid = log_view(log@);
    let ghost pf = problems_view(problems@);
    assert(head =~= seq![(false, ""@), (false, "[CHECK] Verifying the removal"@)] + (if dir_exists {
        seq![]
    } else {
        seq![(false, "  [OK]   install directory is gone"@)]
    }));
    if problems.len() == 0 {
        log.push(say(String::from_str("  [OK]   no registrations left behind")));
        log.push(say(String::from_str("[OK] All checks passed.")));
    } else if clean_so_far {
        log.push(warn(String::from_str("[WARN] Some items could not be verified as removed.")));
    }
    assert(log_view(log@) =~= mid + (if pf.len() == 0 {
        seq![(false, "  [OK]   no registrations left behind"@), (false, "[OK] All checks passed."@)]
    } else if ps0.len() == 0 {
        seq![(true, "[WARN] Some items could not be verified as removed."@)]
    } else {
        seq![]
    }));
    assert(log_view(log@) =~= removal_log(ps0, problems_view(problems@), dir_exists));
    log
}

// ---------------------------------------------------------------------------
// How a run ends

pub open spec fn uninstall_error_text(n: nat) -> Seq<char> {
    "uninstall finished with "@ + decimal(n) + " problem(s) — see the [FAIL] lines above"@
}

/// An uninstall that met any problem does not report success.
pub fn uninstall_outcome(problems: &Vec<String>) -> (r: Result<(), String>)
    ensures
        r is Ok <==> problems@.len() == 0,
        r matches Err(e) ==> e@ == uninstall_error_text(problems@.len()),
{
    if problems.len() == 0 {
        Ok(())
    } else {
        let mut e = String::from_str("uninstall finished with ");
        push_decimal(&mut e, problems.len());
        e.append(" problem(s) — see the [FAIL] lines above");
        Err(e)
    }
}

pub open spec fn install_error_text(n: nat) -> Seq<char> {
    "the install did not verify ("@ + decimal(n) + " failed check(s) above) — the bridge may not work"@
}

/// An install that did not verify does not report success.
pub fn install_outcome(failures: usize) -> (r: Result<(), String>)
    ensures
        r is Ok <==> failures == 0,
        r matches Err(e) ==> e@ == install_error_text(failures as nat),
{
    if failures == 0 {
        Ok(())
    } else {
        let mut e = String::from_str("the install did not verify (");
        push_decimal(&mut e, failures);
        e.append(" failed check(s) above) — the bridge may not work");
        Err(e)
    }
}

// ---------------------------------------------------------------------------
// Laws of the removal check

proof fn lemma_leftovers_grow(ps: Seq<Seq<char>>, items: Seq<(Seq<char>, bool)>)
    ensures
        check_leftovers(ps, items).len() >= ps.len(),
        check_leftovers(ps, items).take(ps.len() as int) == ps,
        (forall|k: int| 0 <= k < items.len() ==> !items[k].1) ==> check_leftovers(ps, items)
            == ps,
        (exists|k: int| 0 <= k < items.len() && items[k].1) ==> check_leftovers(ps, items).len()
            > 0,
    decreases items.len(),
{
    if items.len() > 0 {
        let prev = check_leftovers(ps, items.drop_last());
        lemma_leftovers_grow(ps, items.drop_last());
        assert(prev.push(still_exists_text(items.last().0)).take(ps.len() as int) =~= prev.take(
            ps.len() as int,
        ));
        if forall|k: int| 0 <= k < items.len() ==> !items[k].1 {
            assert forall|k: int| 0 <= k < items.drop_last().len() implies !items.drop_last()[k].1 by {
                assert(items.drop_last()[k] == items[k]);
            }
        }
        if exists|k: int| 0 <= k < items.len() && items[k].1 {
            let k = choose|k: int| 0 <= k < items.len() && items[k].1;
            if k < items.len() - 1 {
                assert(items.drop_last()[k] == items[k]);
            } else if reported(prev, items.last().0) {
                assert(prev.len() > 0);
            }
        }
    } else {
        assert(ps.take(ps.len() as int) =~= ps);
    }
}

proof fn lemma_registry_grows(ps: Seq<Seq<char>>, keys: Seq<(Seq<char>, bool)>)
    ensures
        check_registry(ps, keys).len() >= ps.len(),
        check_registry(ps, keys).take(ps.len() as int) == ps,
        (forall|k: int| 0 <= k < keys.len() ==> !keys[k].1) ==> check_registry(ps, keys) == ps,
        (exists|k: int| 0 <= k < keys.len() && keys[k].1) ==> check_registry(ps, keys).len() > 0,
    decreases keys.len(),
{
    if keys.len() > 0 {
        let prev = check_registry(ps, keys.drop_last());
        lemma_registry_grows(ps, keys.drop_last());
        assert(prev.push(still_registered_text(keys.last().0)).take(ps.len() as int)
            =~= prev.take(ps.len() as int));
        if forall|k: int| 0 <= k < keys.len() ==> !keys[k].1 {
            assert forall|k: int| 0 <= k < keys.drop_last().len() implies !keys.drop_last()[k].1 by {
                assert(keys.drop_last()[k] == keys[k]);
            }
        }
        if exists|k: int| 0 <= k < keys.len() && keys[k].1 {
            let k = choose|k: int| 0 <= k < keys.len() && keys[k].1;
            if k < keys.len() - 1 {
                assert(keys.drop_last()[k] == keys[k]);
            }
        }
    } else {
        assert(ps.take(ps.len() as int) =~= ps);
    }
}

/// The removal check only adds problems: those found before it stay, in order, in front.
pub proof fn lemma_removal_keeps_problems(
    ps: Seq<Seq<char>>,
    dir: Seq<char>,
    dir_exists: bool,
    manifests: Seq<(Seq<char>, bool)>,
    keys: Seq<(Seq<char>, bool)>,
)
    ensures
        removal_problems(ps, dir, dir_exists, manifests, keys).len() >= ps.len(),
        removal_problems(ps, dir, dir_exists, manifests, keys).take(ps.len() as int) == ps,
{
    let p1 = check_leftover(ps, dir, dir_exists);
    let p2 = check_leftovers(p1, manifests);
    assert(p1.take(ps.len() as int) =~= ps);
    lemma_leftovers_grow(p1, manifests);
    lemma_registry_grows(p2, keys);
    let p3 = check_registry(p2, keys);
    assert(p3.take(ps.len() as int) =~= p2.take(p1.len() as int).take(ps.len() as int));
    assert(p2.take(p1.len() as int).take(ps.len() as int) =~= p1.take(ps.len() as int));
}

/// Starting from a clean removal, the check finds no problem exactly when nothing is left:
/// no install directory, no browser manifest, no registry key.
pub proof fn lemma_removal_clean_iff_nothing_left(
    dir: Seq<char>,
    dir_exists: bool,
    manifests: Seq<(Seq<char>, bool)>,
    keys: Seq<(Seq<char>, bool)>,
)
    ensures
        removal_problems(seq![], dir, dir_exists, manifests, keys).len() == 0 <==> (!dir_exists
            && (forall|k: int| 0 <= k < manifests.len() ==> !manifests[k].1) && (forall|k: int|
            0 <= k < keys.len() ==> !keys[k].1)),
{
    let ps: Seq<Seq<char>> = seq![];
    let p1 = check_leftover(ps, dir, dir_exists);
    let p2 = check_leftovers(p1, manifests);
    lemma_leftovers_grow(p1, manifests);
    lemma_registry_grows(p2, keys);
    if dir_exists {
        assert(!reported(ps, dir));
        assert(p1.len() == 1);
    }
}

/// A removal that failed with a message naming the path already reports that path: the
/// removal check does not report it a second time as left behind.
pub proof fn lemma_failure_not_repeated(ps: Seq<Seq<char>>, path: Seq<char>, err: Seq<char>)
    ensures
        ({
            let after = ps.push(removal_failure_text(path, err));
            reported(after, path) && check_leftover(after, path, true) == after
        }),
{
    reveal_strlit("could not remove ");
    let m = removal_failure_text(path, err);
    let after = ps.push(m);
    assert(m.subrange(17, 17 + path.len() as int) =~= path);
    assert(occurs_at(m, path, 17));
    assert(after[ps.len() as int] == m);
}

// ---------------------------------------------------------------------------
// The post-install check

pub struct InstallCheck {
    pub failures: usize,
    pub log: Vec<LogLine>,
}

/// The registry key whose default value the Windows install reads back.
pub open spec fn chrome_key_text() -> Seq<char> {
    "HKCU\\Software\\Google\\Chrome\\NativeMessagingHosts\\"@ + host_name_text()
}

pub open spec fn missing_count(files: Seq<(Seq<char>, bool)>) -> nat
    decreases files.len(),
{
    if files.len() == 0 {
        0
    } else {
        missing_count(files.drop_last()) + if files.last().1 {
            0nat
        } else {
            1nat
        }
    }
}

pub open spec fn file_line(f: (Seq<char>, bool)) -> (bool, Seq<char>) {
    if f.1 {
        (false, "  [OK]   "@ + f.0)
    } else {
        (true, "  [FAIL] missing "@ + f.0)
    }
}

pub open spec fn node_line(node: Seq<char>, reply: Option<Seq<char>>) -> (bool, Seq<char>) {
    match reply {
        Some(v) => (false, "  [OK]   node "@ + trim(v) + " responds"@),
        None => (true, "  [FAIL] "@ + node + " did not run — the Node.js install looks broken"@),
    }
}

pub open spec fn registry_lines(readback: Option<Option<Seq<char>>>) -> Seq<(bool, Seq<char>)> {
    match readback {
        Some(Some(v)) => seq![(false, "  [OK]   registry -> "@ + v)],
        Some(None) => seq![
            (true, "  [WARN] could not read back "@ + chrome_key_text()
                + " (the write itself succeeded)"@),
        ],
        None => seq![],
    }
}

pub open spec fn install_failures(files: Seq<(Seq<char>, bool)>, reply: Option<Seq<char>>) -> nat {
    missing_count(files) + if reply is None {
        1nat
    } else {
        0nat
    }
}

pub open spec fn install_check_log(
    files: Seq<(Seq<char>, bool)>,
    node: Seq<char>,
    reply: Option<Seq<char>>,
    readback: Option<Option<Seq<char>>>,
) -> Seq<(bool, Seq<char>)> {
    seq![(false, ""@), (false, "[CHECK] Verifying the installation"@)] + files.map_values(
        |f: (Seq<char>, bool)| file_line(f),
    ) + seq![node_line(node, reply)] + registry_lines(readback) + if install_failures(files, reply)
        == 0 {
        seq![(false, "[OK] All checks passed."@)]
    } else {
        seq![]
    }
}

pub open spec fn opt_view(o: Option<String>) -> Option<Seq<char>> {
    match o {
        Some(s) => Some(s@),
        None => None,
    }
}

pub open spec fn readback_view(o: Option<Option<String>>) -> Option<Option<Seq<char>>> {
    match o {
        Some(i) => Some(opt_view(i)),
        None => None,
    }
}

/// Turns the observations after an install into a pass/fail list. `files` holds each
/// expected file and whether it exists; `node_reply` what `node --version` printed when it
/// ran successfully; `readback` (Windows only) the registry value read back, if any.
/// Returns the number of failed checks, so that an install that did not come out right
/// is not reported as a success, and the lines to print.
pub fn verify_install(
    files: &Vec<(String, bool)>,
    node: &str,
    node_reply: &Option<String>,
    readback: &Option<Option<String>>,
) -> (c: InstallCheck)
    requires
        files@.len() < usize::MAX,
    ensures
        c.failures == install_failures(pairs_view(files@), opt_view(*node_reply)),
        log_view(c.log@) == install_check_log(
            pairs_view(files@),
            node@,
            opt_view(*node_reply),
            readback_view(*readback),
        ),
{
    let ghost fs = pairs_view(files@);
    let mut log: Vec<LogLine> = Vec::new();
    log.push(say(String::from_str("")));
    log.push(say(String::from_str("[CHECK] Verifying the installation")));
    let ghost head = log_view(log@);
    let mut failures: usize = 0;
    let mut i: usize = 0;
    assert(fs.take(0) =~= Seq::<(Seq<char>, bool)>::empty());
    while i < files.len()
        invariant
            i <= files.len() < usize::MAX,
            fs == pairs_view(files@),
            failures == missing_count(fs.take(i as int)),
            failures <= i,
            log_view(log@) == head + fs.take(i as int).map_values(
                |f: (Seq<char>, bool)| file_line(f),
            ),
        decreases files.len() - i,
    {
        let ghost lv = log_view(log@);
        let f = &files[i];
        if f.1 {
            let mut t = String::from_str("  [OK]   ");
            t.append(f.0.as_str());
            log.push(say(t));
        } else {
            failures = failures + 1;
            let mut t = String::from_str("  [FAIL] missing ");
            t.append(f.0.as_str());
            log.push(warn(t));
        }
        proof {
            assert(fs.take(i + 1).drop_last() =~= fs.take(i as int));
            assert(fs.take(i + 1).last() == (f.0@, f.1));
            assert(log_view(log@) =~= lv.push(file_line((f.0@, f.1))));
            assert(fs.take(i + 1).map_values(|f: (Seq<char>, bool)| file_line(f)) =~= fs.take(
                i as int,
            ).map_values(|f: (Seq<char>, bool)| file_line(f)).push(file_line((f.0@, f.1))));
        }
        i = i + 1;
    }
    assert(fs.take(fs.len() as int) =~= fs);
    let ghost before_node = log_view(log@);
    assert(before_node == head + fs.map_values(|f: (Seq<char>, bool)| file_line(f)));
    assert(head =~= seq![(false, ""@), (false, "[CHECK] Verifying the installation"@)]);
    match node_reply {
        Some(v) => {
            let vc = chars_of(v.as_str());
            let tv = trimmed(&vc);
            let mut t = String::from_str("  [OK]   node ");
            t.append(string_of(tv.as_slice()).as_str());
            t.append(" responds");
            log.push(say(t));
        },
        None => {
            failures = failures + 1;
            let mut t = String::from_str("  [FAIL] ");
            t.append(node);
            t.append(" did not run — the Node.js install looks broken");
            log.push(warn(t));
        },
    }
    assert(log_view(log@) =~= before_node.push(node_line(node@, opt_view(*node_reply))));
    let ghost before_reg = log_view(log@);
    match readback {
        Some(Some(v)) => {
            let mut t = String::from_str("  [OK]   registry -> ");
            t.append(v.as_str());
            log.push(say(t));
            assert(log_view(log@) =~= before_reg + registry_lines(readback_view(*readback)));
        },
        Some(None) => {
            let mut t = String::from_str("  [WARN] could not read back ");
            t.append(
                String::from_str("HKCU\\Software\\Google\\Chrome\\NativeMessagingHosts\\").as_str(),
            );
            t.append(crate::platform::host_name().as_str());
            t.append(" (the write itself succeeded)");
            assert(t@ =~= "  [WARN] could not read back "@ + chrome_key_text()
                + " (the write itself succeeded)"@);
            log.push(warn(t));
            assert(log_view(log@) =~= before_reg + registry_lines(readback_view(*readback)));
        },
        None => {
            assert(log_view(log@) =~= before_reg + registry_lines(readback_view(*readback)));
        },
    }
    assert(log_view(log@) =~= before_reg + registry_lines(readback_view(*readback)));
    assert(failures == install_failures(fs, opt_view(*node_reply)));
    if failures == 0 {
        log.push(say(String::from_str("[OK] All checks passed.")));
    }
    assert(log_view(log@) =~= install_check_log(
        fs,
        node@,
        opt_view(*node_reply),
        readback_view(*readback),
    ));
    InstallCheck { failures, log }
}

// ---------------------------------------------------------------------------
// Uninstall-time messages

/// What the uninstaller says about the Node.js the host was using (`path`, read back from
/// the installed files), given whether it still exists. Removal never needs Node.js.
pub fn recorded_node_report(path: &str, exists: bool) -> (lines: Vec<String>)
    ensures
        exists ==> lines.deep_view() == seq!["[INFO] Host was using Node at: "@ + path@],
        !exists ==> lines.deep_view() == seq![
            "[INFO] Host referenced Node at "@ + path@ + ", which no longer exists."@,
            "       That's fine — removal doesn't need Node.js."@,
        ],
{
    let mut lines: Vec<String> = Vec::new();
    if exists {
        let mut l = String::from_str("[INFO] Host was using Node at: ");
        l.append(path);
        lines.push(l);
    } else {
        let mut l = String::from_str("[INFO] Host referenced Node at ");
        l.append(path);
        l.append(", which no longer exists.");
        lines.push(l);
        lines.push(String::from_str("       That's fine — removal doesn't need Node.js."));
    }
    assert(lines.deep_view() =~~= if exists {
        seq!["[INFO] Host was using Node at: "@ + path@]
    } else {
        seq![
            "[INFO] Host referenced Node at "@ + path@ + ", which no longer exists."@,
            "       That's fine — removal doesn't need Node.js."@,
        ]
    });
    lines
}

/// The problem recorded when `reg delete` failed for `key`; `stderr` is what it printed.
pub fn reg_delete_failure(key: &str, stderr: &str) -> (m: String)
    ensures
        m@ == "could not delete "@ + key@ + ": "@ + trim(stderr@),
{
    let mut m = String::from_str("could not delete ");
    m.append(key);
    m.append(": ");
    let sc = chars_of(stderr);
    let t = trimmed(&sc);
    m.append(string_of(t.as_slice()).as_str());
    m
}

/// The problem recorded when `reg.exe` could not be started for `key`.
pub fn reg_run_failure(key: &str, err: &str) -> (m: String)
    ensures
        m@ == "could not run reg.exe for "@ + key@ + ": "@ + err@,
{
    let mut m = String::from_str("could not run reg.exe for ");
    m.append(key);
    m.append(": ");
    m.append(err);
    m
}

} // verus!
