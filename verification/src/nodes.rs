//! Finding Node.js: the candidates in priority order, and the choice among them.
use vstd::prelude::*;
use crate::paths::{join, join_unix, join_win, join_windows};
use crate::platform::Platform;
use crate::report::pairs_view;
use crate::text::{
    chars_of, chars_lex_lt, ends_with, lemma_lex_asymmetric, lemma_lex_total, lemma_lex_transitive, lex_lt, lines_of, lowercase, matches_at, split_lines,
    split_words, string_of, to_lowercase, trim_range, words, eq_ignore_ascii_case,
    chars_eq_ignore_ascii_case,
};

verus! {

/// How to get Node.js by hand, for messages that give up.
pub open spec fn install_hint_text(platform: Platform) -> Seq<char> {
    if platform == Platform::MacOs {
        "Install it with Homebrew: `brew install node`, or from https://nodejs.org/"@
    } else if platform == Platform::Windows {
        "Install it with `winget install OpenJS.NodeJS.LTS`, or from https://nodejs.org/"@
    } else {
        "Install it via your package manager (e.g. `sudo apt install nodejs`), or from https://nodejs.org/"@
    }
}

pub fn node_install_hint(platform: Platform) -> (s: String)
    ensures
        s@ == install_hint_text(platform),
{
    if platform == Platform::MacOs {
        String::from_str("Install it with Homebrew: `brew install node`, or from https://nodejs.org/")
    } else if platform == Platform::Windows {
        String::from_str("Install it with `winget install OpenJS.NodeJS.LTS`, or from https://nodejs.org/")
    } else {
        String::from_str(
            "Install it via your package manager (e.g. `sudo apt install nodejs`), or from https://nodejs.org/",
        )
    }
}

// ---------------------------------------------------------------------------
// `which` / `where` output

/// The trimmed, non-empty lines of a locator's output.
pub open spec fn trimmed_lines(ls: Seq<Seq<char>>) -> Seq<Seq<char>>
    decreases ls.len(),
{
    if ls.len() == 0 {
        seq![]
    } else {
        let t = crate::text::trim(ls.last());
        trimmed_lines(ls.drop_last()) + if t.len() > 0 {
            seq![t]
        } else {
            seq![]
        }
    }
}

/// The paths a locator (`which` or `where`) printed, trimmed, empty lines dropped.
pub fn locate_candidates(output: &str) -> (c: Vec<String>)
    ensures
        c.deep_view() == trimmed_lines(lines_of(output@)),
{
    let oc = chars_of(output);
    let lines = split_lines(&oc);
    let ghost ls = lines.deep_view();
    let mut c: Vec<String> = Vec::new();
    let mut i: usize = 0;
    assert(ls.take(0) =~= Seq::<Seq<char>>::empty());
    while i < lines.len()
        invariant
            i <= lines.len(),
            ls == lines.deep_view(),
            c.deep_view() == trimmed_lines(ls.take(i as int)),
        decreases lines.len() - i,
    {
        let l = &lines[i];
        let (a, b) = trim_range(l, 0, l.len());
        assert(l@.subrange(0, l@.len() as int) =~= l@);
        assert(l@ =~= ls[i as int]);
        assert(ls.take(i + 1).drop_last() =~= ls.take(i as int));
        assert(ls.take(i + 1).last() == ls[i as int]);
        if a < b {
            let t = crate::text::copy_range(l, a, b);
            let ghost before = c.deep_view();
            c.push(string_of(t.as_slice()));
            assert(c.deep_view() =~~= before.push(t@));
        } else {
            assert(c.deep_view() =~= trimmed_lines(ls.take(i + 1)));
        }
        i = i + 1;
    }
    assert(ls.take(ls.len() as int) =~= ls);
    c
}

/// The candidates that exist, in order.
pub open spec fn existing(cands: Seq<(Seq<char>, bool)>) -> Seq<Seq<char>>
    decreases cands.len(),
{
    if cands.len() == 0 {
        seq![]
    } else {
        existing(cands.drop_last()) + if cands.last().1 {
            seq![cands.last().0]
        } else {
            seq![]
        }
    }
}

/// The first path whose lower-cased form ends in `.exe`.
pub open spec fn first_exe(hits: Seq<Seq<char>>) -> Option<Seq<char>>
    decreases hits.len(),
{
    if hits.len() == 0 {
        None
    } else if ends_with(lowercase(hits[0]), ".exe"@) {
        Some(hits[0])
    } else {
        first_exe(hits.skip(1))
    }
}

/// The path `h`, lower-cased, names an `.exe`.
pub open spec fn is_exe_hit(h: Seq<char>) -> bool {
    ends_with(lowercase(h), ".exe"@)
}

/// The `.exe` preferred among a locator's hits is the earliest one (the one `PATH` runs):
/// a hit `.exe` with no `.exe` before it; there is none only when no hit is an `.exe`.
pub proof fn lemma_first_exe_is_earliest(hits: Seq<Seq<char>>)
    ensures
        match first_exe(hits) {
            Some(h) => exists|i: int|
                0 <= i < hits.len() && hits[i] == h && is_exe_hit(hits[i]) && forall|j: int|
                    0 <= j < i ==> !is_exe_hit(#[trigger] hits[j]),
            None => forall|j: int| 0 <= j < hits.len() ==> !is_exe_hit(#[trigger] hits[j]),
        },
    decreases hits.len(),
{
    if hits.len() > 0 {
        let rest = hits.skip(1);
        lemma_first_exe_is_earliest(rest);
        if is_exe_hit(hits[0]) {
            assert(forall|j: int| 0 <= j < 0 ==> !is_exe_hit(#[trigger] hits[j]));
        } else {
            match first_exe(rest) {
                Some(h) => {
                    let i = choose|i: int|
                        0 <= i < rest.len() && rest[i] == h && is_exe_hit(rest[i]) && forall|j: int|
                            0 <= j < i ==> !is_exe_hit(#[trigger] rest[j]);
                    assert(hits[i + 1] == rest[i]);
                    assert forall|j: int| 0 <= j < i + 1 implies !is_exe_hit(#[trigger] hits[j]) by {
                        if j > 0 {
                            assert(hits[j] == rest[j - 1]);
                        }
                    }
                },
                None => {
                    assert forall|j: int| 0 <= j < hits.len() implies !is_exe_hit(#[trigger] hits[j]) by {
                        if j > 0 {
                            assert(hits[j] == rest[j - 1]);
                        }
                    }
                },
            }
        }
    }
}


/// The located program: on Windows a real `.exe` is preferred over `.cmd`/`.bat` shims
/// (a shim run from the launcher without `call` would not return); else the first hit.
pub open spec fn located_choice(platform: Platform, hits: Seq<Seq<char>>) -> Option<Seq<char>> {
    if platform == Platform::Windows && first_exe(hits) is Some {
        first_exe(hits)
    } else if hits.len() > 0 {
        Some(hits[0])
    } else {
        None
    }
}

/// Whether the lower-cased path `lower` names an `.exe`.
pub fn names_exe(lower: &str) -> (b: bool)
    ensures
        b == ends_with(lower@, ".exe"@),
{
    let lc = chars_of(lower);
    let exe = chars_of(".exe");
    proof {
        reveal_strlit(".exe");
    }
    if lc.len() >= exe.len() {
        matches_at(&lc, &exe, lc.len() - exe.len())
    } else {
        false
    }
}

/// The located program is, on Windows, the earliest hit that is an `.exe` when there is
/// one; otherwise (and elsewhere) the first hit; none only when there is no hit.
pub proof fn lemma_located_choice(platform: Platform, hits: Seq<Seq<char>>)
    ensures
        match located_choice(platform, hits) {
            Some(h) => if platform == Platform::Windows && exists|j: int|
                0 <= j < hits.len() && is_exe_hit(#[trigger] hits[j]) {
                exists|i: int|
                    0 <= i < hits.len() && hits[i] == h && is_exe_hit(hits[i]) && forall|j: int|
                        0 <= j < i ==> !is_exe_hit(#[trigger] hits[j])
            } else {
                hits.len() > 0 && h == hits[0]
            },
            None => hits.len() == 0,
        },
{
    lemma_first_exe_is_earliest(hits);
}


/// Picks the program a locator found, out of its candidates and whether each exists.
pub fn located_path(platform: Platform, cands: &Vec<(String, bool)>) -> (r: Option<String>)
    ensures
        match r {
            Some(p) => located_choice(platform, existing(pairs_view(cands@))) == Some(p@),
            None => located_choice(platform, existing(pairs_view(cands@))) is None,
        },
{
    let ghost cs = pairs_view(cands@);
    let mut hits: Vec<String> = Vec::new();
    let mut i: usize = 0;
    assert(cs.take(0) =~= Seq::<(Seq<char>, bool)>::empty());
    while i < cands.len()
        invariant
            i <= cands.len(),
            cs == pairs_view(cands@),
            hits.deep_view() == existing(cs.take(i as int)),
        decreases cands.len() - i,
    {
        assert(cs.take(i + 1).drop_last() =~= cs.take(i as int));
        assert(cs.take(i + 1).last() == cs[i as int]);
        if cands[i].1 {
            let ghost before = hits.deep_view();
            hits.push(cands[i].0.clone());
            assert(hits.deep_view() =~~= before.push(cands@[i as int].0@));
        } else {
            assert(hits.deep_view() =~= existing(cs.take(i + 1)));
        }
        i = i + 1;
    }
    assert(cs.take(cs.len() as int) =~= cs);
    let ghost hs = hits.deep_view();
    if platform == Platform::Windows {
        let mut k: usize = 0;
        assert(hs.skip(0) =~= hs);
        while k < hits.len()
            invariant
                k <= hits.len(),
                platform == Platform::Windows,
                hs == hits.deep_view(),
                hs == existing(pairs_view(cands@)),
                first_exe(hs.skip(k as int)) == first_exe(hs),
            decreases hits.len() - k,
        {
            assert(hs.skip(k as int)[0] == hs[k as int]);
            assert(hits@[k as int]@ == hs[k as int]);
            let low = to_lowercase(hits[k].as_str());
            if names_exe(low.as_str()) {
                assert(first_exe(hs.skip(k as int)) == Some(hs[k as int]));
                return Some(hits[k].clone());
            }
            assert(hs.skip(k as int).skip(1) =~= hs.skip(k + 1));
            k = k + 1;
        }
    }
    if hits.len() > 0 {
        assert(hits@[0]@ == hs[0]);
        Some(hits[0].clone())
    } else {
        None
    }
}

// ---------------------------------------------------------------------------
// Choosing a Node.js that runs

pub open spec fn fails_to_run<W: Fn(&String) -> bool>(works: W, c: Option<String>) -> bool {
    match c {
        Some(p) => call_ensures(works, (&p,), false),
        None => true,
    }
}

/// A known location is passed over when it does not exist or its Node.js does not run.
pub open spec fn passed_over<W: Fn(&String) -> bool>(works: W, c: (String, bool)) -> bool {
    !c.1 || call_ensures(works, (&c.0,), false)
}

/// What `find_node` finds: the located Node.js if it runs; else the one on the persisted
/// `PATH` if it runs; else the first known location that exists and runs, the ones before it
/// passed over; `None` when none of them runs.
pub open spec fn found_node<W: Fn(&String) -> bool>(
    located: Option<String>,
    persisted: Option<String>,
    known: Seq<(String, bool)>,
    works: W,
    r: Option<String>,
) -> bool {
    match r {
        Some(p) => (located == Some(p) && call_ensures(works, (&p,), true)) || (fails_to_run(
            works,
            located,
        ) && persisted == Some(p) && call_ensures(works, (&p,), true)) || (fails_to_run(
            works,
            located,
        ) && fails_to_run(works, persisted) && exists|i: int|
            0 <= i < known.len() && known[i].0 == p && known[i].1 && call_ensures(
                works,
                (&known[i].0,),
                true,
            ) && forall|j: int| 0 <= j < i ==> passed_over(works, known[j])),
        None => fails_to_run(works, located) && fails_to_run(works, persisted) && forall|j: int|
            0 <= j < known.len() ==> passed_over(works, known[j]),
    }
}

/// What `installed_node` picks: the Node.js on the persisted `PATH`, else the first known
/// location that exists.
pub open spec fn installed_choice(persisted: Option<String>, known: Seq<(String, bool)>, r: Option<String>) -> bool {
    &&& persisted is Some ==> r == persisted
    &&& persisted is None ==> match r {
        Some(p) => exists|i: int|
            0 <= i < known.len() && known[i].0 == p && known[i].1 && forall|j: int|
                0 <= j < i ==> !known[j].1,
        None => forall|j: int| 0 <= j < known.len() ==> !known[j].1,
    }
}

/// Finds a Node.js that runs: first the one on `PATH` (`located`), then (Windows) the one on
/// the persisted `PATH`, then the first known location that exists. Each candidate is run
/// (`works`) before it is chosen, and only until one runs.
pub fn find_node<W: Fn(&String) -> bool>(
    located: Option<String>,
    persisted: Option<String>,
    known: &Vec<(String, bool)>,
    works: W,
) -> (r: Option<String>)
    requires
        forall|s: &String| call_requires(works, (s,)),
    ensures
        found_node(located, persisted, known@, works, r),
{
    let ghost loc = located;
    let ghost per = persisted;
    match located {
        Some(p) => {
            if works(&p) {
                return Some(p);
            }
        },
        None => {},
    }
    match persisted {
        Some(p) => {
            if works(&p) {
                return Some(p);
            }
        },
        None => {},
    }
    let mut i: usize = 0;
    while i < known.len()
        invariant
            i <= known.len(),
            forall|s: &String| call_requires(works, (s,)),
            forall|j: int| 0 <= j < i ==> passed_over(works, known@[j]),
            fails_to_run(works, loc),
            fails_to_run(works, per),
            loc == located,
            per == persisted,
        decreases known.len() - i,
    {
        if known[i].1 && works(&known[i].0) {
            return Some(known[i].0.clone());
        }
        i = i + 1;
    }
    None
}

/// Where an earlier run unpacked a private Node.js: `<dir>/node/bin/node`.
pub open spec fn private_node_path(dir: Seq<char>) -> Seq<char> {
    join_unix(join_unix(join_unix(dir, "node"@), "bin"@), "node"@)
}

/// A Node.js this installer downloaded on an earlier run, if it is there and runs (never
/// on Windows, where Node.js is installed with winget and no private copy is kept).
pub fn private_node<E: Fn(&String) -> bool, W: Fn(&String) -> bool>(
    platform: Platform,
    dir: &str,
    present: E,
    works: W,
) -> (r: Option<String>)
    requires
        forall|s: &String| call_requires(present, (s,)),
        forall|s: &String| call_requires(works, (s,)),
    ensures
        platform == Platform::Windows ==> r is None,
        platform != Platform::Windows ==> match r {
            Some(p) => p@ == private_node_path(dir@) && call_ensures(present, (&p,), true)
                && call_ensures(works, (&p,), true),
            None => exists|s: String|
                s@ == private_node_path(dir@) && (call_ensures(present, (&s,), false) || (
                call_ensures(present, (&s,), true) && call_ensures(works, (&s,), false))),
        },
{
    if platform == Platform::Windows {
        return None;
    }
    let a = join(dir, "node");
    let b = join(a.as_str(), "bin");
    let p = join(b.as_str(), "node");
    if present(&p) && works(&p) {
        Some(p)
    } else {
        None
    }
}

/// Homebrew: wherever `which` found it, else at the Apple-silicon or the Intel prefix, if
/// either exists (a `.pkg` postinstall's `PATH` has neither).
pub fn locate_brew<E: Fn(&String) -> bool>(located: Option<String>, present: E) -> (r: Option<
    String,
>)
    requires
        forall|s: &String| call_requires(present, (s,)),
    ensures
        located is Some ==> r == located,
        located is None ==> match r {
            Some(p) => (p@ == "/opt/homebrew/bin/brew"@ && call_ensures(present, (&p,), true)) || (
            p@ == "/usr/local/bin/brew"@ && call_ensures(present, (&p,), true) && exists|s: String|
                s@ == "/opt/homebrew/bin/brew"@ && call_ensures(present, (&s,), false)),
            None => (exists|s: String|
                s@ == "/opt/homebrew/bin/brew"@ && call_ensures(present, (&s,), false)) && (exists|
                s: String|
                s@ == "/usr/local/bin/brew"@ && call_ensures(present, (&s,), false)),
        },
{
    if located.is_some() {
        return located;
    }
    let a = String::from_str("/opt/homebrew/bin/brew");
    if present(&a) {
        return Some(a);
    }
    let b = String::from_str("/usr/local/bin/brew");
    if present(&b) {
        return Some(b);
    }
    None
}

// ---------------------------------------------------------------------------
// Known install locations

/// The fixed Unix locations, in the order they are tried.
pub open spec fn fixed_unix_locations(home: Seq<char>) -> Seq<Seq<char>> {
    seq![
        "/opt/homebrew/bin/node"@,
        "/usr/local/bin/node"@,
        "/usr/bin/node"@,
        "/snap/bin/node"@,
        join_unix(home, ".volta/bin/node"@),
    ]
}

/// Version-manager roots under `home` and, for each, the path from a version directory to
/// its `bin` (nvm, then fnm's two layouts).
pub open spec fn version_manager_roots(home: Seq<char>) -> Seq<(Seq<char>, Seq<char>)> {
    seq![
        (join_unix(home, ".nvm/versions/node"@), "bin"@),
        (join_unix(home, ".local/share/fnm/node-versions"@), "installation/bin"@),
        (join_unix(home, ".fnm/node-versions"@), "installation/bin"@),
    ]
}

pub fn version_manager_dirs(home: &str) -> (r: Vec<(String, String)>)
    ensures
        r.deep_view() == version_manager_roots(home@),
{
    let mut r: Vec<(String, String)> = Vec::new();
    r.push((join(home, ".nvm/versions/node"), String::from_str("bin")));
    r.push((join(home, ".local/share/fnm/node-versions"), String::from_str("installation/bin")));
    r.push((join(home, ".fnm/node-versions"), String::from_str("installation/bin")));
    assert(r.deep_view() =~~= version_manager_roots(home@));
    r
}

/// The `node` of one version directory `entry`, given the root's path to `bin`.
pub fn managed_node_candidate(entry: &str, tail: &str) -> (r: String)
    ensures
        r@ == join_unix(join_unix(entry@, tail@), "node"@),
{
    let a = join(entry, tail);
    join(a.as_str(), "node")
}

/// The `node.exe` of one Windows version-manager directory `entry`, given the manager's
/// path from a version directory to the one holding `node.exe` (empty for nvm-windows).
pub fn windows_managed_node_candidate(entry: &str, tail: &str) -> (r: String)
    ensures
        r@ == join_windows(
            if tail@.len() == 0 {
                entry@
            } else {
                join_windows(entry@, tail@)
            },
            "node.exe"@,
        ),
{
    if chars_of(tail).len() == 0 {
        join_win(entry, "node.exe")
    } else {
        let a = join_win(entry, tail);
        join_win(a.as_str(), "node.exe")
    }
}

/// Sorted newest-looking first: no element is before a later one in code-point order.
pub open spec fn sorted_desc(s: Seq<Seq<char>>) -> bool {
    forall|i: int, j: int| 0 <= i < j < s.len() ==> !lex_lt(#[trigger] s[i], #[trigger] s[j])
}

fn insert_sorted(v: &mut Vec<String>, x: String)
    requires
        sorted_desc(old(v).deep_view()),
    ensures
        sorted_desc(final(v).deep_view()),
        final(v).deep_view().to_multiset() == old(v).deep_view().to_multiset().insert(x@),
{
    let xc = chars_of(x.as_str());
    let mut k: usize = v.len();
    let ghost dv = v.deep_view();
    while k > 0 && chars_lex_lt(&chars_of(v[k - 1].as_str()), &xc)
        invariant
            k <= v.len(),
            dv == v.deep_view(),
            xc@ == x@,
            forall|m: int| k <= m < v.len() ==> lex_lt(dv[m], x@),
        decreases k,
    {
        assert(v@[k - 1]@ == dv[k - 1]);
        k = k - 1;
    }
    proof {
        if k > 0 {
            assert(v@[k - 1]@ == dv[k - 1]);
            assert(!lex_lt(dv[k - 1], x@));
            assert forall|m: int| 0 <= m < k implies !lex_lt(dv[m], x@) by {
                if m < k - 1 {
                    assert(!lex_lt(dv[m], dv[k - 1]));
                    lemma_lex_total(dv[m], dv[k - 1]);
                    if lex_lt(dv[m], x@) {
                        if dv[m] != dv[k - 1] {
                            lemma_lex_transitive(dv[k - 1], dv[m], x@);
                        }
                    }
                }
            }
        }
        assert forall|m: int| k <= m < dv.len() implies !lex_lt(x@, dv[m]) by {
            lemma_lex_asymmetric(x@, dv[m]);
        }
    }
    v.insert(k, x);
    proof {
        let nv = v.deep_view();
        assert(nv =~= dv.insert(k as int, xc@));
        assert forall|i: int, j: int| 0 <= i < j < nv.len() implies !lex_lt(nv[i], nv[j]) by {
            if j < k {
                assert(nv[i] == dv[i] && nv[j] == dv[j]);
            } else if j == k {
                assert(nv[j] == xc@);
                assert(nv[i] == dv[i]);
            } else if i == k {
                assert(nv[i] == xc@ && nv[j] == dv[j - 1]);
            } else if i < k {
                assert(nv[i] == dv[i] && nv[j] == dv[j - 1]);
            } else {
                assert(nv[i] == dv[i - 1] && nv[j] == dv[j - 1]);
            }
        }
        vstd::seq_lib::to_multiset_insert(dv, k as int, xc@);
    }
}

/// `managed` sorted newest-looking first: descending order of `String`s (not version order:
/// v9 sorts above v10; any working Node.js will do, and each is run before it is chosen).
pub fn sort_newest_first(managed: &Vec<String>) -> (r: Vec<String>)
    ensures
        sorted_desc(r.deep_view()),
        r.deep_view().to_multiset() == managed.deep_view().to_multiset(),
{
    let ghost mv = managed.deep_view();
    let mut r: Vec<String> = Vec::new();
    let mut i: usize = 0;
    assert(mv.take(0) =~= Seq::<Seq<char>>::empty());
    assert(r.deep_view() =~= Seq::<Seq<char>>::empty());
    while i < managed.len()
        invariant
            i <= managed.len(),
            mv == managed.deep_view(),
            sorted_desc(r.deep_view()),
            r.deep_view().to_multiset() == mv.take(i as int).to_multiset(),
        decreases managed.len() - i,
    {
        insert_sorted(&mut r, managed[i].clone());
        proof {
            assert(mv.take(i + 1) =~= mv.take(i as int).push(mv[i as int]));
            vstd::seq_lib::to_multiset_build(mv.take(i as int), mv[i as int]);
        }
        i = i + 1;
    }
    assert(mv.take(mv.len() as int) =~= mv);
    r
}

/// Where Node.js is commonly installed on Unix: the fixed locations, Volta's, then the
/// version-manager installs found (`managed`), newest-looking first.
pub fn known_node_locations(home: &str, managed: &Vec<String>) -> (r: Vec<String>)
    ensures
        r.deep_view().take(5) == fixed_unix_locations(home@),
        sorted_desc(r.deep_view().skip(5)),
        r.deep_view().skip(5).to_multiset() == managed.deep_view().to_multiset(),
        r.len() == 5 + managed.len(),
{
    let mut r: Vec<String> = Vec::new();
    r.push(String::from_str("/opt/homebrew/bin/node"));
    r.push(String::from_str("/usr/local/bin/node"));
    r.push(String::from_str("/usr/bin/node"));
    r.push(String::from_str("/snap/bin/node"));
    r.push(join(home, ".volta/bin/node"));
    let ghost head = r.deep_view();
    assert(head =~~= fixed_unix_locations(home@));
    let sorted = sort_newest_first(managed);
    let mut i: usize = 0;
    while i < sorted.len()
        invariant
            i <= sorted.len(),
            r.deep_view() == head + sorted.deep_view().take(i as int),
        decreases sorted.len() - i,
    {
        let ghost before = r.deep_view();
        r.push(sorted[i].clone());
        assert(r.deep_view() =~~= before.push(sorted@[i as int]@));
        assert(sorted.deep_view().take(i + 1) =~= sorted.deep_view().take(i as int).push(
            sorted@[i as int]@,
        ));
        assert(r.deep_view() =~= head + sorted.deep_view().take(i + 1));
        i = i + 1;
    }
    assert(sorted.deep_view().take(sorted.len() as int) =~= sorted.deep_view());
    assert(r.deep_view().take(5) =~= head);
    assert(r.deep_view().skip(5) =~= sorted.deep_view());
    proof {
        vstd::seq_lib::to_multiset_len(sorted.deep_view());
        vstd::seq_lib::to_multiset_len(managed.deep_view());
    }
    r
}

/// The fixed Windows locations: machine- and user-scope installers (winget too), Volta,
/// Chocolatey and Scoop, each as (environment variable, path under it).
pub open spec fn windows_location_table() -> Seq<(Seq<char>, Seq<char>)> {
    seq![
        ("ProgramFiles"@, "nodejs\\node.exe"@),
        ("ProgramFiles(x86)"@, "nodejs\\node.exe"@),
        ("LOCALAPPDATA"@, "Programs\\nodejs\\node.exe"@),
        ("LOCALAPPDATA"@, "Volta\\bin\\node.exe"@),
        ("ProgramData"@, "chocolatey\\bin\\node.exe"@),
        ("USERPROFILE"@, "scoop\\shims\\node.exe"@),
    ]
}

pub fn windows_location_vars() -> (r: Vec<(String, String)>)
    ensures
        r.deep_view() == windows_location_table(),
{
    let mut r: Vec<(String, String)> = Vec::new();
    r.push((String::from_str("ProgramFiles"), String::from_str("nodejs\\node.exe")));
    r.push((String::from_str("ProgramFiles(x86)"), String::from_str("nodejs\\node.exe")));
    r.push((String::from_str("LOCALAPPDATA"), String::from_str("Programs\\nodejs\\node.exe")));
    r.push((String::from_str("LOCALAPPDATA"), String::from_str("Volta\\bin\\node.exe")));
    r.push((String::from_str("ProgramData"), String::from_str("chocolatey\\bin\\node.exe")));
    r.push((String::from_str("USERPROFILE"), String::from_str("scoop\\shims\\node.exe")));
    assert(r.deep_view() =~~= windows_location_table());
    r
}

/// Windows version managers keep each release in its own directory: (environment
/// variable, directory under it, path from a version directory to the one holding
/// `node.exe`) for nvm-windows (two roots) and fnm.
pub open spec fn windows_manager_table() -> Seq<(Seq<char>, Seq<char>, Seq<char>)> {
    seq![
        ("APPDATA"@, "nvm"@, ""@),
        ("ProgramData"@, "nvm"@, ""@),
        ("LOCALAPPDATA"@, "fnm\\node-versions"@, "installation"@),
    ]
}

pub fn windows_version_managers() -> (r: Vec<(String, String, String)>)
    ensures
        r.deep_view() == windows_manager_table(),
{
    let mut r: Vec<(String, String, String)> = Vec::new();
    r.push((String::from_str("APPDATA"), String::from_str("nvm"), String::from_str("")));
    r.push((String::from_str("ProgramData"), String::from_str("nvm"), String::from_str("")));
    r.push(
        (
            String::from_str("LOCALAPPDATA"),
            String::from_str("fnm\\node-versions"),
            String::from_str("installation"),
        ),
    );
    assert(r.deep_view() =~~= windows_manager_table());
    r
}

/// The fixed Windows candidates: for each entry of the table whose variable is set and not
/// empty, `<value>\<path>`.
pub open spec fn windows_fixed(
    table: Seq<(Seq<char>, Seq<char>)>,
    vals: Seq<Option<Seq<char>>>,
) -> Seq<Seq<char>>
    decreases table.len(),
{
    if table.len() == 0 {
        seq![]
    } else {
        let k = table.len() - 1;
        let rest = windows_fixed(table.drop_last(), vals);
        let v = if k < vals.len() {
            vals[k]
        } else {
            None
        };
        match v {
            Some(base) => if base.len() > 0 {
                rest.push(base + seq!['\\'] + table[k].1)
            } else {
                rest
            },
            None => rest,
        }
    }
}

/// The value of the `k`-th variable, when it is set and not empty.
pub open spec fn set_value(vals: Seq<Option<Seq<char>>>, k: int) -> Option<Seq<char>> {
    if 0 <= k < vals.len() && (vals[k] matches Some(b) && b.len() > 0) {
        vals[k]
    } else {
        None
    }
}

/// How many of the first `n` variables are set and not empty.
pub open spec fn set_count(vals: Seq<Option<Seq<char>>>, n: nat) -> nat
    decreases n,
{
    if n == 0 {
        0
    } else {
        set_count(vals, (n - 1) as nat) + if set_value(vals, n - 1) is Some {
            1nat
        } else {
            0nat
        }
    }
}

proof fn lemma_set_count_grows(vals: Seq<Option<Seq<char>>>, k: nat, n: nat)
    requires
        k < n,
        set_value(vals, k as int) is Some,
    ensures
        set_count(vals, k) + 1 <= set_count(vals, n),
    decreases n,
{
    if k + 1 < n {
        lemma_set_count_grows(vals, k, (n - 1) as nat);
    }
}

/// Every entry of the table whose variable is set and not empty gives one candidate,
/// `<value>\<path>`, and nothing else does; they come in table order, so the candidate of
/// entry `k` stands after those of the set entries before it.
pub proof fn lemma_windows_fixed_complete(
    table: Seq<(Seq<char>, Seq<char>)>,
    vals: Seq<Option<Seq<char>>>,
)
    ensures
        windows_fixed(table, vals).len() == set_count(vals, table.len()),
        forall|k: int|
            0 <= k < table.len() && #[trigger] set_value(vals, k) is Some ==> windows_fixed(
                table,
                vals,
            )[set_count(vals, k as nat) as int] == set_value(vals, k)->0 + seq!['\\']
                + table[k].1,
    decreases table.len(),
{
    if table.len() > 0 {
        let t = table.drop_last();
        let n = t.len();
        lemma_windows_fixed_complete(t, vals);
        let rest = windows_fixed(t, vals);
        assert forall|k: int|
            0 <= k < table.len() && #[trigger] set_value(vals, k) is Some implies windows_fixed(
                table,
                vals,
            )[set_count(vals, k as nat) as int] == set_value(vals, k)->0 + seq!['\\']
                + table[k].1 by {
            if k < n {
                lemma_set_count_grows(vals, k as nat, n);
                assert(t[k] == table[k]);
            }
        }
    }
}


/// The fixed Windows locations, given the values of the table's variables in order.
pub fn windows_fixed_locations(vals: &Vec<Option<String>>) -> (r: Vec<String>)
    ensures
        r.deep_view() == windows_fixed(
            windows_location_table(),
            crate::registry::opt_views(vals@),
        ),
{
    let table = windows_location_vars();
    let ghost tv = table.deep_view();
    let ghost vv = crate::registry::opt_views(vals@);
    let mut r: Vec<String> = Vec::new();
    let mut i: usize = 0;
    assert(tv.take(0) =~= Seq::<(Seq<char>, Seq<char>)>::empty());
    while i < table.len()
        invariant
            i <= table.len(),
            tv == table.deep_view(),
            tv == windows_location_table(),
            vv == crate::registry::opt_views(vals@),
            r.deep_view() == windows_fixed(tv.take(i as int), vv),
        decreases table.len() - i,
    {
        assert(tv.take(i + 1).drop_last() =~= tv.take(i as int));
        assert(tv.take(i + 1)[i as int] == tv[i as int]);
        let ghost before = r.deep_view();
        assert(table@[i as int].1@ == tv[i as int].1);
        if i < vals.len() {
            assert(vv[i as int] == match vals@[i as int] {
                Some(x) => Some(x@),
                None => None::<Seq<char>>,
            });
            match &vals[i] {
                Some(base) => {
                    let bc = chars_of(base.as_str());
                    if bc.len() > 0 {
                        let mut p = base.clone();
                        crate::text::push_char(&mut p, '\\');
                        p.append(table[i].1.as_str());
                        r.push(p);
                        assert(r.deep_view() =~~= before.push(p@));
                    }
                },
                None => {},
            }
        }
        assert(r.deep_view() =~~= windows_fixed(tv.take(i + 1), vv));
        i = i + 1;
    }
    assert(tv.take(tv.len() as int) =~= tv);
    r
}

// ---------------------------------------------------------------------------
// The published checksum

/// The checksum published for `file` in a `SHASUMS256.txt` text: the first word of the
/// first line whose second word is `file`.
pub open spec fn checksum_in(lines: Seq<Seq<char>>, file: Seq<char>) -> Option<Seq<char>>
    decreases lines.len(),
{
    if lines.len() == 0 {
        None
    } else {
        let ws = words(lines[0]);
        if ws.len() > 1 && ws[1] == file {
            Some(ws[0])
        } else {
            checksum_in(lines.skip(1), file)
        }
    }
}

pub fn expected_checksum(sums: &str, file: &str) -> (r: Option<String>)
    ensures
        match r {
            Some(e) => checksum_in(lines_of(sums@), file@) == Some(e@),
            None => checksum_in(lines_of(sums@), file@) is None,
        },
{
    let sc = chars_of(sums);
    let fc = chars_of(file);
    let lines = split_lines(&sc);
    let ghost ls = lines.deep_view();
    let mut i: usize = 0;
    assert(ls.skip(0) =~= ls);
    while i < lines.len()
        invariant
            i <= lines.len(),
            ls == lines.deep_view(),
            ls == lines_of(sums@),
            fc@ == file@,
            checksum_in(ls.skip(i as int), file@) == checksum_in(ls, file@),
        decreases lines.len() - i,
    {
        assert(lines@[i as int]@ =~= ls[i as int]);
        assert(ls.skip(i as int)[0] == ls[i as int]);
        let ws = split_words(&lines[i]);
        if ws.len() > 1 {
            assert(ws@[1]@ =~= ws.deep_view()[1]);
            assert(ws@[0]@ =~= ws.deep_view()[0]);
            if crate::text::chars_equal(&ws[1], &fc) {
                return Some(string_of(ws[0].as_slice()));
            }
        }
        assert(ls.skip(i as int).skip(1) =~= ls.skip(i + 1));
        i = i + 1;
    }
    None
}

pub open spec fn no_checksum_text(file: Seq<char>) -> Seq<char> {
    "nodejs.org published no checksum for "@ + file
}

pub open spec fn checksum_mismatch_text(
    file: Seq<char>,
    expected: Seq<char>,
    actual: Seq<char>,
) -> Seq<char> {
    "checksum mismatch for "@ + file + " — refusing to use it\n  expected "@ + expected
        + "\n  actual   "@ + actual
}

/// The verdict on a download: `sums` is the published `SHASUMS256.txt`, `actual` the
/// archive's digest (or why it could not be computed; it is only looked at when a checksum
/// is published for `file`). Digests compare without regard to ASCII case.
pub open spec fn checksum_verdict(
    file: Seq<char>,
    sums: Seq<char>,
    actual: Result<Seq<char>, Seq<char>>,
) -> Result<(), Seq<char>> {
    match checksum_in(lines_of(sums), file) {
        None => Err(no_checksum_text(file)),
        Some(e) => match actual {
            Err(m) => Err(m),
            Ok(a) => if eq_ignore_ascii_case(a, e) {
                Ok(())
            } else {
                Err(checksum_mismatch_text(file, e, a))
            },
        },
    }
}

pub open spec fn result_view(r: Result<String, String>) -> Result<Seq<char>, Seq<char>> {
    match r {
        Ok(s) => Ok(s@),
        Err(e) => Err(e@),
    }
}

pub open spec fn unit_result_view(r: Result<(), String>) -> Result<(), Seq<char>> {
    match r {
        Ok(()) => Ok(()),
        Err(e) => Err(e@),
    }
}

/// Checks a download against the published checksum (this catches truncated or corrupted
/// transfers; HTTPS to nodejs.org is the trust anchor).
pub fn verify_sha256(file: &str, sums: &str, actual: &Result<String, String>) -> (r: Result<
    (),
    String,
>)
    ensures
        unit_result_view(r) == checksum_verdict(file@, sums@, result_view(*actual)),
{
    match expected_checksum(sums, file) {
        None => {
            let mut e = String::from_str("nodejs.org published no checksum for ");
            e.append(file);
            Err(e)
        },
        Some(expected) => match actual {
            Err(m) => Err(m.clone()),
            Ok(a) => {
                let ac = chars_of(a.as_str());
                let ec = chars_of(expected.as_str());
                if chars_eq_ignore_ascii_case(&ac, &ec) {
                    Ok(())
                } else {
                    let mut e = String::from_str("checksum mismatch for ");
                    e.append(file);
                    e.append(" — refusing to use it\n  expected ");
                    e.append(expected.as_str());
                    e.append("\n  actual   ");
                    e.append(a.as_str());
                    Err(e)
                }
            },
        },
    }
}

/// The Node.js that a package manager just installed: the one on the persisted `PATH`,
/// else the first known location that exists (without running it).
pub fn installed_node(persisted: Option<String>, known: &Vec<(String, bool)>) -> (r: Option<
    String,
>)
    ensures
        installed_choice(persisted, known@, r),
{
    if persisted.is_some() {
        return persisted;
    }
    let mut i: usize = 0;
    while i < known.len()
        invariant
            i <= known.len(),
            persisted is None,
            forall|j: int| 0 <= j < i ==> !known@[j].1,
        decreases known.len() - i,
    {
        if known[i].1 {
            return Some(known[i].0.clone());
        }
        i = i + 1;
    }
    None
}

} // verus!
