//! Reading Windows settings: values printed by `reg query`, `%VAR%` expansion of
//! `REG_EXPAND_SZ` values, and the directories of a persisted `PATH`.
use vstd::prelude::*;
use crate::paths::{join_win, join_windows};
use crate::text::{
    chars_of, copy_range, find_char_from, find_from, first_from, index_of, lemma_first_from,
    lemma_index_of, lines_of, occurs_at, split_char, split_lines, split_on, string_of, trim,
    trim_range,
};

verus! {

// ---------------------------------------------------------------------------
// `%VAR%` expansion

/// The variable names referenced as `%NAME%` in `s`, in the order expansion meets them.
pub open spec fn env_refs(s: Seq<char>) -> Seq<Seq<char>>
    decreases s.len(),
{
    let open = index_of(s, '%');
    if open >= s.len() {
        seq![]
    } else {
        proof {
            lemma_index_of(s, '%');
        }
        let after = s.skip(open + 1);
        let close = index_of(after, '%');
        if close >= after.len() {
            seq![]
        } else {
            proof {
                lemma_index_of(after, '%');
            }
            seq![after.take(close)] + env_refs(after.skip(close + 1))
        }
    }
}

/// `s` with its `k`-th `%NAME%` reference replaced by `vals[k]`; a reference whose value is
/// `None` (an unknown variable) stays verbatim, and so does a `%` without a closing one.
pub open spec fn expanded(s: Seq<char>, vals: Seq<Option<Seq<char>>>) -> Seq<char>
    decreases s.len(),
{
    let open = index_of(s, '%');
    if open >= s.len() {
        s
    } else {
        proof {
            lemma_index_of(s, '%');
        }
        let after = s.skip(open + 1);
        let close = index_of(after, '%');
        if close >= after.len() {
            s
        } else {
            proof {
                lemma_index_of(after, '%');
            }
            let name = after.take(close);
            let v = if vals.len() > 0 {
                vals[0]
            } else {
                None
            };
            let sub = match v {
                Some(x) => x,
                None => seq!['%'] + name + seq!['%'],
            };
            s.take(open) + sub + expanded(
                after.skip(close + 1),
                if vals.len() > 0 {
                    vals.skip(1)
                } else {
                    vals
                },
            )
        }
    }
}

pub open spec fn opt_views(v: Seq<Option<String>>) -> Seq<Option<Seq<char>>> {
    v.map_values(|o: Option<String>| match o {
        Some(s) => Some(s@),
        None => None,
    })
}

/// One step of the scan: the next reference at or after `pos`, as (`%` index, closing `%`
/// index), if any.
fn next_reference(sc: &Vec<char>, pos: usize) -> (r: Option<(usize, usize)>)
    requires
        pos <= sc.len(),
    ensures
        ({
            let t = sc@.subrange(pos as int, sc.len() as int);
            let open = index_of(t, '%');
            let after = t.skip(open + 1);
            match r {
                Some((o, c)) => open < t.len() && index_of(after, '%') < after.len() && o == pos
                    + open && c == o + 1 + index_of(after, '%') && pos <= o < c < sc.len()
                    && after == sc@.subrange(o + 1, sc.len() as int) && 0 <= index_of(after, '%'),
                None => open >= t.len() || index_of(after, '%') >= after.len(),
            }
        }),
{
    let o = find_char_from(sc, '%', pos);
    if o >= sc.len() {
        return None;
    }
    let c = find_char_from(sc, '%', o + 1);
    proof {
        let t = sc@.subrange(pos as int, sc.len() as int);
        lemma_index_of(t, '%');
        assert(t.skip(index_of(t, '%') + 1) =~= sc@.subrange(o + 1, sc.len() as int));
    }
    if c >= sc.len() {
        return None;
    }
    Some((o, c))
}

/// The names of the `%NAME%` references in `s`, so that their values can be looked up.
pub fn env_references(s: &str) -> (names: Vec<String>)
    ensures
        names.deep_view() == env_refs(s@),
{
    let sc = chars_of(s);
    let mut names: Vec<String> = Vec::new();
    let mut pos: usize = 0;
    assert(sc@.subrange(0, sc@.len() as int) =~= sc@);
    loop
        invariant
            pos <= sc.len(),
            sc@ == s@,
            names.deep_view() + env_refs(sc@.subrange(pos as int, sc.len() as int)) == env_refs(
                s@,
            ),
        decreases sc.len() - pos,
    {
        let ghost t = sc@.subrange(pos as int, sc.len() as int);
        match next_reference(&sc, pos) {
            None => {
                assert(env_refs(t) =~= Seq::<Seq<char>>::empty());
                return names;
            },
            Some((o, c)) => {
                let name = copy_range(&sc, o + 1, c);
                proof {
                    let after = t.skip(index_of(t, '%') + 1);
                    assert(after.take(index_of(after, '%')) =~= name@);
                    assert(after.skip(index_of(after, '%') + 1) =~= sc@.subrange(
                        c + 1,
                        sc.len() as int,
                    ));
                }
                let ns = string_of(name.as_slice());
                let ghost before = names.deep_view();
                names.push(ns);
                assert(names.deep_view() =~~= before.push(name@));
                pos = c + 1;
            },
        }
    }
}

/// Expands `%NAME%` references in `s` with the looked-up values `vals`, one per reference
/// in order (`env_references`); `None` marks an unknown variable, left verbatim.
pub fn expand_env(s: &str, vals: &Vec<Option<String>>) -> (r: String)
    ensures
        r@ == expanded(s@, opt_views(vals@)),
{
    let sc = chars_of(s);
    let ghost vv = opt_views(vals@);
    let mut out: Vec<char> = Vec::new();
    let mut pos: usize = 0;
    let mut k: usize = 0;
    assert(sc@.subrange(0, sc@.len() as int) =~= sc@);
    assert(vv.skip(0) =~= vv);
    loop
        invariant
            pos <= sc.len(),
            k <= vals.len(),
            sc@ == s@,
            vv == opt_views(vals@),
            out@ + expanded(sc@.subrange(pos as int, sc.len() as int), vv.skip(k as int))
                == expanded(s@, vv),
        decreases sc.len() - pos,
    {
        let ghost t = sc@.subrange(pos as int, sc.len() as int);
        match next_reference(&sc, pos) {
            None => {
                let tail = copy_range(&sc, pos, sc.len());
                let ghost o0 = out@;
                crate::text::append_chars(&mut out, &tail);
                assert(expanded(t, vv.skip(k as int)) == t);
                return string_of(out.as_slice());
            },
            Some((o, c)) => {
                let ghost rest_vals = vv.skip(k as int);
                let ghost o0 = out@;
                let before = copy_range(&sc, pos, o);
                crate::text::append_chars(&mut out, &before);
                let mut used = false;
                if k < vals.len() {
                    match &vals[k] {
                        Some(v) => {
                            let vc = chars_of(v.as_str());
                            crate::text::append_chars(&mut out, &vc);
                            used = true;
                        },
                        None => {},
                    }
                }
                if !used {
                    let name = copy_range(&sc, o + 1, c);
                    out.push('%');
                    crate::text::append_chars(&mut out, &name);
                    out.push('%');
                }
                proof {
                    let open = index_of(t, '%');
                    let after = t.skip(open + 1);
                    let close = index_of(after, '%');
                    assert(t.take(open) =~= before@);
                    assert(after.take(close) =~= sc@.subrange(o + 1, c as int));
                    assert(after.skip(close + 1) =~= sc@.subrange(c + 1, sc.len() as int));
                    if k < vals.len() {
                        assert(rest_vals[0] == vv[k as int]);
                        assert(rest_vals.skip(1) =~= vv.skip(k + 1));
                    } else {
                        assert(rest_vals.len() == 0);
                    }
                    assert(out@ =~= o0 + (t.take(open) + (match (if rest_vals.len() > 0 {
                        rest_vals[0]
                    } else {
                        None
                    }) {
                        Some(x) => x,
                        None => seq!['%'] + after.take(close) + seq!['%'],
                    })));
                }
                if k < vals.len() {
                    k = k + 1;
                }
                pos = c + 1;
            },
        }
    }
}

/// Unknown variables are left verbatim: when no reference has a value, expansion changes
/// nothing.
pub proof fn lemma_expand_unknown_is_identity(s: Seq<char>, vals: Seq<Option<Seq<char>>>)
    requires
        forall|k: int| 0 <= k < vals.len() ==> vals[k] is None,
    ensures
        expanded(s, vals) == s,
    decreases s.len(),
{
    let open = index_of(s, '%');
    if open < s.len() {
        lemma_index_of(s, '%');
        let after = s.skip(open + 1);
        let close = index_of(after, '%');
        if close < after.len() {
            lemma_index_of(after, '%');
            let rest = if vals.len() > 0 {
                vals.skip(1)
            } else {
                vals
            };
            assert forall|k: int| 0 <= k < rest.len() implies rest[k] is None by {
                if vals.len() > 0 {
                    assert(rest[k] == vals[k + 1]);
                }
            }
            lemma_expand_unknown_is_identity(after.skip(close + 1), rest);
            assert(s =~= s.take(open) + (seq!['%'] + after.take(close) + seq!['%']) + after.skip(
                close + 1,
            ));
        }
    }
}

// ---------------------------------------------------------------------------
// The persisted `PATH`

/// The trimmed, non-empty pieces of `ps`, in order.
pub open spec fn trimmed_nonempty(ps: Seq<Seq<char>>) -> Seq<Seq<char>>
    decreases ps.len(),
{
    if ps.len() == 0 {
        seq![]
    } else {
        let t = trim(ps.last());
        trimmed_nonempty(ps.drop_last()) + if t.len() > 0 {
            seq![t]
        } else {
            seq![]
        }
    }
}

/// The directories listed in `;`-separated `PATH` values, trimmed, empty ones dropped.
pub open spec fn path_dirs(values: Seq<Seq<char>>) -> Seq<Seq<char>>
    decreases values.len(),
{
    if values.len() == 0 {
        seq![]
    } else {
        path_dirs(values.drop_last()) + trimmed_nonempty(split_on(values.last(), ';'))
    }
}

/// The directories of the (already expanded) persisted `PATH` values, in order.
pub fn persisted_path_dirs(values: &Vec<String>) -> (dirs: Vec<String>)
    ensures
        dirs.deep_view() == path_dirs(values.deep_view()),
{
    let mut dirs: Vec<String> = Vec::new();
    let ghost vs = values.deep_view();
    let mut i: usize = 0;
    assert(vs.take(0) =~= Seq::<Seq<char>>::empty());
    while i < values.len()
        invariant
            i <= values.len(),
            vs == values.deep_view(),
            dirs.deep_view() == path_dirs(vs.take(i as int)),
        decreases values.len() - i,
    {
        let vc = chars_of(values[i].as_str());
        let pieces = split_char(&vc, ';');
        let ghost ps = pieces.deep_view();
        let ghost d0 = dirs.deep_view();
        let mut j: usize = 0;
        assert(ps.take(0) =~= Seq::<Seq<char>>::empty());
        while j < pieces.len()
            invariant
                j <= pieces.len(),
                ps == pieces.deep_view(),
                dirs.deep_view() == d0 + trimmed_nonempty(ps.take(j as int)),
            decreases pieces.len() - j,
        {
            let p = &pieces[j];
            let (a, b) = trim_range(p, 0, p.len());
            assert(p@.subrange(0, p@.len() as int) =~= p@);
            assert(p@ =~= ps[j as int]);
            assert(ps.take(j + 1).drop_last() =~= ps.take(j as int));
            assert(ps.take(j + 1).last() == ps[j as int]);
            if a < b {
                let t = copy_range(p, a, b);
                let ghost before = dirs.deep_view();
                dirs.push(string_of(t.as_slice()));
                assert(dirs.deep_view() =~~= before.push(t@));
                assert(dirs.deep_view() =~= d0 + trimmed_nonempty(ps.take(j + 1)));
            } else {
                assert(dirs.deep_view() =~= d0 + trimmed_nonempty(ps.take(j + 1)));
            }
            j = j + 1;
        }
        assert(ps.take(ps.len() as int) =~= ps);
        assert(vs.take(i + 1).drop_last() =~= vs.take(i as int));
        assert(vs.take(i + 1).last() == vs[i as int]);
        assert(vc@ == vs[i as int]);
        i = i + 1;
    }
    assert(vs.take(vs.len() as int) =~= vs);
    dirs
}

/// Where `node.exe` would be in the directory `d`.
pub open spec fn node_exe_in(d: Seq<char>) -> Seq<char> {
    join_windows(d, "node.exe"@)
}

/// `present` answered that the `node.exe` of directory `d` is not there.
pub open spec fn no_node_in<F: Fn(&String) -> bool>(present: F, d: Seq<char>) -> bool {
    exists|q: String| q@ == node_exe_in(d) && call_ensures(present, (&q,), false)
}

/// A `node.exe` from the persisted `PATH`: `<d>\node.exe` for the first of `dirs` in
/// which `present` finds that file.
pub fn node_from_persisted_path<F: Fn(&String) -> bool>(dirs: &Vec<String>, present: F) -> (r:
    Option<String>)
    requires
        forall|p: &String| call_requires(present, (p,)),
    ensures
        match r {
            Some(p) => exists|i: int|
                0 <= i < dirs.len() && p@ == node_exe_in(dirs@[i]@) && call_ensures(
                    present,
                    (&p,),
                    true,
                ) && forall|j: int| 0 <= j < i ==> #[trigger] no_node_in(present, dirs@[j]@),
            None => forall|j: int| 0 <= j < dirs.len() ==> #[trigger] no_node_in(present, dirs@[j]@),
        },
{
    let mut i: usize = 0;
    while i < dirs.len()
        invariant
            i <= dirs.len(),
            forall|p: &String| call_requires(present, (p,)),
            forall|j: int| 0 <= j < i ==> #[trigger] no_node_in(present, dirs@[j]@),
        decreases dirs.len() - i,
    {
        let candidate = join_win(dirs[i].as_str(), "node.exe");
        if present(&candidate) {
            return Some(candidate);
        }
        assert(no_node_in(present, dirs@[i as int]@));
        i = i + 1;
    }
    None
}

// ---------------------------------------------------------------------------
// `reg query` output

/// The trimmed text after the first occurrence of `ty` in `line`, when not empty.
pub open spec fn value_after(line: Seq<char>, ty: Seq<char>) -> Option<Seq<char>> {
    match first_from(line, ty, 0) {
        Some(i) => {
            let v = trim(line.skip(i + ty.len()));
            if v.len() > 0 {
                Some(v)
            } else {
                None
            }
        },
        None => None,
    }
}

/// The value on one line of `reg query` output, looking for the value types in turn.
pub open spec fn line_value(line: Seq<char>) -> Option<Seq<char>> {
    match value_after(line, "REG_EXPAND_SZ"@) {
        Some(v) => Some(v),
        None => match value_after(line, "REG_MULTI_SZ"@) {
            Some(v) => Some(v),
            None => value_after(line, "REG_SZ"@),
        },
    }
}

pub open spec fn first_line_value(lines: Seq<Seq<char>>) -> Option<Seq<char>>
    decreases lines.len(),
{
    if lines.len() == 0 {
        None
    } else {
        match line_value(lines[0]) {
            Some(v) => Some(v),
            None => first_line_value(lines.skip(1)),
        }
    }
}

fn value_after_exec(line: &Vec<char>, ty: &Vec<char>) -> (r: Option<Vec<char>>)
    ensures
        match r {
            Some(v) => value_after(line@, ty@) == Some(v@),
            None => value_after(line@, ty@) is None,
        },
{
    match find_from(line, ty, 0) {
        None => None,
        Some(i) => {
            proof {
                lemma_first_from(line@, ty@, 0);
                assert(occurs_at(line@, ty@, i as int));
            }
            let ll = line.len();
            let tl = ty.len();
            assert(i + tl <= ll);
            let (a, b) = trim_range(line, i + tl, ll);
            assert(line@.subrange(i + tl, ll as int) =~= line@.skip(i + ty@.len()));
            if a < b {
                Some(copy_range(line, a, b))
            } else {
                None
            }
        },
    }
}

/// The value printed by `reg query` (the text after its type on the first line that has
/// one), or `None`.
pub fn parse_reg_value(text: &str) -> (r: Option<String>)
    ensures
        match r {
            Some(v) => first_line_value(lines_of(text@)) == Some(v@),
            None => first_line_value(lines_of(text@)) is None,
        },
{
    let tc = chars_of(text);
    let lines = split_lines(&tc);
    let ghost ls = lines.deep_view();
    let t1 = chars_of("REG_EXPAND_SZ");
    let t2 = chars_of("REG_MULTI_SZ");
    let t3 = chars_of("REG_SZ");
    let mut i: usize = 0;
    assert(ls.skip(0) =~= ls);
    while i < lines.len()
        invariant
            i <= lines.len(),
            ls == lines.deep_view(),
            ls == lines_of(text@),
            t1@ == "REG_EXPAND_SZ"@,
            t2@ == "REG_MULTI_SZ"@,
            t3@ == "REG_SZ"@,
            first_line_value(ls.skip(i as int)) == first_line_value(ls),
        decreases lines.len() - i,
    {
        let l = &lines[i];
        assert(l@ =~= ls[i as int]);
        assert(ls.skip(i as int)[0] == ls[i as int]);
        match value_after_exec(l, &t1) {
            Some(v) => {
                return Some(string_of(v.as_slice()));
            },
            None => {},
        }
        match value_after_exec(l, &t2) {
            Some(v) => {
                return Some(string_of(v.as_slice()));
            },
            None => {},
        }
        match value_after_exec(l, &t3) {
            Some(v) => {
                return Some(string_of(v.as_slice()));
            },
            None => {},
        }
        assert(ls.skip(i as int).skip(1) =~= ls.skip(i + 1));
        i = i + 1;
    }
    None
}

} // verus!
