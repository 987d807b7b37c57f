//! What the installer writes for the browser to launch (the patched `index.js`, the Windows
//! launcher and the manifest), and how the uninstaller reads the Node.js path back.
use vstd::prelude::*;
use crate::json::{json_escape, json_escaped};
use crate::platform::Platform;
use crate::text::{
    append_chars, append_str, chars_of, copy_range, find_char_from,
    index_of, is_whitespace, lemma_index_of, lemma_index_of_unique, lemma_trim_start,
    lines_of, replace_all, replace_chars, split_char, split_lines, split_on, starts_with,
    starts_with_chars, string_of, strip_cr, trim, trim_range, trim_start,
    trim_start_from,
};

verus! {

/// What follows the first line of `s` (empty when `s` has no newline).
pub open spec fn after_first_line(s: Seq<char>) -> Seq<char> {
    let i = index_of(s, '\n');
    if i < s.len() {
        s.skip(i + 1)
    } else {
        seq![]
    }
}

/// `src` with its first line replaced by a `#!` line naming `node`.
pub open spec fn shebang_patched(src: Seq<char>, node: Seq<char>) -> Seq<char> {
    seq!['#', '!'] + node + seq!['\n'] + after_first_line(src)
}

/// Replaces the first line of a script with `#!<node>`, so that running it never depends
/// on the inherited `PATH`.
pub fn patch_shebang(src: &str, node: &str) -> (r: String)
    ensures
        r@ == shebang_patched(src@, node@),
{
    let sc = chars_of(src);
    let i = find_char_from(&sc, '\n', 0);
    assert(sc@.subrange(0, sc@.len() as int) =~= sc@);
    let mut out: Vec<char> = Vec::new();
    out.push('#');
    out.push('!');
    append_str(&mut out, node);
    out.push('\n');
    if i < sc.len() {
        let rest = copy_range(&sc, i + 1, sc.len());
        assert(rest@ =~= sc@.skip(i + 1));
        append_chars(&mut out, &rest);
    }
    assert(out@ =~= shebang_patched(src@, node@));
    string_of(out.as_slice())
}

pub open spec fn no_newline(s: Seq<char>) -> bool {
    forall|k: int| 0 <= k < s.len() ==> s[k] != '\n'
}

proof fn lemma_first_newline_of_patched(src: Seq<char>, node: Seq<char>)
    requires
        no_newline(node),
    ensures
        index_of(shebang_patched(src, node), '\n') == node.len() + 2int,
        shebang_patched(src, node).take(node.len() + 2int) == seq!['#', '!'] + node,
        shebang_patched(src, node).skip(node.len() + 3int) == after_first_line(src),
{
    let p = shebang_patched(src, node);
    assert forall|k: int| 0 <= k < node.len() + 2int implies p[k] != '\n' by {
        if k >= 2 {
            assert(p[k] == node[k - 2]);
        }
    }
    assert(p[node.len() + 2int] == '\n');
    lemma_index_of_unique(p, '\n', node.len() + 2int);
    assert(p.take(node.len() + 2int) =~= seq!['#', '!'] + node);
    assert(p.skip(node.len() + 3int) =~= after_first_line(src));
}

/// Patching an already patched script is the same as patching the original: only the last
/// node path counts (for node paths without a newline).
pub proof fn lemma_patch_shebang_twice(src: Seq<char>, a: Seq<char>, b: Seq<char>)
    requires
        no_newline(a),
    ensures
        shebang_patched(shebang_patched(src, a), b) == shebang_patched(src, b),
{
    lemma_first_newline_of_patched(src, a);
    let p = shebang_patched(src, a);
    assert(after_first_line(p) == after_first_line(src));
}

/// The Windows launcher: runs `index.js` (next to the launcher) with the given Node.js.
pub open spec fn launcher_text(node: Seq<char>) -> Seq<char> {
    "@echo off\r\n\""@ + node + "\" \"%~dp0index.js\" %*\r\n"@
}

/// The contents of `run_bridge.bat`.
pub fn launcher_script(node: &str) -> (r: String)
    ensures
        r@ == launcher_text(node@),
{
    let mut s = String::from_str("@echo off\r\n\"");
    s.append(node);
    s.append("\" \"%~dp0index.js\" %*\r\n");
    s
}

/// The contents of the installed `index.js`: the shipped script, with its `#!` line
/// pointing at `node` everywhere but on Windows (where the launcher names Node.js).
pub fn index_contents(platform: Platform, index_js: &str, node: &str) -> (r: String)
    ensures
        r@ == if platform == Platform::Windows {
            index_js@
        } else {
            shebang_patched(index_js@, node@)
        },
{
    if platform == Platform::Windows {
        String::from_str(index_js)
    } else {
        patch_shebang(index_js, node)
    }
}

/// The host manifest: the template with `HOST_PATH` replaced by the JSON-escaped path of
/// the program the browser launches.
pub fn manifest_for_host(template: &str, host_path: &str) -> (r: String)
    ensures
        r@ == replace_all(template@, "HOST_PATH"@, json_escaped(host_path@)),
{
    let tc = chars_of(template);
    let pc = chars_of("HOST_PATH");
    let escaped = json_escape(host_path);
    let ec = chars_of(escaped.as_str());
    proof {
        reveal_strlit("HOST_PATH");
    }
    let out = replace_chars(&tc, &pc, &ec);
    string_of(out.as_slice())
}

// ---------------------------------------------------------------------------
// Reading the Node.js path back out of what was installed

/// The Node.js path named by the first line of `lines` that, without its leading
/// whitespace, begins with a double quote: the text between its first two quotes.
pub open spec fn quoted_node(lines: Seq<Seq<char>>) -> Option<Seq<char>>
    decreases lines.len(),
{
    if lines.len() == 0 {
        None
    } else if starts_with(trim_start(lines[0]), seq!['"']) {
        Some(split_on(lines[0], '"')[1])
    } else {
        quoted_node(lines.skip(1))
    }
}

/// The Node.js path that the installed files name: on Windows the quoted program of the
/// launcher; elsewhere the trimmed rest of a `#!` first line of `index.js`.
pub open spec fn recorded_node_path(platform: Platform, contents: Seq<char>) -> Option<
    Seq<char>,
> {
    if platform == Platform::Windows {
        quoted_node(lines_of(contents))
    } else {
        let ls = lines_of(contents);
        if ls.len() > 0 && starts_with(ls[0], seq!['#', '!']) {
            Some(trim(ls[0].skip(2)))
        } else {
            None
        }
    }
}

proof fn lemma_split_on_nonempty(s: Seq<char>, c: char)
    ensures
        split_on(s, c).len() >= 1,
        index_of(s, c) < s.len() ==> split_on(s, c).len() >= 2,
{
    lemma_index_of(s, c);
    let i = index_of(s, c);
    if i < s.len() {
        lemma_index_of(s.skip(i + 1), c);
        let t = s.skip(i + 1);
        let j = index_of(t, c);
        if j < t.len() {
            assert(split_on(t, c).len() >= 1);
        }
    }
}

/// The program path recorded by the installer in `contents` (`run_bridge.bat` on Windows,
/// `index.js` elsewhere), if any.
pub fn recorded_node(platform: Platform, contents: &str) -> (r: Option<String>)
    ensures
        match r {
            Some(p) => recorded_node_path(platform, contents@) == Some(p@),
            None => recorded_node_path(platform, contents@) is None,
        },
{
    let cc = chars_of(contents);
    let lines = split_lines(&cc);
    let ghost ls = lines.deep_view();
    if platform == Platform::Windows {
        let mut i: usize = 0;
        assert(ls.skip(0) =~= ls);
        while i < lines.len()
            invariant
                i <= lines.len(),
                platform == Platform::Windows,
                ls == lines.deep_view(),
                ls == lines_of(contents@),
                quoted_node(ls.skip(i as int)) == quoted_node(ls),
            decreases lines.len() - i,
        {
            let l = &lines[i];
            assert(l@ =~= ls[i as int]);
            assert(ls.skip(i as int)[0] == ls[i as int]);
            let a = trim_start_from(l, 0, l.len());
            assert(l@.subrange(0, l@.len() as int) =~= l@);
            if a < l.len() && l[a] == '"' {
                proof {
                    let ts = trim_start(l@);
                    assert(ts[0] == '"');
                    assert(ts.subrange(0, 1) =~= seq!['"']);
                    lemma_index_of(l@, '"');
                    if index_of(l@, '"') > a {
                        assert(l@[a as int] == '"');
                    }
                    lemma_split_on_nonempty(l@, '"');
                }
                let pieces = split_char(l, '"');
                assert(pieces@[1]@ =~= split_on(l@, '"')[1]);
                assert(starts_with(trim_start(ls.skip(i as int)[0]), seq!['"']));
                assert(quoted_node(ls.skip(i as int)) == Some(split_on(l@, '"')[1]));
                let p = string_of(pieces[1].as_slice());
                return Some(p);
            }
            proof {
                let ts = trim_start(l@);
                if starts_with(ts, seq!['"']) {
                    assert(ts[0] == seq!['"'][0]);
                }
            }
            assert(ls.skip(i as int).skip(1) =~= ls.skip(i + 1));
            i = i + 1;
        }
        None
    } else {
        if lines.len() == 0 {
            return None;
        }
        let first = &lines[0];
        assert(first@ =~= ls[0]);
        let mut hb: Vec<char> = Vec::new();
        hb.push('#');
        hb.push('!');
        assert(hb@ =~= seq!['#', '!']);
        if !starts_with_chars(first, &hb) {
            return None;
        }
        let (a, b) = trim_range(first, 2, first.len());
        assert(first@.subrange(2, first@.len() as int) =~= first@.skip(2));
        let v = copy_range(first, a, b);
        Some(string_of(v.as_slice()))
    }
}

proof fn lemma_trim_start_drop_last(x: Seq<char>)
    requires
        x.len() > 0,
    ensures
        trim_start(x.drop_last()) == if trim_start(x).len() > 0 {
            trim_start(x).drop_last()
        } else {
            Seq::<char>::empty()
        },
    decreases x.len(),
{
    if is_whitespace(x[0]) {
        if x.len() == 1 {
            assert(x.drop_last() =~= Seq::<char>::empty());
            assert(x.skip(1) =~= Seq::<char>::empty());
        } else {
            lemma_trim_start_drop_last(x.skip(1));
            assert(x.drop_last()[0] == x[0]);
            assert(x.drop_last().skip(1) =~= x.skip(1).drop_last());
        }
    } else {
        if x.len() == 1 {
            assert(x.drop_last() =~= Seq::<char>::empty());
        } else {
            assert(x.drop_last()[0] == x[0]);
        }
    }
}

/// Trimming ignores one trailing whitespace character.
proof fn lemma_trim_drop_trailing_ws(x: Seq<char>)
    requires
        x.len() > 0,
        is_whitespace(x.last()),
    ensures
        trim(x.drop_last()) == trim(x),
{
    lemma_trim_start_drop_last(x);
    lemma_trim_start(x);
    let t = trim_start(x);
    if t.len() > 0 {
        assert(t.last() == x.last());
    }
}

/// What the installer writes as the `#!` line of `index.js` is what the uninstaller reads
/// back as the recorded Node.js (trimmed, as it reads it), for every node path without a
/// newline, on every platform but Windows.
pub proof fn lemma_shebang_read_back(platform: Platform, src: Seq<char>, node: Seq<char>)
    requires
        platform != Platform::Windows,
        no_newline(node),
    ensures
        recorded_node_path(platform, shebang_patched(src, node)) == Some(trim(node)),
{
    lemma_first_newline_of_patched(src, node);
    let p = shebang_patched(src, node);
    let n = node.len() as int;
    let first = strip_cr(p.take(n + 2));
    assert(lines_of(p)[0] == first);
    if n > 0 && node.last() == '\r' {
        assert(first =~= seq!['#', '!'] + node.drop_last());
        assert(first.skip(2) =~= node.drop_last());
        lemma_trim_drop_trailing_ws(node);
    } else {
        assert(first =~= seq!['#', '!'] + node);
        assert(first.skip(2) =~= node);
    }
    assert(first.subrange(0, 2) =~= seq!['#', '!']);
}

/// What the installer writes into the Windows launcher is what the uninstaller reads back
/// as the recorded Node.js, for every node path without a newline or a double quote.
pub proof fn lemma_launcher_read_back(node: Seq<char>)
    requires
        no_newline(node),
        forall|k: int| 0 <= k < node.len() ==> node[k] != '"',
    ensures
        recorded_node_path(Platform::Windows, launcher_text(node)) == Some(node),
{
    reveal_strlit("@echo off\r\n\"");
    reveal_strlit("\" \"%~dp0index.js\" %*\r\n");
    let a = "@echo off\r\n\""@;
    let b = "\" \"%~dp0index.js\" %*\r\n"@;
    let l = launcher_text(node);
    assert(a.len() == 12);
    assert(b.len() == 22);
    let n = node.len() as int;
    // The first line is `@echo off`.
    assert forall|k: int| 0 <= k < 10 implies l[k] != '\n' by {
        assert(l[k] == a[k]);
    }
    assert(l[10] == a[10]);
    lemma_index_of_unique(l, '\n', 10);
    let first = strip_cr(l.take(10));
    assert(l.take(10).last() == '\r');
    assert(first =~= seq!['@', 'e', 'c', 'h', 'o', ' ', 'o', 'f', 'f']);
    assert(trim_start(first) == first);
    assert(!starts_with(trim_start(first), seq!['"'])) by {
        if starts_with(first, seq!['"']) {
            assert(first.subrange(0, 1)[0] == seq!['"'][0]);
        }
    }
    // The second line quotes the node path.
    let m = l.skip(11);
    assert(m =~= seq!['"'] + node + b);
    let ml = m.len() as int;
    assert forall|k: int| 0 <= k < ml - 1 implies m[k] != '\n' by {
        if k >= 1 + n {
            assert(m[k] == b[k - 1 - n]);
        } else if k >= 1 {
            assert(m[k] == node[k - 1]);
        }
    }
    assert(m[ml - 1] == b[21]);
    lemma_index_of_unique(m, '\n', ml - 1);
    assert(m.skip(ml) =~= Seq::<char>::empty());
    assert(lines_of(m.skip(ml)) =~= Seq::<Seq<char>>::empty());
    let second = strip_cr(m.take(ml - 1));
    assert(m.take(ml - 1).last() == b[20]);
    assert(lines_of(m) =~= seq![second]);
    assert(lines_of(l) =~= seq![first] + lines_of(m));
    assert(second[0] == '"');
    assert(trim_start(second) == second);
    assert(second.subrange(0, 1) =~= seq!['"']);
    lemma_index_of_unique(second, '"', 0);
    let rest = second.skip(1);
    assert forall|k: int| 0 <= k < n implies rest[k] != '"' by {
        assert(rest[k] == node[k]);
    }
    assert(rest[n] == b[0]);
    lemma_index_of_unique(rest, '"', n);
    assert(second.take(0) =~= Seq::<char>::empty());
    assert(rest.take(n) =~= node);
    lemma_split_on_nonempty(rest.skip(n + 1), '"');
    assert(split_on(rest, '"')[0] == node);
    assert(split_on(second, '"')[1] == node);
    assert(lines_of(l).skip(1) =~= seq![second]);
    assert(quoted_node(seq![second]) == Some(node));
}

} // verus!
