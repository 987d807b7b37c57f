//! The installer's small JSON needs: escaping a path into a manifest, and reading
//! release records out of nodejs.org's `index.json` without a JSON parser.
use vstd::prelude::*;
use crate::text::{
    append_chars, chars_of, occurs_at, contains, contains_chars, copy_range, find_char_from, find_from, first_from,
    index_of, split_char, split_on, string_of,
};

verus! {

/// How one character is written inside a JSON string by `json_escape`.
pub open spec fn escape_char(c: char) -> Seq<char> {
    if c == '\\' {
        seq!['\\', '\\']
    } else if c == '"' {
        seq!['\\', '"']
    } else {
        seq![c]
    }
}

/// `s` with every backslash and double quote escaped by a backslash.
pub open spec fn json_escaped(s: Seq<char>) -> Seq<char>
    decreases s.len(),
{
    if s.len() == 0 {
        seq![]
    } else {
        json_escaped(s.drop_last()) + escape_char(s.last())
    }
}

/// Escapes backslashes and double quotes so that `s` can stand inside a JSON string
/// (enough for the filesystem paths written into the host manifest).
pub fn json_escape(s: &str) -> (r: String)
    ensures
        r@ == json_escaped(s@),
{
    let cs = chars_of(s);
    let mut out: Vec<char> = Vec::new();
    let mut i: usize = 0;
    while i < cs.len()
        invariant
            i <= cs.len(),
            cs@ == s@,
            out@ == json_escaped(cs@.take(i as int)),
        decreases cs.len() - i,
    {
        let c = cs[i];
        if c == '\\' {
            out.push('\\');
            out.push('\\');
        } else if c == '"' {
            out.push('\\');
            out.push('"');
        } else {
            out.push(c);
        }
        assert(cs@.take(i + 1).drop_last() =~= cs@.take(i as int));
        i = i + 1;
        assert(out@ =~= json_escaped(cs@.take(i as int)));
    }
    assert(cs@.take(cs@.len() as int) =~= cs@);
    string_of(out.as_slice())
}

/// Decodes the body of a JSON string (what stands between its quotes), for the escapes
/// `\\`, `\"`, `\/`, `\b`, `\f`, `\n`, `\r` and `\t`. `None` where the body is not valid
/// JSON: a raw double quote, a raw control character, a lone or unknown escape. `\u`
/// escapes are outside this model and also give `None`.
pub open spec fn json_decoded(x: Seq<char>) -> Option<Seq<char>>
    decreases x.len(),
{
    if x.len() == 0 {
        Some(seq![])
    } else if x[0] == '\\' {
        if x.len() < 2 {
            None
        } else {
            let e = x[1];
            let d = if e == '\\' || e == '"' || e == '/' {
                Some(e)
            } else if e == 'b' {
                Some('\u{8}')
            } else if e == 'f' {
                Some('\u{c}')
            } else if e == 'n' {
                Some('\n')
            } else if e == 'r' {
                Some('\r')
            } else if e == 't' {
                Some('\t')
            } else {
                None
            };
            match (d, json_decoded(x.skip(2))) {
                (Some(c), Some(rest)) => Some(seq![c] + rest),
                _ => None,
            }
        }
    } else if x[0] == '"' || (x[0] as u32) < 0x20 {
        None
    } else {
        match json_decoded(x.skip(1)) {
            Some(rest) => Some(seq![x[0]] + rest),
            None => None,
        }
    }
}

/// Escaping distributes over concatenation.
pub proof fn lemma_json_escaped_append(a: Seq<char>, b: Seq<char>)
    ensures
        json_escaped(a + b) == json_escaped(a) + json_escaped(b),
    decreases b.len(),
{
    if b.len() == 0 {
        assert(a + b =~= a);
        assert(json_escaped(a) + json_escaped(b) =~= json_escaped(a));
    } else {
        lemma_json_escaped_append(a, b.drop_last());
        assert((a + b).drop_last() =~= a + b.drop_last());
        assert(json_escaped(a) + json_escaped(b) =~= json_escaped(a) + json_escaped(b.drop_last())
            + escape_char(b.last()));
    }
}

/// What `json_escape` writes, a JSON reader reads back unchanged, for every text without
/// control characters (those the escaping leaves raw, which JSON does not allow).
pub proof fn lemma_json_escape_roundtrip(s: Seq<char>)
    requires
        forall|i: int| 0 <= i < s.len() ==> (s[i] as u32) >= 0x20,
    ensures
        json_decoded(json_escaped(s)) == Some(s),
    decreases s.len(),
{
    if s.len() > 0 {
        let rest = s.skip(1);
        assert(s =~= seq![s[0]] + rest);
        lemma_json_escaped_append(seq![s[0]], rest);
        let e = seq![s[0]];
        assert(e.drop_last() =~= Seq::<char>::empty());
        assert(json_escaped(e.drop_last()) =~= Seq::<char>::empty());
        assert(json_escaped(e) =~= escape_char(s[0]));
        lemma_json_escape_roundtrip(rest);
        let x = json_escaped(s);
        assert(x =~= escape_char(s[0]) + json_escaped(rest));
        if s[0] == '\\' || s[0] == '"' {
            assert(x.skip(2) =~= json_escaped(rest));
        } else {
            assert(x.skip(1) =~= json_escaped(rest));
        }
        assert(seq![s[0]] + rest =~= s);
    } else {
        assert(json_escaped(s) =~= Seq::<char>::empty());
    }
}

/// The text `"key":"` that introduces a string field.
pub open spec fn field_pattern(key: Seq<char>) -> Seq<char> {
    seq!['"'] + key + seq!['"', ':', '"']
}

/// The value of the first string field named `key` in `record`: the text after the first
/// `"key":"` up to the next double quote. `None` when the field or its closing quote is
/// missing.
pub open spec fn json_field(record: Seq<char>, key: Seq<char>) -> Option<Seq<char>> {
    let pat = field_pattern(key);
    match first_from(record, pat, 0) {
        Some(i) => {
            let rest = record.skip(i + pat.len());
            let e = index_of(rest, '"');
            if e < rest.len() {
                Some(rest.take(e))
            } else {
                None
            }
        },
        None => None,
    }
}

/// `json_field` over characters.
pub fn field_value(record: &Vec<char>, key: &Vec<char>) -> (r: Option<Vec<char>>)
    ensures
        match r {
            Some(v) => json_field(record@, key@) == Some(v@),
            None => json_field(record@, key@) is None,
        },
{
    let mut pat: Vec<char> = Vec::new();
    pat.push('"');
    append_chars(&mut pat, key);
    pat.push('"');
    pat.push(':');
    pat.push('"');
    assert(pat@ =~= field_pattern(key@));
    match find_from(record, &pat, 0) {
        None => None,
        Some(i) => {
            proof {
                crate::text::lemma_first_from(record@, pat@, 0);
                assert(occurs_at(record@, pat@, i as int));
                assert(i + pat@.len() <= record@.len());
            }
            let rlen = record.len();
            let plen = pat.len();
            assert(i + plen <= rlen);
            let start = i + plen;
            let end = find_char_from(record, '"', start);
            proof {
                assert(record@.subrange(start as int, record@.len() as int) =~= record@.skip(
                    start as int,
                ));
            }
            if end < record.len() {
                let v = copy_range(record, start, end);
                assert(v@ =~= record@.skip(start as int).take(end - start));
                Some(v)
            } else {
                None
            }
        },
    }
}

/// Reads the string field `key` out of one flat JSON object's text.
pub fn json_string_field(record: &str, key: &str) -> (r: Option<String>)
    ensures
        match r {
            Some(v) => json_field(record@, key@) == Some(v@),
            None => json_field(record@, key@) is None,
        },
{
    let rc = chars_of(record);
    let kc = chars_of(key);
    match field_value(&rc, &kc) {
        Some(v) => Some(string_of(v.as_slice())),
        None => None,
    }
}

pub open spec fn is_ascii_digit(c: char) -> bool {
    '0' as u32 <= c as u32 <= '9' as u32
}

/// A release name fit to go into a download URL: `v` followed by digits and dots, at most
/// sixteen characters. (All such characters are ASCII, so this bound is also the bound on
/// bytes.)
pub open spec fn is_version_shape(v: Seq<char>) -> bool {
    &&& v.len() >= 1
    &&& v[0] == 'v'
    &&& v.len() <= 16
    &&& forall|i: int| 1 <= i < v.len() ==> is_ascii_digit(v[i]) || v[i] == '.'
}

pub fn version_shaped(v: &Vec<char>) -> (b: bool)
    ensures
        b == is_version_shape(v@),
{
    if v.len() == 0 || v[0] != 'v' || v.len() > 16 {
        return false;
    }
    let mut i: usize = 1;
    while i < v.len()
        invariant
            1 <= i <= v.len(),
            forall|k: int| 1 <= k < i ==> is_ascii_digit(v@[k]) || v@[k] == '.',
        decreases v.len() - i,
    {
        let n = v[i] as u32;
        if !(('0' as u32 <= n && n <= '9' as u32) || v[i] == '.') {
            return false;
        }
        i = i + 1;
    }
    true
}

/// The marker of an LTS release record: its `lts` field holds a codename string.
pub open spec fn lts_marker() -> Seq<char> {
    seq!['"', 'l', 't', 's', '"', ':', '"']
}

/// The version of the first record that is an LTS release with a well-shaped version.
pub open spec fn lts_version_among(records: Seq<Seq<char>>) -> Option<Seq<char>>
    decreases records.len(),
{
    if records.len() == 0 {
        None
    } else {
        let r = records[0];
        if contains(r, lts_marker()) && (json_field(r, seq!['v', 'e', 'r', 's', 'i', 'o', 'n'])
            matches Some(v) && is_version_shape(v)) {
            json_field(r, seq!['v', 'e', 'r', 's', 'i', 'o', 'n'])
        } else {
            lts_version_among(records.skip(1))
        }
    }
}

proof fn lemma_lts_version_shaped(records: Seq<Seq<char>>)
    ensures
        lts_version_among(records) matches Some(v) ==> is_version_shape(v),
    decreases records.len(),
{
    if records.len() > 0 {
        lemma_lts_version_shaped(records.skip(1));
    }
}

/// The newest LTS version named in nodejs.org's `index.json`, a newest-first array of flat
/// release objects: the text is cut at each `{`, one release per piece.
pub open spec fn latest_lts(index: Seq<char>) -> Option<Seq<char>> {
    lts_version_among(split_on(index, '{'))
}

/// A release record that names an LTS release fit for a download URL: it carries an `lts`
/// codename string (`"lts":"`) and a `version` string of `v`, digits and dots.
pub open spec fn names_lts_release(r: Seq<char>) -> bool {
    &&& contains(r, seq!['"', 'l', 't', 's', '"', ':', '"'])
    &&& json_field(r, seq!['v', 'e', 'r', 's', 'i', 'o', 'n']) matches Some(v)
    &&& is_version_shape(v)
}

proof fn lemma_lts_version_among_first(rs: Seq<Seq<char>>)
    ensures
        match lts_version_among(rs) {
            Some(v) => exists|k: int|
                0 <= k < rs.len() && names_lts_release(rs[k]) && json_field(
                    rs[k],
                    seq!['v', 'e', 'r', 's', 'i', 'o', 'n'],
                ) == Some(v) && forall|j: int| 0 <= j < k ==> !names_lts_release(#[trigger] rs[j]),
            None => forall|k: int| 0 <= k < rs.len() ==> !names_lts_release(#[trigger] rs[k]),
        },
    decreases rs.len(),
{
    if rs.len() > 0 {
        let rest = rs.skip(1);
        lemma_lts_version_among_first(rest);
        assert(lts_marker() =~= seq!['"', 'l', 't', 's', '"', ':', '"']);
        if names_lts_release(rs[0]) {
            assert(forall|j: int| 0 <= j < 0 ==> !names_lts_release(#[trigger] rs[j]));
        } else {
            match lts_version_among(rest) {
                Some(v) => {
                    let k = choose|k: int|
                        0 <= k < rest.len() && names_lts_release(rest[k]) && json_field(
                            rest[k],
                            seq!['v', 'e', 'r', 's', 'i', 'o', 'n'],
                        ) == Some(v) && forall|j: int|
                            0 <= j < k ==> !names_lts_release(#[trigger] rest[j]);
                    assert(rs[k + 1] == rest[k]);
                    assert forall|j: int| 0 <= j < k + 1 implies !names_lts_release(#[trigger] rs[j]) by {
                        if j > 0 {
                            assert(rs[j] == rest[j - 1]);
                        }
                    }
                },
                None => {
                    assert forall|k: int| 0 <= k < rs.len() implies !names_lts_release(#[trigger] rs[k]) by {
                        if k > 0 {
                            assert(rs[k] == rest[k - 1]);
                        }
                    }
                },
            }
        }
    }
}

/// The newest LTS release named in `index.json` is the version of the first record (the
/// text cut at each `{`) that carries an `lts` codename string and a well-shaped version; no
/// other field of a record (such as `security`) has a say. Without such a record there is
/// none.
pub proof fn lemma_latest_lts_is_first_lts_record(index: Seq<char>)
    ensures
        match latest_lts(index) {
            Some(v) => exists|k: int|
                0 <= k < split_on(index, '{').len() && names_lts_release(split_on(index, '{')[k])
                    && json_field(split_on(index, '{')[k], seq!['v', 'e', 'r', 's', 'i', 'o', 'n'])
                    == Some(v) && forall|j: int|
                    0 <= j < k ==> !names_lts_release(#[trigger] split_on(index, '{')[j]),
            None => forall|k: int|
                0 <= k < split_on(index, '{').len() ==> !names_lts_release(
                    #[trigger] split_on(index, '{')[k],
                ),
        },
{
    lemma_lts_version_among_first(split_on(index, '{'));
}


/// Newest LTS release version out of the text of `index.json`.
pub fn latest_lts_version(index: &str) -> (r: Option<String>)
    ensures
        match r {
            Some(v) => latest_lts(index@) == Some(v@),
            None => latest_lts(index@) is None,
        },
        r matches Some(v) ==> is_version_shape(v@),
{
    proof {
        lemma_lts_version_shaped(split_on(index@, '{'));
    }
    let ic = chars_of(index);
    let records = split_char(&ic, '{');
    let mut marker: Vec<char> = Vec::new();
    marker.push('"');
    marker.push('l');
    marker.push('t');
    marker.push('s');
    marker.push('"');
    marker.push(':');
    marker.push('"');
    let mut key: Vec<char> = Vec::new();
    key.push('v');
    key.push('e');
    key.push('r');
    key.push('s');
    key.push('i');
    key.push('o');
    key.push('n');
    assert(marker@ =~= lts_marker());
    assert(key@ =~= seq!['v', 'e', 'r', 's', 'i', 'o', 'n']);
    let ghost all = records.deep_view();
    let mut i: usize = 0;
    assert(all.skip(0) =~= all);
    while i < records.len()
        invariant
            i <= records.len(),
            all == records.deep_view(),
            all == split_on(ic@, '{'),
            ic@ == index@,
            marker@ == lts_marker(),
            key@ == seq!['v', 'e', 'r', 's', 'i', 'o', 'n'],
            lts_version_among(all.skip(i as int)) == lts_version_among(all),
        decreases records.len() - i,
    {
        let rec = &records[i];
        assert(rec@ =~= all[i as int]);
        assert(all.skip(i as int)[0] == all[i as int]);
        if contains_chars(rec, &marker) {
            match field_value(rec, &key) {
                Some(v) => {
                    if version_shaped(&v) {
                        return Some(string_of(v.as_slice()));
                    }
                },
                None => {},
            }
        }
        assert(all.skip(i as int).skip(1) =~= all.skip(i + 1));
        i = i + 1;
    }
    None
}

} // verus!
