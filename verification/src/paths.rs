//! Where things live: the install directory, the browsers' native-messaging directories
//! and the Windows registry keys.
use vstd::prelude::*;
use crate::platform::{host_name, host_name_text, Platform};
use crate::text::{chars_of, contains, contains_chars, ends_with, occurs_at, starts_with};

verus! {

/// `base` joined with `rel` as a Unix path: an absolute `rel` replaces `base`; otherwise a
/// `/` is put between them unless `base` is empty or already ends with one.
pub open spec fn join_unix(base: Seq<char>, rel: Seq<char>) -> Seq<char> {
    if rel.len() > 0 && rel[0] == '/' {
        rel
    } else if base.len() > 0 && base.last() != '/' {
        base + seq!['/'] + rel
    } else {
        base + rel
    }
}

/// Joins two Unix paths (`Path::join` on Unix).
pub fn join(base: &str, rel: &str) -> (r: String)
    ensures
        r@ == join_unix(base@, rel@),
{
    let bc = chars_of(base);
    let rc = chars_of(rel);
    if rc.len() > 0 && rc[0] == '/' {
        return String::from_str(rel);
    }
    let mut r = String::from_str(base);
    if bc.len() > 0 && bc[bc.len() - 1] != '/' {
        crate::text::push_char(&mut r, '/');
    }
    r.append(rel);
    r
}

/// `b` is a bare drive such as `C:`: a letter and a colon, with no root after it.
pub open spec fn drive_only(b: Seq<char>) -> bool {
    &&& b.len() == 2
    &&& b[1] == ':'
    &&& (('A' as u32 <= b[0] as u32 <= 'Z' as u32) || ('a' as u32 <= b[0] as u32 <= 'z' as u32))
}

/// `b` begins with the verbatim prefix `\\?\`, after which only `\` separates.
pub open spec fn verbatim(b: Seq<char>) -> bool {
    b.len() >= 4 && b[0] == '\\' && b[1] == '\\' && b[2] == '?' && b[3] == '\\'
}

/// `b` ends with a Windows path separator.
pub open spec fn ends_with_separator(b: Seq<char>) -> bool {
    b.len() > 0 && (b.last() == '\\' || (!verbatim(b) && b.last() == '/'))
}

/// `base` joined with the plain relative name `rel` (no prefix, no root) by Windows path
/// rules: a `\` is put between them unless `base` is empty, a bare drive, or already
/// ends with a separator.
pub open spec fn join_windows(base: Seq<char>, rel: Seq<char>) -> Seq<char> {
    if base.len() == 0 || drive_only(base) || ends_with_separator(base) {
        base + rel
    } else {
        base + seq!['\\'] + rel
    }
}

/// Joins the plain relative name `rel` to the Windows path `base`.
pub fn join_win(base: &str, rel: &str) -> (r: String)
    ensures
        r@ == join_windows(base@, rel@),
{
    let bc = chars_of(base);
    let n = bc.len();
    let drive = n == 2 && bc[1] == ':' && ((65 <= bc[0] as u32 && bc[0] as u32 <= 90) || (97
        <= bc[0] as u32 && bc[0] as u32 <= 122));
    let verb = n >= 4 && bc[0] == '\\' && bc[1] == '\\' && bc[2] == '?' && bc[3] == '\\';
    let sep = n > 0 && (bc[n - 1] == '\\' || (!verb && bc[n - 1] == '/'));
    assert(drive == drive_only(base@));
    assert(sep == ends_with_separator(base@));
    let mut r = String::from_str(base);
    if !(n == 0 || drive || sep) {
        crate::text::push_char(&mut r, '\\');
    }
    r.append(rel);
    r
}

// ---------------------------------------------------------------------------
// The install directory's place

/// Where the host is installed: under the user's data directory (`APPDATA` on Windows,
/// `HOME` elsewhere).
pub open spec fn install_dir_path(platform: Platform, home: Seq<char>, appdata: Seq<char>) -> Seq<
    char,
> {
    if platform == Platform::MacOs {
        join_unix(home, "Library/Application Support/LocalTCP"@)
    } else if platform == Platform::Windows {
        join_windows(join_windows(appdata, "Algoramming"@), "LocalTCP"@)
    } else {
        join_unix(home, ".local/lib/algoramming/localtcp"@)
    }
}

/// The install directory, from the user's home directory and (Windows) `APPDATA`.
pub fn install_dir_text(platform: Platform, home: &str, appdata: &str) -> (d: String)
    ensures
        d@ == install_dir_path(platform, home@, appdata@),
{
    if platform == Platform::MacOs {
        join(home, "Library/Application Support/LocalTCP")
    } else if platform == Platform::Windows {
        let a = join_win(appdata, "Algoramming");
        join_win(a.as_str(), "LocalTCP")
    } else {
        join(home, ".local/lib/algoramming/localtcp")
    }
}

// ---------------------------------------------------------------------------
// Browser registration

/// Native-messaging host directories for Chromium-family browsers (none on Windows, which
/// registers through the registry instead).
pub open spec fn nm_dirs(platform: Platform, home: Seq<char>) -> Seq<Seq<char>> {
    if platform == Platform::MacOs {
        let base = join_unix(home, "Library/Application Support"@);
        seq![
            join_unix(base, "Google/Chrome/NativeMessagingHosts"@),
            join_unix(base, "Google/Chrome Beta/NativeMessagingHosts"@),
            join_unix(base, "Google/Chrome Canary/NativeMessagingHosts"@),
            join_unix(base, "Chromium/NativeMessagingHosts"@),
            join_unix(base, "Microsoft Edge/NativeMessagingHosts"@),
            join_unix(base, "BraveSoftware/Brave-Browser/NativeMessagingHosts"@),
        ]
    } else if platform == Platform::Linux {
        let c = join_unix(home, ".config"@);
        seq![
            join_unix(c, "google-chrome/NativeMessagingHosts"@),
            join_unix(c, "chromium/NativeMessagingHosts"@),
            join_unix(c, "microsoft-edge/NativeMessagingHosts"@),
            join_unix(c, "BraveSoftware/Brave-Browser/NativeMessagingHosts"@),
        ]
    } else {
        seq![]
    }
}

pub fn browser_nm_dirs(platform: Platform, home: &str) -> (dirs: Vec<String>)
    ensures
        dirs.deep_view() == nm_dirs(platform, home@),
{
    let mut v: Vec<String> = Vec::new();
    if platform == Platform::MacOs {
        let base = join(home, "Library/Application Support");
        let b = base.as_str();
        v.push(join(b, "Google/Chrome/NativeMessagingHosts"));
        v.push(join(b, "Google/Chrome Beta/NativeMessagingHosts"));
        v.push(join(b, "Google/Chrome Canary/NativeMessagingHosts"));
        v.push(join(b, "Chromium/NativeMessagingHosts"));
        v.push(join(b, "Microsoft Edge/NativeMessagingHosts"));
        v.push(join(b, "BraveSoftware/Brave-Browser/NativeMessagingHosts"));
    } else if platform == Platform::Linux {
        let c = join(home, ".config");
        let b = c.as_str();
        v.push(join(b, "google-chrome/NativeMessagingHosts"));
        v.push(join(b, "chromium/NativeMessagingHosts"));
        v.push(join(b, "microsoft-edge/NativeMessagingHosts"));
        v.push(join(b, "BraveSoftware/Brave-Browser/NativeMessagingHosts"));
    }
    assert(v.deep_view() =~~= nm_dirs(platform, home@));
    v
}

/// The primary browser's directory (Chrome's) is created even when that browser's profile
/// directory does not exist yet.
pub open spec fn is_primary_dir(dir: Seq<char>) -> bool {
    contains(dir, "Google/Chrome/"@) || contains(dir, "google-chrome/"@)
}

/// Whether to register the host in browser directory `dir`: always for the primary
/// browser, otherwise only where that browser's profile directory (the parent) exists.
pub fn should_register(dir: &str, parent_exists: bool) -> (b: bool)
    ensures
        b == (is_primary_dir(dir@) || parent_exists),
{
    let dc = chars_of(dir);
    let p1 = chars_of("Google/Chrome/");
    let p2 = chars_of("google-chrome/");
    contains_chars(&dc, &p1) || contains_chars(&dc, &p2) || parent_exists
}

/// Registration must have reached at least one browser.
pub fn registration_outcome(platform: Platform, registered: usize) -> (r: Result<(), String>)
    ensures
        r is Ok <==> registered > 0,
        r matches Err(e) ==> e@ == if platform == Platform::Windows {
            "failed to register the host in the Windows registry"@
        } else {
            "could not register the host with any browser"@
        },
{
    if registered > 0 {
        Ok(())
    } else if platform == Platform::Windows {
        Err(String::from_str("failed to register the host in the Windows registry"))
    } else {
        Err(String::from_str("could not register the host with any browser"))
    }
}

/// The per-user registry keys under which Chromium-family browsers look for the host.
pub open spec fn reg_keys() -> Seq<Seq<char>> {
    seq![
        "HKCU\\Software\\Google\\Chrome\\NativeMessagingHosts"@ + seq!['\\'] + host_name_text(),
        "HKCU\\Software\\Microsoft\\Edge\\NativeMessagingHosts"@ + seq!['\\'] + host_name_text(),
        "HKCU\\Software\\BraveSoftware\\Brave-Browser\\NativeMessagingHosts"@ + seq!['\\']
            + host_name_text(),
        "HKCU\\Software\\Chromium\\NativeMessagingHosts"@ + seq!['\\'] + host_name_text(),
    ]
}

fn reg_key(base: &str) -> (k: String)
    ensures
        k@ == base@ + seq!['\\'] + host_name_text(),
{
    let mut k = String::from_str(base);
    crate::text::push_char(&mut k, '\\');
    k.append(host_name().as_str());
    k
}

pub fn windows_reg_keys() -> (keys: Vec<String>)
    ensures
        keys.deep_view() == reg_keys(),
{
    let mut v: Vec<String> = Vec::new();
    v.push(reg_key("HKCU\\Software\\Google\\Chrome\\NativeMessagingHosts"));
    v.push(reg_key("HKCU\\Software\\Microsoft\\Edge\\NativeMessagingHosts"));
    v.push(reg_key("HKCU\\Software\\BraveSoftware\\Brave-Browser\\NativeMessagingHosts"));
    v.push(reg_key("HKCU\\Software\\Chromium\\NativeMessagingHosts"));
    assert(v.deep_view() =~~= reg_keys());
    v
}

// ---------------------------------------------------------------------------
// The install directory

pub open spec fn unresolved_dir_text(platform: Platform) -> Seq<char> {
    "could not determine your user data directory — "@ + (if platform == Platform::Windows {
        "APPDATA"@
    } else {
        "HOME"@
    }) + " is not set"@
}

/// Refuses an install directory that is empty or relative: it would install where the
/// browser never looks, and the uninstaller would delete under the working directory.
/// `is_relative` is whether the platform's path rules call `dir` relative.
pub fn resolved_install_dir(platform: Platform, dir: &str, is_relative: bool) -> (r: Result<
    String,
    String,
>)
    ensures
        r is Ok <==> (dir@.len() > 0 && !is_relative),
        r matches Ok(d) ==> d@ == dir@,
        r matches Err(e) ==> e@ == unresolved_dir_text(platform),
{
    let dc = chars_of(dir);
    if dc.len() == 0 || is_relative {
        let mut e = String::from_str("could not determine your user data directory — ");
        if platform == Platform::Windows {
            e.append("APPDATA");
        } else {
            e.append("HOME");
        }
        e.append(" is not set");
        Err(e)
    } else {
        Ok(String::from_str(dir))
    }
}

// ---------------------------------------------------------------------------
// What the browser directories are like

/// `home` with the separator that joining a relative path to it puts after it.
pub open spec fn home_prefix(home: Seq<char>) -> Seq<char> {
    if home.len() > 0 && home.last() != '/' {
        home + seq!['/']
    } else {
        home
    }
}

pub open spec fn nm_suffix() -> Seq<char> {
    "/NativeMessagingHosts"@
}

/// A browser directory `<home>/<mid>/<c>` is `home_prefix(home)` followed by `mid/c`.
proof fn lemma_browser_entry(home: Seq<char>, mid: Seq<char>, c: Seq<char>)
    requires
        mid.len() > 0,
        mid[0] != '/',
        mid.last() != '/',
        c.len() >= nm_suffix().len(),
        c[0] != '/',
        ends_with(c, nm_suffix()),
    ensures
        join_unix(join_unix(home, mid), c) == home_prefix(home) + (mid + seq!['/'] + c),
        starts_with(join_unix(join_unix(home, mid), c), home),
        ends_with(join_unix(join_unix(home, mid), c), nm_suffix()),
        join_unix(join_unix(home, mid), c).len() == home_prefix(home).len() + mid.len() + 1
            + c.len(),
{
    reveal_strlit("/NativeMessagingHosts");
    let h = home_prefix(home);
    let b = join_unix(home, mid);
    assert(b =~= h + mid);
    assert(b.last() == mid.last());
    let e = h + (mid + seq!['/'] + c);
    assert(join_unix(b, c) =~= e);
    assert(e.subrange(0, home.len() as int) =~= home);
    let n = nm_suffix().len() as int;
    assert(e.subrange(e.len() - n, e.len() as int) =~= c.subrange(c.len() - n, c.len() as int));
}

/// An occurrence of `p` in `h + k` lies in `h` or in `k`, when `h` ends with a `/` (or is
/// empty) and no `/` of `p` can stand at the end of `h` with the rest of `p` opening `k`.
proof fn lemma_absent_in_concat(h: Seq<char>, k: Seq<char>, p: Seq<char>)
    requires
        !contains(h, p),
        !contains(k, p),
        h.len() == 0 || h.last() == '/',
        k.len() > 0,
        forall|j: int| 0 < j < p.len() && p[j - 1] == '/' ==> k[0] != #[trigger] p[j],
    ensures
        !contains(h + k, p),
{
    let s = h + k;
    assert forall|i: int| !occurs_at(s, p, i) by {
        if occurs_at(s, p, i) {
            if i + p.len() <= h.len() {
                assert(h.subrange(i, i + p.len()) =~= s.subrange(i, i + p.len()));
                assert(occurs_at(h, p, i));
            } else if i >= h.len() {
                assert(k.subrange(i - h.len(), i - h.len() as int + p.len()) =~= s.subrange(
                    i,
                    i + p.len(),
                ));
                assert(occurs_at(k, p, i - h.len()));
            } else {
                let j = h.len() - i;
                assert(s.subrange(i, i + p.len())[j - 1] == p[j - 1]);
                assert(s[i + j - 1] == h.last());
                assert(s.subrange(i, i + p.len())[j] == p[j]);
                assert(s[i + j] == k[0]);
            }
        }
    }
}

/// What is absent from `home` followed by a `/` is absent from `home_prefix(home)`.
proof fn lemma_absent_in_home(home: Seq<char>, p: Seq<char>)
    requires
        !contains(home + seq!['/'], p),
    ensures
        !contains(home_prefix(home), p),
{
    if !(home.len() > 0 && home.last() != '/') {
        assert forall|i: int| !occurs_at(home, p, i) by {
            if occurs_at(home, p, i) {
                assert((home + seq!['/']).subrange(i, i + p.len()) =~= home.subrange(
                    i,
                    i + p.len(),
                ));
                assert(occurs_at(home + seq!['/'], p, i));
            }
        }
    }
}

/// `Library/Application Support/Google/Chrome Beta/NativeMessagingHosts` holds no primary browser's path.
proof fn lemma_mac_tail_1()
    ensures
        !contains("Library/Application Support"@ + seq!['/'] + "Google/Chrome Beta/NativeMessagingHosts"@, "Google/Chrome/"@),
        !contains("Library/Application Support"@ + seq!['/'] + "Google/Chrome Beta/NativeMessagingHosts"@, "google-chrome/"@),
{
    reveal_strlit("Library/Application Support");
    reveal_strlit("Google/Chrome Beta/NativeMessagingHosts");
    reveal_strlit("Google/Chrome/");
    reveal_strlit("google-chrome/");
    let k = "Library/Application Support"@ + seq!['/'] + "Google/Chrome Beta/NativeMessagingHosts"@;
    let p = "Google/Chrome/"@;
    assert forall|i: int| !occurs_at(k, p, i) by {
        if occurs_at(k, p, i) {
            assert(k[i] == p[0]);
            assert(k[i + 6] == p[6]);
            assert(k[i + 13] == p[13]);
        }
    }
    let p = "google-chrome/"@;
    assert forall|i: int| !occurs_at(k, p, i) by {
        if occurs_at(k, p, i) {
            assert(k[i] == p[0]);
            assert(k[i + 6] == p[6]);
            assert(k[i + 13] == p[13]);
        }
    }
}

/// `Library/Application Support/Google/Chrome Canary/NativeMessagingHosts` holds no primary browser's path.
proof fn lemma_mac_tail_2()
    ensures
        !contains("Library/Application Support"@ + seq!['/'] + "Google/Chrome Canary/NativeMessagingHosts"@, "Google/Chrome/"@),
        !contains("Library/Application Support"@ + seq!['/'] + "Google/Chrome Canary/NativeMessagingHosts"@, "google-chrome/"@),
{
    reveal_strlit("Library/Application Support");
    reveal_strlit("Google/Chrome Canary/NativeMessagingHosts");
    reveal_strlit("Google/Chrome/");
    reveal_strlit("google-chrome/");
    let k = "Library/Application Support"@ + seq!['/'] + "Google/Chrome Canary/NativeMessagingHosts"@;
    let p = "Google/Chrome/"@;
    assert forall|i: int| !occurs_at(k, p, i) by {
        if occurs_at(k, p, i) {
            assert(k[i] == p[0]);
            assert(k[i + 6] == p[6]);
            assert(k[i + 13] == p[13]);
        }
    }
    let p = "google-chrome/"@;
    assert forall|i: int| !occurs_at(k, p, i) by {
        if occurs_at(k, p, i) {
            assert(k[i] == p[0]);
            assert(k[i + 6] == p[6]);
            assert(k[i + 13] == p[13]);
        }
    }
}

/// `Library/Application Support/Chromium/NativeMessagingHosts` holds no primary browser's path.
proof fn lemma_mac_tail_3()
    ensures
        !contains("Library/Application Support"@ + seq!['/'] + "Chromium/NativeMessagingHosts"@, "Google/Chrome/"@),
        !contains("Library/Application Support"@ + seq!['/'] + "Chromium/NativeMessagingHosts"@, "google-chrome/"@),
{
    reveal_strlit("Library/Application Support");
    reveal_strlit("Chromium/NativeMessagingHosts");
    reveal_strlit("Google/Chrome/");
    reveal_strlit("google-chrome/");
    let k = "Library/Application Support"@ + seq!['/'] + "Chromium/NativeMessagingHosts"@;
    let p = "Google/Chrome/"@;
    assert forall|i: int| !occurs_at(k, p, i) by {
        if occurs_at(k, p, i) {
            assert(k[i] == p[0]);
            assert(k[i + 6] == p[6]);
            assert(k[i + 13] == p[13]);
        }
    }
    let p = "google-chrome/"@;
    assert forall|i: int| !occurs_at(k, p, i) by {
        if occurs_at(k, p, i) {
            assert(k[i] == p[0]);
            assert(k[i + 6] == p[6]);
            assert(k[i + 13] == p[13]);
        }
    }
}

/// `Library/Application Support/Microsoft Edge/NativeMessagingHosts` holds no primary browser's path.
proof fn lemma_mac_tail_4()
    ensures
        !contains("Library/Application Support"@ + seq!['/'] + "Microsoft Edge/NativeMessagingHosts"@, "Google/Chrome/"@),
        !contains("Library/Application Support"@ + seq!['/'] + "Microsoft Edge/NativeMessagingHosts"@, "google-chrome/"@),
{
    reveal_strlit("Library/Application Support");
    reveal_strlit("Microsoft Edge/NativeMessagingHosts");
    reveal_strlit("Google/Chrome/");
    reveal_strlit("google-chrome/");
    let k = "Library/Application Support"@ + seq!['/'] + "Microsoft Edge/NativeMessagingHosts"@;
    let p = "Google/Chrome/"@;
    assert forall|i: int| !occurs_at(k, p, i) by {
        if occurs_at(k, p, i) {
            assert(k[i] == p[0]);
            assert(k[i + 6] == p[6]);
            assert(k[i + 13] == p[13]);
        }
    }
    let p = "google-chrome/"@;
    assert forall|i: int| !occurs_at(k, p, i) by {
        if occurs_at(k, p, i) {
            assert(k[i] == p[0]);
            assert(k[i + 6] == p[6]);
            assert(k[i + 13] == p[13]);
        }
    }
}

/// `Library/Application Support/BraveSoftware/Brave-Browser/NativeMessagingHosts` holds no primary browser's path.
proof fn lemma_mac_tail_5()
    ensures
        !contains("Library/Application Support"@ + seq!['/'] + "BraveSoftware/Brave-Browser/NativeMessagingHosts"@, "Google/Chrome/"@),
        !contains("Library/Application Support"@ + seq!['/'] + "BraveSoftware/Brave-Browser/NativeMessagingHosts"@, "google-chrome/"@),
{
    reveal_strlit("Library/Application Support");
    reveal_strlit("BraveSoftware/Brave-Browser/NativeMessagingHosts");
    reveal_strlit("Google/Chrome/");
    reveal_strlit("google-chrome/");
    let k = "Library/Application Support"@ + seq!['/'] + "BraveSoftware/Brave-Browser/NativeMessagingHosts"@;
    let p = "Google/Chrome/"@;
    assert forall|i: int| !occurs_at(k, p, i) by {
        if occurs_at(k, p, i) {
            assert(k[i] == p[0]);
            assert(k[i + 6] == p[6]);
            assert(k[i + 13] == p[13]);
        }
    }
    let p = "google-chrome/"@;
    assert forall|i: int| !occurs_at(k, p, i) by {
        if occurs_at(k, p, i) {
            assert(k[i] == p[0]);
            assert(k[i + 6] == p[6]);
            assert(k[i + 13] == p[13]);
        }
    }
}

/// `.config/chromium/NativeMessagingHosts` holds no primary browser's path.
proof fn lemma_linux_tail_1()
    ensures
        !contains(".config"@ + seq!['/'] + "chromium/NativeMessagingHosts"@, "Google/Chrome/"@),
        !contains(".config"@ + seq!['/'] + "chromium/NativeMessagingHosts"@, "google-chrome/"@),
{
    reveal_strlit(".config");
    reveal_strlit("chromium/NativeMessagingHosts");
    reveal_strlit("Google/Chrome/");
    reveal_strlit("google-chrome/");
    let k = ".config"@ + seq!['/'] + "chromium/NativeMessagingHosts"@;
    let p = "Google/Chrome/"@;
    assert forall|i: int| !occurs_at(k, p, i) by {
        if occurs_at(k, p, i) {
            assert(k[i] == p[0]);
            assert(k[i + 6] == p[6]);
            assert(k[i + 13] == p[13]);
        }
    }
    let p = "google-chrome/"@;
    assert forall|i: int| !occurs_at(k, p, i) by {
        if occurs_at(k, p, i) {
            assert(k[i] == p[0]);
            assert(k[i + 6] == p[6]);
            assert(k[i + 13] == p[13]);
        }
    }
}

/// `.config/microsoft-edge/NativeMessagingHosts` holds no primary browser's path.
proof fn lemma_linux_tail_2()
    ensures
        !contains(".config"@ + seq!['/'] + "microsoft-edge/NativeMessagingHosts"@, "Google/Chrome/"@),
        !contains(".config"@ + seq!['/'] + "microsoft-edge/NativeMessagingHosts"@, "google-chrome/"@),
{
    reveal_strlit(".config");
    reveal_strlit("microsoft-edge/NativeMessagingHosts");
    reveal_strlit("Google/Chrome/");
    reveal_strlit("google-chrome/");
    let k = ".config"@ + seq!['/'] + "microsoft-edge/NativeMessagingHosts"@;
    let p = "Google/Chrome/"@;
    assert forall|i: int| !occurs_at(k, p, i) by {
        if occurs_at(k, p, i) {
            assert(k[i] == p[0]);
            assert(k[i + 6] == p[6]);
            assert(k[i + 13] == p[13]);
        }
    }
    let p = "google-chrome/"@;
    assert forall|i: int| !occurs_at(k, p, i) by {
        if occurs_at(k, p, i) {
            assert(k[i] == p[0]);
            assert(k[i + 6] == p[6]);
            assert(k[i + 13] == p[13]);
        }
    }
}

/// `.config/BraveSoftware/Brave-Browser/NativeMessagingHosts` holds no primary browser's path.
proof fn lemma_linux_tail_3()
    ensures
        !contains(".config"@ + seq!['/'] + "BraveSoftware/Brave-Browser/NativeMessagingHosts"@, "Google/Chrome/"@),
        !contains(".config"@ + seq!['/'] + "BraveSoftware/Brave-Browser/NativeMessagingHosts"@, "google-chrome/"@),
{
    reveal_strlit(".config");
    reveal_strlit("BraveSoftware/Brave-Browser/NativeMessagingHosts");
    reveal_strlit("Google/Chrome/");
    reveal_strlit("google-chrome/");
    let k = ".config"@ + seq!['/'] + "BraveSoftware/Brave-Browser/NativeMessagingHosts"@;
    let p = "Google/Chrome/"@;
    assert forall|i: int| !occurs_at(k, p, i) by {
        if occurs_at(k, p, i) {
            assert(k[i] == p[0]);
            assert(k[i + 6] == p[6]);
            assert(k[i + 13] == p[13]);
        }
    }
    let p = "google-chrome/"@;
    assert forall|i: int| !occurs_at(k, p, i) by {
        if occurs_at(k, p, i) {
            assert(k[i] == p[0]);
            assert(k[i + 6] == p[6]);
            assert(k[i + 13] == p[13]);
        }
    }
}

/// No `/` of a primary browser's path, put at the end of the home directory, can be
/// followed by the rest of that path opening `<mid>/...` (`mid` starts with `L` or `.`).
proof fn lemma_no_straddle(k: Seq<char>)
    requires
        k.len() > 0,
        k[0] == 'L' || k[0] == '.',
    ensures
        forall|j: int| 0 < j < "Google/Chrome/"@.len() && "Google/Chrome/"@[j - 1] == '/' ==> k[0] != #[trigger] "Google/Chrome/"@[j],
        forall|j: int| 0 < j < "google-chrome/"@.len() && "google-chrome/"@[j - 1] == '/' ==> k[0] != #[trigger] "google-chrome/"@[j],
{
    reveal_strlit("Google/Chrome/");
    reveal_strlit("google-chrome/");
}

proof fn lemma_mac_dirs(home: Seq<char>)
    ensures
        nm_dirs(Platform::MacOs, home).len() == 6,
        forall|i: int|
            0 <= i < 6 ==> starts_with(#[trigger] nm_dirs(Platform::MacOs, home)[i], home)
                && ends_with(nm_dirs(Platform::MacOs, home)[i], nm_suffix()),
        forall|i: int, j: int|
            0 <= i < j < 6 ==> #[trigger] nm_dirs(Platform::MacOs, home)[i]
                != #[trigger] nm_dirs(Platform::MacOs, home)[j],
        (!contains(home + seq!['/'], "Google/Chrome/"@) && !contains(home + seq!['/'], "google-chrome/"@))
            ==> (is_primary_dir(nm_dirs(Platform::MacOs, home)[0]) && forall|i: int|
            1 <= i < 6 ==> !is_primary_dir(#[trigger] nm_dirs(Platform::MacOs, home)[i])),
{
    reveal_strlit("Library/Application Support");
    reveal_strlit("/NativeMessagingHosts");
    reveal_strlit("Google/Chrome/");
    reveal_strlit("google-chrome/");
    let mid = "Library/Application Support"@;
    reveal_strlit("Google/Chrome/NativeMessagingHosts");
    let c0 = "Google/Chrome/NativeMessagingHosts"@;
    assert(c0.subrange(c0.len() - 21, c0.len() as int) =~= nm_suffix());
    lemma_browser_entry(home, mid, c0);
    reveal_strlit("Google/Chrome Beta/NativeMessagingHosts");
    let c1 = "Google/Chrome Beta/NativeMessagingHosts"@;
    assert(c1.subrange(c1.len() - 21, c1.len() as int) =~= nm_suffix());
    lemma_browser_entry(home, mid, c1);
    reveal_strlit("Google/Chrome Canary/NativeMessagingHosts");
    let c2 = "Google/Chrome Canary/NativeMessagingHosts"@;
    assert(c2.subrange(c2.len() - 21, c2.len() as int) =~= nm_suffix());
    lemma_browser_entry(home, mid, c2);
    reveal_strlit("Chromium/NativeMessagingHosts");
    let c3 = "Chromium/NativeMessagingHosts"@;
    assert(c3.subrange(c3.len() - 21, c3.len() as int) =~= nm_suffix());
    lemma_browser_entry(home, mid, c3);
    reveal_strlit("Microsoft Edge/NativeMessagingHosts");
    let c4 = "Microsoft Edge/NativeMessagingHosts"@;
    assert(c4.subrange(c4.len() - 21, c4.len() as int) =~= nm_suffix());
    lemma_browser_entry(home, mid, c4);
    reveal_strlit("BraveSoftware/Brave-Browser/NativeMessagingHosts");
    let c5 = "BraveSoftware/Brave-Browser/NativeMessagingHosts"@;
    assert(c5.subrange(c5.len() - 21, c5.len() as int) =~= nm_suffix());
    lemma_browser_entry(home, mid, c5);
    let d = nm_dirs(Platform::MacOs, home);
    assert(d =~= seq![join_unix(join_unix(home, mid), c0), join_unix(join_unix(home, mid), c1), join_unix(join_unix(home, mid), c2), join_unix(join_unix(home, mid), c3), join_unix(join_unix(home, mid), c4), join_unix(join_unix(home, mid), c5)]);
    let p1 = "Google/Chrome/"@;
    let p2 = "google-chrome/"@;
    if !contains(home + seq!['/'], p1) && !contains(home + seq!['/'], p2) {
        lemma_absent_in_home(home, p1);
        lemma_absent_in_home(home, p2);
        let h = home_prefix(home);
        let k0 = mid + seq!['/'] + c0;
        assert((h + k0).subrange(h.len() as int + 28, h.len() as int + 42) =~= p1);
        assert(occurs_at(h + k0, p1, h.len() as int + 28));
        let k1 = mid + seq!['/'] + c1;
        lemma_mac_tail_1();
        lemma_no_straddle(k1);
        lemma_absent_in_concat(h, k1, p1);
        lemma_absent_in_concat(h, k1, p2);
        let k2 = mid + seq!['/'] + c2;
        lemma_mac_tail_2();
        lemma_no_straddle(k2);
        lemma_absent_in_concat(h, k2, p1);
        lemma_absent_in_concat(h, k2, p2);
        let k3 = mid + seq!['/'] + c3;
        lemma_mac_tail_3();
        lemma_no_straddle(k3);
        lemma_absent_in_concat(h, k3, p1);
        lemma_absent_in_concat(h, k3, p2);
        let k4 = mid + seq!['/'] + c4;
        lemma_mac_tail_4();
        lemma_no_straddle(k4);
        lemma_absent_in_concat(h, k4, p1);
        lemma_absent_in_concat(h, k4, p2);
        let k5 = mid + seq!['/'] + c5;
        lemma_mac_tail_5();
        lemma_no_straddle(k5);
        lemma_absent_in_concat(h, k5, p1);
        lemma_absent_in_concat(h, k5, p2);
    }
}

proof fn lemma_linux_dirs(home: Seq<char>)
    ensures
        nm_dirs(Platform::Linux, home).len() == 4,
        forall|i: int|
            0 <= i < 4 ==> starts_with(#[trigger] nm_dirs(Platform::Linux, home)[i], home)
                && ends_with(nm_dirs(Platform::Linux, home)[i], nm_suffix()),
        forall|i: int, j: int|
            0 <= i < j < 4 ==> #[trigger] nm_dirs(Platform::Linux, home)[i]
                != #[trigger] nm_dirs(Platform::Linux, home)[j],
        (!contains(home + seq!['/'], "Google/Chrome/"@) && !contains(home + seq!['/'], "google-chrome/"@))
            ==> (is_primary_dir(nm_dirs(Platform::Linux, home)[0]) && forall|i: int|
            1 <= i < 4 ==> !is_primary_dir(#[trigger] nm_dirs(Platform::Linux, home)[i])),
{
    reveal_strlit(".config");
    reveal_strlit("/NativeMessagingHosts");
    reveal_strlit("Google/Chrome/");
    reveal_strlit("google-chrome/");
    let mid = ".config"@;
    reveal_strlit("google-chrome/NativeMessagingHosts");
    let c0 = "google-chrome/NativeMessagingHosts"@;
    assert(c0.subrange(c0.len() - 21, c0.len() as int) =~= nm_suffix());
    lemma_browser_entry(home, mid, c0);
    reveal_strlit("chromium/NativeMessagingHosts");
    let c1 = "chromium/NativeMessagingHosts"@;
    assert(c1.subrange(c1.len() - 21, c1.len() as int) =~= nm_suffix());
    lemma_browser_entry(home, mid, c1);
    reveal_strlit("microsoft-edge/NativeMessagingHosts");
    let c2 = "microsoft-edge/NativeMessagingHosts"@;
    assert(c2.subrange(c2.len() - 21, c2.len() as int) =~= nm_suffix());
    lemma_browser_entry(home, mid, c2);
    reveal_strlit("BraveSoftware/Brave-Browser/NativeMessagingHosts");
    let c3 = "BraveSoftware/Brave-Browser/NativeMessagingHosts"@;
    assert(c3.subrange(c3.len() - 21, c3.len() as int) =~= nm_suffix());
    lemma_browser_entry(home, mid, c3);
    let d = nm_dirs(Platform::Linux, home);
    assert(d =~= seq![join_unix(join_unix(home, mid), c0), join_unix(join_unix(home, mid), c1), join_unix(join_unix(home, mid), c2), join_unix(join_unix(home, mid), c3)]);
    let p1 = "Google/Chrome/"@;
    let p2 = "google-chrome/"@;
    if !contains(home + seq!['/'], p1) && !contains(home + seq!['/'], p2) {
        lemma_absent_in_home(home, p1);
        lemma_absent_in_home(home, p2);
        let h = home_prefix(home);
        let k0 = mid + seq!['/'] + c0;
        assert((h + k0).subrange(h.len() as int + 8, h.len() as int + 22) =~= p2);
        assert(occurs_at(h + k0, p2, h.len() as int + 8));
        let k1 = mid + seq!['/'] + c1;
        lemma_linux_tail_1();
        lemma_no_straddle(k1);
        lemma_absent_in_concat(h, k1, p1);
        lemma_absent_in_concat(h, k1, p2);
        let k2 = mid + seq!['/'] + c2;
        lemma_linux_tail_2();
        lemma_no_straddle(k2);
        lemma_absent_in_concat(h, k2, p1);
        lemma_absent_in_concat(h, k2, p2);
        let k3 = mid + seq!['/'] + c3;
        lemma_linux_tail_3();
        lemma_no_straddle(k3);
        lemma_absent_in_concat(h, k3, p1);
        lemma_absent_in_concat(h, k3, p2);
    }
}

/// The browser directories: six on macOS, four on Linux, none elsewhere. Each lies under
/// `home` and ends in `/NativeMessagingHosts`, and no two are the same. Where `home`
/// followed by a `/` does not itself hold a primary browser's path, the first directory is
/// the primary browser's (registered even without its profile) and no other one is.
pub proof fn lemma_browser_dirs(platform: Platform, home: Seq<char>)
    ensures
        nm_dirs(platform, home).len() == if platform == Platform::MacOs {
            6nat
        } else if platform == Platform::Linux {
            4nat
        } else {
            0nat
        },
        forall|i: int|
            0 <= i < nm_dirs(platform, home).len() ==> starts_with(
                #[trigger] nm_dirs(platform, home)[i],
                home,
            ) && ends_with(nm_dirs(platform, home)[i], nm_suffix()),
        forall|i: int, j: int|
            0 <= i < j < nm_dirs(platform, home).len() ==> #[trigger] nm_dirs(platform, home)[i]
                != #[trigger] nm_dirs(platform, home)[j],
        (!contains(home + seq!['/'], "Google/Chrome/"@) && !contains(
            home + seq!['/'],
            "google-chrome/"@,
        ) && nm_dirs(platform, home).len() > 0) ==> (is_primary_dir(nm_dirs(platform, home)[0])
            && forall|i: int|
            1 <= i < nm_dirs(platform, home).len() ==> !is_primary_dir(
                #[trigger] nm_dirs(platform, home)[i],
            )),
{
    if platform == Platform::MacOs {
        lemma_mac_dirs(home);
    } else if platform == Platform::Linux {
        lemma_linux_dirs(home);
    }
}

} // verus!
