use localtcp::json::{json_escape, json_string_field, latest_lts_version};

#[test]
fn json_escape_doubles_backslashes_and_escapes_quotes() {
    assert_eq!(json_escape(r#"C:\Users\a "b"\x"#), r#"C:\\Users\\a \"b\"\\x"#);
}

#[test]
fn json_escape_leaves_plain_paths_alone() {
    assert_eq!(json_escape("/home/me/.local/lib/algoramming/localtcp/index.js"), "/home/me/.local/lib/algoramming/localtcp/index.js");
}

#[test]
fn json_string_field_reads_the_first_string_value() {
    let rec = r#""version":"v22.11.0","date":"2024-10-29","lts":"Jod","security":false"#;
    assert_eq!(json_string_field(rec, "version"), Some("v22.11.0".to_string()));
    assert_eq!(json_string_field(rec, "lts"), Some("Jod".to_string()));
    assert_eq!(json_string_field(rec, "security"), None);
    assert_eq!(json_string_field(rec, "missing"), None);
}

#[test]
fn latest_lts_version_skips_current_releases() {
    let index = r#"[
{"version":"v23.3.0","date":"2024-11-20","files":["linux-x64","osx-arm64-tar"],"lts":false,"security":false},
{"version":"v22.11.0","date":"2024-10-29","files":["linux-x64"],"lts":"Jod","security":false},
{"version":"v20.18.1","date":"2024-11-20","files":["linux-x64"],"lts":"Iron","security":false}
]"#;
    assert_eq!(latest_lts_version(index), Some("v22.11.0".to_string()));
}

#[test]
fn json_string_field_needs_the_closing_quote() {
    assert_eq!(json_string_field(r#""version":"v22"#, "version"), None);
    assert_eq!(json_string_field(r#""version": "v22.0.0""#, "version"), None);
    assert_eq!(json_string_field(r#""version":"""#, "version"), Some(String::new()));
}

#[test]
fn latest_lts_version_rejects_odd_version_names() {
    let index = r#"[
{"version":"v24.0.0-rc.1","lts":"Next","security":false},
{"version":"v99999999999999999.0.0","lts":"Long","security":false},
{"version":"v20.18.1","lts":"Iron","security":false}
]"#;
    assert_eq!(latest_lts_version(index), Some("v20.18.1".to_string()));
    assert_eq!(latest_lts_version(r#"[{"version":"v23.3.0","lts":false}]"#), None);
    assert_eq!(latest_lts_version(""), None);
}

#[test]
fn json_escape_of_a_windows_launcher_path() {
    assert_eq!(
        json_escape(r"C:\Users\me\AppData\Roaming\Algoramming\LocalTCP\run_bridge.bat"),
        r"C:\\Users\\me\\AppData\\Roaming\\Algoramming\\LocalTCP\\run_bridge.bat"
    );
    assert_eq!(json_escape(""), "");
}

fn json_unescape(body: &str) -> Option<String> {
    let mut out = String::new();
    let mut it = body.chars();
    while let Some(c) = it.next() {
        match c {
            '\\' => match it.next()? {
                '\\' => out.push('\\'),
                '"' => out.push('"'),
                '/' => out.push('/'),
                'n' => out.push('\n'),
                't' => out.push('\t'),
                'r' => out.push('\r'),
                _ => return None,
            },
            '"' => return None,
            c if (c as u32) < 0x20 => return None,
            c => out.push(c),
        }
    }
    Some(out)
}

#[test]
fn json_escape_reads_back_unchanged() {
    for s in [r#"C:\Users\a "quoted"\dir"#, "/plain/path", r"\\server\share\", "", "ünïcödé \"\\"] {
        assert_eq!(json_unescape(&json_escape(s)), Some(s.to_string()));
    }
}
