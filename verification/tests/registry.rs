use localtcp::registry::{
    env_references, expand_env, node_from_persisted_path, parse_reg_value, persisted_path_dirs,
};

fn strings(a: &[&str]) -> Vec<String> {
    a.iter().map(|s| s.to_string()).collect()
}

#[test]
fn env_references_in_order() {
    assert_eq!(
        env_references(r"%SystemRoot%\system32;%USERPROFILE%\bin;C:\x"),
        strings(&["SystemRoot", "USERPROFILE"])
    );
    assert_eq!(env_references("no refs"), Vec::<String>::new());
    assert_eq!(env_references("50% off"), Vec::<String>::new());
    assert_eq!(env_references("%%"), strings(&[""]));
}

#[test]
fn expand_env_substitutes_known_values() {
    let s = r"%SystemRoot%\system32;%USERPROFILE%\AppData\Roaming\npm";
    let vals = vec![Some(r"C:\Windows".to_string()), Some(r"C:\Users\me".to_string())];
    assert_eq!(expand_env(s, &vals), r"C:\Windows\system32;C:\Users\me\AppData\Roaming\npm");
}

#[test]
fn expand_env_leaves_unknown_variables_verbatim() {
    let s = r"%NOPE%\bin;%SystemRoot%";
    let vals = vec![None, Some(r"C:\Windows".to_string())];
    assert_eq!(expand_env(s, &vals), r"%NOPE%\bin;C:\Windows");
    let unknown = vec![None, None];
    assert_eq!(expand_env(s, &unknown), s);
}

#[test]
fn expand_env_keeps_an_unmatched_percent() {
    assert_eq!(expand_env("C:\\a%b", &Vec::new()), "C:\\a%b");
    assert_eq!(expand_env("%A%x%y", &vec![Some("1".to_string())]), "1x%y");
}

#[test]
fn expand_env_does_not_rescan_values() {
    assert_eq!(expand_env("%A%B%", &vec![Some("%".to_string())]), "%B%");
}

#[test]
fn persisted_path_dirs_split_trim_and_drop_empties() {
    let values = strings(&[r"C:\Windows; C:\Program Files\nodejs\ ;;", r" D:\tools "]);
    assert_eq!(
        persisted_path_dirs(&values),
        strings(&[r"C:\Windows", r"C:\Program Files\nodejs\", r"D:\tools"])
    );
    assert_eq!(persisted_path_dirs(&Vec::new()), Vec::<String>::new());
}

#[test]
fn node_from_persisted_path_takes_the_first_dir_with_node() {
    let dirs = strings(&[r"C:\Windows", r"C:\Program Files\nodejs\", r"D:\node"]);
    let found = node_from_persisted_path(&dirs, |p: &String| p.contains("nodejs"));
    assert_eq!(found, Some(r"C:\Program Files\nodejs\node.exe".to_string()));
    let asked = std::cell::RefCell::new(Vec::new());
    let none = node_from_persisted_path(&dirs, |p: &String| {
        asked.borrow_mut().push(p.clone());
        false
    });
    assert_eq!(none, None);
    assert_eq!(
        *asked.borrow(),
        strings(&[r"C:\Windows\node.exe", r"C:\Program Files\nodejs\node.exe", r"D:\node\node.exe"])
    );
}

#[test]
fn parse_reg_value_reads_the_value_after_its_type() {
    let out = "\r\nHKEY_CURRENT_USER\\Environment\r\n    Path    REG_EXPAND_SZ    %USERPROFILE%\\bin;C:\\Program Files\\nodejs\r\n\r\n";
    assert_eq!(parse_reg_value(out), Some("%USERPROFILE%\\bin;C:\\Program Files\\nodejs".to_string()));
    let out = "HKEY_CURRENT_USER\\Software\\X\r\n    (Default)    REG_SZ    C:\\i\\m.json\r\n";
    assert_eq!(parse_reg_value(out), Some("C:\\i\\m.json".to_string()));
    let out = "    Multi    REG_MULTI_SZ    a\\0b\r\n";
    assert_eq!(parse_reg_value(out), Some("a\\0b".to_string()));
    assert_eq!(parse_reg_value("    (Default)    REG_SZ    \r\n"), None);
    assert_eq!(parse_reg_value("ERROR: nothing here"), None);
}
