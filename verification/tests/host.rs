use localtcp::host::{index_contents, launcher_script, manifest_for_host, patch_shebang, recorded_node};
use localtcp::platform::{host_name, manifest_file_name, Platform};

#[test]
fn patch_shebang_replaces_the_first_line() {
    let src = "#!/usr/bin/env node\n'use strict';\nmain();\n";
    assert_eq!(patch_shebang(src, "/usr/local/bin/node"), "#!/usr/local/bin/node\n'use strict';\nmain();\n");
}

#[test]
fn patch_shebang_of_a_single_line_keeps_nothing_after_it() {
    assert_eq!(patch_shebang("#!/usr/bin/env node", "/opt/node/bin/node"), "#!/opt/node/bin/node\n");
    assert_eq!(patch_shebang("", "/n"), "#!/n\n");
}

#[test]
fn patch_shebang_twice_is_patching_once_with_the_last_path() {
    let src = "#!/usr/bin/env node\nrun();\n";
    let twice = patch_shebang(&patch_shebang(src, "/a/node"), "/b/node");
    assert_eq!(twice, patch_shebang(src, "/b/node"));
}

#[test]
fn launcher_names_node_and_the_script_next_to_it() {
    assert_eq!(
        launcher_script(r"C:\Program Files\nodejs\node.exe"),
        "@echo off\r\n\"C:\\Program Files\\nodejs\\node.exe\" \"%~dp0index.js\" %*\r\n"
    );
}

#[test]
fn index_contents_is_verbatim_on_windows_and_patched_elsewhere() {
    let js = "#!/usr/bin/env node\nrun();\n";
    assert_eq!(index_contents(Platform::Windows, js, r"C:\node.exe"), js);
    assert_eq!(index_contents(Platform::Linux, js, "/usr/bin/node"), "#!/usr/bin/node\nrun();\n");
    assert_eq!(index_contents(Platform::MacOs, js, "/opt/homebrew/bin/node"), "#!/opt/homebrew/bin/node\nrun();\n");
}

#[test]
fn manifest_gets_the_escaped_host_path() {
    let tmpl = "{\n  \"name\": \"com.algoramming.localtcp\",\n  \"path\": \"HOST_PATH\",\n  \"type\": \"stdio\"\n}\n";
    assert_eq!(
        manifest_for_host(tmpl, r"C:\Users\me\AppData\Roaming\Algoramming\LocalTCP\run_bridge.bat"),
        "{\n  \"name\": \"com.algoramming.localtcp\",\n  \"path\": \"C:\\\\Users\\\\me\\\\AppData\\\\Roaming\\\\Algoramming\\\\LocalTCP\\\\run_bridge.bat\",\n  \"type\": \"stdio\"\n}\n"
    );
    assert_eq!(manifest_for_host("\"HOST_PATH\"", "/home/me/index.js"), "\"/home/me/index.js\"");
    assert_eq!(manifest_for_host("no placeholder", "/x"), "no placeholder");
}

#[test]
fn recorded_node_reads_the_shebang_back() {
    assert_eq!(recorded_node(Platform::Linux, "#! /usr/bin/node \nrun();\n"), Some("/usr/bin/node".to_string()));
    assert_eq!(recorded_node(Platform::MacOs, "#!/opt/homebrew/bin/node\r\nrun();"), Some("/opt/homebrew/bin/node".to_string()));
    assert_eq!(recorded_node(Platform::Linux, "'use strict';\n#!/usr/bin/node\n"), None);
    assert_eq!(recorded_node(Platform::Linux, ""), None);
}

#[test]
fn recorded_node_reads_the_launcher_back() {
    let bat = launcher_script(r"C:\Program Files\nodejs\node.exe");
    assert_eq!(recorded_node(Platform::Windows, &bat), Some(r"C:\Program Files\nodejs\node.exe".to_string()));
    assert_eq!(recorded_node(Platform::Windows, "@echo off\r\n  \"C:\\n.exe\" x\r\n"), Some(r"C:\n.exe".to_string()));
    assert_eq!(recorded_node(Platform::Windows, "@echo off\r\nnode index.js\r\n"), None);
}

#[test]
fn what_is_installed_reads_back_as_the_node_that_was_written() {
    let node = "/home/me/.local/lib/algoramming/localtcp/node/bin/node";
    let js = index_contents(Platform::Linux, "#!/usr/bin/env node\nrun();\n", node);
    assert_eq!(recorded_node(Platform::Linux, &js), Some(node.to_string()));
    let win = r"C:\Program Files\nodejs\node.exe";
    assert_eq!(recorded_node(Platform::Windows, &launcher_script(win)), Some(win.to_string()));
}

#[test]
fn host_names() {
    assert_eq!(host_name(), "com.algoramming.localtcp");
    assert_eq!(manifest_file_name(), "com.algoramming.localtcp.json");
}
