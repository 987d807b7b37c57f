use localtcp::cli::{
    action_for_lowercase_name, command_for, default_action_from_exe_name, help_lines,
    needs_node_hint, parse_args, Command,
};

fn args(a: &[&str]) -> Vec<String> {
    a.iter().map(|s| s.to_string()).collect()
}

#[test]
fn parse_args_finds_flags_and_the_action() {
    let r = parse_args(&args(&["-y", "uninstall", "install"]));
    assert!(r.scripted);
    assert!(!r.help);
    assert_eq!(r.action, Some("uninstall".to_string()));

    let r = parse_args(&args(&["--no-pause", "--help"]));
    assert!(r.scripted);
    assert!(r.help);
    assert_eq!(r.action, None);

    let r = parse_args(&args(&["help"]));
    assert!(r.help);
    assert_eq!(r.action, Some("help".to_string()));

    let r = parse_args(&Vec::new());
    assert!(!r.help && !r.scripted);
    assert_eq!(r.action, None);
}

#[test]
fn command_for_names() {
    assert_eq!(command_for("install"), Ok(Command::Install));
    assert_eq!(command_for("uninstall"), Ok(Command::Uninstall));
    assert_eq!(
        command_for("remove"),
        Err("unknown command 'remove'. Use: install | uninstall".to_string())
    );
    assert_eq!(
        command_for("Install"),
        Err("unknown command 'Install'. Use: install | uninstall".to_string())
    );
}

#[test]
fn node_errors_get_a_hint() {
    assert!(needs_node_hint("Node.js is required but was not found."));
    assert!(!needs_node_hint("could not register the host with any browser"));
}

#[test]
fn the_program_name_picks_the_default_action() {
    assert_eq!(action_for_lowercase_name("localtcp-uninstaller.exe"), "uninstall");
    assert_eq!(action_for_lowercase_name("localtcp-installer"), "install");
    assert_eq!(default_action_from_exe_name("LocalTCP-Uninstaller.EXE"), "uninstall");
    assert_eq!(default_action_from_exe_name("LocalTCP-Setup.exe"), "install");
    assert_eq!(default_action_from_exe_name("UNINSTALL"), "uninstall");
}

#[test]
fn help_text() {
    assert_eq!(
        help_lines("2.1.1"),
        vec![
            "Local TCP host installer v2.1.1\n".to_string(),
            "  localtcp-installer            install (default)".to_string(),
            "  localtcp-installer install    install and register the host".to_string(),
            "  localtcp-installer uninstall  remove the host and all registrations".to_string(),
            "  localtcp-installer -y         don't wait for a keypress before exiting".to_string(),
        ]
    );
}
