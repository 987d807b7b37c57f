//! The command line: what a run is asked to do.
use vstd::prelude::*;
use crate::text::{chars_of, contains, contains_chars, lowercase, starts_with, to_lowercase};

verus! {

/// What the arguments ask for.
pub struct CliRequest {
    /// `-h`, `--help` or `help` was given.
    pub help: bool,
    /// `-y` or `--no-pause` was given: never wait for a keypress.
    pub scripted: bool,
    /// The first argument that does not begin with `-`, if any.
    pub action: Option<String>,
}

pub open spec fn is_help_arg(a: Seq<char>) -> bool {
    a == "-h"@ || a == "--help"@ || a == "help"@
}

pub open spec fn is_scripted_arg(a: Seq<char>) -> bool {
    a == "-y"@ || a == "--no-pause"@
}

pub open spec fn first_action(args: Seq<Seq<char>>) -> Option<Seq<char>>
    decreases args.len(),
{
    if args.len() == 0 {
        None
    } else if !starts_with(args[0], seq!['-']) {
        Some(args[0])
    } else {
        first_action(args.skip(1))
    }
}

fn text_is(s: &String, lit: &str) -> (b: bool)
    ensures
        b == (s@ == lit@),
{
    let l = String::from_str(lit);
    *s == l
}

/// Reads the arguments (without the program name).
pub fn parse_args(args: &Vec<String>) -> (r: CliRequest)
    ensures
        r.help == exists|i: int| 0 <= i < args.len() && is_help_arg(args@[i]@),
        r.scripted == exists|i: int| 0 <= i < args.len() && is_scripted_arg(args@[i]@),
        match r.action {
            Some(a) => first_action(args.deep_view()) == Some(a@),
            None => first_action(args.deep_view()) is None,
        },
{
    let mut help = false;
    let mut scripted = false;
    let mut action: Option<String> = None;
    let ghost av = args.deep_view();
    let mut i: usize = 0;
    assert(av.skip(0) =~= av);
    while i < args.len()
        invariant
            i <= args.len(),
            av == args.deep_view(),
            help == exists|k: int| 0 <= k < i && is_help_arg(args@[k]@),
            scripted == exists|k: int| 0 <= k < i && is_scripted_arg(args@[k]@),
            match action {
                Some(a) => first_action(av) == Some(a@),
                None => first_action(av.skip(i as int)) == first_action(av),
            },
        decreases args.len() - i,
    {
        let a = &args[i];
        assert(a@ == av[i as int]);
        if text_is(a, "-h") || text_is(a, "--help") || text_is(a, "help") {
            help = true;
        }
        if text_is(a, "-y") || text_is(a, "--no-pause") {
            scripted = true;
        }
        if action.is_none() {
            assert(av.skip(i as int)[0] == av[i as int]);
            let ac = chars_of(a.as_str());
            let mut dash: Vec<char> = Vec::new();
            dash.push('-');
            assert(dash@ =~= seq!['-']);
            if !crate::text::starts_with_chars(&ac, &dash) {
                action = Some(a.clone());
            } else {
                assert(av.skip(i as int).skip(1) =~= av.skip(i + 1));
            }
        }
        i = i + 1;
    }
    assert(av.skip(av.len() as int) =~= Seq::<Seq<char>>::empty());
    CliRequest { help, scripted, action }
}

/// The two things a run can do.
#[derive(Clone, Copy, Debug, PartialEq, Eq, Structural)]
pub enum Command {
    Install,
    Uninstall,
}

pub open spec fn unknown_command_text(other: Seq<char>) -> Seq<char> {
    "unknown command '"@ + other + "'. Use: install | uninstall"@
}

/// The command an action names.
pub fn command_for(action: &str) -> (r: Result<Command, String>)
    ensures
        action@ == "install"@ ==> r == Ok::<Command, String>(Command::Install),
        action@ == "uninstall"@ ==> r == Ok::<Command, String>(Command::Uninstall),
        action@ != "install"@ && action@ != "uninstall"@ ==> (r matches Err(e) && e@
            == unknown_command_text(action@)),
{
    proof {
        reveal_strlit("install");
        reveal_strlit("uninstall");
        assert("install"@.len() != "uninstall"@.len());
    }
    let a = String::from_str(action);
    if text_is(&a, "install") {
        Ok(Command::Install)
    } else if text_is(&a, "uninstall") {
        Ok(Command::Uninstall)
    } else {
        let mut e = String::from_str("unknown command '");
        e.append(action);
        e.append("'. Use: install | uninstall");
        Err(e)
    }
}

/// An error about Node.js is followed by a hint to install it by hand.
pub fn needs_node_hint(err: &str) -> (b: bool)
    ensures
        b == contains(err@, "Node"@),
{
    let ec = chars_of(err);
    let nc = chars_of("Node");
    contains_chars(&ec, &nc)
}

pub open spec fn action_for_name(lower: Seq<char>) -> Seq<char> {
    if contains(lower, "uninstall"@) {
        "uninstall"@
    } else {
        "install"@
    }
}

/// The action implied by the program's (lower-cased) file name: the same program, shipped
/// as `...uninstaller.exe`, uninstalls when started without arguments.
pub fn action_for_lowercase_name(lower: &str) -> (a: String)
    ensures
        a@ == action_for_name(lower@),
{
    let lc = chars_of(lower);
    let uc = chars_of("uninstall");
    if contains_chars(&lc, &uc) {
        String::from_str("uninstall")
    } else {
        String::from_str("install")
    }
}

/// The action implied by the program's file name `name`.
pub fn default_action_from_exe_name(name: &str) -> (a: String)
    ensures
        a@ == action_for_name(lowercase(name@)),
{
    let lower = to_lowercase(name);
    action_for_lowercase_name(lower.as_str())
}

/// The usage text.
pub fn help_lines(version: &str) -> (lines: Vec<String>)
    ensures
        lines.len() == 5,
        lines@[0]@ == "Local TCP host installer v"@ + version@ + "\n"@,
        lines@[1]@ == "  localtcp-installer            install (default)"@,
        lines@[2]@ == "  localtcp-installer install    install and register the host"@,
        lines@[3]@ == "  localtcp-installer uninstall  remove the host and all registrations"@,
        lines@[4]@ == "  localtcp-installer -y         don't wait for a keypress before exiting"@,
{
    let mut lines: Vec<String> = Vec::new();
    let mut first = String::from_str("Local TCP host installer v");
    first.append(version);
    first.append("\n");
    lines.push(first);
    lines.push(String::from_str("  localtcp-installer            install (default)"));
    lines.push(String::from_str("  localtcp-installer install    install and register the host"));
    lines.push(
        String::from_str("  localtcp-installer uninstall  remove the host and all registrations"),
    );
    lines.push(
        String::from_str("  localtcp-installer -y         don't wait for a keypress before exiting"),
    );
    lines
}

} // verus!
