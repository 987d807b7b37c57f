//! The operating system the installer runs on, and the host's fixed names.
use vstd::prelude::*;

verus! {

/// The operating system family the installer was built for.
#[derive(Clone, Copy, Debug, PartialEq, Eq, Structural)]
pub enum Platform {
    MacOs,
    Linux,
    Windows,
    /// Any other Unix-like system.
    Other,
}

/// The native-messaging host's registered name.
pub open spec fn host_name_text() -> Seq<char> {
    "com.algoramming.localtcp"@
}

pub fn host_name() -> (s: String)
    ensures
        s@ == host_name_text(),
{
    String::from_str("com.algoramming.localtcp")
}

/// The host manifest's file name, `<host name>.json`.
pub fn manifest_file_name() -> (s: String)
    ensures
        s@ == host_name_text() + ".json"@,
{
    let mut s = host_name();
    s.append(".json");
    s
}

} // verus!
