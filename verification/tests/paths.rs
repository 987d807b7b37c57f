use localtcp::paths::{
    browser_nm_dirs, install_dir_text, join, join_win, registration_outcome, resolved_install_dir,
    should_register, windows_reg_keys,
};
use localtcp::platform::Platform;

#[test]
fn join_puts_one_slash_between() {
    assert_eq!(join("/home/me", ".config"), "/home/me/.config");
    assert_eq!(join("/home/me/", ".config"), "/home/me/.config");
    assert_eq!(join("", "rel"), "rel");
    assert_eq!(join("/home/me", "/etc/x"), "/etc/x");
}

#[test]
fn browser_dirs_on_macos() {
    assert_eq!(
        browser_nm_dirs(Platform::MacOs, "/Users/me"),
        vec![
            "/Users/me/Library/Application Support/Google/Chrome/NativeMessagingHosts",
            "/Users/me/Library/Application Support/Google/Chrome Beta/NativeMessagingHosts",
            "/Users/me/Library/Application Support/Google/Chrome Canary/NativeMessagingHosts",
            "/Users/me/Library/Application Support/Chromium/NativeMessagingHosts",
            "/Users/me/Library/Application Support/Microsoft Edge/NativeMessagingHosts",
            "/Users/me/Library/Application Support/BraveSoftware/Brave-Browser/NativeMessagingHosts",
        ]
    );
}

#[test]
fn browser_dirs_on_linux() {
    assert_eq!(
        browser_nm_dirs(Platform::Linux, "/home/me"),
        vec![
            "/home/me/.config/google-chrome/NativeMessagingHosts",
            "/home/me/.config/chromium/NativeMessagingHosts",
            "/home/me/.config/microsoft-edge/NativeMessagingHosts",
            "/home/me/.config/BraveSoftware/Brave-Browser/NativeMessagingHosts",
        ]
    );
}

#[test]
fn no_browser_dirs_on_windows_or_elsewhere() {
    assert!(browser_nm_dirs(Platform::Windows, "C:\\Users\\me").is_empty());
    assert!(browser_nm_dirs(Platform::Other, "/home/me").is_empty());
}

#[test]
fn chrome_is_always_registered_others_only_when_present() {
    assert!(should_register("/home/me/.config/google-chrome/NativeMessagingHosts", false));
    assert!(should_register("/Users/me/Library/Application Support/Google/Chrome/NativeMessagingHosts", false));
    assert!(!should_register("/Users/me/Library/Application Support/Google/Chrome Beta/NativeMessagingHosts", false));
    assert!(!should_register("/home/me/.config/chromium/NativeMessagingHosts", false));
    assert!(should_register("/home/me/.config/chromium/NativeMessagingHosts", true));
}

#[test]
fn registration_must_reach_a_browser() {
    assert_eq!(registration_outcome(Platform::Linux, 2), Ok(()));
    assert_eq!(registration_outcome(Platform::Windows, 1), Ok(()));
    assert_eq!(
        registration_outcome(Platform::MacOs, 0),
        Err("could not register the host with any browser".to_string())
    );
    assert_eq!(
        registration_outcome(Platform::Windows, 0),
        Err("failed to register the host in the Windows registry".to_string())
    );
}

#[test]
fn registry_keys() {
    assert_eq!(
        windows_reg_keys(),
        vec![
            r"HKCU\Software\Google\Chrome\NativeMessagingHosts\com.algoramming.localtcp",
            r"HKCU\Software\Microsoft\Edge\NativeMessagingHosts\com.algoramming.localtcp",
            r"HKCU\Software\BraveSoftware\Brave-Browser\NativeMessagingHosts\com.algoramming.localtcp",
            r"HKCU\Software\Chromium\NativeMessagingHosts\com.algoramming.localtcp",
        ]
    );
}

#[test]
fn install_dir_must_be_absolute() {
    assert_eq!(
        resolved_install_dir(Platform::Linux, "/home/me/.local/lib/algoramming/localtcp", false),
        Ok("/home/me/.local/lib/algoramming/localtcp".to_string())
    );
    assert_eq!(
        resolved_install_dir(Platform::Linux, ".local/lib/algoramming/localtcp", true),
        Err("could not determine your user data directory — HOME is not set".to_string())
    );
    assert_eq!(
        resolved_install_dir(Platform::Windows, "", true),
        Err("could not determine your user data directory — APPDATA is not set".to_string())
    );
    assert_eq!(
        resolved_install_dir(Platform::MacOs, "", false),
        Err("could not determine your user data directory — HOME is not set".to_string())
    );
}

#[test]
fn install_dir_per_platform() {
    assert_eq!(install_dir_text(Platform::Linux, "/home/u", ""), "/home/u/.local/lib/algoramming/localtcp");
    assert_eq!(install_dir_text(Platform::Other, "/home/u/", ""), "/home/u/.local/lib/algoramming/localtcp");
    assert_eq!(install_dir_text(Platform::MacOs, "/Users/u", ""), "/Users/u/Library/Application Support/LocalTCP");
    assert_eq!(
        install_dir_text(Platform::Windows, r"C:\Users\u", r"C:\Users\u\AppData\Roaming"),
        r"C:\Users\u\AppData\Roaming\Algoramming\LocalTCP"
    );
    assert_eq!(install_dir_text(Platform::Linux, "", ""), ".local/lib/algoramming/localtcp");
    assert_eq!(install_dir_text(Platform::Windows, "", ""), r"Algoramming\LocalTCP");
}

#[test]
fn windows_join_rules() {
    assert_eq!(join_win(r"C:\a", "b"), r"C:\a\b");
    assert_eq!(join_win(r"C:\a\", "b"), r"C:\a\b");
    assert_eq!(join_win("C:/a/", "b"), "C:/a/b");
    assert_eq!(join_win("C:", "b"), "C:b");
    assert_eq!(join_win("", "b"), "b");
    assert_eq!(join_win(r"\\?\C:\a/", "b"), r"\\?\C:\a/\b");
}

#[test]
fn browser_dirs_are_distinct_with_one_primary_first() {
    for (platform, n) in [(Platform::MacOs, 6), (Platform::Linux, 4)] {
        let dirs = browser_nm_dirs(platform, "/home/u");
        assert_eq!(dirs.len(), n);
        for (i, d) in dirs.iter().enumerate() {
            assert!(d.starts_with("/home/u/") && d.ends_with("/NativeMessagingHosts"));
            assert_eq!(should_register(d, false), i == 0);
            for e in &dirs[i + 1..] {
                assert_ne!(d, e);
            }
        }
    }
}
