use devya::cert::CaError;
use devya::trust::{
    ca_files_missing, check_command, check_outcome, default_keychain_name, install_command,
    install_outcome, interception_enabled, keychain_command, needs_keychain, Platform,
};

#[test]
fn keychain_name_is_trimmed_and_unquoted() {
    assert_eq!(
        default_keychain_name("    \"/Users/me/Library/Keychains/login.keychain-db\"\n"),
        "/Users/me/Library/Keychains/login.keychain-db"
    );
    assert_eq!(default_keychain_name(" \t\n"), "");
    assert_eq!(default_keychain_name("a \"b\" c"), "a b c");
}

#[test]
fn macos_install_uses_security_with_the_keychain() {
    let c = install_command(Platform::MacOs, "login.keychain", "/d/cert/ca.crt").unwrap();
    assert_eq!(c.program, "security");
    assert_eq!(c.args, vec!["add-trusted-cert", "-k", "login.keychain", "/d/cert/ca.crt"]);
    let k = keychain_command();
    assert_eq!(k.program, "security");
    assert_eq!(k.args, vec!["default-keychain"]);
    assert!(needs_keychain(Platform::MacOs));
    assert!(!needs_keychain(Platform::Windows));
}

#[test]
fn windows_install_uses_certutil() {
    let c = install_command(Platform::Windows, "", "C:\\d\\ca.crt").unwrap();
    assert_eq!(c.program, "certutil");
    assert_eq!(c.args, vec!["-addstore", "-user", "Root", "C:\\d\\ca.crt"]);
}

#[test]
fn other_platforms_are_unsupported() {
    assert!(matches!(install_command(Platform::Other, "", "x"), Err(CaError::UnsupportedPlatform)));
    assert!(matches!(check_command(Platform::Other, "", "x"), Err(CaError::UnsupportedPlatform)));
    assert!(matches!(check_command(Platform::Windows, "", "x"), Err(CaError::NotSupported)));
}

#[test]
fn macos_check_uses_verify_cert() {
    let c = check_command(Platform::MacOs, "k", "/p").unwrap();
    assert_eq!(c.program, "security");
    assert_eq!(c.args, vec!["verify-cert", "-k", "k", "-c", "/p"]);
}

#[test]
fn outcomes_follow_the_exit_status() {
    assert_eq!(install_outcome(true, true), Ok(()));
    assert_eq!(install_outcome(true, false), Err(CaError::InstallFailed));
    assert_eq!(install_outcome(false, false), Err(CaError::InstallFailed));
    assert_eq!(check_outcome(true, true), Ok(true));
    assert_eq!(check_outcome(true, false), Ok(false));
    assert_eq!(check_outcome(false, true), Err(CaError::CheckFailed));
}

#[test]
fn repeated_checks_read_the_same() {
    assert_eq!(check_outcome(true, true), check_outcome(true, true));
    assert_eq!(check_outcome(true, false), check_outcome(true, false));
}

#[test]
fn interception_needs_a_trusted_root() {
    assert!(interception_enabled(Ok(true)));
    assert!(!interception_enabled(Ok(false)));
    assert!(!interception_enabled(Err(CaError::NotSupported)));
}

#[test]
fn a_missing_file_means_a_new_root() {
    assert!(!ca_files_missing(true, true));
    assert!(ca_files_missing(false, true));
    assert!(ca_files_missing(true, false));
}

#[test]
fn errors_have_their_texts() {
    assert_eq!(CaError::InstallFailed.message(), "Failed to install cert");
    assert_eq!(CaError::UnsupportedPlatform.message(), "Unsupported platform");
    assert_eq!(CaError::MissingRoot.message(), "No ca root");
    assert_eq!(CaError::CheckFailed.message(), "Failed to check cert");
}

#[test]
fn unicode_white_space_around_the_keychain_is_trimmed() {
    assert_eq!(default_keychain_name("\u{3000}\u{a0}\"k\"\u{2028}\u{85}"), "k");
    assert_eq!(default_keychain_name("\u{200b}k"), "\u{200b}k");
}
