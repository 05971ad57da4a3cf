use std::path::Path;
use std::str::FromStr;

use shell_aliases::{AliasError, Shell};

#[test]
fn lenient_accepts_any_letter_case() {
    assert_eq!(Shell::from_str("BASH"), Some(Shell::Bash));
    assert_eq!(Shell::from_str("Bash"), Some(Shell::Bash));
    assert_eq!(Shell::from_str("bash"), Some(Shell::Bash));
    assert_eq!(Shell::from_str("bAsH"), Some(Shell::Bash));
    assert_eq!(Shell::from_str("zsh"), Some(Shell::Zsh));
    assert_eq!(Shell::from_str("ZSH"), Some(Shell::Zsh));
    assert_eq!(Shell::from_str("Zsh"), Some(Shell::Zsh));
    assert_eq!(Shell::from_str("fish"), Some(Shell::Fish));
    assert_eq!(Shell::from_str("FISH"), Some(Shell::Fish));
    assert_eq!(Shell::from_str("FiSh"), Some(Shell::Fish));
}

#[test]
fn strict_accepts_any_letter_case() {
    assert_eq!(Shell::resolve("BASH"), Ok(Shell::Bash));
    assert_eq!(Shell::resolve("Bash"), Ok(Shell::Bash));
    assert_eq!(Shell::resolve("bash"), Ok(Shell::Bash));
    assert_eq!(Shell::resolve("zSH"), Ok(Shell::Zsh));
    assert_eq!(Shell::resolve("Fish"), Ok(Shell::Fish));
}

#[test]
fn parse_is_the_strict_form() {
    assert_eq!("BASH".parse::<Shell>(), Ok(Shell::Bash));
    assert_eq!("zsh".parse::<Shell>(), Ok(Shell::Zsh));
    assert_eq!(<Shell as FromStr>::from_str("Fish"), Ok(Shell::Fish));
    assert_eq!(
        "tcsh".parse::<Shell>(),
        Err(AliasError::UnrecognizedShell(String::from("tcsh")))
    );
}

#[test]
fn lenient_finds_nothing_in_other_text() {
    for text in [
        "", " ", "sh", "csh", "ksh", "bash ", " bash", "bashh", "ba sh", "bash\n", "zs", "zshell",
        "fishy", "fis", "powershell", "bash,zsh", "b\u{e4}sh", "F\u{130}SH", "f\u{131}sh",
    ] {
        assert_eq!(Shell::from_str(text), None, "{:?}", text);
    }
}

#[test]
fn strict_fails_with_the_text_as_given() {
    assert_eq!(
        Shell::resolve("PowerShell"),
        Err(AliasError::UnrecognizedShell(String::from("PowerShell")))
    );
    assert_eq!(Shell::resolve(""), Err(AliasError::UnrecognizedShell(String::new())));
    assert_eq!(
        Shell::resolve(" Bash"),
        Err(AliasError::UnrecognizedShell(String::from(" Bash")))
    );
}

#[test]
fn strict_and_lenient_agree() {
    for text in ["bash", "BASH", "Zsh", "fiSH", "", "sh", "nushell", "Bash "] {
        assert_eq!(Shell::resolve(text).ok(), Shell::from_str(text), "{:?}", text);
    }
}

#[test]
fn lowercase_names_are_taken_as_they_are() {
    assert_eq!(Shell::from_lowercase("bash"), Some(Shell::Bash));
    assert_eq!(Shell::from_lowercase("zsh"), Some(Shell::Zsh));
    assert_eq!(Shell::from_lowercase("fish"), Some(Shell::Fish));
    assert_eq!(Shell::from_lowercase("BASH"), None);
    assert_eq!(Shell::from_lowercase("Fish"), None);
    assert_eq!(Shell::from_lowercase(""), None);
}

#[test]
fn lowercasing_comes_before_the_comparison() {
    assert_eq!(Shell::from_lowercase("ZSH"), None);
    assert_eq!(Shell::from_str("ZSH"), Some(Shell::Zsh));
}

#[test]
fn every_shell_has_its_configuration_file() {
    assert_eq!(Shell::Bash.config_file(), ".bashrc");
    assert_eq!(Shell::Zsh.config_file(), ".zshrc");
    assert_eq!(Shell::Fish.config_file(), ".config/fish/config.fish");
}

#[test]
fn configuration_files_are_relative_and_distinct() {
    let shells = [Shell::Bash, Shell::Zsh, Shell::Fish];
    for a in shells {
        assert!(Path::new(a.config_file()).is_relative());
        assert!(a.config_file().starts_with('.'));
        for b in shells {
            assert_eq!(a.config_file() == b.config_file(), a == b);
        }
    }
}

#[test]
fn unrecognized_shell_message_ends_with_the_text() {
    let error = Shell::resolve("PowerShell").unwrap_err();
    assert_eq!(error.message(), "Unrecognised shell type: PowerShell");
    assert!(error.message().ends_with("PowerShell"));
    let empty = Shell::resolve("").unwrap_err();
    assert_eq!(empty.message(), "Unrecognised shell type: ");
}

#[test]
fn missing_home_message() {
    assert_eq!(AliasError::NoHomeDirectory.message(), "User does not have a home dir.");
}
