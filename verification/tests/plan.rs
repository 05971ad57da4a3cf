use std::path::PathBuf;

use shell_aliases::{plan_append, prepare_append, AliasError, AppendPlan, Shell};

#[test]
fn no_home_directory_no_plan() {
    for shell in [Shell::Bash, Shell::Zsh, Shell::Fish] {
        assert_eq!(
            plan_append(shell, None, &[("ll", "ls -la")]),
            Err(AliasError::NoHomeDirectory)
        );
        assert_eq!(plan_append(shell, None, &[]), Err(AliasError::NoHomeDirectory));
    }
}

#[test]
fn plan_for_bash() {
    let plan = plan_append(Shell::Bash, Some(PathBuf::from("/home/alice")), &[("ll", "ls -la")]);
    assert_eq!(
        plan,
        Ok(AppendPlan {
            home: PathBuf::from("/home/alice"),
            file: ".bashrc",
            text: String::from("alias ll='ls -la'\n"),
        })
    );
}

#[test]
fn plan_for_zsh_keeps_the_order() {
    let plan =
        plan_append(Shell::Zsh, Some(PathBuf::from("/home/bob")), &[("a", "x"), ("b", "y")])
            .unwrap();
    assert_eq!(plan.home, PathBuf::from("/home/bob"));
    assert_eq!(plan.file, ".zshrc");
    assert_eq!(plan.text, "alias a='x'\nalias b='y'\n");
}

#[test]
fn plan_for_fish_lies_under_the_home_directory() {
    let plan =
        plan_append(Shell::Fish, Some(PathBuf::from("/home/carol")), &[("g", "git status's")])
            .unwrap();
    assert_eq!(plan.file, ".config/fish/config.fish");
    assert_eq!(plan.text, "alias g='git status\\''s'\n");
    assert_eq!(
        plan.home.join(plan.file),
        PathBuf::from("/home/carol/.config/fish/config.fish")
    );
}

#[test]
fn plan_without_entries_still_names_the_file() {
    let plan = plan_append(Shell::Bash, Some(PathBuf::from("/root")), &[]).unwrap();
    assert_eq!(plan.home.join(plan.file), PathBuf::from("/root/.bashrc"));
    assert_eq!(plan.text, "");
}

#[test]
fn prepared_plan_holds_whatever_the_home_directory() {
    match prepare_append(Shell::Zsh, &[("a", "x"), ("b", "y")]) {
        Ok(plan) => {
            assert_eq!(plan.file, ".zshrc");
            assert_eq!(plan.text, "alias a='x'\nalias b='y'\n");
        }
        Err(error) => assert_eq!(error, AliasError::NoHomeDirectory),
    }
}
