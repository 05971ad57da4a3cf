//! Where the definitions go: the configuration file of a shell, under the
//! home directory of the current user.

use std::path::PathBuf;
use vstd::prelude::*;
use crate::alias::{alias_text, render_aliases};
use crate::error::AliasError;
use crate::shell::Shell;

verus! {

/// `std::path::PathBuf`, taken as it comes: a path is handed on and never
/// looked into.
#[verifier::external_type_specification]
#[verifier::external_body]
pub struct ExPathBuf(std::path::PathBuf);

/// An append that has been decided and not yet carried out.
#[derive(Debug, PartialEq, Eq)]
pub struct AppendPlan {
    /// The home directory of the user.
    pub home: PathBuf,
    /// The path of the configuration file, relative to `home`.
    pub file: &'static str,
    /// The text to add at the end of the file.
    pub text: String,
}

/// `dirs::home_dir`: the home directory of the current user, or `None` where
/// the system names none. The answer depends on the environment of the
/// process, so nothing is claimed of it.
#[verifier::external_body]
fn home_dir() -> (home: Option<PathBuf>) {
    dirs::home_dir()
}

/// Decides an append from the outcome of the lookup of the home directory.
/// Without a home directory there is no plan, for any shell and any entries;
/// with one, the plan names the shell's configuration file under it and holds
/// the definitions of `aliases`.
pub fn plan_append(
    shell: Shell,
    home: Option<PathBuf>,
    aliases: &[(&str, &str)],
) -> (res: Result<AppendPlan, AliasError>)
    ensures
        home is None ==> res == Err::<AppendPlan, AliasError>(AliasError::NoHomeDirectory),
        home matches Some(dir) ==> (res matches Ok(plan) && plan.home == dir && plan.file@
            == shell.config_path() && plan.text@ == alias_text(shell, aliases.deep_view())),
{
    match home {
        Some(dir) => Ok(
            AppendPlan { home: dir, file: shell.config_file(), text: render_aliases(shell, aliases) },
        ),
        None => Err(AliasError::NoHomeDirectory),
    }
}

/// Looks up the home directory of the current user and decides the append of
/// `aliases` to the shell's configuration file. Whether there is a home
/// directory is for the system to say; the only failure is its absence.
pub fn prepare_append(shell: Shell, aliases: &[(&str, &str)]) -> (res: Result<AppendPlan, AliasError>)
    ensures
        res matches Ok(plan) ==> plan.file@ == shell.config_path() && plan.text@ == alias_text(
            shell,
            aliases.deep_view(),
        ),
        res matches Err(error) ==> error == AliasError::NoHomeDirectory,
{
    plan_append(shell, home_dir(), aliases)
}

} // verus!
