//! Shell alias definitions for the configuration files of Bash, Zsh and Fish.
//!
//! The library decides which file a shell reads its aliases from and what text
//! is appended to that file for a list of `(name, command)` pairs. Every
//! function states its result over `Seq<char>` models of the texts involved.

pub mod alias;
pub mod error;
pub mod plan;
pub mod shell;
pub mod strings;

pub use alias::{append_aliases, escape_single_quotes, format_alias, render_aliases};
pub use error::AliasError;
pub use plan::{plan_append, prepare_append, AppendPlan};
pub use shell::Shell;
