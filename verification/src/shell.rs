//! The supported shells and how a shell is recognized by its name.

use vstd::prelude::*;
use crate::error::AliasError;
use crate::strings::lowercase_of;

verus! {

/// A shell whose configuration file can take alias definitions.
#[derive(Debug, Clone, Copy, PartialEq, Eq, Structural)]
pub enum Shell {
    Bash,
    Zsh,
    Fish,
}

impl Shell {
    /// The lowercase name under which a shell is recognized.
    pub open spec fn name(self) -> Seq<char> {
        match self {
            Shell::Bash => "bash"@,
            Shell::Zsh => "zsh"@,
            Shell::Fish => "fish"@,
        }
    }

    /// The path of a shell's configuration file, relative to the user's home
    /// directory.
    pub open spec fn config_path(self) -> Seq<char> {
        match self {
            Shell::Bash => ".bashrc"@,
            Shell::Zsh => ".zshrc"@,
            Shell::Fish => ".config/fish/config.fish"@,
        }
    }

    /// The shell that a lowercase text names, if it names one.
    pub open spec fn named(lowered: Seq<char>) -> Option<Shell> {
        if lowered == Shell::Bash.name() {
            Some(Shell::Bash)
        } else if lowered == Shell::Zsh.name() {
            Some(Shell::Zsh)
        } else if lowered == Shell::Fish.name() {
            Some(Shell::Fish)
        } else {
            None
        }
    }

    /// The shell that a text names when letter case is ignored: the answer of
    /// the lenient form, [`Shell::from_str`].
    pub open spec fn recognized(text: Seq<char>) -> Option<Shell> {
        Shell::named(lowercase_of(text))
    }

    /// The answer of the strict form, [`Shell::resolve`]: the shell that a text
    /// names, or else the text itself, as it was given.
    pub open spec fn resolved(text: Seq<char>) -> Result<Shell, Seq<char>> {
        match Shell::recognized(text) {
            Some(shell) => Ok(shell),
            None => Err(text),
        }
    }

    /// The path of the shell's configuration file, relative to the user's home
    /// directory.
    pub fn config_file(self) -> (path: &'static str)
        ensures
            path@ == self.config_path(),
    {
        match self {
            Shell::Bash => ".bashrc",
            Shell::Zsh => ".zshrc",
            Shell::Fish => ".config/fish/config.fish",
        }
    }

    /// Recognizes a shell by its lowercase name.
    pub fn from_lowercase(lowered: &str) -> (shell: Option<Shell>)
        ensures
            shell == Shell::named(lowered@),
    {
        if same_text(lowered, "bash") {
            Some(Shell::Bash)
        } else if same_text(lowered, "zsh") {
            Some(Shell::Zsh)
        } else if same_text(lowered, "fish") {
            Some(Shell::Fish)
        } else {
            None
        }
    }

    /// Recognizes a shell by its name in any letter case; `None` for a text
    /// that names no supported shell.
    pub fn from_str(shell: &str) -> (found: Option<Shell>)
        ensures
            found == Shell::recognized(shell@),
    {
        let lowered = shell.to_lowercase();
        Shell::from_lowercase(lowered.as_str())
    }

    /// Recognizes a shell by its name in any letter case, and fails for a text
    /// that names no supported shell. The failure carries the text as given.
    pub fn resolve(text: &str) -> (res: Result<Shell, AliasError>)
        ensures
            res matches Ok(shell) ==> Shell::resolved(text@) == Ok::<Shell, Seq<char>>(shell),
            res matches Err(error) ==> error matches AliasError::UnrecognizedShell(input)
                && Shell::resolved(text@) == Err::<Shell, Seq<char>>(input@),
    {
        match Shell::from_str(text) {
            Some(shell) => Ok(shell),
            None => Err(AliasError::UnrecognizedShell(text.to_owned())),
        }
    }
}

/// Whether two texts hold the same characters.
fn same_text(a: &str, b: &str) -> (same: bool)
    ensures
        same == (a@ == b@),
{
    a.to_owned() == b.to_owned()
}

/// Different shells have different names.
pub proof fn lemma_names_differ(a: Shell, b: Shell)
    ensures
        a.name() == b.name() <==> a == b,
{
    reveal_strlit("bash");
    reveal_strlit("zsh");
    reveal_strlit("fish");
    assert("bash"@.len() == 4 && "bash"@[0] == 'b');
    assert("zsh"@.len() == 3);
    assert("fish"@.len() == 4 && "fish"@[0] == 'f');
}

/// A shell's name in any letter case names that shell, to the lenient form
/// and to the strict form alike: a text whose lowercase form is the name of a
/// shell is recognized as that shell and as no other.
pub proof fn lemma_recognized_in_any_case(text: Seq<char>, shell: Shell)
    ensures
        lowercase_of(text) == shell.name() <==> Shell::recognized(text) == Some(shell),
        lowercase_of(text) == shell.name() <==> Shell::resolved(text) == Ok::<Shell, Seq<char>>(
            shell,
        ),
{
    lemma_names_differ(shell, Shell::Bash);
    lemma_names_differ(shell, Shell::Zsh);
    lemma_names_differ(shell, Shell::Fish);
}

/// Any other text names no shell: where the lowercase form of a text is none
/// of "bash", "zsh" and "fish", and only there, the lenient form finds nothing
/// and the strict form fails with the text as it was given.
pub proof fn lemma_unrecognized_otherwise(text: Seq<char>)
    ensures
        Shell::recognized(text) is None <==> (lowercase_of(text) != "bash"@ && lowercase_of(text)
            != "zsh"@ && lowercase_of(text) != "fish"@),
        Shell::resolved(text) == Err::<Shell, Seq<char>>(text) <==> Shell::recognized(text) is None,
{
}

/// Every shell has its own configuration file, and its path is relative: it
/// begins with a dot, not with a separator.
pub proof fn lemma_config_paths(a: Shell, b: Shell)
    ensures
        a.config_path().len() > 0,
        a.config_path()[0] == '.',
        a.config_path() == b.config_path() <==> a == b,
{
    reveal_strlit(".bashrc");
    reveal_strlit(".zshrc");
    reveal_strlit(".config/fish/config.fish");
    assert(".bashrc"@.len() == 7 && ".bashrc"@[0] == '.');
    assert(".zshrc"@.len() == 6 && ".zshrc"@[0] == '.');
    assert(".config/fish/config.fish"@.len() == 24 && ".config/fish/config.fish"@[0] == '.');
}

impl std::str::FromStr for Shell {
    type Err = AliasError;

    /// The strict form behind `str::parse`: what [`Shell::resolve`] returns.
    fn from_str(s: &str) -> (res: Result<Shell, AliasError>) {
        Shell::resolve(s)
    }
}

} // verus!
