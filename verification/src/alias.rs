//! The text of alias definitions.
//!
//! An entry is a pair of texts, the alias's name and the command it stands
//! for. In contracts a list of entries is a `Seq<(Seq<char>, Seq<char>)>`, the
//! deep view of the slice that the functions take.

use vstd::prelude::*;
use vstd::std_specs::iter::IteratorSpec;
use vstd::string::StringExecFns;
use crate::shell::Shell;

verus! {

/// What stands for one character of a command inside Fish's single quotes: a
/// single quote becomes a backslash followed by two single quotes, any other
/// character stays.
pub open spec fn escaped_char(c: char) -> Seq<char> {
    if c == '\'' {
        seq!['\\', '\'', '\'']
    } else {
        seq![c]
    }
}

/// A command with every single quote escaped for Fish.
pub open spec fn escaped(command: Seq<char>) -> Seq<char>
    decreases command.len(),
{
    if command.len() == 0 {
        Seq::empty()
    } else {
        escaped(command.drop_last()) + escaped_char(command.last())
    }
}

/// The command as it stands between the single quotes of a definition: escaped
/// for Fish, unchanged for Bash and Zsh.
pub open spec fn quoted_command(shell: Shell, command: Seq<char>) -> Seq<char> {
    match shell {
        Shell::Bash | Shell::Zsh => command,
        Shell::Fish => escaped(command),
    }
}

/// The definition of one alias, without a line end.
pub open spec fn alias_line(shell: Shell, name: Seq<char>, command: Seq<char>) -> Seq<char> {
    "alias "@ + name + "='"@ + quoted_command(shell, command) + "'"@
}

/// The definitions of a list of entries, in the order of the list, each
/// followed by a line feed.
pub open spec fn alias_text(shell: Shell, entries: Seq<(Seq<char>, Seq<char>)>) -> Seq<char>
    decreases entries.len(),
{
    if entries.len() == 0 {
        Seq::empty()
    } else {
        alias_text(shell, entries.drop_last()) + alias_line(
            shell,
            entries.last().0,
            entries.last().1,
        ).push('\n')
    }
}

/// The text of a configuration file after the definitions of `entries` were
/// appended to it.
pub open spec fn appended(
    file: Seq<char>,
    shell: Shell,
    entries: Seq<(Seq<char>, Seq<char>)>,
) -> Seq<char> {
    file + alias_text(shell, entries)
}

/// How many line feeds a text holds: one for each line that it ends.
pub open spec fn line_feeds(text: Seq<char>) -> nat
    decreases text.len(),
{
    if text.len() == 0 {
        0
    } else {
        line_feeds(text.drop_last()) + if text.last() == '\n' {
            1nat
        } else {
            0nat
        }
    }
}

/// Escapes every single quote of a command for Fish.
pub fn escape_single_quotes(command: &str) -> (out: String)
    ensures
        out@ == escaped(command@),
{
    let mut out = String::new();
    for c in it: command.chars()
        invariant
            it.seq() == command@,
            out@ == escaped(command@.take(it.index())),
    {
        proof {
            let done = command@.take(it.index() + 1);
            assert(done.drop_last() == command@.take(it.index()));
            assert(done.last() == c);
        }
        if c == '\'' {
            out.push('\\');
            out.push('\'');
            out.push('\'');
        } else {
            out.push(c);
        }
    }
    proof {
        assert(command@.take(command@.len() as int) == command@);
    }
    out
}

/// Writes the definition of one alias for a shell, without a line end.
pub fn format_alias(shell: Shell, name: &str, command: &str) -> (line: String)
    ensures
        line@ == alias_line(shell, name@, command@),
{
    let mut line = "alias ".to_owned();
    line.append(name);
    line.append("='");
    match shell {
        Shell::Bash | Shell::Zsh => line.append(command),
        Shell::Fish => {
            let quoted = escape_single_quotes(command);
            line.append(quoted.as_str());
        },
    }
    line.append("'");
    line
}

/// Appends the definitions of `aliases` to the text of a configuration file:
/// what the file held stays in front, and the definitions follow in the order
/// given, one to a line.
pub fn append_aliases(file: &mut String, shell: Shell, aliases: &[(&str, &str)])
    ensures
        final(file)@ == appended(old(file)@, shell, aliases.deep_view()),
{
    let ghost entries = aliases.deep_view();
    let mut i: usize = 0;
    while i < aliases.len()
        invariant
            i <= aliases.len(),
            entries == aliases.deep_view(),
            file@ == old(file)@ + alias_text(shell, entries.take(i as int)),
        decreases aliases.len() - i,
    {
        let (name, command) = aliases[i];
        let line = format_alias(shell, name, command);
        proof {
            let done = entries.take(i + 1);
            assert(done.drop_last() == entries.take(i as int));
            assert(done.last() == (name@, command@));
        }
        file.append(line.as_str());
        file.push('\n');
        i += 1;
    }
    proof {
        assert(entries.take(aliases.len() as int) == entries);
    }
}

/// The text that defines `aliases` for a shell: what [`append_aliases`] adds
/// to a file.
pub fn render_aliases(shell: Shell, aliases: &[(&str, &str)]) -> (text: String)
    ensures
        text@ == alias_text(shell, aliases.deep_view()),
{
    let mut text = String::new();
    append_aliases(&mut text, shell, aliases);
    text
}

/// Escaping goes character by character: the escaped form of two texts in a
/// row is the two escaped forms in a row.
pub proof fn lemma_escaped_concat(a: Seq<char>, b: Seq<char>)
    ensures
        escaped(a + b) == escaped(a) + escaped(b),
    decreases b.len(),
{
    if b.len() == 0 {
        assert(a + b == a);
    } else {
        assert((a + b).drop_last() == a + b.drop_last());
        lemma_escaped_concat(a, b.drop_last());
    }
}

/// A command without a single quote is its own escaped form, so Fish gets
/// the command that Bash and Zsh get.
pub proof fn lemma_escaped_plain(command: Seq<char>)
    requires
        !command.contains('\''),
    ensures
        escaped(command) == command,
        quoted_command(Shell::Fish, command) == quoted_command(Shell::Bash, command),
    decreases command.len(),
{
    if command.len() > 0 {
        let rest = command.drop_last();
        assert(command.last() == command[command.len() - 1]);
        assert(command.contains(command.last()));
        assert forall|i: int| 0 <= i < rest.len() implies rest[i] != '\'' by {
            assert(command.contains(command[i]));
        }
        lemma_escaped_plain(rest);
        assert(rest + seq![command.last()] == command);
    }
}

/// The definitions of two lists in a row are the definitions of the first
/// followed by those of the second: the order of the entries is the order of
/// the lines.
pub proof fn lemma_alias_text_concat(
    shell: Shell,
    first: Seq<(Seq<char>, Seq<char>)>,
    second: Seq<(Seq<char>, Seq<char>)>,
)
    ensures
        alias_text(shell, first + second) == alias_text(shell, first) + alias_text(shell, second),
    decreases second.len(),
{
    if second.len() == 0 {
        assert(first + second == first);
    } else {
        assert((first + second).drop_last() == first + second.drop_last());
        lemma_alias_text_concat(shell, first, second.drop_last());
    }
}

/// One entry gives one line: its definition and a line feed.
pub proof fn lemma_alias_text_single(shell: Shell, name: Seq<char>, command: Seq<char>)
    ensures
        alias_text(shell, seq![(name, command)]) == alias_line(shell, name, command).push('\n'),
{
    let entries = seq![(name, command)];
    assert(entries.drop_last() == Seq::<(Seq<char>, Seq<char>)>::empty());
    assert(alias_text(shell, entries.drop_last()) == Seq::<char>::empty());
}

/// Every entry makes the text longer: a definition has at least the ten
/// characters around the name and the command.
pub proof fn lemma_alias_text_len(shell: Shell, entries: Seq<(Seq<char>, Seq<char>)>)
    ensures
        alias_text(shell, entries).len() >= 10 * entries.len(),
    decreases entries.len(),
{
    if entries.len() > 0 {
        reveal_strlit("alias ");
        reveal_strlit("='");
        reveal_strlit("'");
        lemma_alias_text_len(shell, entries.drop_last());
    }
}

/// The line feeds of two texts in a row are those of the first and those of
/// the second.
proof fn lemma_line_feeds_concat(a: Seq<char>, b: Seq<char>)
    ensures
        line_feeds(a + b) == line_feeds(a) + line_feeds(b),
    decreases b.len(),
{
    if b.len() == 0 {
        assert(a + b == a);
    } else {
        assert((a + b).drop_last() == a + b.drop_last());
        lemma_line_feeds_concat(a, b.drop_last());
    }
}

/// A text that holds no line feed counts none.
proof fn lemma_line_feeds_none(text: Seq<char>)
    requires
        !text.contains('\n'),
    ensures
        line_feeds(text) == 0,
    decreases text.len(),
{
    if text.len() > 0 {
        assert(text.contains(text[text.len() - 1]));
        assert forall|i: int| 0 <= i < text.len() - 1 implies text.drop_last()[i] != '\n' by {
            assert(text.contains(text[i]));
        }
        lemma_line_feeds_none(text.drop_last());
    }
}

/// Escaping neither adds nor removes a line feed.
proof fn lemma_line_feeds_escaped(command: Seq<char>)
    ensures
        line_feeds(escaped(command)) == line_feeds(command),
    decreases command.len(),
{
    if command.len() > 0 {
        lemma_line_feeds_escaped(command.drop_last());
        lemma_line_feeds_concat(escaped(command.drop_last()), escaped_char(command.last()));
        reveal_with_fuel(line_feeds, 4);
    }
}

/// A definition whose name and command hold no line feed is one line: the
/// words around them hold none, and escaping adds none.
pub proof fn lemma_alias_line_is_one_line(shell: Shell, name: Seq<char>, command: Seq<char>)
    requires
        !name.contains('\n'),
        !command.contains('\n'),
    ensures
        line_feeds(alias_line(shell, name, command)) == 0,
        line_feeds(alias_line(shell, name, command).push('\n')) == 1,
{
    reveal_strlit("alias ");
    reveal_strlit("='");
    reveal_strlit("'");
    let quoted = quoted_command(shell, command);
    lemma_line_feeds_none("alias "@);
    lemma_line_feeds_none(name);
    lemma_line_feeds_none("='"@);
    lemma_line_feeds_none(command);
    lemma_line_feeds_escaped(command);
    lemma_line_feeds_none("'"@);
    lemma_line_feeds_concat("alias "@, name);
    lemma_line_feeds_concat("alias "@ + name, "='"@);
    lemma_line_feeds_concat("alias "@ + name + "='"@, quoted);
    lemma_line_feeds_concat("alias "@ + name + "='"@ + quoted, "'"@);
    let line = alias_line(shell, name, command);
    assert(line.push('\n').drop_last() == line);
}

/// Entries without a line feed in their names and commands give as many
/// lines as there are entries, so appending them makes a file longer by that
/// many lines.
pub proof fn lemma_one_line_for_each_entry(
    file: Seq<char>,
    shell: Shell,
    entries: Seq<(Seq<char>, Seq<char>)>,
)
    requires
        forall|i: int|
            0 <= i < entries.len() ==> !(#[trigger] entries[i]).0.contains('\n')
                && !entries[i].1.contains('\n'),
    ensures
        line_feeds(alias_text(shell, entries)) == entries.len(),
        line_feeds(appended(file, shell, entries)) == line_feeds(file) + entries.len(),
    decreases entries.len(),
{
    if entries.len() > 0 {
        let last = entries.last();
        assert(last == entries[entries.len() - 1]);
        lemma_one_line_for_each_entry(file, shell, entries.drop_last());
        lemma_alias_line_is_one_line(shell, last.0, last.1);
        lemma_line_feeds_concat(
            alias_text(shell, entries.drop_last()),
            alias_line(shell, last.0, last.1).push('\n'),
        );
    }
    lemma_line_feeds_concat(file, alias_text(shell, entries));
}

/// Appending keeps what the file held, in front and unchanged, and adds
/// exactly the definitions.
pub proof fn lemma_append_keeps_content(
    file: Seq<char>,
    shell: Shell,
    entries: Seq<(Seq<char>, Seq<char>)>,
)
    ensures
        appended(file, shell, entries).len() == file.len() + alias_text(shell, entries).len(),
        appended(file, shell, entries).take(file.len() as int) == file,
        appended(file, shell, entries).skip(file.len() as int) == alias_text(shell, entries),
{
}

/// Appending the same entries twice leaves their definitions twice: nothing
/// is taken for already there, and the file never gets shorter.
pub proof fn lemma_append_twice(file: Seq<char>, shell: Shell, entries: Seq<(Seq<char>, Seq<char>)>)
    ensures
        appended(appended(file, shell, entries), shell, entries) == file + alias_text(
            shell,
            entries,
        ) + alias_text(shell, entries),
        file.len() <= appended(file, shell, entries).len() <= appended(
            appended(file, shell, entries),
            shell,
            entries,
        ).len(),
        entries.len() > 0 ==> file.len() < appended(file, shell, entries).len() < appended(
            appended(file, shell, entries),
            shell,
            entries,
        ).len(),
{
    lemma_alias_text_len(shell, entries);
}

} // verus!
