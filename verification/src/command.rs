//! Classification of a raw command line: directory changes, the local
//! `clear`, and the programs that need a persistent terminal.

use crate::docker_vm::DockerVmManager;
use crate::session::text_of;
use crate::text::{
    after_first_token, chars_of, first_token, lowercase, second_token, skip_blanks, skip_solid,
    starts_with, to_lowercase, trim, trimmed,
};
use vstd::prelude::*;
use vstd::string::StringExecFns;

verus! {

/// Whether the command is the built-in that is answered without the sandbox.
pub open spec fn is_clear(command: Seq<char>) -> bool {
    trimmed(command) == "clear"@
}

/// Whether the command is `cd`, alone or followed by a space and more.
pub open spec fn is_directory_change(command: Seq<char>) -> bool {
    let t = trimmed(command);
    t == "cd"@ || (t.len() >= 3 && t.take(3) == "cd "@)
}

/// The argument of a directory change: the second blank-separated token of
/// the command. Whatever follows it does not count. `None` for a bare `cd`
/// and for any command that is no directory change.
pub open spec fn change_target(command: Seq<char>) -> Option<Seq<char>> {
    if is_directory_change(command) {
        second_token(trimmed(command))
    } else {
        None
    }
}

/// The programs that need a persistent terminal: editors, pagers, `man`,
/// system monitors, interpreter and database shells, remote-access clients.
pub open spec fn interactive_programs() -> Seq<Seq<char>> {
    seq![
        "vim"@,
        "vi"@,
        "nano"@,
        "emacs"@,
        "less"@,
        "more"@,
        "man"@,
        "htop"@,
        "top"@,
        "mysql"@,
        "psql"@,
        "mongo"@,
        "redis-cli"@,
        "python"@,
        "python3"@,
        "node"@,
        "irb"@,
        "ssh"@,
        "telnet"@,
        "ftp"@,
        "sftp"@,
    ]
}

/// Whether `text` runs `program`: it is the program's name, or the name
/// followed at once by a space.
pub open spec fn runs_program(text: Seq<char>, program: Seq<char>) -> bool {
    program.is_prefix_of(text) && (text.len() == program.len() || text[program.len() as int]
        == ' ')
}

/// Whether a trimmed, lowercase command line runs one of the interactive
/// programs.
pub open spec fn is_interactive_text(text: Seq<char>) -> bool {
    exists|i: int|
        0 <= i < interactive_programs().len() && runs_program(text, #[trigger] interactive_programs()[i])
}

/// Whether a raw command line is interactive: its trimmed, lowercase form
/// runs one of the interactive programs.
pub open spec fn is_interactive(command: Seq<char>) -> bool {
    is_interactive_text(lowercase(trimmed(command)))
}

/// The names of the interactive programs.
pub fn interactive_program_names() -> (names: Vec<&'static str>)
    ensures
        names@.len() == interactive_programs().len(),
        forall|i: int| 0 <= i < names@.len() ==> (#[trigger] names@[i])@ == interactive_programs()[i],
{
    vec![
        "vim",
        "vi",
        "nano",
        "emacs",
        "less",
        "more",
        "man",
        "htop",
        "top",
        "mysql",
        "psql",
        "mongo",
        "redis-cli",
        "python",
        "python3",
        "node",
        "irb",
        "ssh",
        "telnet",
        "ftp",
        "sftp",
    ]
}

/// Decides whether a command line that is already trimmed and in lowercase
/// runs one of the interactive programs.
pub fn is_interactive_lowered(text: &str) -> (interactive: bool)
    ensures
        interactive == is_interactive_text(text@),
{
    let chars = chars_of(text);
    let names = interactive_program_names();
    let mut i: usize = 0;
    while i < names.len()
        invariant
            chars@ == text@,
            i <= names.len(),
            names@.len() == interactive_programs().len(),
            forall|k: int| 0 <= k < names@.len() ==> (#[trigger] names@[k])@ == interactive_programs()[k],
            forall|k: int| 0 <= k < i ==> !runs_program(text@, #[trigger] interactive_programs()[k]),
        decreases names.len() - i,
    {
        let name = chars_of(names[i]);
        if starts_with(&chars, &name) && (chars.len() == name.len() || chars[name.len()] == ' ') {
            assert(runs_program(text@, interactive_programs()[i as int]));
            return true;
        }
        i += 1;
    }
    false
}

/// Tells whether a command is the built-in `clear`.
pub fn is_clear_command(command: &str) -> (clear: bool)
    ensures
        clear == is_clear(command@),
{
    let t = chars_of(trim(command));
    proof {
        reveal_strlit("clear");
    }
    let clear = t.len() == 5 && t[0] == 'c' && t[1] == 'l' && t[2] == 'e' && t[3] == 'a' && t[4]
        == 'r';
    proof {
        if clear {
            assert(t@ =~= "clear"@);
        }
    }
    clear
}

impl DockerVmManager {
    /// Classifies a command for directory tracking. Returns the command as
    /// it is to be run, whether it is a directory change, and the target of
    /// the change. The second argument is not consulted.
    pub fn process_command(command: &str, _current_dir: &str) -> (processed: (
        String,
        bool,
        Option<String>,
    ))
        ensures
            processed.0@ == command@,
            processed.1 == is_directory_change(command@),
            text_of(processed.2) == change_target(command@),
    {
        let line = trim(command);
        let t = chars_of(line);
        proof {
            reveal_strlit("cd");
            reveal_strlit("cd ");
        }
        let bare = t.len() == 2 && t[0] == 'c' && t[1] == 'd';
        let with_more = t.len() >= 3 && t[0] == 'c' && t[1] == 'd' && t[2] == ' ';
        proof {
            if bare {
                assert(t@ =~= "cd"@);
            }
            if with_more {
                assert(t@.take(3) =~= "cd "@);
            }
            if t@.len() >= 3 && t@.take(3) == "cd "@ {
                assert(t@[0] == t@.take(3)[0]);
                assert(t@[1] == t@.take(3)[1]);
                assert(t@[2] == t@.take(3)[2]);
            }
        }
        if !(bare || with_more) {
            return (String::from_str(command), false, None);
        }
        let a = skip_blanks(&t, 0);
        let b = skip_solid(&t, a);
        let c = skip_blanks(&t, b);
        let d = skip_solid(&t, c);
        proof {
            assert(t@.skip(0) =~= t@);
            assert(t@.skip(a as int).skip(b - a) =~= t@.skip(b as int));
            let rest = after_first_token(t@);
            assert(rest == t@.skip(b as int));
            assert(rest.skip(c - b) =~= t@.skip(c as int));
            assert(t@.skip(c as int).take(d - c) =~= t@.subrange(c as int, d as int));
            assert(first_token(rest) == t@.subrange(c as int, d as int));
        }
        if c == d {
            (String::from_str(command), true, None)
        } else {
            let target = String::from_str(line.substring_char(c, d));
            (String::from_str(command), true, Some(target))
        }
    }

    /// Tells whether a command needs a persistent terminal: whether, once
    /// trimmed and put in lowercase, it is the name of an interactive
    /// program or that name followed at once by a space.
    pub fn is_interactive_command(command: &str) -> (interactive: bool)
        ensures
            interactive == is_interactive(command@),
    {
        let lowered = to_lowercase(trim(command));
        is_interactive_lowered(lowered.as_str())
    }
}

} // verus!
