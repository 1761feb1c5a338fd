//! Interpretation of the command-line switches.
//!
//! Switches are matched by prefix, not by exact token: `-sbash`, `-s bash`
//! and even `-shelly` all name a shell. This is a known rough edge, kept on
//! purpose so that the accepted inputs do not change.

use crate::text::{inline_value, inline_value_of, is_switch, is_switch_token};
use vstd::prelude::*;

verus! {

/// The configuration read from the command line.
#[derive(Clone)]
pub struct Switches {
    /// Path or name of the shell to benchmark; empty when none was given.
    pub shell: String,
    /// Whether a literal command was given with `-c`.
    pub cmd_switch: bool,
    /// The literal command; empty when none was given.
    pub command: String,
    /// Whether `-d` asked for the generated benchmark script.
    pub default: bool,
}

/// The mathematical value of a [`Switches`].
pub ghost struct SwitchesView {
    pub shell: Seq<char>,
    pub cmd_switch: bool,
    pub command: Seq<char>,
    pub default: bool,
}

impl View for Switches {
    type V = SwitchesView;

    open spec fn view(&self) -> SwitchesView {
        SwitchesView {
            shell: self.shell@,
            cmd_switch: self.cmd_switch,
            command: self.command@,
            default: self.default,
        }
    }
}

/// Why the command line yields no configuration.
#[derive(Clone, Copy, Debug, PartialEq, Eq, Structural)]
pub enum SwitchError {
    /// A help switch was given: the caller prints the usage text and stops.
    HelpRequested,
    /// `-s` is the last token and carries no inline value.
    MissingShellValue,
    /// `-c` is the last token and carries no inline value.
    MissingCommandValue,
}

/// The tokens as character sequences.
pub open spec fn tokens(args: Seq<String>) -> Seq<Seq<char>> {
    args.map_values(|s: String| s@)
}

/// A token that asks for help: any `-h...`, or exactly `--help`.
pub open spec fn is_help(token: Seq<char>) -> bool {
    is_switch(token, 'h') || token == "--help"@
}

pub open spec fn help_requested(args: Seq<Seq<char>>) -> bool {
    exists|i: int| 0 <= i < args.len() && is_help(#[trigger] args[i])
}

/// The first index at or after `from` that holds the switch `-<letter>`.
pub open spec fn first_switch_from(args: Seq<Seq<char>>, letter: char, from: int) -> Option<int>
    decreases args.len() - from,
{
    if from < 0 || from >= args.len() {
        None
    } else if is_switch(args[from], letter) {
        Some(from)
    } else {
        first_switch_from(args, letter, from + 1)
    }
}

/// A switch found from `from` on stands at or after `from`, holds the
/// switch, and no token before it from `from` on does.
pub proof fn lemma_first_switch_from(args: Seq<Seq<char>>, letter: char, from: int)
    requires
        0 <= from,
    ensures
        match first_switch_from(args, letter, from) {
            Some(i) => from <= i < args.len() && is_switch(args[i], letter) && forall|j: int|
                from <= j < i ==> !is_switch(#[trigger] args[j], letter),
            None => forall|j: int| from <= j < args.len() ==> !is_switch(#[trigger] args[j], letter),
        },
    decreases args.len() - from,
{
    if from < args.len() && !is_switch(args[from], letter) {
        lemma_first_switch_from(args, letter, from + 1);
    }
}

/// The index of the first token that holds the switch `-<letter>`.
pub open spec fn first_switch(args: Seq<Seq<char>>, letter: char) -> Option<int> {
    first_switch_from(args, letter, 0)
}

/// The value of the switch at index `i`: its inline characters if it has
/// any, else the whole next token; `None` when it is the last token.
pub open spec fn switch_value(args: Seq<Seq<char>>, i: int) -> Option<Seq<char>> {
    if args[i].len() > 2 {
        Some(inline_value(args[i]))
    } else if i + 1 < args.len() {
        Some(args[i + 1])
    } else {
        None
    }
}

/// The value of the first `-<letter>` switch; empty when there is none.
pub open spec fn value_of_switch(args: Seq<Seq<char>>, letter: char) -> Option<Seq<char>> {
    match first_switch(args, letter) {
        None => Some(Seq::empty()),
        Some(i) => switch_value(args, i),
    }
}

/// What the command line means.
pub open spec fn interpret(args: Seq<Seq<char>>) -> Result<SwitchesView, SwitchError> {
    let shell = value_of_switch(args, 's');
    let command = value_of_switch(args, 'c');
    if help_requested(args) {
        Err(SwitchError::HelpRequested)
    } else if shell is None {
        Err(SwitchError::MissingShellValue)
    } else if command is None {
        Err(SwitchError::MissingCommandValue)
    } else {
        Ok(
            SwitchesView {
                shell: shell->0,
                cmd_switch: first_switch(args, 'c') is Some,
                command: command->0,
                default: first_switch(args, 'd') is Some,
            },
        )
    }
}

/// A token that holds the switch, with none before it from `from` on, is the
/// one found.
pub proof fn lemma_first_switch_at(args: Seq<Seq<char>>, letter: char, from: int, i: int)
    requires
        0 <= from <= i < args.len(),
        is_switch(args[i], letter),
        forall|j: int| from <= j < i ==> !is_switch(#[trigger] args[j], letter),
    ensures
        first_switch_from(args, letter, from) == Some(i),
    decreases i - from,
{
    if from < i {
        lemma_first_switch_at(args, letter, from + 1, i);
    }
}

/// Two command lines that agree up to the first `-<letter>` switch of one of
/// them find that switch at the same place.
proof fn lemma_same_first_switch(a: Seq<Seq<char>>, b: Seq<Seq<char>>, letter: char, i: int)
    requires
        first_switch(a, letter) == Some(i),
        i < b.len(),
        b.subrange(0, i + 1) == a.subrange(0, i + 1),
    ensures
        first_switch(b, letter) == Some(i),
{
    lemma_first_switch_from(a, letter, 0);
    assert forall|j: int| 0 <= j <= i implies b[j] == a[j] by {
        assert(b[j] == b.subrange(0, i + 1)[j]);
        assert(a[j] == a.subrange(0, i + 1)[j]);
    }
    lemma_first_switch_at(b, letter, 0, i);
}

/// A shell written inline (`-sbash`) is the rest of the switch token, and no
/// later token is read for it: two command lines that agree up to that
/// token name the same shell.
pub proof fn lemma_inline_shell_value(a: Seq<Seq<char>>, b: Seq<Seq<char>>, i: int)
    requires
        first_switch(a, 's') == Some(i),
        a[i].len() > 2,
        i < b.len(),
        b.subrange(0, i + 1) == a.subrange(0, i + 1),
    ensures
        value_of_switch(a, 's') == Some(inline_value(a[i])),
        value_of_switch(b, 's') == value_of_switch(a, 's'),
        interpret(a) is Ok ==> interpret(a)->Ok_0.shell == inline_value(a[i]),
{
    lemma_first_switch_from(a, 's', 0);
    lemma_same_first_switch(a, b, 's', i);
    assert(b[i] == b.subrange(0, i + 1)[i]);
}

/// A shell written as a separate token (`-s bash`) is the next token, taken
/// whole: exactly one token after the switch is read, and two command lines
/// that agree up to it name the same shell.
pub proof fn lemma_separate_shell_value(a: Seq<Seq<char>>, b: Seq<Seq<char>>, i: int)
    requires
        first_switch(a, 's') == Some(i),
        a[i].len() == 2,
        i + 1 < a.len(),
        i + 1 < b.len(),
        b.subrange(0, i + 2) == a.subrange(0, i + 2),
    ensures
        value_of_switch(a, 's') == Some(a[i + 1]),
        value_of_switch(b, 's') == value_of_switch(a, 's'),
        interpret(a) is Ok ==> interpret(a)->Ok_0.shell == a[i + 1],
{
    lemma_first_switch_from(a, 's', 0);
    assert(b.subrange(0, i + 1) == b.subrange(0, i + 2).subrange(0, i + 1));
    assert(a.subrange(0, i + 1) == a.subrange(0, i + 2).subrange(0, i + 1));
    lemma_same_first_switch(a, b, 's', i);
    assert(b[i] == b.subrange(0, i + 2)[i]);
    assert(b[i + 1] == b.subrange(0, i + 2)[i + 1]);
}

/// A help token anywhere wins over every other switch.
pub proof fn lemma_help_wins(args: Seq<Seq<char>>, i: int)
    requires
        0 <= i < args.len(),
        is_help(args[i]),
    ensures
        interpret(args) == Err::<SwitchesView, SwitchError>(SwitchError::HelpRequested),
{
    assert(help_requested(args));
}

/// Whether any token asks for help.
fn find_help(args: &Vec<String>) -> (r: bool)
    ensures
        r == help_requested(tokens(args@)),
{
    let long_help = "--help".to_owned();
    let ghost t = tokens(args@);
    let mut i: usize = 0;
    while i < args.len()
        invariant
            0 <= i <= args.len(),
            t == tokens(args@),
            long_help@ == "--help"@,
            forall|j: int| 0 <= j < i ==> !is_help(#[trigger] t[j]),
        decreases args.len() - i,
    {
        if is_switch_token(&args[i], 'h') || args[i] == long_help {
            assert(is_help(t[i as int]));
            return true;
        }
        i = i + 1;
    }
    false
}

/// The index of the first token that holds the switch `-<letter>`.
fn find_switch(args: &Vec<String>, letter: char) -> (r: Option<usize>)
    requires
        (letter as u32) < 0x80,
    ensures
        match r {
            Some(i) => first_switch(tokens(args@), letter) == Some(i as int),
            None => first_switch(tokens(args@), letter) is None,
        },
{
    let ghost t = tokens(args@);
    let mut i: usize = 0;
    while i < args.len()
        invariant
            0 <= i <= args.len(),
            t == tokens(args@),
            (letter as u32) < 0x80,
            first_switch(t, letter) == first_switch_from(t, letter, i as int),
        decreases args.len() - i,
    {
        if is_switch_token(&args[i], letter) {
            return Some(i);
        }
        i = i + 1;
    }
    None
}

/// The value of the switch at index `i`, inline or in the next token.
fn value_at(args: &Vec<String>, i: usize) -> (r: Option<String>)
    requires
        i < args.len(),
        tokens(args@)[i as int].len() >= 2,
        tokens(args@)[i as int][0] == '-',
        (tokens(args@)[i as int][1] as u32) < 0x80,
    ensures
        match r {
            Some(v) => switch_value(tokens(args@), i as int) == Some(v@),
            None => switch_value(tokens(args@), i as int) is None,
        },
{
    let tail = inline_value_of(&args[i]);
    if !tail.as_str().is_empty() {
        Some(tail)
    } else if i + 1 < args.len() {
        Some(args[i + 1].clone())
    } else {
        None
    }
}

/// The value of the first `-<letter>` switch; empty when there is none.
fn switch_value_of(args: &Vec<String>, letter: char) -> (r: Option<String>)
    requires
        (letter as u32) < 0x80,
    ensures
        match r {
            Some(v) => value_of_switch(tokens(args@), letter) == Some(v@),
            None => value_of_switch(tokens(args@), letter) is None,
        },
{
    proof {
        lemma_first_switch_from(tokens(args@), letter, 0);
    }
    match find_switch(args, letter) {
        None => Some(String::new()),
        Some(i) => value_at(args, i),
    }
}

impl Switches {
    /// Reads the configuration from the command-line tokens, the program's
    /// name left out.
    ///
    /// A help switch anywhere wins over everything else. A `-s` or `-c` that
    /// is the last token and has no inline value is an error.
    pub fn new(args: &Vec<String>) -> (r: Result<Switches, SwitchError>)
        ensures
            match r {
                Ok(s) => interpret(tokens(args@)) == Ok::<SwitchesView, SwitchError>(s@),
                Err(e) => interpret(tokens(args@)) == Err::<SwitchesView, SwitchError>(e),
            },
    {
        if find_help(args) {
            return Err(SwitchError::HelpRequested);
        }
        let shell = match switch_value_of(args, 's') {
            Some(v) => v,
            None => return Err(SwitchError::MissingShellValue),
        };
        let command = match switch_value_of(args, 'c') {
            Some(v) => v,
            None => return Err(SwitchError::MissingCommandValue),
        };
        let cmd_switch = find_switch(args, 'c').is_some();
        let default = find_switch(args, 'd').is_some();
        Ok(Switches { shell, cmd_switch, command, default })
    }
}

} // verus!
