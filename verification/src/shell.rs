//! The interactive shell's decision for each line that it reads.

use vstd::prelude::*;
use crate::chars::{chars_equal, chars_of, string_from_chars, string_of};
use crate::commands::OutputFormat;
use crate::description::{trim_chars, trim_end, trim_start};
use crate::text::{split_args, split_args_spec};

verus! {

/// What the shell does with a line.
#[derive(Clone, Debug)]
pub enum ShellAction {
    /// Leave the shell ("exit" or "quit").
    Quit,
    /// Read the next line (the line is blank).
    Skip,
    /// Print a note and read the next line.
    Notice(String),
    /// Run the command line with these arguments (the program name first).
    Run(Vec<String>),
}

/// The action, with its texts as sequences.
pub enum ShellActionView {
    Quit,
    Skip,
    Notice(Seq<char>),
    Run(Seq<Seq<char>>),
}

/// The texts of a list of strings.
pub open spec fn views(v: Seq<String>) -> Seq<Seq<char>> {
    v.map_values(|s: String| s@)
}

/// The view of an action.
pub open spec fn shell_action_view(a: ShellAction) -> ShellActionView {
    match a {
        ShellAction::Quit => ShellActionView::Quit,
        ShellAction::Skip => ShellActionView::Skip,
        ShellAction::Notice(t) => ShellActionView::Notice(t@),
        ShellAction::Run(args) => ShellActionView::Run(views(args@)),
    }
}

/// The arguments that the global flags of the session put before a line's
/// own: the program name, the output format, and the keys given to the
/// shell.
pub open spec fn session_args(
    output: OutputFormat,
    api_key: Option<Seq<char>>,
    private_key: Option<Seq<char>>,
) -> Seq<Seq<char>> {
    seq!["limitless"@, "--output"@, output.spec_name()] + match api_key {
        Some(k) => seq!["--api-key"@, k],
        None => seq![],
    } + match private_key {
        Some(k) => seq!["--private-key"@, k],
        None => seq![],
    }
}

/// What the shell does with a line: the line is trimmed; "exit" and "quit"
/// leave, a blank line is skipped, "shell" and "setup" only print a note,
/// and anything else runs as a command line after the session's flags.
pub open spec fn shell_step(
    line: Seq<char>,
    output: OutputFormat,
    api_key: Option<Seq<char>>,
    private_key: Option<Seq<char>>,
) -> ShellActionView {
    let t = trim_end(trim_start(line));
    if t == "exit"@ || t == "quit"@ {
        ShellActionView::Quit
    } else if t.len() == 0 {
        ShellActionView::Skip
    } else {
        let args = split_args_spec(t);
        let cmd = if args.len() > 0 {
            args[0]
        } else {
            Seq::<char>::empty()
        };
        if cmd == "shell"@ {
            ShellActionView::Notice("Already in shell mode."@)
        } else if cmd == "setup"@ {
            ShellActionView::Notice("Run 'limitless setup' outside the shell."@)
        } else {
            ShellActionView::Run(session_args(output, api_key, private_key) + args)
        }
    }
}

/// The view of an optional text.
pub open spec fn opt_string_view(s: Option<String>) -> Option<Seq<char>> {
    match s {
        Some(t) => Some(t@),
        None => None,
    }
}

/// What the shell does with a line.
pub fn shell_action(
    line: &str,
    output: OutputFormat,
    api_key: &Option<String>,
    private_key: &Option<String>,
) -> (res: ShellAction)
    ensures
        shell_action_view(res) == shell_step(
            line@,
            output,
            opt_string_view(*api_key),
            opt_string_view(*private_key),
        ),
{
    let cs = chars_of(line);
    let trimmed = trim_chars(&cs);
    if chars_equal(&trimmed, "exit") || chars_equal(&trimmed, "quit") {
        return ShellAction::Quit;
    }
    if trimmed.len() == 0 {
        return ShellAction::Skip;
    }
    let t = string_from_chars(trimmed.as_slice());
    let args = split_args(t.as_str());
    proof {
        assert(views(args@) =~= split_args_spec(t@));
    }
    if args.len() > 0 {
        let first = chars_of(args[0].as_str());
        if chars_equal(&first, "shell") {
            return ShellAction::Notice(string_of("Already in shell mode."));
        }
        if chars_equal(&first, "setup") {
            return ShellAction::Notice(string_of("Run 'limitless setup' outside the shell."));
        }
    }
    let mut full: Vec<String> = Vec::new();
    full.push(string_of("limitless"));
    full.push(string_of("--output"));
    full.push(output.name());
    match api_key {
        Some(k) => {
            full.push(string_of("--api-key"));
            full.push(k.clone());
        },
        None => {},
    }
    match private_key {
        Some(k) => {
            full.push(string_of("--private-key"));
            full.push(k.clone());
        },
        None => {},
    }
    let ghost pre = views(full@);
    assert(pre =~= session_args(output, opt_string_view(*api_key), opt_string_view(*private_key)));
    let mut i: usize = 0;
    while i < args.len()
        invariant
            0 <= i <= args.len(),
            views(args@) == split_args_spec(t@),
            t@ == trim_end(trim_start(line@)),
            t@ != "exit"@ && t@ != "quit"@ && t@.len() != 0,
            args@.len() > 0 ==> args@[0]@ != "shell"@ && args@[0]@ != "setup"@,
            pre == session_args(output, opt_string_view(*api_key), opt_string_view(*private_key)),
            views(full@) == pre + views(args@).subrange(
                0,
                i as int,
            ),
        decreases args.len() - i,
    {
        let ghost before = full@;
        let a = args[i].clone();
        assert(a@ == args@[i as int]@);
        full.push(a);
        assert(full@ =~= before.push(a));
        assert(views(full@) =~= views(before).push(a@));
        i = i + 1;
        assert(views(full@) =~= pre + views(args@).subrange(
            0,
            i as int,
        ));
    }
    assert(views(args@).subrange(0, args@.len() as int) =~= views(args@));
    proof {
        reveal_strlit("shell");
        reveal_strlit("setup");
        assert("shell"@.len() == 5 && "setup"@.len() == 5);
    }
    ShellAction::Run(full)
}

} // verus!
