//! What is shown of an entry's sync.
//!
//! The lines are values: whoever drives the sync prints them, or does with
//! them what it likes.

use crate::dotfile::protocol::{Hook, HookView, Outcome, OutcomeView, SyncError, SyncErrorView};
use crate::dotfile::{Dotfile, Entry};
use crate::text::{signed_decimal, to_signed_decimal};
use crate::ui::{item_type, path, shows_path, styled, symbol};
use vstd::prelude::*;

verus! {

/// Whether `out` says that a strategy is not supported: its name in the
/// style of a strategy, then the words.
pub open spec fn says_unsupported(out: Seq<char>, error_type: Seq<char>) -> bool {
    exists|name: Seq<char>| #[trigger]
        styled(name, error_type) && out == name + " is not supported in your environment"@
}

/// Whether `out` says that neither of two paths was found.
pub open spec fn says_not_found(out: Seq<char>, path0: Seq<char>, path1: Seq<char>) -> bool {
    exists|first: Seq<char>, second: Seq<char>|
        {
            &&& #[trigger] shows_path(first, path0)
            &&& #[trigger] shows_path(second, path1)
            &&& out == first + " and "@ + second + " not found"@
        }
}

/// Whether `out` is the message of an error.
pub open spec fn says(out: Seq<char>, error: SyncErrorView) -> bool {
    match error {
        SyncErrorView::FsProcessingError => out == "File system processing failed"@,
        SyncErrorView::CommandError => out == "Command execution failed"@,
        SyncErrorView::Unsupported { error_type } => says_unsupported(out, error_type),
        SyncErrorView::NoAdministrator => out == "You should run with administrator rights"@,
        SyncErrorView::NotFound { path0, path1 } => says_not_found(out, path0, path1),
    }
}

impl SyncError {
    /// The message of the error, as the user reads it.
    pub fn message(&self) -> (out: String)
        ensures
            says(out@, self@),
    {
        match self {
            SyncError::FsProcessingError => String::from_str("File system processing failed"),
            SyncError::CommandError => String::from_str("Command execution failed"),
            SyncError::Unsupported { error_type } => {
                let name = item_type(error_type.as_str());
                let mut out = name.clone();
                out.append(" is not supported in your environment");
                out
            },
            SyncError::NoAdministrator => String::from_str(
                "You should run with administrator rights",
            ),
            SyncError::NotFound { path0, path1 } => {
                let first = path(path0.as_str());
                let second = path(path1.as_str());
                let mut out = first.clone();
                out.append(" and ");
                out.append(second.as_str());
                out.append(" not found");
                out
            },
        }
    }
}

/// Whether `out` is the line of a link that was made: the source, the
/// strategy between two arrows' halves, the target.
pub open spec fn shows_link(
    out: Seq<char>,
    source: Seq<char>,
    sync_type: Seq<char>,
    target: Seq<char>,
) -> bool {
    exists|from: Seq<char>, open: Seq<char>, by: Seq<char>, close: Seq<char>, to: Seq<char>|
        {
            &&& shows_path(from, source)
            &&& styled(open, " ====( "@)
            &&& styled(by, sync_type)
            &&& styled(close, " )===> "@)
            &&& shows_path(to, target)
            &&& out == from + open + by + close + to
        }
}

/// The line of a link that was made.
pub fn message(source: &str, target: &str, sync_type: &str) -> (out: String)
    ensures
        shows_link(out@, source@, sync_type@, target@),
{
    let from = path(source);
    let open = symbol(" ====( ");
    let by = item_type(sync_type);
    let close = symbol(" )===> ");
    let to = path(target);
    let mut out = from.clone();
    out.append(open.as_str());
    out.append(by.as_str());
    out.append(close.as_str());
    out.append(to.as_str());
    out
}

/// How a hook's command ended, in words.
pub open spec fn exit_text(code: Option<i32>) -> Seq<char> {
    match code {
        Some(code) => "Exit with status code "@ + signed_decimal(code as int) + "."@,
        None => "Process terminated by signal."@,
    }
}

/// Says how a hook's command ended.
pub fn exit_message(code: Option<i32>) -> (out: String)
    ensures
        out@ == exit_text(code),
{
    match code {
        Some(code) => {
            let mut out = String::from_str("Exit with status code ");
            out.append(to_signed_decimal(code).as_str());
            out.append(".");
            out
        },
        None => String::from_str("Process terminated by signal."),
    }
}

/// What a command has written, as a line of its own; nothing where it wrote
/// nothing.
pub open spec fn captured(output: Seq<char>) -> Seq<Seq<char>> {
    if output.len() == 0 {
        seq![]
    } else {
        seq![output]
    }
}

/// Whether `lines` tell what became of a hook: nothing for none; what the
/// command wrote to its output and to its error stream, then how it ended; or
/// the message of the error that kept it from running.
pub open spec fn tells_hook(lines: Seq<Seq<char>>, hook: HookView) -> bool {
    match hook {
        HookView::Absent => lines.len() == 0,
        HookView::Exited { code, stdout, stderr } => lines == captured(stdout) + captured(stderr)
            + seq![exit_text(code)],
        HookView::Failed { error } => lines.len() == 1 && says(lines[0], error),
    }
}

/// Whether `out` names a source as one that is switched off.
pub open spec fn says_disabled(out: Seq<char>, source: Seq<char>) -> bool {
    exists|shown: Seq<char>| #[trigger] shows_path(shown, source) && out == "disabled: "@ + shown
}

/// Whether `lines` report an outcome of an entry's sync: one line that names
/// the entry as disabled, or that gives the error, or that shows the link;
/// after the link, the lines of the hook.
pub open spec fn reports(lines: Seq<Seq<char>>, entry: Entry, outcome: OutcomeView) -> bool {
    match outcome {
        OutcomeView::Disabled => lines.len() == 1 && says_disabled(lines[0], entry.path),
        OutcomeView::Failed { error } => lines.len() == 1 && says(lines[0], error),
        OutcomeView::Synced { hook } => {
            &&& lines.len() >= 1
            &&& shows_link(lines[0], entry.path, entry.sync_type, entry.target)
            &&& tells_hook(lines.subrange(1, lines.len() as int), hook)
        },
    }
}

impl Dotfile {
    /// The lines that report an outcome of this entry's sync.
    pub fn report(&self, outcome: &Outcome) -> (lines: Vec<String>)
        ensures
            reports(lines.deep_view(), self@, outcome@),
    {
        let mut lines: Vec<String> = Vec::new();
        match outcome {
            Outcome::Disabled => {
                let source = path(self.path().as_str());
                let mut line = String::from_str("disabled: ");
                line.append(source.as_str());
                lines.push(line);
            },
            Outcome::Failed { error } => {
                lines.push(error.message());
            },
            Outcome::Synced { hook } => {
                let line = message(
                    self.path().as_str(),
                    self.target().as_str(),
                    self.sync_type().as_str(),
                );
                lines.push(line);
                match hook {
                    Hook::Absent => {},
                    Hook::Exited { code, stdout, stderr } => {
                        if !stdout.as_str().is_empty() {
                            lines.push(stdout.clone());
                        }
                        if !stderr.as_str().is_empty() {
                            lines.push(stderr.clone());
                        }
                        let end = exit_message(*code);
                        lines.push(end);
                        assert(lines.deep_view().subrange(1, lines.deep_view().len() as int)
                            =~= captured(stdout@) + captured(stderr@) + seq![exit_text(*code)]);
                    },
                    Hook::Failed { error } => {
                        let said = error.message();
                        lines.push(said);
                    },
                }
            },
        }
        lines
    }
}

} // verus!
