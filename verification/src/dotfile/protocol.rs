//! What passes between the sync engine and the one who drives it.
//!
//! The engine asks with a [`Request`]; the driver carries it out on the real
//! file system and answers with a [`Reply`]. The types that hold text have a
//! view in which each text is the sequence of its characters; contracts and
//! laws speak of the views.

use vstd::prelude::*;

verus! {

/// The kind of machine the links are made on.
#[derive(Debug, Clone, Copy, PartialEq, Eq, Structural)]
pub enum Platform {
    /// Symbolic links need an administrator, junctions exist, hooks are batch files.
    Windows,
    /// Symbolic links are free, junctions do not exist, hooks run under `sh`.
    Unix,
}

/// Where the old target waits while the link is made.
#[derive(Debug, Clone, Copy, PartialEq, Eq, Structural)]
pub enum Mode {
    /// Nothing stood at the target.
    Direct,
    /// The old target was moved to the backup path and comes back if the link
    /// fails.
    Swap,
    /// The old target has become the source and goes back if the link fails.
    Adopted,
}

/// Why a link was not made. The text that an error carries is added when the
/// error is reported.
#[derive(Debug, Clone, Copy, PartialEq, Eq, Structural)]
pub enum Cause {
    FsProcessing,
    Command,
    Unsupported,
    NoAdministrator,
}

/// Where the engine stands between two steps: the request it has made last.
#[derive(Debug, Clone, Copy, PartialEq, Eq, Structural)]
pub enum Phase {
    /// Nothing has been asked yet.
    Start,
    /// Asked whether the target exists.
    ProbeTarget,
    /// Asked whether the source exists.
    ProbeSource { target_exists: bool },
    /// Asked to move the target to the backup path.
    Backup,
    /// Asked whether the directory that holds the source exists.
    ProbeParent,
    /// Asked to create the directory that holds the source.
    MakeParent,
    /// Asked to move the target to the source.
    Adopt,
    /// Asked whether the user is an administrator.
    ProbeAdmin { mode: Mode },
    /// Asked whether the target is a directory.
    ProbeDir { mode: Mode },
    /// Asked to create the link.
    Link { mode: Mode },
    /// Asked to delete the backup.
    Cleanup,
    /// Asked to move the backup to the target again.
    Restore { cause: Cause },
    /// Asked to move the source, which was the target, to the target again.
    Return { cause: Cause },
    /// Asked to write the hook's script.
    WriteHook,
    /// Asked to run the hook's script.
    RunHook,
    /// The outcome has been handed over.
    Done,
}

/// Why an entry could not be synced.
#[derive(Debug, Clone, PartialEq, Eq)]
pub enum SyncError {
    FsProcessingError,
    CommandError,
    Unsupported { error_type: String },
    NoAdministrator,
    NotFound { path0: String, path1: String },
}

pub enum SyncErrorView {
    FsProcessingError,
    CommandError,
    Unsupported { error_type: Seq<char> },
    NoAdministrator,
    NotFound { path0: Seq<char>, path1: Seq<char> },
}

impl View for SyncError {
    type V = SyncErrorView;

    open spec fn view(&self) -> SyncErrorView {
        match *self {
            SyncError::FsProcessingError => SyncErrorView::FsProcessingError,
            SyncError::CommandError => SyncErrorView::CommandError,
            SyncError::Unsupported { error_type } => SyncErrorView::Unsupported {
                error_type: error_type@,
            },
            SyncError::NoAdministrator => SyncErrorView::NoAdministrator,
            SyncError::NotFound { path0, path1 } => SyncErrorView::NotFound {
                path0: path0@,
                path1: path1@,
            },
        }
    }
}

/// What became of an entry's hook.
#[derive(Debug, Clone, PartialEq, Eq)]
pub enum Hook {
    /// The entry has none.
    Absent,
    /// The command ran to its end; `code` is `None` where a signal ended it.
    Exited { code: Option<i32>, stdout: String, stderr: String },
    /// The command could not be written down, started or awaited.
    Failed { error: SyncError },
}

pub enum HookView {
    Absent,
    Exited { code: Option<i32>, stdout: Seq<char>, stderr: Seq<char> },
    Failed { error: SyncErrorView },
}

impl View for Hook {
    type V = HookView;

    open spec fn view(&self) -> HookView {
        match *self {
            Hook::Absent => HookView::Absent,
            Hook::Exited { code, stdout, stderr } => HookView::Exited {
                code,
                stdout: stdout@,
                stderr: stderr@,
            },
            Hook::Failed { error } => HookView::Failed { error: error@ },
        }
    }
}

/// How the sync of one entry ended.
#[derive(Debug, Clone, PartialEq, Eq)]
pub enum Outcome {
    /// The entry is switched off: nothing was asked of the file system.
    Disabled,
    /// The target was not linked.
    Failed { error: SyncError },
    /// The target is linked; a hook's failure does not take that back.
    Synced { hook: Hook },
}

pub enum OutcomeView {
    Disabled,
    Failed { error: SyncErrorView },
    Synced { hook: HookView },
}

impl View for Outcome {
    type V = OutcomeView;

    open spec fn view(&self) -> OutcomeView {
        match *self {
            Outcome::Disabled => OutcomeView::Disabled,
            Outcome::Failed { error } => OutcomeView::Failed { error: error@ },
            Outcome::Synced { hook } => OutcomeView::Synced { hook: hook@ },
        }
    }
}

impl OutcomeView {
    /// The sync failed in a way that a run has to answer for: not because
    /// there was nothing to sync, and not because the platform lacks the
    /// strategy.
    pub open spec fn fatal(self) -> bool {
        self matches OutcomeView::Failed { error } && !(error is NotFound || error is Unsupported)
    }
}

impl Outcome {
    /// Whether a run that met this outcome shall end with a failure: it shall
    /// where an entry was not linked, unless neither path exists or the
    /// platform lacks the strategy.
    pub fn fatal(&self) -> (fatal: bool)
        ensures
            fatal == self@.fatal(),
    {
        match self {
            Outcome::Failed { error: SyncError::NotFound { .. } } => false,
            Outcome::Failed { error: SyncError::Unsupported { .. } } => false,
            Outcome::Failed { .. } => true,
            _ => false,
        }
    }
}

/// What the engine asks its driver to do next.
#[derive(Debug, Clone, PartialEq, Eq)]
pub enum Request {
    /// Does anything stand at `path`?
    Exists { path: String },
    /// Does the directory that holds `path` exist?
    ParentExists { path: String },
    /// Create the directory that holds `path`, with all that is missing above it.
    CreateParent { path: String },
    /// Move `from` to `to`.
    Rename { from: String, to: String },
    /// Delete `path` with all beneath it.
    Remove { path: String },
    /// Is the user an administrator?
    IsAdmin,
    /// Is `path` a directory?
    IsDir { path: String },
    /// Create a symbolic link at `target` that points to `source`.
    Symlink { source: String, target: String },
    /// The same, where the platform tells links to files from links to directories.
    SymlinkFile { source: String, target: String },
    SymlinkDir { source: String, target: String },
    /// Create a hard link at `target` to the file at `source`.
    HardLink { source: String, target: String },
    /// Create a junction at `target` that points to the directory `source`.
    Junction { source: String, target: String },
    /// Copy `source` with all beneath it to `target`.
    Copy { source: String, target: String },
    /// Write `content` to the file `name` in the cache directory.
    WriteScript { name: String, content: String },
    /// Run the script `name` of the cache directory: under `shell`, with the
    /// script's path as the one argument, or by itself with one empty argument.
    RunScript { name: String, shell: Option<String> },
    /// The entry is done with.
    Finish { outcome: Outcome },
    /// Nothing: the outcome was handed over before.
    Stop,
}

pub enum RequestView {
    Exists { path: Seq<char> },
    ParentExists { path: Seq<char> },
    CreateParent { path: Seq<char> },
    Rename { from: Seq<char>, to: Seq<char> },
    Remove { path: Seq<char> },
    IsAdmin,
    IsDir { path: Seq<char> },
    Symlink { source: Seq<char>, target: Seq<char> },
    SymlinkFile { source: Seq<char>, target: Seq<char> },
    SymlinkDir { source: Seq<char>, target: Seq<char> },
    HardLink { source: Seq<char>, target: Seq<char> },
    Junction { source: Seq<char>, target: Seq<char> },
    Copy { source: Seq<char>, target: Seq<char> },
    WriteScript { name: Seq<char>, content: Seq<char> },
    RunScript { name: Seq<char>, shell: Option<Seq<char>> },
    Finish { outcome: OutcomeView },
    Stop,
}

impl View for Request {
    type V = RequestView;

    open spec fn view(&self) -> RequestView {
        match *self {
            Request::Exists { path } => RequestView::Exists { path: path@ },
            Request::ParentExists { path } => RequestView::ParentExists { path: path@ },
            Request::CreateParent { path } => RequestView::CreateParent { path: path@ },
            Request::Rename { from, to } => RequestView::Rename { from: from@, to: to@ },
            Request::Remove { path } => RequestView::Remove { path: path@ },
            Request::IsAdmin => RequestView::IsAdmin,
            Request::IsDir { path } => RequestView::IsDir { path: path@ },
            Request::Symlink { source, target } => RequestView::Symlink {
                source: source@,
                target: target@,
            },
            Request::SymlinkFile { source, target } => RequestView::SymlinkFile {
                source: source@,
                target: target@,
            },
            Request::SymlinkDir { source, target } => RequestView::SymlinkDir {
                source: source@,
                target: target@,
            },
            Request::HardLink { source, target } => RequestView::HardLink {
                source: source@,
                target: target@,
            },
            Request::Junction { source, target } => RequestView::Junction {
                source: source@,
                target: target@,
            },
            Request::Copy { source, target } => RequestView::Copy {
                source: source@,
                target: target@,
            },
            Request::WriteScript { name, content } => RequestView::WriteScript {
                name: name@,
                content: content@,
            },
            Request::RunScript { name, shell } => RequestView::RunScript {
                name: name@,
                shell: match shell {
                    Some(s) => Some(s@),
                    None => None,
                },
            },
            Request::Finish { outcome } => RequestView::Finish { outcome: outcome@ },
            Request::Stop => RequestView::Stop,
        }
    }
}

/// What the driver answers.
#[derive(Debug, Clone, PartialEq, Eq)]
pub enum Reply {
    /// Nothing was asked yet.
    Begin,
    /// The answer to a question.
    Found(bool),
    /// The change was made.
    Done,
    /// The change was not made.
    Failed,
    /// The hook's command ran to its end; `code` is `None` where a signal ended it.
    Exited { code: Option<i32>, stdout: String, stderr: String },
}

pub enum ReplyView {
    Begin,
    Found(bool),
    Done,
    Failed,
    Exited { code: Option<i32>, stdout: Seq<char>, stderr: Seq<char> },
}

impl View for Reply {
    type V = ReplyView;

    open spec fn view(&self) -> ReplyView {
        match *self {
            Reply::Begin => ReplyView::Begin,
            Reply::Found(b) => ReplyView::Found(b),
            Reply::Done => ReplyView::Done,
            Reply::Failed => ReplyView::Failed,
            Reply::Exited { code, stdout, stderr } => ReplyView::Exited {
                code,
                stdout: stdout@,
                stderr: stderr@,
            },
        }
    }
}

impl ReplyView {
    /// The reply says yes to a question. Any other reply counts as a no.
    pub open spec fn found(self) -> bool {
        self == ReplyView::Found(true)
    }

    /// The reply says that a change was made. Any other reply counts as a failure.
    pub open spec fn ok(self) -> bool {
        self is Done
    }
}

impl Reply {
    /// Whether the reply says yes to a question.
    pub fn found(&self) -> (r: bool)
        ensures
            r == self@.found(),
    {
        match self {
            Reply::Found(b) => *b,
            _ => false,
        }
    }

    /// Whether the reply says that a change was made.
    pub fn ok(&self) -> (r: bool)
        ensures
            r == self@.ok(),
    {
        match self {
            Reply::Done => true,
            _ => false,
        }
    }
}

} // verus!
