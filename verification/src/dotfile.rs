//! The sync engine: one configured entry and the steps that reconcile it.
//!
//! An entry says that a target shall reflect a source. [`Dotfile::sync`] decides,
//! one step at a time, what has to happen on the file system for that: it takes
//! the phase it stands in and the reply to its last request, and gives the next
//! phase and the next request. Whoever drives it carries the requests out.

pub mod laws;
pub mod model;
pub mod protocol;
pub mod report;

use crate::config::dotfile::SyncType;
use crate::dotfile::protocol::{
    Cause, Hook, HookView, Mode, Outcome, OutcomeView, Phase, Platform, Reply, ReplyView, Request,
    RequestView, SyncError, SyncErrorView,
};
use crate::text::same;
use vstd::prelude::*;

verus! {

/// One configured entry.
#[derive(Debug, PartialEq, Eq)]
pub struct Dotfile {
    name: String,
    path: String,
    target: String,
    sync_type: String,
    enable: bool,
    hook_add: String,
}

/// An entry as contracts see it: each text is the sequence of its characters.
pub struct Entry {
    /// The label under which the entry is reported.
    pub name: Seq<char>,
    /// The source: the managed file or directory.
    pub path: Seq<char>,
    /// The live location that shall reflect the source.
    pub target: Seq<char>,
    /// The tag of the link strategy.
    pub sync_type: Seq<char>,
    /// An entry that is switched off is reported and never touched.
    pub enable: bool,
    /// The command to run after a sync that succeeded; empty for none.
    pub hook_add: Seq<char>,
}

impl View for Dotfile {
    type V = Entry;

    closed spec fn view(&self) -> Entry {
        Entry {
            name: self.name@,
            path: self.path@,
            target: self.target@,
            sync_type: self.sync_type@,
            enable: self.enable,
            hook_add: self.hook_add@,
        }
    }
}

impl Entry {
    /// Where the old target waits while the new link is made.
    pub open spec fn backup(self) -> Seq<char> {
        self.target + ".old_version"@
    }

    /// The entry's invariant: source, target and backup path are three paths,
    /// and the strategy is one of the four.
    pub open spec fn valid(self) -> bool {
        &&& self.path != self.target
        &&& self.path != self.backup()
        &&& SyncType::of_tag(self.sync_type) is Some
    }

    /// The error that stands for a cause, with the entry's texts filled in.
    pub open spec fn error(self, cause: Cause) -> SyncErrorView {
        match cause {
            Cause::FsProcessing => SyncErrorView::FsProcessingError,
            Cause::Command => SyncErrorView::CommandError,
            Cause::Unsupported => SyncErrorView::Unsupported { error_type: self.sync_type },
            Cause::NoAdministrator => SyncErrorView::NoAdministrator,
        }
    }

    /// The sync ends without a link.
    pub open spec fn fail(self, cause: Cause) -> (Phase, RequestView) {
        (Phase::Done, RequestView::Finish { outcome: OutcomeView::Failed { error: self.error(cause) } })
    }

    /// The sync ends with the target linked and a word on the hook.
    pub open spec fn finish(hook: HookView) -> (Phase, RequestView) {
        (Phase::Done, RequestView::Finish { outcome: OutcomeView::Synced { hook } })
    }

    /// The name of the file that holds the hook's command.
    pub open spec fn script_name(platform: Platform) -> Seq<char> {
        match platform {
            Platform::Windows => "hook_script.bat"@,
            Platform::Unix => "hook_script"@,
        }
    }

    /// The hook's first step: its command is written to a script.
    pub open spec fn run_command(self, platform: Platform) -> (Phase, RequestView) {
        (
            Phase::WriteHook,
            RequestView::WriteScript {
                name: Self::script_name(platform),
                content: match platform {
                    Platform::Windows => "@echo off\n"@ + self.hook_add,
                    Platform::Unix => self.hook_add,
                },
            },
        )
    }

    /// The hook's second step: the script is run.
    pub open spec fn run_script(platform: Platform) -> (Phase, RequestView) {
        (
            Phase::RunHook,
            RequestView::RunScript {
                name: Self::script_name(platform),
                shell: match platform {
                    Platform::Windows => None,
                    Platform::Unix => Some("sh"@),
                },
            },
        )
    }

    /// The target is linked and nothing is left to clean up: the hook is next,
    /// if there is one.
    pub open spec fn synced(self, platform: Platform) -> (Phase, RequestView) {
        if self.hook_add.len() == 0 {
            Self::finish(HookView::Absent)
        } else {
            self.run_command(platform)
        }
    }

    /// The link was made: a backup is deleted.
    pub open spec fn linked(self, platform: Platform, mode: Mode) -> (Phase, RequestView) {
        match mode {
            Mode::Swap => (Phase::Cleanup, RequestView::Remove { path: self.backup() }),
            _ => self.synced(platform),
        }
    }

    /// The link was not made: what was moved away from the target goes back
    /// to it, from the backup path or from the source.
    pub open spec fn unlinked(self, mode: Mode, cause: Cause) -> (Phase, RequestView) {
        match mode {
            Mode::Swap => (
                Phase::Restore { cause },
                RequestView::Rename { from: self.backup(), to: self.target },
            ),
            Mode::Adopted => (
                Phase::Return { cause },
                RequestView::Rename { from: self.path, to: self.target },
            ),
            Mode::Direct => self.fail(cause),
        }
    }

    /// Whether the platform has the entry's strategy: the tag names one of
    /// the four, and a junction is asked for on Windows only.
    pub open spec fn supported(self, platform: Platform) -> bool {
        match SyncType::of_tag(self.sync_type) {
            Some(SyncType::Junction) => platform == Platform::Windows,
            Some(_) => true,
            None => false,
        }
    }

    /// The first step towards a symbolic link. Where links need an
    /// administrator, the user's rights are asked for before anything is tried.
    pub open spec fn create_symlink(self, platform: Platform, mode: Mode) -> (Phase, RequestView) {
        match platform {
            Platform::Windows => (Phase::ProbeAdmin { mode }, RequestView::IsAdmin),
            Platform::Unix => (
                Phase::Link { mode },
                RequestView::Symlink { source: self.path, target: self.target },
            ),
        }
    }

    /// The first step of the link strategy. A strategy that the platform
    /// lacks fails at once, without a request of its own.
    pub open spec fn new_item(self, platform: Platform, mode: Mode) -> (Phase, RequestView) {
        match SyncType::of_tag(self.sync_type) {
            Some(SyncType::SymLink) => self.create_symlink(platform, mode),
            Some(SyncType::HardLink) => (
                Phase::Link { mode },
                RequestView::HardLink { source: self.path, target: self.target },
            ),
            Some(SyncType::Junction) => match platform {
                Platform::Windows => (
                    Phase::Link { mode },
                    RequestView::Junction { source: self.path, target: self.target },
                ),
                Platform::Unix => self.unlinked(mode, Cause::Unsupported),
            },
            Some(SyncType::Copy) => (
                Phase::Link { mode },
                RequestView::Copy { source: self.path, target: self.target },
            ),
            None => self.unlinked(mode, Cause::Unsupported),
        }
    }

    /// Why the strategy's own request fails when it fails: a junction is made
    /// by a command, the other links by the file system.
    pub open spec fn link_cause(self) -> Cause {
        if SyncType::of_tag(self.sync_type) == Some(SyncType::Junction) {
            Cause::Command
        } else {
            Cause::FsProcessing
        }
    }

    /// The step that follows once it is known which of the two paths exist.
    /// Where neither does, there is nothing to sync. Where the platform lacks
    /// the strategy, the entry is refused before anything is changed.
    pub open spec fn reconcile(
        self,
        platform: Platform,
        target_exists: bool,
        source_exists: bool,
    ) -> (Phase, RequestView) {
        if !target_exists && !source_exists {
            (
                Phase::Done,
                RequestView::Finish {
                    outcome: OutcomeView::Failed {
                        error: SyncErrorView::NotFound { path0: self.path, path1: self.target },
                    },
                },
            )
        } else if !self.supported(platform) {
            self.fail(Cause::Unsupported)
        } else if target_exists && source_exists {
            (Phase::Backup, RequestView::Rename { from: self.target, to: self.backup() })
        } else if target_exists {
            (Phase::ProbeParent, RequestView::ParentExists { path: self.path })
        } else {
            self.new_item(platform, Mode::Direct)
        }
    }

    /// The target becomes the source.
    pub open spec fn adopt(self) -> (Phase, RequestView) {
        (Phase::Adopt, RequestView::Rename { from: self.target, to: self.path })
    }

    /// What the hook's run has come to.
    pub open spec fn hook_result(reply: ReplyView) -> HookView {
        match reply {
            ReplyView::Exited { code, stdout, stderr } => HookView::Exited { code, stdout, stderr },
            _ => HookView::Failed { error: SyncErrorView::CommandError },
        }
    }

    /// The transition function of the sync engine.
    pub open spec fn step(self, platform: Platform, phase: Phase, reply: ReplyView) -> (
        Phase,
        RequestView,
    ) {
        match phase {
            Phase::Start => if self.enable {
                (Phase::ProbeTarget, RequestView::Exists { path: self.target })
            } else {
                (Phase::Done, RequestView::Finish { outcome: OutcomeView::Disabled })
            },
            Phase::ProbeTarget => (
                Phase::ProbeSource { target_exists: reply.found() },
                RequestView::Exists { path: self.path },
            ),
            Phase::ProbeSource { target_exists } => self.reconcile(
                platform,
                target_exists,
                reply.found(),
            ),
            Phase::Backup => if reply.ok() {
                self.new_item(platform, Mode::Swap)
            } else {
                self.fail(Cause::FsProcessing)
            },
            Phase::ProbeParent => if reply.found() {
                self.adopt()
            } else {
                (Phase::MakeParent, RequestView::CreateParent { path: self.path })
            },
            Phase::MakeParent => if reply.ok() {
                self.adopt()
            } else {
                self.fail(Cause::FsProcessing)
            },
            Phase::Adopt => if reply.ok() {
                self.new_item(platform, Mode::Adopted)
            } else {
                self.fail(Cause::FsProcessing)
            },
            Phase::ProbeAdmin { mode } => if reply.found() {
                (Phase::ProbeDir { mode }, RequestView::IsDir { path: self.target })
            } else {
                self.unlinked(mode, Cause::NoAdministrator)
            },
            Phase::ProbeDir { mode } => (
                Phase::Link { mode },
                if reply.found() {
                    RequestView::SymlinkDir { source: self.path, target: self.target }
                } else {
                    RequestView::SymlinkFile { source: self.path, target: self.target }
                },
            ),
            Phase::Link { mode } => if reply.ok() {
                self.linked(platform, mode)
            } else {
                self.unlinked(mode, self.link_cause())
            },
            Phase::Cleanup => if reply.ok() {
                self.synced(platform)
            } else {
                self.fail(Cause::FsProcessing)
            },
            Phase::Restore { cause } => if reply.ok() {
                self.fail(cause)
            } else {
                self.fail(Cause::FsProcessing)
            },
            Phase::Return { cause } => if reply.ok() {
                self.fail(cause)
            } else {
                self.fail(Cause::FsProcessing)
            },
            Phase::WriteHook => if reply.ok() {
                Self::run_script(platform)
            } else {
                Self::finish(HookView::Failed { error: SyncErrorView::FsProcessingError })
            },
            Phase::RunHook => Self::finish(Self::hook_result(reply)),
            Phase::Done => (Phase::Done, RequestView::Stop),
        }
    }
}

impl Dotfile {
    pub fn new(
        name: String,
        path: String,
        target: String,
        sync_type: String,
        enable: bool,
        hook_add: String,
    ) -> (entry: Self)
        ensures
            entry@ == (Entry {
                name: name@,
                path: path@,
                target: target@,
                sync_type: sync_type@,
                enable,
                hook_add: hook_add@,
            }),
    {
        Self { name, path, target, sync_type, enable, hook_add }
    }

    /// The label under which the entry is reported.
    pub fn name(&self) -> (name: &String)
        ensures
            name@ == self@.name,
    {
        &self.name
    }

    /// The source: the managed file or directory.
    pub fn path(&self) -> (path: &String)
        ensures
            path@ == self@.path,
    {
        &self.path
    }

    /// The live location that shall reflect the source.
    pub fn target(&self) -> (target: &String)
        ensures
            target@ == self@.target,
    {
        &self.target
    }

    /// The tag of the link strategy.
    pub fn sync_type(&self) -> (sync_type: &String)
        ensures
            sync_type@ == self@.sync_type,
    {
        &self.sync_type
    }

    /// Whether the entry is switched on.
    pub fn enable(&self) -> (enable: bool)
        ensures
            enable == self@.enable,
    {
        self.enable
    }

    /// The command to run after a sync that succeeded; empty for none.
    pub fn hook_add(&self) -> (hook_add: &String)
        ensures
            hook_add@ == self@.hook_add,
    {
        &self.hook_add
    }

    /// Where the old target waits while the new link is made.
    pub fn backup(&self) -> (path: String)
        ensures
            path@ == self@.backup(),
    {
        let mut path = self.target.clone();
        path.append(".old_version");
        path
    }

    /// Whether the entry keeps its invariant.
    pub fn valid(&self) -> (valid: bool)
        ensures
            valid == self@.valid(),
    {
        !same(self.path.as_str(), self.target.as_str()) && !same(
            self.path.as_str(),
            self.backup().as_str(),
        ) && SyncType::parse(self.sync_type.as_str()).is_some()
    }

    fn error(&self, cause: Cause) -> (error: SyncError)
        ensures
            error@ == self@.error(cause),
    {
        match cause {
            Cause::FsProcessing => SyncError::FsProcessingError,
            Cause::Command => SyncError::CommandError,
            Cause::Unsupported => SyncError::Unsupported { error_type: self.sync_type.clone() },
            Cause::NoAdministrator => SyncError::NoAdministrator,
        }
    }

    fn fail(&self, cause: Cause) -> (next: (Phase, Request))
        ensures
            (next.0, next.1@) == self@.fail(cause),
    {
        (Phase::Done, Request::Finish { outcome: Outcome::Failed { error: self.error(cause) } })
    }

    fn finish(hook: Hook) -> (next: (Phase, Request))
        ensures
            (next.0, next.1@) == Entry::finish(hook@),
    {
        (Phase::Done, Request::Finish { outcome: Outcome::Synced { hook } })
    }

    fn script_name(platform: Platform) -> (name: String)
        ensures
            name@ == Entry::script_name(platform),
    {
        match platform {
            Platform::Windows => String::from_str("hook_script.bat"),
            Platform::Unix => String::from_str("hook_script"),
        }
    }

    fn run_command(&self, platform: Platform) -> (next: (Phase, Request))
        ensures
            (next.0, next.1@) == self@.run_command(platform),
    {
        let content = match platform {
            Platform::Windows => {
                let mut text = String::from_str("@echo off\n");
                text.append(self.hook_add.as_str());
                text
            },
            Platform::Unix => self.hook_add.clone(),
        };
        (Phase::WriteHook, Request::WriteScript { name: Self::script_name(platform), content })
    }

    fn run_script(platform: Platform) -> (next: (Phase, Request))
        ensures
            (next.0, next.1@) == Entry::run_script(platform),
    {
        let shell = match platform {
            Platform::Windows => None,
            Platform::Unix => Some(String::from_str("sh")),
        };
        (Phase::RunHook, Request::RunScript { name: Self::script_name(platform), shell })
    }

    fn synced(&self, platform: Platform) -> (next: (Phase, Request))
        ensures
            (next.0, next.1@) == self@.synced(platform),
    {
        if self.hook_add.as_str().is_empty() {
            Self::finish(Hook::Absent)
        } else {
            self.run_command(platform)
        }
    }

    fn linked(&self, platform: Platform, mode: Mode) -> (next: (Phase, Request))
        ensures
            (next.0, next.1@) == self@.linked(platform, mode),
    {
        match mode {
            Mode::Swap => (Phase::Cleanup, Request::Remove { path: self.backup() }),
            _ => self.synced(platform),
        }
    }

    fn unlinked(&self, mode: Mode, cause: Cause) -> (next: (Phase, Request))
        ensures
            (next.0, next.1@) == self@.unlinked(mode, cause),
    {
        match mode {
            Mode::Swap => (
                Phase::Restore { cause },
                Request::Rename { from: self.backup(), to: self.target.clone() },
            ),
            Mode::Adopted => (
                Phase::Return { cause },
                Request::Rename { from: self.path.clone(), to: self.target.clone() },
            ),
            Mode::Direct => self.fail(cause),
        }
    }

    /// Whether the platform has the entry's strategy.
    pub fn supported(&self, platform: Platform) -> (supported: bool)
        ensures
            supported == self@.supported(platform),
    {
        match SyncType::parse(self.sync_type.as_str()) {
            Some(SyncType::Junction) => match platform {
                Platform::Windows => true,
                Platform::Unix => false,
            },
            Some(_) => true,
            None => false,
        }
    }

    fn create_symlink(&self, platform: Platform, mode: Mode) -> (next: (Phase, Request))
        ensures
            (next.0, next.1@) == self@.create_symlink(platform, mode),
    {
        match platform {
            Platform::Windows => (Phase::ProbeAdmin { mode }, Request::IsAdmin),
            Platform::Unix => (
                Phase::Link { mode },
                Request::Symlink { source: self.path.clone(), target: self.target.clone() },
            ),
        }
    }

    fn new_item(&self, platform: Platform, mode: Mode) -> (next: (Phase, Request))
        ensures
            (next.0, next.1@) == self@.new_item(platform, mode),
    {
        match SyncType::parse(self.sync_type.as_str()) {
            Some(SyncType::SymLink) => self.create_symlink(platform, mode),
            Some(SyncType::HardLink) => (
                Phase::Link { mode },
                Request::HardLink { source: self.path.clone(), target: self.target.clone() },
            ),
            Some(SyncType::Junction) => match platform {
                Platform::Windows => (
                    Phase::Link { mode },
                    Request::Junction { source: self.path.clone(), target: self.target.clone() },
                ),
                Platform::Unix => self.unlinked(mode, Cause::Unsupported),
            },
            Some(SyncType::Copy) => (
                Phase::Link { mode },
                Request::Copy { source: self.path.clone(), target: self.target.clone() },
            ),
            None => self.unlinked(mode, Cause::Unsupported),
        }
    }

    fn link_cause(&self) -> (cause: Cause)
        ensures
            cause == self@.link_cause(),
    {
        match SyncType::parse(self.sync_type.as_str()) {
            Some(SyncType::Junction) => Cause::Command,
            _ => Cause::FsProcessing,
        }
    }

    fn reconcile(&self, platform: Platform, target_exists: bool, source_exists: bool) -> (next: (
        Phase,
        Request,
    ))
        ensures
            (next.0, next.1@) == self@.reconcile(platform, target_exists, source_exists),
    {
        if !target_exists && !source_exists {
            (
                Phase::Done,
                Request::Finish {
                    outcome: Outcome::Failed {
                        error: SyncError::NotFound {
                            path0: self.path.clone(),
                            path1: self.target.clone(),
                        },
                    },
                },
            )
        } else if !self.supported(platform) {
            self.fail(Cause::Unsupported)
        } else if target_exists && source_exists {
            (Phase::Backup, Request::Rename { from: self.target.clone(), to: self.backup() })
        } else if target_exists {
            (Phase::ProbeParent, Request::ParentExists { path: self.path.clone() })
        } else {
            self.new_item(platform, Mode::Direct)
        }
    }

    fn adopt(&self) -> (next: (Phase, Request))
        ensures
            (next.0, next.1@) == self@.adopt(),
    {
        (Phase::Adopt, Request::Rename { from: self.target.clone(), to: self.path.clone() })
    }

    fn hook_result(reply: Reply) -> (hook: Hook)
        ensures
            hook@ == Entry::hook_result(reply@),
    {
        match reply {
            Reply::Exited { code, stdout, stderr } => Hook::Exited { code, stdout, stderr },
            _ => Hook::Failed { error: SyncError::CommandError },
        }
    }

    /// One step of the entry's sync. The first call takes [`Phase::Start`] and
    /// any reply; each later call takes the phase that the call before gave,
    /// and the reply to the request that it gave. The sync is over with
    /// [`Request::Finish`].
    pub fn sync(&self, platform: Platform, phase: Phase, reply: Reply) -> (next: (Phase, Request))
        ensures
            (next.0, next.1@) == self@.step(platform, phase, reply@),
    {
        match phase {
            Phase::Start => if self.enable {
                (Phase::ProbeTarget, Request::Exists { path: self.target.clone() })
            } else {
                (Phase::Done, Request::Finish { outcome: Outcome::Disabled })
            },
            Phase::ProbeTarget => (
                Phase::ProbeSource { target_exists: reply.found() },
                Request::Exists { path: self.path.clone() },
            ),
            Phase::ProbeSource { target_exists } => self.reconcile(
                platform,
                target_exists,
                reply.found(),
            ),
            Phase::Backup => if reply.ok() {
                self.new_item(platform, Mode::Swap)
            } else {
                self.fail(Cause::FsProcessing)
            },
            Phase::ProbeParent => if reply.found() {
                self.adopt()
            } else {
                (Phase::MakeParent, Request::CreateParent { path: self.path.clone() })
            },
            Phase::MakeParent => if reply.ok() {
                self.adopt()
            } else {
                self.fail(Cause::FsProcessing)
            },
            Phase::Adopt => if reply.ok() {
                self.new_item(platform, Mode::Adopted)
            } else {
                self.fail(Cause::FsProcessing)
            },
            Phase::ProbeAdmin { mode } => if reply.found() {
                (Phase::ProbeDir { mode }, Request::IsDir { path: self.target.clone() })
            } else {
                self.unlinked(mode, Cause::NoAdministrator)
            },
            Phase::ProbeDir { mode } => (
                Phase::Link { mode },
                if reply.found() {
                    Request::SymlinkDir { source: self.path.clone(), target: self.target.clone() }
                } else {
                    Request::SymlinkFile { source: self.path.clone(), target: self.target.clone() }
                },
            ),
            Phase::Link { mode } => if reply.ok() {
                self.linked(platform, mode)
            } else {
                self.unlinked(mode, self.link_cause())
            },
            Phase::Cleanup => if reply.ok() {
                self.synced(platform)
            } else {
                self.fail(Cause::FsProcessing)
            },
            Phase::Restore { cause } => if reply.ok() {
                self.fail(cause)
            } else {
                self.fail(Cause::FsProcessing)
            },
            Phase::Return { cause } => if reply.ok() {
                self.fail(cause)
            } else {
                self.fail(Cause::FsProcessing)
            },
            Phase::WriteHook => if reply.ok() {
                Self::run_script(platform)
            } else {
                Self::finish(Hook::Failed { error: SyncError::FsProcessingError })
            },
            Phase::RunHook => Self::finish(Self::hook_result(reply)),
            Phase::Done => (Phase::Done, Request::Stop),
        }
    }
}

} // verus!
