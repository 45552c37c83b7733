//! A link rule with its strategy told apart.

use crate::dotfile::protocol::{Phase, Platform, Reply, Request};
use crate::dotfile::Entry;
use crate::text::same;
use vstd::prelude::*;

verus! {

/// How a target is made to reflect its source.
#[derive(Debug, Clone, Copy, PartialEq, Eq, Structural)]
pub enum SyncType {
    SymLink,
    HardLink,
    Junction,
    Copy,
}

impl SyncType {
    /// The tag by which a configuration names the strategy.
    pub open spec fn tag(self) -> Seq<char> {
        match self {
            SyncType::SymLink => "symlink"@,
            SyncType::HardLink => "hardlink"@,
            SyncType::Junction => "junction"@,
            SyncType::Copy => "copy"@,
        }
    }

    /// The strategy that a tag names, if it names one.
    pub open spec fn of_tag(tag: Seq<char>) -> Option<SyncType> {
        if tag == "symlink"@ {
            Some(SyncType::SymLink)
        } else if tag == "hardlink"@ {
            Some(SyncType::HardLink)
        } else if tag == "junction"@ {
            Some(SyncType::Junction)
        } else if tag == "copy"@ {
            Some(SyncType::Copy)
        } else {
            None
        }
    }

    /// Reads a strategy from its tag.
    pub fn parse(tag: &str) -> (r: Option<SyncType>)
        ensures
            r == Self::of_tag(tag@),
    {
        if same(tag, "symlink") {
            Some(SyncType::SymLink)
        } else if same(tag, "hardlink") {
            Some(SyncType::HardLink)
        } else if same(tag, "junction") {
            Some(SyncType::Junction)
        } else if same(tag, "copy") {
            Some(SyncType::Copy)
        } else {
            None
        }
    }
}

impl SyncType {
    /// The tag by which a configuration names the strategy.
    pub fn label(&self) -> (tag: &'static str)
        ensures
            tag@ == self.tag(),
    {
        match self {
            SyncType::SymLink => "symlink",
            SyncType::HardLink => "hardlink",
            SyncType::Junction => "junction",
            SyncType::Copy => "copy",
        }
    }

    /// The strategy that a configuration asks for: the one that its tag
    /// names, and a copy where there is no tag or it names none.
    pub open spec fn chosen(tag: Option<Seq<char>>) -> SyncType {
        match tag {
            Some(tag) => match Self::of_tag(tag) {
                Some(sync_type) => sync_type,
                None => SyncType::Copy,
            },
            None => SyncType::Copy,
        }
    }
}

/// Each strategy is named by its own tag and by no other.
pub proof fn tag_names_strategy(sync_type: SyncType)
    ensures
        SyncType::of_tag(sync_type.tag()) == Some(sync_type),
{
    reveal_strlit("symlink");
    reveal_strlit("hardlink");
    reveal_strlit("junction");
    reveal_strlit("copy");
    assert("symlink"@.len() == 7 && "hardlink"@.len() == 8 && "copy"@.len() == 4);
    assert("junction"@[0] == 'j' && "hardlink"@[0] == 'h');
}

/// A link rule: a source, a target and the strategy that links them.
#[derive(Debug, PartialEq, Eq)]
pub struct Dotfile {
    path: String,
    target: String,
    sync_type: SyncType,
}

impl Dotfile {
    /// The strategy of the rule.
    pub closed spec fn strategy(&self) -> SyncType {
        self.sync_type
    }

    /// The rule as an entry of the sync engine: switched on, without a name
    /// and without a hook.
    pub closed spec fn entry(&self) -> Entry {
        Entry {
            name: Seq::empty(),
            path: self.path@,
            target: self.target@,
            sync_type: self.sync_type.tag(),
            enable: true,
            hook_add: Seq::empty(),
        }
    }

    pub fn new(path: String, target: String, sync_type: Option<&str>) -> (rule: Self)
        ensures
            rule.strategy() == SyncType::chosen(
                match sync_type {
                    Some(tag) => Some(tag@),
                    None => None,
                },
            ),
            rule.entry() == (Entry {
                name: Seq::empty(),
                path: path@,
                target: target@,
                sync_type: SyncType::chosen(
                    match sync_type {
                        Some(tag) => Some(tag@),
                        None => None,
                    },
                ).tag(),
                enable: true,
                hook_add: Seq::empty(),
            }),
    {
        let sync_type = match sync_type {
            Some(tag) => match SyncType::parse(tag) {
                Some(sync_type) => sync_type,
                None => SyncType::Copy,
            },
            None => SyncType::Copy,
        };
        Self { path, target, sync_type }
    }

    /// The strategy of the rule.
    pub fn sync_type(&self) -> (sync_type: SyncType)
        ensures
            sync_type == self.strategy(),
            sync_type.tag() == self.entry().sync_type,
    {
        self.sync_type
    }

    /// One step of the rule's sync: the step of the sync engine for the rule
    /// taken as an entry.
    pub fn sync(&self, platform: Platform, phase: Phase, reply: Reply) -> (next: (Phase, Request))
        ensures
            (next.0, next.1@) == self.entry().step(platform, phase, reply@),
    {
        let entry = crate::dotfile::Dotfile::new(
            String::new(),
            self.path.clone(),
            self.target.clone(),
            String::from_str(self.sync_type.label()),
            true,
            String::new(),
        );
        entry.sync(platform, phase, reply)
    }
}

} // verus!
