//! A model of the file system, and the sync engine run against it.
//!
//! The model names what stands at a path by the whole path and knows no
//! directories above it: a node is never moved or deleted along with another.
//! It describes entries whose source, target and backup path do not lie inside
//! one another. A request that fails leaves the tree as it was.

use crate::dotfile::protocol::{Phase, Platform, ReplyView, RequestView};
use crate::dotfile::Entry;
use vstd::prelude::*;

verus! {

/// What stands at a path.
pub enum Node {
    /// A file with its bytes.
    File(Seq<u8>),
    /// A directory, with all that lies beneath it taken as one value.
    Dir(Seq<u8>),
    /// A symbolic link or a junction that points to the path it holds.
    Link(Seq<char>),
}

/// The surroundings of one run.
pub struct World {
    /// The nodes of the file system by their paths.
    pub tree: Map<Seq<char>, Node>,
    /// Whether the user is an administrator.
    pub admin: bool,
    /// The paths that lie in a directory that exists.
    pub housed: Set<Seq<char>>,
    /// The requests that fail although the tree would allow them.
    pub refused: Set<RequestView>,
}

impl RequestView {
    /// The request asks something of the file system or of the user's rights.
    /// The others concern the hook or end the sync.
    pub open spec fn on_tree(self) -> bool {
        !(self is WriteScript || self is RunScript || self is Finish || self is Stop)
    }

    /// The request says that the target is linked: the sync ends well, or
    /// goes on to the hook.
    pub open spec fn linked(self) -> bool {
        self is WriteScript || (self matches RequestView::Finish { outcome } && outcome is Synced)
    }

    /// The request ends the sync with an error.
    pub open spec fn failed(self) -> bool {
        self matches RequestView::Finish { outcome } && outcome is Failed
    }
}

/// Whether the tree allows the change that a request asks for.
pub open spec fn possible(tree: Map<Seq<char>, Node>, request: RequestView) -> bool {
    match request {
        RequestView::Rename { from, to } => tree.dom().contains(from),
        RequestView::Symlink { source, target } => !tree.dom().contains(target),
        RequestView::SymlinkFile { source, target } => !tree.dom().contains(target),
        RequestView::SymlinkDir { source, target } => !tree.dom().contains(target),
        RequestView::Junction { source, target } => !tree.dom().contains(target),
        RequestView::HardLink { source, target } => tree.dom().contains(source) && !(tree[source] is Dir)
            && !tree.dom().contains(target),
        RequestView::Copy { source, target } => tree.dom().contains(source) && !tree.dom().contains(
            target,
        ),
        _ => true,
    }
}

/// The tree after the change that a request asks for.
pub open spec fn effect(tree: Map<Seq<char>, Node>, request: RequestView) -> Map<Seq<char>, Node> {
    match request {
        RequestView::Rename { from, to } => tree.remove(from).insert(to, tree[from]),
        RequestView::Remove { path } => tree.remove(path),
        RequestView::Symlink { source, target } => tree.insert(target, Node::Link(source)),
        RequestView::SymlinkFile { source, target } => tree.insert(target, Node::Link(source)),
        RequestView::SymlinkDir { source, target } => tree.insert(target, Node::Link(source)),
        RequestView::Junction { source, target } => tree.insert(target, Node::Link(source)),
        RequestView::HardLink { source, target } => tree.insert(target, tree[source]),
        RequestView::Copy { source, target } => tree.insert(target, tree[source]),
        _ => tree,
    }
}

impl World {
    /// The world with another tree.
    pub open spec fn with(self, tree: Map<Seq<char>, Node>) -> World {
        World { tree, admin: self.admin, housed: self.housed, refused: self.refused }
    }

    /// The reply to a request, and the tree after it.
    pub open spec fn react(self, request: RequestView) -> (Map<Seq<char>, Node>, ReplyView) {
        match request {
            RequestView::Exists { path } => (self.tree, ReplyView::Found(self.tree.dom().contains(path))),
            RequestView::ParentExists { path } => (
                self.tree,
                ReplyView::Found(self.housed.contains(path)),
            ),
            RequestView::IsAdmin => (self.tree, ReplyView::Found(self.admin)),
            RequestView::IsDir { path } => (
                self.tree,
                ReplyView::Found(self.tree.dom().contains(path) && self.tree[path] is Dir),
            ),
            _ => if possible(self.tree, request) && !self.refused.contains(request) {
                (effect(self.tree, request), ReplyView::Done)
            } else {
                (self.tree, ReplyView::Failed)
            },
        }
    }
}

/// Where a run has come to: the tree, and the request at which it stopped.
pub struct Run {
    pub tree: Map<Seq<char>, Node>,
    pub request: RequestView,
}

/// The engine run on from a request that it has made and the phase that it
/// stands in, each request answered by the world, until a request no longer
/// concerns the tree or `fuel` requests were answered.
pub open spec fn proceed(
    entry: Entry,
    platform: Platform,
    world: World,
    phase: Phase,
    request: RequestView,
    fuel: nat,
) -> Run
    decreases fuel,
{
    if fuel == 0 || !request.on_tree() {
        Run { tree: world.tree, request }
    } else {
        let (tree, answer) = world.react(request);
        let (next, asked) = entry.step(platform, phase, answer);
        proceed(entry, platform, world.with(tree), next, asked, (fuel - 1) as nat)
    }
}

/// The sync of an entry in a world, from its first step to the request that
/// says how it ended: the outcome, or the first request of the hook. What a
/// hook's command does to the tree is not followed. No sync asks more than
/// nine things of the tree.
pub open spec fn sync(entry: Entry, platform: Platform, world: World) -> Run {
    let (phase, request) = entry.step(platform, Phase::Start, ReplyView::Begin);
    proceed(entry, platform, world, phase, request, 9)
}

} // verus!
