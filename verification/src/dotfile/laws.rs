//! What holds of every sync, proved over the model.

use crate::config::dotfile::SyncType;
use crate::dotfile::model::{possible, proceed, sync, Node, Run, World};
use crate::dotfile::protocol::{
    Mode, OutcomeView, Phase, Platform, ReplyView, RequestView, SyncErrorView,
};
use crate::dotfile::Entry;
use vstd::prelude::*;

verus! {

/// The node that the link strategy puts at the target.
pub open spec fn reflection(entry: Entry, tree: Map<Seq<char>, Node>) -> Node {
    match SyncType::of_tag(entry.sync_type) {
        Some(SyncType::HardLink) | Some(SyncType::Copy) => tree[entry.path],
        _ => Node::Link(entry.path),
    }
}

/// How many requests on the tree may at most still follow the one that is
/// pending in a phase, that one counted.
pub open spec fn pending(phase: Phase) -> nat {
    match phase {
        Phase::Start => 10,
        Phase::ProbeTarget => 9,
        Phase::ProbeSource { .. } => 8,
        Phase::ProbeParent => 7,
        Phase::MakeParent => 6,
        Phase::Backup => 5,
        Phase::Adopt => 5,
        Phase::ProbeAdmin { mode: Mode::Direct } => 3,
        Phase::ProbeAdmin { .. } => 4,
        Phase::ProbeDir { mode: Mode::Direct } => 2,
        Phase::ProbeDir { .. } => 3,
        Phase::Link { mode: Mode::Direct } => 1,
        Phase::Link { .. } => 2,
        Phase::Cleanup => 1,
        Phase::Restore { .. } => 1,
        Phase::Return { .. } => 1,
        Phase::WriteHook => 0,
        Phase::RunHook => 0,
        Phase::Done => 0,
    }
}

/// From a phase on, the engine asks at most as much of the tree as is
/// pending in that phase, and then hands over its outcome or goes on to the
/// hook.
proof fn proceed_ends(
    entry: Entry,
    platform: Platform,
    world: World,
    phase: Phase,
    request: RequestView,
    fuel: nat,
)
    requires
        request.on_tree() ==> 0 < pending(phase) <= fuel,
        request.on_tree() || request is Finish || request is WriteScript,
    ensures
        ({
            let end = proceed(entry, platform, world, phase, request, fuel);
            end.request is Finish || end.request is WriteScript
        }),
    decreases fuel,
{
    if fuel != 0 && request.on_tree() {
        let (tree, answer) = world.react(request);
        let (next, asked) = entry.step(platform, phase, answer);
        proceed_ends(entry, platform, world.with(tree), next, asked, (fuel - 1) as nat);
    }
}

/// Every sync comes to an end: after at most nine requests on the tree it
/// hands over its outcome, or goes on to the hook.
pub proof fn sync_ends(entry: Entry, platform: Platform, world: World)
    ensures
        ({
            let end = sync(entry, platform, world);
            end.request is Finish || end.request is WriteScript
        }),
{
    let (phase, request) = entry.step(platform, Phase::Start, ReplyView::Begin);
    proceed_ends(entry, platform, world, phase, request, 9);
}

/// Once the target is linked, nothing takes that back: the hook's requests
/// are answered by the hook's next request or by the outcome that the entry
/// is synced, whatever the reply, and nothing more is asked of the tree.
pub proof fn hook_leaves_the_sync_done(entry: Entry, platform: Platform, reply: ReplyView)
    ensures
        ({
            let (next, request) = entry.step(platform, Phase::WriteHook, reply);
            if reply.ok() {
                next == Phase::RunHook && request is RunScript
            } else {
                next == Phase::Done && request.linked() && request is Finish
            }
        }),
        entry.step(platform, Phase::RunHook, reply) == (
            Phase::Done,
            RequestView::Finish { outcome: OutcomeView::Synced { hook: Entry::hook_result(reply) } },
        ),
{
}

/// An entry that is switched off is reported as such, and nothing is asked of
/// the file system.
pub proof fn disabled_entry_is_untouched(entry: Entry, platform: Platform, world: World)
    requires
        !entry.enable,
    ensures
        sync(entry, platform, world) == (Run {
            tree: world.tree,
            request: RequestView::Finish { outcome: OutcomeView::Disabled },
        }),
{
}

/// The link strategy on a tree where nothing stands at the target and
/// nothing waits at the backup path: it ends with the target linked and the
/// tree otherwise as it was, or with an error and the tree as it was.
proof fn link_direct(entry: Entry, platform: Platform, world: World, fuel: nat)
    requires
        entry.valid(),
        !world.tree.dom().contains(entry.target),
        fuel >= 3,
    ensures
        ({
            let (phase, request) = entry.new_item(platform, Mode::Direct);
            let end = proceed(entry, platform, world, phase, request, fuel);
            if end.request.linked() {
                end.tree == world.tree.insert(entry.target, reflection(entry, world.tree))
            } else {
                end.request.failed() && end.tree == world.tree
            }
        }),
{
    reveal_with_fuel(proceed, 4);
}

/// The request that deletes the backup.
pub open spec fn cleanup(entry: Entry) -> RequestView {
    RequestView::Remove { path: entry.backup() }
}

/// The request that moves the backup to the target again.
pub open spec fn restore(entry: Entry) -> RequestView {
    RequestView::Rename { from: entry.backup(), to: entry.target }
}

/// The request that moves the source, which was the target, to the target
/// again.
pub open spec fn give_back(entry: Entry) -> RequestView {
    RequestView::Rename { from: entry.path, to: entry.target }
}

/// The link strategy on a tree where the old target has become the source:
/// it ends with the target linked, or with an error and the source moved
/// back to the target, or, where that move is refused, with the tree as it
/// was found.
proof fn link_adopted(entry: Entry, platform: Platform, world: World, fuel: nat)
    requires
        entry.valid(),
        world.tree.dom().contains(entry.path),
        !world.tree.dom().contains(entry.target),
        fuel >= 4,
    ensures
        ({
            let (phase, request) = entry.new_item(platform, Mode::Adopted);
            let end = proceed(entry, platform, world, phase, request, fuel);
            if end.request.linked() {
                end.tree == world.tree.insert(entry.target, reflection(entry, world.tree))
            } else {
                &&& end.request.failed()
                &&& {
                    ||| end.tree == world.tree.remove(entry.path).insert(
                        entry.target,
                        world.tree[entry.path],
                    )
                    ||| world.refused.contains(give_back(entry)) && end.tree == world.tree
                }
            }
        }),
{
    reveal_with_fuel(proceed, 5);
}

/// The link strategy on a tree where the old target waits at the backup path.
proof fn link_swap(entry: Entry, platform: Platform, world: World, fuel: nat)
    requires
        entry.valid(),
        !world.tree.dom().contains(entry.target),
        world.tree.dom().contains(entry.backup()),
        fuel >= 4,
    ensures
        ({
            let (phase, request) = entry.new_item(platform, Mode::Swap);
            let end = proceed(entry, platform, world, phase, request, fuel);
            let linked = world.tree.insert(entry.target, reflection(entry, world.tree));
            if end.request.linked() {
                end.tree == linked.remove(entry.backup())
            } else {
                &&& end.request.failed()
                &&& {
                    ||| end.tree == world.tree.remove(entry.backup()).insert(
                        entry.target,
                        world.tree[entry.backup()],
                    )
                    ||| world.refused.contains(restore(entry)) && end.tree == world.tree
                    ||| world.refused.contains(cleanup(entry)) && end.tree == linked
                }
            }
        }),
{
    reveal_with_fuel(proceed, 5);
}

/// The tree once the target has been moved to the backup path.
pub open spec fn set_aside(entry: Entry, tree: Map<Seq<char>, Node>) -> Map<Seq<char>, Node> {
    tree.remove(entry.target).insert(entry.backup(), tree[entry.target])
}

/// The tree once the target has become the source.
pub open spec fn adopted(entry: Entry, tree: Map<Seq<char>, Node>) -> Map<Seq<char>, Node> {
    tree.remove(entry.target).insert(entry.path, tree[entry.target])
}

/// Where only the source exists, the sync links the target to it and changes
/// nothing else; or it fails and changes nothing at all.
pub proof fn source_only_is_linked(entry: Entry, platform: Platform, world: World)
    requires
        entry.enable,
        entry.valid(),
        world.tree.dom().contains(entry.path),
        !world.tree.dom().contains(entry.target),
    ensures
        ({
            let end = sync(entry, platform, world);
            if end.request.linked() {
                &&& end.tree == world.tree.insert(entry.target, reflection(entry, world.tree))
                &&& end.tree.dom().contains(entry.target)
                &&& end.tree[entry.target] == reflection(entry, end.tree)
            } else {
                end.request.failed() && end.tree == world.tree
            }
        }),
{
    reveal_with_fuel(proceed, 3);
    link_direct(entry, platform, world, 7);
}

/// Where source and target both exist and the sync succeeds, the target
/// reflects the source and nothing is left at the backup path.
pub proof fn swap_leaves_no_backup(entry: Entry, platform: Platform, world: World)
    requires
        entry.enable,
        entry.valid(),
        world.tree.dom().contains(entry.path),
        world.tree.dom().contains(entry.target),
        sync(entry, platform, world).request.linked(),
    ensures
        ({
            let end = sync(entry, platform, world);
            &&& end.tree == world.tree.insert(
                entry.target,
                reflection(entry, world.tree),
            ).remove(entry.backup())
            &&& !end.tree.dom().contains(entry.backup())
            &&& end.tree.dom().contains(entry.target)
            &&& end.tree[entry.target] == reflection(entry, end.tree)
        }),
{
    swap_outcomes(entry, platform, world);
    backup_is_apart(entry);
}

/// Where source and target both exist and the sync fails, the target holds
/// what it held before and nothing new is left at the backup path, provided
/// that neither the move back to the target nor the backup's deletion is what
/// failed.
pub proof fn failed_swap_restores_target(entry: Entry, platform: Platform, world: World)
    requires
        entry.enable,
        entry.valid(),
        world.tree.dom().contains(entry.path),
        world.tree.dom().contains(entry.target),
        !world.refused.contains(restore(entry)),
        !world.refused.contains(cleanup(entry)),
        !sync(entry, platform, world).request.linked(),
    ensures
        ({
            let end = sync(entry, platform, world);
            &&& end.request.failed()
            &&& end.tree.dom().contains(entry.target)
            &&& end.tree[entry.target] == world.tree[entry.target]
            &&& end.tree == world.tree.remove(entry.backup()) || end.tree == world.tree
            &&& end.tree.dom().contains(entry.backup()) ==> end.tree == world.tree
        }),
{
    swap_outcomes(entry, platform, world);
    backup_is_apart(entry);
}

/// The backup path is longer than the target, so it is another path.
pub proof fn backup_is_apart(entry: Entry)
    ensures
        entry.backup() != entry.target,
{
    reveal_strlit(".old_version");
}

/// All the ways in which the sync of an entry whose source and target both
/// exist can end: linked; failed with nothing changed; failed with the target
/// put back; failed with the old target left at the backup path, because it
/// could not be moved back; failed with the new link in place and the backup
/// beside it, because the backup could not be deleted.
pub proof fn swap_outcomes(entry: Entry, platform: Platform, world: World)
    requires
        entry.enable,
        entry.valid(),
        world.tree.dom().contains(entry.path),
        world.tree.dom().contains(entry.target),
    ensures
        ({
            let end = sync(entry, platform, world);
            let aside = set_aside(entry, world.tree);
            let linked = aside.insert(entry.target, reflection(entry, world.tree));
            if end.request.linked() {
                end.tree == world.tree.insert(
                    entry.target,
                    reflection(entry, world.tree),
                ).remove(entry.backup())
            } else {
                &&& end.request.failed()
                &&& {
                    ||| end.tree == world.tree
                    ||| end.tree == world.tree.remove(entry.backup())
                    ||| world.refused.contains(restore(entry)) && end.tree == aside
                    ||| world.refused.contains(cleanup(entry)) && end.tree == linked
                }
            }
        }),
{
    let tree = world.tree;
    let aside = set_aside(entry, tree);
    backup_is_apart(entry);
    reveal_with_fuel(proceed, 4);
    let first = RequestView::Rename { from: entry.target, to: entry.backup() };
    if possible(tree, first) && !world.refused.contains(first) {
        link_swap(entry, platform, world.with(aside), 6);
    }
}

/// Where only the target exists and the sync succeeds, the source holds what
/// stood at the target, and the target reflects the source. Where it fails,
/// the tree is as it was, unless the move back to the target is what was
/// refused: then what stood at the target stays at the source.
pub proof fn target_only_is_adopted(entry: Entry, platform: Platform, world: World)
    requires
        entry.enable,
        entry.valid(),
        !world.tree.dom().contains(entry.path),
        world.tree.dom().contains(entry.target),
    ensures
        ({
            let end = sync(entry, platform, world);
            let moved = adopted(entry, world.tree);
            if end.request.linked() {
                &&& end.tree == moved.insert(entry.target, reflection(entry, moved))
                &&& end.tree[entry.path] == world.tree[entry.target]
                &&& end.tree[entry.target] == reflection(entry, end.tree)
            } else {
                &&& end.request.failed()
                &&& {
                    ||| end.tree == world.tree
                    ||| world.refused.contains(give_back(entry)) && end.tree == moved
                }
            }
        }),
{
    let tree = world.tree;
    let moved = adopted(entry, tree);
    assert(moved.remove(entry.path).insert(entry.target, moved[entry.path]) =~= tree);
    reveal_with_fuel(proceed, 6);
    link_adopted(entry, platform, world.with(moved), 4);
    link_adopted(entry, platform, world.with(moved), 5);
}

/// Where neither source nor target exists, the sync fails with `NotFound`,
/// which names both paths, and nothing is changed.
pub proof fn neither_is_not_found(entry: Entry, platform: Platform, world: World)
    requires
        entry.enable,
        !world.tree.dom().contains(entry.path),
        !world.tree.dom().contains(entry.target),
    ensures
        sync(entry, platform, world) == (Run {
            tree: world.tree,
            request: RequestView::Finish {
                outcome: OutcomeView::Failed {
                    error: SyncErrorView::NotFound { path0: entry.path, path1: entry.target },
                },
            },
        }),
{
    reveal_with_fuel(proceed, 3);
}

/// Whether the platform and the tree let the entry's strategy link what is
/// to be linked: a symbolic link needs an administrator where the platform
/// asks for one, a hard link cannot be made to a directory, and a junction
/// needs Windows.
pub open spec fn available(entry: Entry, platform: Platform, world: World) -> bool {
    let linked = if world.tree.dom().contains(entry.path) {
        world.tree[entry.path]
    } else {
        world.tree[entry.target]
    };
    match SyncType::of_tag(entry.sync_type) {
        Some(SyncType::SymLink) => platform == Platform::Unix || world.admin,
        Some(SyncType::HardLink) => !(linked is Dir),
        Some(SyncType::Junction) => platform == Platform::Windows,
        _ => true,
    }
}

/// The link strategy succeeds where the source exists, nothing stands at the
/// target, the strategy is available and no request is refused.
proof fn link_succeeds(entry: Entry, platform: Platform, world: World, mode: Mode, fuel: nat)
    requires
        entry.valid(),
        world.tree.dom().contains(entry.path),
        !world.tree.dom().contains(entry.target),
        available(entry, platform, world),
        forall|request: RequestView| !world.refused.contains(request),
        fuel >= 4,
    ensures
        ({
            let (phase, request) = entry.new_item(platform, mode);
            proceed(entry, platform, world, phase, request, fuel).request.linked()
        }),
{
    reveal_with_fuel(proceed, 5);
}

/// Where source or target exists, the strategy is available and no request
/// is refused, the sync succeeds.
pub proof fn sync_succeeds(entry: Entry, platform: Platform, world: World)
    requires
        entry.enable,
        entry.valid(),
        world.tree.dom().contains(entry.path) || world.tree.dom().contains(entry.target),
        available(entry, platform, world),
        forall|request: RequestView| !world.refused.contains(request),
    ensures
        sync(entry, platform, world).request.linked(),
{
    backup_is_apart(entry);
    let tree = world.tree;
    if !tree.dom().contains(entry.target) {
        reveal_with_fuel(proceed, 3);
        link_succeeds(entry, platform, world, Mode::Direct, 7);
    } else if tree.dom().contains(entry.path) {
        reveal_with_fuel(proceed, 4);
        let aside = set_aside(entry, tree);
        link_succeeds(entry, platform, world.with(aside), Mode::Swap, 6);
    } else {
        reveal_with_fuel(proceed, 6);
        let moved = adopted(entry, tree);
        link_succeeds(entry, platform, world.with(moved), Mode::Adopted, 4);
        link_succeeds(entry, platform, world.with(moved), Mode::Adopted, 5);
    }
}

/// A strategy that the platform lacks is refused before anything is changed,
/// in every state in which there is something to sync: a junction outside
/// Windows, and a tag that names no strategy.
pub proof fn unsupported_strategy_is_refused(entry: Entry, platform: Platform, world: World)
    requires
        entry.enable,
        !entry.supported(platform),
        world.tree.dom().contains(entry.path) || world.tree.dom().contains(entry.target),
    ensures
        sync(entry, platform, world) == (Run {
            tree: world.tree,
            request: RequestView::Finish {
                outcome: OutcomeView::Failed {
                    error: SyncErrorView::Unsupported { error_type: entry.sync_type },
                },
            },
        }),
{
    reveal_with_fuel(proceed, 3);
}

/// A sync that fails leaves the tree as it was, in every state, provided
/// that nothing stood at the backup path and that none of the moves back and
/// not the backup's deletion is what was refused.
pub proof fn failed_sync_changes_nothing(entry: Entry, platform: Platform, world: World)
    requires
        entry.valid(),
        !world.tree.dom().contains(entry.backup()),
        !world.refused.contains(restore(entry)),
        !world.refused.contains(cleanup(entry)),
        !world.refused.contains(give_back(entry)),
        !sync(entry, platform, world).request.linked(),
    ensures
        sync(entry, platform, world).tree == world.tree,
{
    let tree = world.tree;
    if !entry.enable {
        disabled_entry_is_untouched(entry, platform, world);
    } else if tree.dom().contains(entry.target) && tree.dom().contains(entry.path) {
        swap_outcomes(entry, platform, world);
        assert(tree.remove(entry.backup()) =~= tree);
    } else if tree.dom().contains(entry.target) {
        target_only_is_adopted(entry, platform, world);
    } else if tree.dom().contains(entry.path) {
        source_only_is_linked(entry, platform, world);
    } else {
        neither_is_not_found(entry, platform, world);
    }
}

/// Whatever the sync of an entry comes to, a source that exists stays what
/// it is.
pub proof fn source_is_kept(entry: Entry, platform: Platform, world: World)
    requires
        entry.valid(),
        world.tree.dom().contains(entry.path),
    ensures
        sync(entry, platform, world).tree.dom().contains(entry.path),
        sync(entry, platform, world).tree[entry.path] == world.tree[entry.path],
{
    if !entry.enable {
        disabled_entry_is_untouched(entry, platform, world);
    } else if world.tree.dom().contains(entry.target) {
        swap_outcomes(entry, platform, world);
    } else {
        source_only_is_linked(entry, platform, world);
    }
}

/// The paths that a request may change.
pub open spec fn touched(request: RequestView) -> Set<Seq<char>> {
    match request {
        RequestView::Rename { from, to } => set![from, to],
        RequestView::Remove { path } => set![path],
        RequestView::Symlink { source, target } => set![target],
        RequestView::SymlinkFile { source, target } => set![target],
        RequestView::SymlinkDir { source, target } => set![target],
        RequestView::Junction { source, target } => set![target],
        RequestView::HardLink { source, target } => set![target],
        RequestView::Copy { source, target } => set![target],
        _ => Set::empty(),
    }
}

/// The paths of an entry: its source, its target and its backup path.
pub open spec fn own(entry: Entry) -> Set<Seq<char>> {
    set![entry.path, entry.target, entry.backup()]
}

/// Run on from any request on the entry's own paths, the engine leaves a
/// path that is not the entry's own as it was.
proof fn proceed_keeps_others(
    entry: Entry,
    platform: Platform,
    world: World,
    phase: Phase,
    request: RequestView,
    fuel: nat,
    other: Seq<char>,
)
    requires
        !own(entry).contains(other),
        touched(request).subset_of(own(entry)),
    ensures
        ({
            let end = proceed(entry, platform, world, phase, request, fuel);
            &&& end.tree.dom().contains(other) == world.tree.dom().contains(other)
            &&& end.tree[other] == world.tree[other]
        }),
    decreases fuel,
{
    if fuel != 0 && request.on_tree() {
        let (tree, answer) = world.react(request);
        let (next, asked) = entry.step(platform, phase, answer);
        proceed_keeps_others(entry, platform, world.with(tree), next, asked, (fuel - 1) as nat, other);
    }
}

/// The sync of an entry changes nothing but at the entry's own paths: what
/// stands elsewhere stays, and nothing appears there.
pub proof fn others_are_kept(entry: Entry, platform: Platform, world: World, other: Seq<char>)
    requires
        other != entry.path,
        other != entry.target,
        other != entry.backup(),
    ensures
        sync(entry, platform, world).tree.dom().contains(other) == world.tree.dom().contains(other),
        sync(entry, platform, world).tree[other] == world.tree[other],
{
    let (phase, request) = entry.step(platform, Phase::Start, ReplyView::Begin);
    proceed_keeps_others(entry, platform, world, phase, request, 9, other);
}

} // verus!
