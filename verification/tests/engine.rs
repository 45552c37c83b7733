use std::collections::BTreeMap;

use sinc::dotfile::protocol::{Hook, Outcome, Phase, Platform, Reply, Request, SyncError};
use sinc::dotfile::Dotfile;

/// What stands at a path of the disk that the tests work on.
#[derive(Debug, Clone, PartialEq, Eq)]
enum Node {
    File(String),
    Dir(String),
    Link(String),
}

/// A disk in memory that answers the engine's requests.
struct Disk {
    nodes: BTreeMap<String, Node>,
    admin: bool,
    housed: bool,
    refused: Vec<Request>,
    asked: Vec<Request>,
    hook: Reply,
}

impl Disk {
    fn new() -> Disk {
        Disk {
            nodes: BTreeMap::new(),
            admin: true,
            housed: true,
            refused: Vec::new(),
            asked: Vec::new(),
            hook: Reply::Failed,
        }
    }

    fn with(mut self, path: &str, node: Node) -> Disk {
        self.nodes.insert(path.to_string(), node);
        self
    }

    fn refusing(mut self, request: Request) -> Disk {
        self.refused.push(request);
        self
    }

    fn link(&mut self, source: &str, target: &str) -> Reply {
        if self.nodes.contains_key(target) {
            return Reply::Failed;
        }
        self.nodes.insert(target.to_string(), Node::Link(source.to_string()));
        Reply::Done
    }

    fn answer(&mut self, request: &Request) -> Reply {
        self.asked.push(request.clone());
        if self.refused.contains(request) {
            return Reply::Failed;
        }
        match request {
            Request::Exists { path } => Reply::Found(self.nodes.contains_key(path)),
            Request::ParentExists { .. } => Reply::Found(self.housed),
            Request::CreateParent { .. } => Reply::Done,
            Request::Rename { from, to } => match self.nodes.remove(from) {
                Some(node) => {
                    self.nodes.insert(to.clone(), node);
                    Reply::Done
                }
                None => Reply::Failed,
            },
            Request::Remove { path } => {
                self.nodes.remove(path);
                Reply::Done
            }
            Request::IsAdmin => Reply::Found(self.admin),
            Request::IsDir { path } => Reply::Found(matches!(self.nodes.get(path), Some(Node::Dir(_)))),
            Request::Symlink { source, target }
            | Request::SymlinkFile { source, target }
            | Request::SymlinkDir { source, target }
            | Request::Junction { source, target } => self.link(source, target),
            Request::HardLink { source, target } => match self.nodes.get(source).cloned() {
                Some(Node::Dir(_)) | None => Reply::Failed,
                Some(node) => {
                    if self.nodes.contains_key(target) {
                        return Reply::Failed;
                    }
                    self.nodes.insert(target.clone(), node);
                    Reply::Done
                }
            },
            Request::Copy { source, target } => match self.nodes.get(source).cloned() {
                Some(node) if !self.nodes.contains_key(target) => {
                    self.nodes.insert(target.clone(), node);
                    Reply::Done
                }
                _ => Reply::Failed,
            },
            Request::WriteScript { .. } => Reply::Done,
            Request::RunScript { .. } => self.hook.clone(),
            Request::Finish { .. } | Request::Stop => Reply::Done,
        }
    }
}

/// Drives the sync of an entry on a disk to its end.
fn run(entry: &Dotfile, platform: Platform, disk: &mut Disk) -> Outcome {
    let mut phase = Phase::Start;
    let mut reply = Reply::Begin;
    for _ in 0..32 {
        let (next, request) = entry.sync(platform, phase, reply);
        if let Request::Finish { outcome } = request {
            assert_eq!(next, Phase::Done);
            return outcome;
        }
        reply = disk.answer(&request);
        phase = next;
    }
    panic!("the sync did not end");
}

fn entry(sync_type: &str) -> Dotfile {
    Dotfile::new(
        "vimrc".to_string(),
        "dot/vimrc".to_string(),
        "~/.vimrc".to_string(),
        sync_type.to_string(),
        true,
        String::new(),
    )
}

fn hooked(hook: &str) -> Dotfile {
    Dotfile::new(
        "vimrc".to_string(),
        "dot/vimrc".to_string(),
        "~/.vimrc".to_string(),
        "symlink".to_string(),
        true,
        hook.to_string(),
    )
}

fn file(content: &str) -> Node {
    Node::File(content.to_string())
}

fn link(to: &str) -> Node {
    Node::Link(to.to_string())
}

fn synced() -> Outcome {
    Outcome::Synced { hook: Hook::Absent }
}

fn failed(error: SyncError) -> Outcome {
    Outcome::Failed { error }
}

const BACKUP: &str = "~/.vimrc.old_version";

#[test]
fn new_keeps_what_it_is_given() {
    let entry = Dotfile::new(
        "n".to_string(),
        "p".to_string(),
        "t".to_string(),
        "copy".to_string(),
        true,
        "h".to_string(),
    );
    assert_eq!(entry.name(), "n");
    assert_eq!(entry.path(), "p");
    assert_eq!(entry.target(), "t");
    assert_eq!(entry.sync_type(), "copy");
    assert!(entry.enable());
    assert_eq!(entry.hook_add(), "h");
    assert_eq!(entry.backup(), "t.old_version");
}

#[test]
fn disabled_entry_finishes_at_once() {
    let entry = Dotfile::new(
        "vimrc".to_string(),
        "dot/vimrc".to_string(),
        "/home/u/.vimrc".to_string(),
        "symlink".to_string(),
        false,
        String::new(),
    );
    let (phase, request) = entry.sync(Platform::Unix, Phase::Start, Reply::Begin);
    assert_eq!(phase, Phase::Done);
    assert_eq!(request, Request::Finish { outcome: Outcome::Disabled });
}

#[test]
fn disabled_entry_leaves_the_disk_alone() {
    let entry = Dotfile::new(
        "vimrc".to_string(),
        "dot/vimrc".to_string(),
        "~/.vimrc".to_string(),
        "symlink".to_string(),
        false,
        "echo done".to_string(),
    );
    let mut disk = Disk::new().with("dot/vimrc", file("S")).with("~/.vimrc", file("T"));
    let before = disk.nodes.clone();
    assert_eq!(run(&entry, Platform::Unix, &mut disk), Outcome::Disabled);
    assert_eq!(disk.nodes, before);
    assert!(disk.asked.is_empty());
}

#[test]
fn source_only_symlink_links_target_to_source() {
    let mut disk = Disk::new().with("dot/vimrc", file("S"));
    assert_eq!(run(&entry("symlink"), Platform::Unix, &mut disk), synced());
    assert_eq!(disk.nodes.get("~/.vimrc"), Some(&link("dot/vimrc")));
    assert_eq!(disk.nodes.get("dot/vimrc"), Some(&file("S")));
    assert_eq!(disk.nodes.len(), 2);
    assert_eq!(
        disk.asked,
        vec![
            Request::Exists { path: "~/.vimrc".to_string() },
            Request::Exists { path: "dot/vimrc".to_string() },
            Request::Symlink { source: "dot/vimrc".to_string(), target: "~/.vimrc".to_string() },
        ]
    );
}

#[test]
fn source_only_hardlink_and_copy_give_the_source_content() {
    for sync_type in ["hardlink", "copy"] {
        let mut disk = Disk::new().with("dot/vimrc", file("S"));
        assert_eq!(run(&entry(sync_type), Platform::Unix, &mut disk), synced());
        assert_eq!(disk.nodes.get("~/.vimrc"), Some(&file("S")));
        assert_eq!(disk.nodes.get("dot/vimrc"), Some(&file("S")));
    }
}

#[test]
fn strategies_ask_for_their_own_link() {
    let source = "dot/vimrc".to_string();
    let target = "~/.vimrc".to_string();
    let cases = [
        ("hardlink", Platform::Unix, Request::HardLink { source: source.clone(), target: target.clone() }),
        ("hardlink", Platform::Windows, Request::HardLink { source: source.clone(), target: target.clone() }),
        ("copy", Platform::Unix, Request::Copy { source: source.clone(), target: target.clone() }),
        ("copy", Platform::Windows, Request::Copy { source: source.clone(), target: target.clone() }),
        ("junction", Platform::Windows, Request::Junction { source: source.clone(), target: target.clone() }),
        ("symlink", Platform::Unix, Request::Symlink { source: source.clone(), target: target.clone() }),
    ];
    for (sync_type, platform, expected) in cases {
        let (phase, request) = entry(sync_type).sync(
            platform,
            Phase::ProbeSource { target_exists: false },
            Reply::Found(true),
        );
        assert_eq!(phase, Phase::Link { mode: sinc::dotfile::protocol::Mode::Direct });
        assert_eq!(request, expected);
    }
}

#[test]
fn target_only_is_adopted_as_source() {
    let mut disk = Disk::new().with("~/.vimrc", file("X"));
    disk.housed = false;
    assert_eq!(run(&entry("symlink"), Platform::Unix, &mut disk), synced());
    assert_eq!(disk.nodes.get("dot/vimrc"), Some(&file("X")));
    assert_eq!(disk.nodes.get("~/.vimrc"), Some(&link("dot/vimrc")));
    assert_eq!(
        disk.asked,
        vec![
            Request::Exists { path: "~/.vimrc".to_string() },
            Request::Exists { path: "dot/vimrc".to_string() },
            Request::ParentExists { path: "dot/vimrc".to_string() },
            Request::CreateParent { path: "dot/vimrc".to_string() },
            Request::Rename { from: "~/.vimrc".to_string(), to: "dot/vimrc".to_string() },
            Request::Symlink { source: "dot/vimrc".to_string(), target: "~/.vimrc".to_string() },
        ]
    );
}

#[test]
fn target_only_skips_the_directory_that_exists() {
    let mut disk = Disk::new().with("~/.vimrc", file("X"));
    assert_eq!(run(&entry("copy"), Platform::Unix, &mut disk), synced());
    assert!(!disk.asked.contains(&Request::CreateParent { path: "dot/vimrc".to_string() }));
    assert_eq!(disk.nodes.get("dot/vimrc"), Some(&file("X")));
    assert_eq!(disk.nodes.get("~/.vimrc"), Some(&file("X")));
}

#[test]
fn target_only_fails_when_the_directory_cannot_be_made() {
    let mut disk = Disk::new()
        .with("~/.vimrc", file("X"))
        .refusing(Request::CreateParent { path: "dot/vimrc".to_string() });
    disk.housed = false;
    let before = disk.nodes.clone();
    assert_eq!(
        run(&entry("symlink"), Platform::Unix, &mut disk),
        failed(SyncError::FsProcessingError)
    );
    assert_eq!(disk.nodes, before);
}

#[test]
fn target_only_fails_when_the_target_cannot_be_moved() {
    let mut disk = Disk::new()
        .with("~/.vimrc", file("X"))
        .refusing(Request::Rename { from: "~/.vimrc".to_string(), to: "dot/vimrc".to_string() });
    let before = disk.nodes.clone();
    assert_eq!(
        run(&entry("symlink"), Platform::Unix, &mut disk),
        failed(SyncError::FsProcessingError)
    );
    assert_eq!(disk.nodes, before);
}

#[test]
fn both_exist_swaps_and_leaves_no_backup() {
    let mut disk = Disk::new().with("dot/vimrc", file("S")).with("~/.vimrc", file("T"));
    assert_eq!(run(&entry("symlink"), Platform::Unix, &mut disk), synced());
    assert_eq!(disk.nodes.get("~/.vimrc"), Some(&link("dot/vimrc")));
    assert_eq!(disk.nodes.get("dot/vimrc"), Some(&file("S")));
    assert!(!disk.nodes.contains_key(BACKUP));
    assert_eq!(
        disk.asked,
        vec![
            Request::Exists { path: "~/.vimrc".to_string() },
            Request::Exists { path: "dot/vimrc".to_string() },
            Request::Rename { from: "~/.vimrc".to_string(), to: BACKUP.to_string() },
            Request::Symlink { source: "dot/vimrc".to_string(), target: "~/.vimrc".to_string() },
            Request::Remove { path: BACKUP.to_string() },
        ]
    );
}

#[test]
fn both_exist_restores_target_when_the_link_fails() {
    let mut disk = Disk::new()
        .with("dot/vimrc", file("S"))
        .with("~/.vimrc", file("T"))
        .refusing(Request::HardLink { source: "dot/vimrc".to_string(), target: "~/.vimrc".to_string() });
    let before = disk.nodes.clone();
    assert_eq!(
        run(&entry("hardlink"), Platform::Unix, &mut disk),
        failed(SyncError::FsProcessingError)
    );
    assert_eq!(disk.nodes, before);
    assert!(!disk.nodes.contains_key(BACKUP));
    assert_eq!(
        disk.asked.last(),
        Some(&Request::Rename { from: BACKUP.to_string(), to: "~/.vimrc".to_string() })
    );
}

#[test]
fn both_exist_fails_fast_when_the_backup_cannot_be_made() {
    let mut disk = Disk::new()
        .with("dot/vimrc", file("S"))
        .with("~/.vimrc", file("T"))
        .refusing(Request::Rename { from: "~/.vimrc".to_string(), to: BACKUP.to_string() });
    let before = disk.nodes.clone();
    assert_eq!(
        run(&entry("copy"), Platform::Unix, &mut disk),
        failed(SyncError::FsProcessingError)
    );
    assert_eq!(disk.nodes, before);
    assert_eq!(disk.asked.len(), 3);
}

#[test]
fn both_exist_surfaces_a_backup_that_cannot_be_deleted() {
    let mut disk = Disk::new()
        .with("dot/vimrc", file("S"))
        .with("~/.vimrc", file("T"))
        .refusing(Request::Remove { path: BACKUP.to_string() });
    assert_eq!(
        run(&entry("symlink"), Platform::Unix, &mut disk),
        failed(SyncError::FsProcessingError)
    );
    assert_eq!(disk.nodes.get("~/.vimrc"), Some(&link("dot/vimrc")));
    assert_eq!(disk.nodes.get(BACKUP), Some(&file("T")));
}

#[test]
fn both_exist_reports_the_restore_that_fails() {
    let mut disk = Disk::new()
        .with("dot/vimrc", file("S"))
        .with("~/.vimrc", file("T"))
        .refusing(Request::Rename { from: BACKUP.to_string(), to: "~/.vimrc".to_string() });
    disk.admin = false;
    assert_eq!(
        run(&entry("symlink"), Platform::Windows, &mut disk),
        failed(SyncError::FsProcessingError)
    );
    assert_eq!(disk.nodes.get(BACKUP), Some(&file("T")));
    assert!(!disk.nodes.contains_key("~/.vimrc"));
}

#[test]
fn neither_exists_is_not_found() {
    let mut disk = Disk::new().with("elsewhere", file("E"));
    let before = disk.nodes.clone();
    assert_eq!(
        run(&entry("symlink"), Platform::Unix, &mut disk),
        failed(SyncError::NotFound {
            path0: "dot/vimrc".to_string(),
            path1: "~/.vimrc".to_string()
        })
    );
    assert_eq!(disk.nodes, before);
    assert_eq!(
        disk.asked,
        vec![
            Request::Exists { path: "~/.vimrc".to_string() },
            Request::Exists { path: "dot/vimrc".to_string() },
        ]
    );
}

#[test]
fn junction_is_unsupported_outside_windows() {
    let mut disk = Disk::new().with("dot/vimrc", Node::Dir("D".to_string()));
    let before = disk.nodes.clone();
    assert_eq!(
        run(&entry("junction"), Platform::Unix, &mut disk),
        failed(SyncError::Unsupported { error_type: "junction".to_string() })
    );
    assert_eq!(disk.nodes, before);
    assert_eq!(disk.asked.len(), 2);
}

#[test]
fn junction_unsupported_puts_the_old_target_back() {
    let mut disk = Disk::new()
        .with("dot/vimrc", Node::Dir("D".to_string()))
        .with("~/.vimrc", Node::Dir("T".to_string()));
    let before = disk.nodes.clone();
    assert_eq!(
        run(&entry("junction"), Platform::Unix, &mut disk),
        failed(SyncError::Unsupported { error_type: "junction".to_string() })
    );
    assert_eq!(disk.nodes, before);
}

#[test]
fn junction_on_windows_is_made_by_a_command() {
    let mut disk = Disk::new().with("dot/vimrc", Node::Dir("D".to_string()));
    assert_eq!(run(&entry("junction"), Platform::Windows, &mut disk), synced());
    assert_eq!(disk.nodes.get("~/.vimrc"), Some(&link("dot/vimrc")));

    let mut disk = Disk::new()
        .with("dot/vimrc", Node::Dir("D".to_string()))
        .refusing(Request::Junction { source: "dot/vimrc".to_string(), target: "~/.vimrc".to_string() });
    assert_eq!(
        run(&entry("junction"), Platform::Windows, &mut disk),
        failed(SyncError::CommandError)
    );
}

#[test]
fn windows_symlink_needs_an_administrator() {
    let mut disk = Disk::new().with("dot/vimrc", file("S"));
    disk.admin = false;
    let before = disk.nodes.clone();
    assert_eq!(
        run(&entry("symlink"), Platform::Windows, &mut disk),
        failed(SyncError::NoAdministrator)
    );
    assert_eq!(disk.nodes, before);
    assert_eq!(disk.asked.last(), Some(&Request::IsAdmin));
}

#[test]
fn windows_symlink_without_administrator_restores_the_target() {
    let mut disk = Disk::new().with("dot/vimrc", file("S")).with("~/.vimrc", file("T"));
    disk.admin = false;
    let before = disk.nodes.clone();
    assert_eq!(
        run(&entry("symlink"), Platform::Windows, &mut disk),
        failed(SyncError::NoAdministrator)
    );
    assert_eq!(disk.nodes, before);
}

#[test]
fn windows_symlink_tells_files_from_directories() {
    let mut disk = Disk::new().with("dot/vimrc", file("S"));
    assert_eq!(run(&entry("symlink"), Platform::Windows, &mut disk), synced());
    assert_eq!(
        disk.asked,
        vec![
            Request::Exists { path: "~/.vimrc".to_string() },
            Request::Exists { path: "dot/vimrc".to_string() },
            Request::IsAdmin,
            Request::IsDir { path: "~/.vimrc".to_string() },
            Request::SymlinkFile { source: "dot/vimrc".to_string(), target: "~/.vimrc".to_string() },
        ]
    );
    let (phase, request) = entry("symlink").sync(
        Platform::Windows,
        Phase::ProbeDir { mode: sinc::dotfile::protocol::Mode::Swap },
        Reply::Found(true),
    );
    assert_eq!(phase, Phase::Link { mode: sinc::dotfile::protocol::Mode::Swap });
    assert_eq!(
        request,
        Request::SymlinkDir { source: "dot/vimrc".to_string(), target: "~/.vimrc".to_string() }
    );
}

#[test]
fn unknown_strategy_is_unsupported() {
    let unsupported = || failed(SyncError::Unsupported { error_type: "teleport".to_string() });
    for platform in [Platform::Unix, Platform::Windows] {
        let mut disk = Disk::new().with("dot/vimrc", file("S"));
        let before = disk.nodes.clone();
        assert_eq!(run(&entry("teleport"), platform, &mut disk), unsupported());
        assert_eq!(disk.nodes, before);
        assert_eq!(disk.asked.len(), 2);

        let mut disk = Disk::new().with("dot/vimrc", file("S")).with("~/.vimrc", file("T"));
        let before = disk.nodes.clone();
        assert_eq!(run(&entry("teleport"), platform, &mut disk), unsupported());
        assert_eq!(disk.nodes, before);
        assert_eq!(disk.asked.len(), 2);

        let mut disk = Disk::new().with("~/.vimrc", file("T"));
        let before = disk.nodes.clone();
        assert_eq!(run(&entry("teleport"), platform, &mut disk), unsupported());
        assert_eq!(disk.nodes, before);
        assert_eq!(disk.asked.len(), 2);
    }
}

#[test]
fn unknown_strategy_with_nothing_to_sync_is_not_found() {
    let mut disk = Disk::new();
    assert_eq!(
        run(&entry("teleport"), Platform::Unix, &mut disk),
        failed(SyncError::NotFound {
            path0: "dot/vimrc".to_string(),
            path1: "~/.vimrc".to_string()
        })
    );
}

#[test]
fn junction_unsupported_changes_nothing_in_any_state() {
    let unsupported = || failed(SyncError::Unsupported { error_type: "junction".to_string() });
    let disks = [
        Disk::new().with("dot/vimrc", Node::Dir("D".to_string())),
        Disk::new().with("~/.vimrc", Node::Dir("T".to_string())),
        Disk::new()
            .with("dot/vimrc", Node::Dir("D".to_string()))
            .with("~/.vimrc", Node::Dir("T".to_string())),
    ];
    for mut disk in disks {
        disk.housed = false;
        let before = disk.nodes.clone();
        assert_eq!(run(&entry("junction"), Platform::Unix, &mut disk), unsupported());
        assert_eq!(disk.nodes, before);
        assert_eq!(
            disk.asked,
            vec![
                Request::Exists { path: "~/.vimrc".to_string() },
                Request::Exists { path: "dot/vimrc".to_string() },
            ]
        );
    }
}

#[test]
fn supported_strategies() {
    for tag in ["symlink", "hardlink", "copy"] {
        assert!(entry(tag).supported(Platform::Unix));
        assert!(entry(tag).supported(Platform::Windows));
    }
    assert!(entry("junction").supported(Platform::Windows));
    assert!(!entry("junction").supported(Platform::Unix));
    assert!(!entry("teleport").supported(Platform::Unix));
    assert!(!entry("").supported(Platform::Windows));
}

#[test]
fn target_only_moves_the_target_back_when_the_link_fails() {
    let mut disk = Disk::new()
        .with("~/.vimrc", Node::Dir("T".to_string()))
        .refusing(Request::Copy { source: "dot/vimrc".to_string(), target: "~/.vimrc".to_string() });
    let before = disk.nodes.clone();
    assert_eq!(
        run(&entry("copy"), Platform::Unix, &mut disk),
        failed(SyncError::FsProcessingError)
    );
    assert_eq!(disk.nodes, before);
    assert_eq!(
        disk.asked.last(),
        Some(&Request::Rename { from: "dot/vimrc".to_string(), to: "~/.vimrc".to_string() })
    );

    // a hard link cannot be made to a directory
    let mut disk = Disk::new().with("~/.vimrc", Node::Dir("T".to_string()));
    let before = disk.nodes.clone();
    assert_eq!(
        run(&entry("hardlink"), Platform::Unix, &mut disk),
        failed(SyncError::FsProcessingError)
    );
    assert_eq!(disk.nodes, before);

    let mut disk = Disk::new().with("~/.vimrc", file("T"));
    disk.admin = false;
    let before = disk.nodes.clone();
    assert_eq!(
        run(&entry("symlink"), Platform::Windows, &mut disk),
        failed(SyncError::NoAdministrator)
    );
    assert_eq!(disk.nodes, before);
}

#[test]
fn target_only_reports_the_move_back_that_fails() {
    let mut disk = Disk::new()
        .with("~/.vimrc", file("T"))
        .refusing(Request::Copy { source: "dot/vimrc".to_string(), target: "~/.vimrc".to_string() })
        .refusing(Request::Rename { from: "dot/vimrc".to_string(), to: "~/.vimrc".to_string() });
    assert_eq!(
        run(&entry("copy"), Platform::Unix, &mut disk),
        failed(SyncError::FsProcessingError)
    );
    assert_eq!(disk.nodes.get("dot/vimrc"), Some(&file("T")));
    assert!(!disk.nodes.contains_key("~/.vimrc"));
}

#[test]
fn hook_runs_after_a_sync_that_succeeded() {
    let mut disk = Disk::new().with("dot/vimrc", file("S"));
    disk.hook = Reply::Exited {
        code: Some(0),
        stdout: "done\n".to_string(),
        stderr: String::new(),
    };
    let outcome = run(&hooked("echo done"), Platform::Unix, &mut disk);
    assert_eq!(
        outcome,
        Outcome::Synced {
            hook: Hook::Exited {
                code: Some(0),
                stdout: "done\n".to_string(),
                stderr: String::new()
            }
        }
    );
    let n = disk.asked.len();
    assert_eq!(
        disk.asked[n - 2],
        Request::WriteScript { name: "hook_script".to_string(), content: "echo done".to_string() }
    );
    assert_eq!(
        disk.asked[n - 1],
        Request::RunScript { name: "hook_script".to_string(), shell: Some("sh".to_string()) }
    );
    assert_eq!(
        disk.asked[n - 3],
        Request::Symlink { source: "dot/vimrc".to_string(), target: "~/.vimrc".to_string() }
    );
}

#[test]
fn hook_on_windows_is_a_batch_file() {
    let entry = Dotfile::new(
        "vimrc".to_string(),
        "dot/vimrc".to_string(),
        "~/.vimrc".to_string(),
        "copy".to_string(),
        true,
        "echo done".to_string(),
    );
    let mut disk = Disk::new().with("dot/vimrc", file("S"));
    disk.hook = Reply::Exited { code: None, stdout: String::new(), stderr: String::new() };
    let outcome = run(&entry, Platform::Windows, &mut disk);
    assert_eq!(
        outcome,
        Outcome::Synced {
            hook: Hook::Exited { code: None, stdout: String::new(), stderr: String::new() }
        }
    );
    let n = disk.asked.len();
    assert_eq!(
        disk.asked[n - 2],
        Request::WriteScript {
            name: "hook_script.bat".to_string(),
            content: "@echo off\necho done".to_string()
        }
    );
    assert_eq!(
        disk.asked[n - 1],
        Request::RunScript { name: "hook_script.bat".to_string(), shell: None }
    );
}

#[test]
fn hook_does_not_run_after_a_failure() {
    let mut disk = Disk::new();
    let outcome = run(&hooked("echo done"), Platform::Unix, &mut disk);
    assert!(matches!(outcome, Outcome::Failed { .. }));
    assert!(!disk.asked.iter().any(|r| matches!(r, Request::WriteScript { .. })));
    assert!(!disk.asked.iter().any(|r| matches!(r, Request::RunScript { .. })));
}

#[test]
fn hook_failures_do_not_undo_the_sync() {
    let mut disk = Disk::new().with("dot/vimrc", file("S")).refusing(Request::WriteScript {
        name: "hook_script".to_string(),
        content: "echo done".to_string(),
    });
    assert_eq!(
        run(&hooked("echo done"), Platform::Unix, &mut disk),
        Outcome::Synced { hook: Hook::Failed { error: SyncError::FsProcessingError } }
    );
    assert_eq!(disk.nodes.get("~/.vimrc"), Some(&link("dot/vimrc")));

    let mut disk = Disk::new().with("dot/vimrc", file("S"));
    disk.hook = Reply::Failed;
    assert_eq!(
        run(&hooked("echo done"), Platform::Unix, &mut disk),
        Outcome::Synced { hook: Hook::Failed { error: SyncError::CommandError } }
    );
    assert_eq!(disk.nodes.get("~/.vimrc"), Some(&link("dot/vimrc")));
}

#[test]
fn hook_follows_the_cleanup_of_a_swap() {
    let mut disk = Disk::new().with("dot/vimrc", file("S")).with("~/.vimrc", file("T"));
    disk.hook = Reply::Exited { code: Some(3), stdout: String::new(), stderr: "no\n".to_string() };
    let outcome = run(&hooked("false"), Platform::Unix, &mut disk);
    assert_eq!(
        outcome,
        Outcome::Synced {
            hook: Hook::Exited { code: Some(3), stdout: String::new(), stderr: "no\n".to_string() }
        }
    );
    let n = disk.asked.len();
    assert_eq!(disk.asked[n - 3], Request::Remove { path: BACKUP.to_string() });
    assert!(!disk.nodes.contains_key(BACKUP));
}

#[test]
fn a_reply_that_does_not_answer_counts_as_no() {
    let (phase, _) = entry("symlink").sync(Platform::Unix, Phase::ProbeTarget, Reply::Done);
    assert_eq!(phase, Phase::ProbeSource { target_exists: false });
    let (phase, request) = entry("symlink").sync(Platform::Unix, Phase::Backup, Reply::Found(true));
    assert_eq!(phase, Phase::Done);
    assert_eq!(request, Request::Finish { outcome: failed(SyncError::FsProcessingError) });
}

#[test]
fn nothing_follows_the_end() {
    let (phase, request) = entry("symlink").sync(Platform::Unix, Phase::Done, Reply::Done);
    assert_eq!(phase, Phase::Done);
    assert_eq!(request, Request::Stop);
}

#[test]
fn reply_answers() {
    assert!(Reply::Found(true).found());
    assert!(!Reply::Found(false).found());
    assert!(!Reply::Done.found());
    assert!(Reply::Done.ok());
    assert!(!Reply::Failed.ok());
    assert!(!Reply::Begin.ok());
}

#[test]
fn only_some_failures_end_the_run_with_a_failure() {
    assert!(failed(SyncError::FsProcessingError).fatal());
    assert!(failed(SyncError::CommandError).fatal());
    assert!(failed(SyncError::NoAdministrator).fatal());
    assert!(!failed(SyncError::Unsupported { error_type: "junction".to_string() }).fatal());
    assert!(!failed(SyncError::NotFound { path0: "a".to_string(), path1: "b".to_string() }).fatal());
    assert!(!Outcome::Disabled.fatal());
    assert!(!synced().fatal());
    assert!(!Outcome::Synced { hook: Hook::Failed { error: SyncError::CommandError } }.fatal());
}

#[test]
fn entries_know_whether_they_are_valid() {
    assert!(entry("symlink").valid());
    assert!(entry("copy").valid());
    assert!(!entry("teleport").valid());
    let same = Dotfile::new(
        "n".to_string(),
        "a".to_string(),
        "a".to_string(),
        "copy".to_string(),
        true,
        String::new(),
    );
    assert!(!same.valid());
    let backup = Dotfile::new(
        "n".to_string(),
        "a.old_version".to_string(),
        "a".to_string(),
        "copy".to_string(),
        true,
        String::new(),
    );
    assert!(!backup.valid());
}
