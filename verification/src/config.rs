//! The configuration from which the entries are made.
//!
//! A configuration names a default directory and a default strategy, and
//! lists the dotfiles. Each value of a dotfile may depend on the machine (see
//! [`resolve`]); once that is settled, a dotfile is a record of plain texts.

pub mod dotfile;
pub mod resolve;
pub mod value;

use crate::config::resolve::{resolve, resolves, seen, Host, HostView};
use crate::config::value::{pairs, position, trees, view_of_parts, Tree, Value};
use crate::dotfile::Entry;
use crate::path::{correct_from, corrected, in_home};
use crate::text::texts;
use vstd::prelude::*;

verus! {

/// Why a configuration could not be loaded.
#[derive(Debug, PartialEq, Eq)]
pub enum ConfigError {
    ReadError { config_path: String },
    DeserializeError { config_path: String },
    MismatchTypes { expected: &'static str, found: &'static str },
}

pub enum ConfigErrorView {
    ReadError { config_path: Seq<char> },
    DeserializeError { config_path: Seq<char> },
    MismatchTypes { expected: Seq<char>, found: Seq<char> },
}

impl View for ConfigError {
    type V = ConfigErrorView;

    open spec fn view(&self) -> ConfigErrorView {
        match *self {
            ConfigError::ReadError { config_path } => ConfigErrorView::ReadError {
                config_path: config_path@,
            },
            ConfigError::DeserializeError { config_path } => ConfigErrorView::DeserializeError {
                config_path: config_path@,
            },
            ConfigError::MismatchTypes { expected, found } => ConfigErrorView::MismatchTypes {
                expected: expected@,
                found: found@,
            },
        }
    }
}

impl ConfigErrorView {
    /// The message of the error.
    pub open spec fn message(self) -> Seq<char> {
        match self {
            ConfigErrorView::ReadError { config_path } => "failed to read "@ + config_path,
            ConfigErrorView::DeserializeError { config_path } => "failed to deserialize "@
                + config_path,
            ConfigErrorView::MismatchTypes { expected, found } => "mismatch types: expected "@
                + expected + ", found "@ + found,
        }
    }
}

impl ConfigError {
    /// The message of the error, as the user reads it.
    pub fn message(&self) -> (out: String)
        ensures
            out@ == self@.message(),
    {
        match self {
            ConfigError::ReadError { config_path } => {
                let mut out = String::from_str("failed to read ");
                out.append(config_path.as_str());
                out
            },
            ConfigError::DeserializeError { config_path } => {
                let mut out = String::from_str("failed to deserialize ");
                out.append(config_path.as_str());
                out
            },
            ConfigError::MismatchTypes { expected, found } => {
                let mut out = String::from_str("mismatch types: expected ");
                out.append(expected);
                out.append(", found ");
                out.append(found);
                out
            },
        }
    }
}

/// All the dotfiles of a configuration.
#[derive(Debug, PartialEq, Eq)]
pub struct Config {
    pub dotfiles: Vec<Dotfile>,
}

/// One dotfile of a configuration: where it lies, where it is to be linked,
/// and how.
#[derive(Debug, PartialEq, Eq)]
pub struct Dotfile {
    pub dir: String,
    pub path: String,
    pub target: Vec<String>,
    pub sync_type: String,
    pub enable: bool,
    pub hook_add: String,
}

/// A dotfile of a configuration as contracts see it.
pub struct Record {
    pub dir: Seq<char>,
    pub path: Seq<char>,
    pub target: Seq<Seq<char>>,
    pub sync_type: Seq<char>,
    pub enable: bool,
    pub hook_add: Seq<char>,
}

impl View for Dotfile {
    type V = Record;

    open spec fn view(&self) -> Record {
        Record {
            dir: self.dir@,
            path: self.path@,
            target: texts(self.target@),
            sync_type: self.sync_type@,
            enable: self.enable,
            hook_add: self.hook_add@,
        }
    }
}

/// Dotfiles as contracts see them.
pub open spec fn records(list: Seq<Dotfile>) -> Seq<Record> {
    Seq::new(list.len(), |i: int| list[i]@)
}

impl View for Config {
    type V = Seq<Record>;

    open spec fn view(&self) -> Seq<Record> {
        records(self.dotfiles@)
    }
}

/// The text that a value is, or the error that names its kind.
pub open spec fn text_of(value: Tree) -> Result<Seq<char>, ConfigErrorView> {
    match value {
        Tree::String(text) => Ok(text),
        _ => Err(ConfigErrorView::MismatchTypes { expected: "string"@, found: value.type_str() }),
    }
}

/// Reads a value as a text.
pub fn val2string(value: &Value) -> (out: Result<String, ConfigError>)
    ensures
        match out {
            Ok(text) => text_of(value@) == Ok::<Seq<char>, ConfigErrorView>(text@),
            Err(error) => text_of(value@) == Err::<Seq<char>, ConfigErrorView>(error@),
        },
{
    match value {
        Value::String(text) => Ok(text.clone()),
        _ => Err(ConfigError::MismatchTypes { expected: "string", found: value.type_str() }),
    }
}

/// The texts that the values of a list are, or the error of the first value
/// that is no text.
pub open spec fn texts_of(items: Seq<Tree>) -> Result<Seq<Seq<char>>, ConfigErrorView>
    decreases items.len(),
{
    if items.len() == 0 {
        Ok(Seq::empty())
    } else {
        match texts_of(items.drop_last()) {
            Ok(front) => match text_of(items.last()) {
                Ok(text) => Ok(front.push(text)),
                Err(error) => Err(error),
            },
            Err(error) => Err(error),
        }
    }
}

/// The targets that a value names: one text, or a list of texts. The error
/// for a value of another kind names the kind of the dotfile's path.
pub open spec fn targets_of(target: Tree, path: Tree) -> Result<Seq<Seq<char>>, ConfigErrorView> {
    match target {
        Tree::Array(items) => texts_of(items),
        Tree::String(text) => Ok(seq![text]),
        _ => Err(
            ConfigErrorView::MismatchTypes {
                expected: "string or array<string>"@,
                found: path.type_str(),
            },
        ),
    }
}

/// Reads the targets that a value names.
pub fn targets(target: &Value, path: &Value) -> (out: Result<Vec<String>, ConfigError>)
    ensures
        match out {
            Ok(list) => targets_of(target@, path@) == Ok::<Seq<Seq<char>>, ConfigErrorView>(
                texts(list@),
            ),
            Err(error) => targets_of(target@, path@) == Err::<Seq<Seq<char>>, ConfigErrorView>(
                error@,
            ),
        },
{
    proof {
        view_of_parts(*target);
    }
    match target {
        Value::Array(items) => {
            let mut list: Vec<String> = Vec::new();
            let mut i: usize = 0;
            assert(texts(list@) =~= Seq::<Seq<char>>::empty());
            while i < items.len()
                invariant
                    i <= items.len(),
                    target@ == Tree::Array(trees(items@)),
                    texts_of(trees(items@).subrange(0, i as int)) == Ok::<
                        Seq<Seq<char>>,
                        ConfigErrorView,
                    >(texts(list@)),
                decreases items.len() - i,
            {
                let ghost front = trees(items@).subrange(0, i as int);
                let ghost next = trees(items@).subrange(0, i + 1);
                assert(next.drop_last() =~= front);
                match val2string(&items[i]) {
                    Ok(text) => {
                        let ghost before = texts(list@);
                        list.push(text);
                        assert(texts(list@) =~= before.push(text@));
                    },
                    Err(error) => {
                        proof {
                            first_error_stays(trees(items@), i + 1);
                        }
                        return Err(error);
                    },
                }
                i += 1;
            }
            assert(trees(items@).subrange(0, i as int) =~= trees(items@));
            Ok(list)
        },
        Value::String(text) => {
            let mut list: Vec<String> = Vec::new();
            list.push(text.clone());
            assert(texts(list@) =~= seq![text@]);
            Ok(list)
        },
        _ => Err(
            ConfigError::MismatchTypes {
                expected: "string or array<string>",
                found: path.type_str(),
            },
        ),
    }
}

/// An error among the first values of a list is the error of the whole list.
proof fn first_error_stays(items: Seq<Tree>, n: int)
    requires
        0 <= n <= items.len(),
        texts_of(items.subrange(0, n)) is Err,
    ensures
        texts_of(items) == texts_of(items.subrange(0, n)),
    decreases items.len() - n,
{
    if n < items.len() {
        let longer = items.subrange(0, n + 1);
        assert(longer.drop_last() =~= items.subrange(0, n));
        first_error_stays(items, n + 1);
    } else {
        assert(items.subrange(0, n) =~= items);
    }
}

/// The value that a table gives for a name, else the default.
pub open spec fn pick(parent: Tree, name: Seq<char>, default: Option<Tree>) -> Option<Tree> {
    match parent {
        Tree::Table(entries) => match position(entries, name) {
            Some(i) => Some(entries[i].1),
            None => default,
        },
        _ => default,
    }
}

/// Whether `out` is what a table's value of a name stands for on a machine.
/// `None` where the table has no such value and there is no default, or where
/// the value does not say what it stands for.
pub open spec fn takes(
    out: Option<Tree>,
    parent: Tree,
    name: Seq<char>,
    default: Option<Tree>,
    host: HostView,
) -> bool {
    match pick(parent, name, default) {
        Some(raw) => resolves(out, raw, host),
        None => out is None,
    }
}

/// What a table's value of a name stands for on this machine.
pub fn get_val(parent: &Value, name: &str, default: Option<&Value>, host: &Host) -> (out: Option<
    Value,
>)
    ensures
        takes(
            seen(out),
            parent@,
            name@,
            match default {
                Some(value) => Some(value@),
                None => None,
            },
            host@,
        ),
{
    proof {
        view_of_parts(*parent);
    }
    let own = match parent {
        Value::Table(entries) => match Value::find(entries, name) {
            Some(i) => {
                Some(&entries[i].1)
            },
            None => None,
        },
        _ => None,
    };
    let raw = match own {
        Some(value) => Some(value),
        None => default,
    };
    match raw {
        Some(raw) => resolve(raw, host),
        None => None,
    }
}

/// The record that six values make, the error of the first among directory,
/// path, targets and strategy that has the wrong kind, or that of the hook;
/// `None` where a value is missing or the switch is no boolean.
pub open spec fn assemble(
    dir: Option<Tree>,
    sync_type: Option<Tree>,
    path: Option<Tree>,
    target: Option<Tree>,
    enable: Option<Tree>,
    hook_add: Option<Tree>,
) -> Option<Result<Record, ConfigErrorView>> {
    if dir is None || sync_type is None || path is None || target is None || enable is None
        || hook_add is None {
        None
    } else {
        match text_of(dir->0) {
            Err(error) => Some(Err(error)),
            Ok(dir) => match text_of(path->0) {
                Err(error) => Some(Err(error)),
                Ok(name) => match targets_of(target->0, path->0) {
                    Err(error) => Some(Err(error)),
                    Ok(target) => match text_of(sync_type->0) {
                        Err(error) => Some(Err(error)),
                        Ok(sync_type) => match enable->0 {
                            Tree::Boolean(enable) => match text_of(hook_add->0) {
                                Err(error) => Some(Err(error)),
                                Ok(hook_add) => Some(
                                    Ok(
                                        Record {
                                            dir,
                                            path: name,
                                            target,
                                            sync_type,
                                            enable,
                                            hook_add,
                                        },
                                    ),
                                ),
                            },
                            _ => None,
                        },
                    },
                },
            },
        }
    }
}

/// What loading has come to, as contracts see it.
pub open spec fn outcome<T: View>(out: Option<Result<T, ConfigError>>) -> Option<
    Result<T::V, ConfigErrorView>,
> {
    match out {
        Some(Ok(value)) => Some(Ok(value@)),
        Some(Err(error)) => Some(Err(error@)),
        None => None,
    }
}

/// Makes a record of six values.
pub fn record(
    dir: Option<Value>,
    sync_type: Option<Value>,
    path: Option<Value>,
    target: Option<Value>,
    enable: Option<Value>,
    hook_add: Option<Value>,
) -> (out: Option<Result<Dotfile, ConfigError>>)
    ensures
        outcome(out) == assemble(
            seen(dir),
            seen(sync_type),
            seen(path),
            seen(target),
            seen(enable),
            seen(hook_add),
        ),
{
    match (dir, sync_type, path, target, enable, hook_add) {
        (Some(dir), Some(sync_type), Some(path), Some(target), Some(enable), Some(hook_add)) => {
            let dir = match val2string(&dir) {
                Ok(text) => text,
                Err(error) => {
                    return Some(Err(error));
                },
            };
            let name = match val2string(&path) {
                Ok(text) => text,
                Err(error) => {
                    return Some(Err(error));
                },
            };
            let target = match targets(&target, &path) {
                Ok(list) => list,
                Err(error) => {
                    return Some(Err(error));
                },
            };
            let sync_type = match val2string(&sync_type) {
                Ok(text) => text,
                Err(error) => {
                    return Some(Err(error));
                },
            };
            let enable = match enable {
                Value::Boolean(flag) => flag,
                _ => {
                    return None;
                },
            };
            let hook_add = match val2string(&hook_add) {
                Ok(text) => text,
                Err(error) => {
                    return Some(Err(error));
                },
            };
            Some(Ok(Dotfile { dir, path: name, target, sync_type, enable, hook_add }))
        },
        _ => None,
    }
}

/// Whether `out` is what one dotfile of a configuration comes to: each of its
/// six values is taken from the dotfile's table or from its default and
/// settled for the machine, and the six are made into a record. The directory
/// and the strategy default to those of the configuration, the switch to on,
/// the hook to none; path and targets have no default.
pub open spec fn makes(
    out: Option<Result<Record, ConfigErrorView>>,
    dotfile: Tree,
    dir: Tree,
    sync_type: Tree,
    host: HostView,
) -> bool {
    exists|
        d: Option<Tree>,
        s: Option<Tree>,
        p: Option<Tree>,
        t: Option<Tree>,
        e: Option<Tree>,
        h: Option<Tree>,
    |
        {
            &&& takes(d, dotfile, "dir"@, Some(dir), host)
            &&& takes(s, dotfile, "sync_type"@, Some(sync_type), host)
            &&& takes(p, dotfile, "path"@, None, host)
            &&& takes(t, dotfile, "target"@, None, host)
            &&& takes(e, dotfile, "enable"@, Some(Tree::Boolean(true)), host)
            &&& takes(h, dotfile, "hook_add"@, Some(Tree::String(""@)), host)
            &&& out == #[trigger] assemble(d, s, p, t, e, h)
        }
}

/// Reads one dotfile of a configuration.
pub fn read_dotfile(dotfile: &Value, dir: &Value, sync_type: &Value, host: &Host) -> (out: Option<
    Result<Dotfile, ConfigError>,
>)
    ensures
        makes(outcome(out), dotfile@, dir@, sync_type@, host@),
{
    let on = Value::Boolean(true);
    let none = Value::String(String::from_str(""));
    let d = get_val(dotfile, "dir", Some(dir), host);
    let s = get_val(dotfile, "sync_type", Some(sync_type), host);
    let p = get_val(dotfile, "path", None, host);
    let t = get_val(dotfile, "target", None, host);
    let e = get_val(dotfile, "enable", Some(&on), host);
    let h = get_val(dotfile, "hook_add", Some(&none), host);
    record(d, s, p, t, e, h)
}

/// What the outcomes of the dotfiles come to together: all the records, or
/// what the first dotfile without a record came to.
pub open spec fn gathered(made: Seq<Option<Result<Record, ConfigErrorView>>>) -> Option<
    Result<Seq<Record>, ConfigErrorView>,
>
    decreases made.len(),
{
    if made.len() == 0 {
        Some(Ok(Seq::empty()))
    } else {
        match gathered(made.drop_last()) {
            Some(Ok(front)) => match made.last() {
                Some(Ok(record)) => Some(Ok(front.push(record))),
                Some(Err(error)) => Some(Err(error)),
                None => None,
            },
            other => other,
        }
    }
}

/// Whether `out` is what the dotfiles of a configuration come to: each is
/// read in turn, up to the first that gives no record.
pub open spec fn gathers(
    out: Option<Result<Seq<Record>, ConfigErrorView>>,
    dotfiles: Seq<Tree>,
    dir: Tree,
    sync_type: Tree,
    host: HostView,
) -> bool {
    exists|made: Seq<Option<Result<Record, ConfigErrorView>>>|
        {
            &&& made.len() <= dotfiles.len()
            &&& forall|i: int|
                0 <= i < made.len() ==> makes(#[trigger] made[i], dotfiles[i], dir, sync_type, host)
            &&& made.len() == dotfiles.len() || !(gathered(made) matches Some(Ok(_)))
            &&& out == #[trigger] gathered(made)
        }
}

/// What was found where the configuration should be.
#[derive(Debug)]
pub enum Loaded {
    /// The file could not be read.
    Unreadable,
    /// The file holds no configuration.
    Malformed,
    /// The default directory, the default strategy and the dotfiles.
    Document { dir: Value, sync_type: Value, dotfiles: Vec<Value> },
}

pub enum LoadedView {
    Unreadable,
    Malformed,
    Document { dir: Tree, sync_type: Tree, dotfiles: Seq<Tree> },
}

impl View for Loaded {
    type V = LoadedView;

    open spec fn view(&self) -> LoadedView {
        match *self {
            Loaded::Unreadable => LoadedView::Unreadable,
            Loaded::Malformed => LoadedView::Malformed,
            Loaded::Document { dir, sync_type, dotfiles } => LoadedView::Document {
                dir: dir@,
                sync_type: sync_type@,
                dotfiles: trees(dotfiles@),
            },
        }
    }
}

/// Whether `out` is what loading a configuration comes to: the error that
/// names the file where it could not be read or holds no configuration, else
/// what its dotfiles come to.
pub open spec fn loads(
    out: Option<Result<Seq<Record>, ConfigErrorView>>,
    config_path: Seq<char>,
    loaded: LoadedView,
    host: HostView,
) -> bool {
    match loaded {
        LoadedView::Unreadable => out == Some(
            Err::<Seq<Record>, ConfigErrorView>(ConfigErrorView::ReadError { config_path }),
        ),
        LoadedView::Malformed => out == Some(
            Err::<Seq<Record>, ConfigErrorView>(ConfigErrorView::DeserializeError { config_path }),
        ),
        LoadedView::Document { dir, sync_type, dotfiles } => gathers(
            out,
            dotfiles,
            dir,
            sync_type,
            host,
        ),
    }
}

/// Makes the configuration of what was found at `config_path`. `None` where
/// a dotfile lacks a value that has no default, or asks the machine for
/// something that its configuration does not answer.
pub fn load_config(config_path: String, loaded: &Loaded, host: &Host) -> (out: Option<
    Result<Config, ConfigError>,
>)
    ensures
        loads(outcome(out), config_path@, loaded@, host@),
{
    match loaded {
        Loaded::Unreadable => Some(Err(ConfigError::ReadError { config_path })),
        Loaded::Malformed => Some(Err(ConfigError::DeserializeError { config_path })),
        Loaded::Document { dir, sync_type, dotfiles } => {
            let mut list: Vec<Dotfile> = Vec::new();
            let ghost mut made: Seq<Option<Result<Record, ConfigErrorView>>> = Seq::empty();
            let mut i: usize = 0;
            assert(records(list@) =~= Seq::<Record>::empty());
            while i < dotfiles.len()
                invariant
                    i <= dotfiles.len(),
                    made.len() == i,
                    loaded@ == (LoadedView::Document {
                        dir: dir@,
                        sync_type: sync_type@,
                        dotfiles: trees(dotfiles@),
                    }),
                    forall|j: int|
                        0 <= j < i ==> makes(
                            #[trigger] made[j],
                            trees(dotfiles@)[j],
                            dir@,
                            sync_type@,
                            host@,
                        ),
                    gathered(made) == Some(
                        Ok::<Seq<Record>, ConfigErrorView>(records(list@)),
                    ),
                decreases dotfiles.len() - i,
            {
                let next = read_dotfile(&dotfiles[i], dir, sync_type, host);
                let ghost before = made;
                proof {
                    made = made.push(outcome(next));
                    assert(made.drop_last() =~= before);
                }
                match next {
                    Some(Ok(dotfile)) => {
                        let ghost front = records(list@);
                        list.push(dotfile);
                        assert(records(list@) =~= front.push(dotfile@));
                    },
                    Some(Err(error)) => {
                        return Some(Err(error));
                    },
                    None => {
                        return None;
                    },
                }
                i += 1;
            }
            Some(Ok(Config { dotfiles: list }))
        },
    }
}

impl Record {
    /// Where the dotfile lies, as the configuration writes it.
    pub open spec fn source(self) -> Seq<char> {
        self.dir + "/"@ + self.path
    }

    /// Whether one of the dotfile's paths lies in the home directory.
    pub open spec fn needs_home(self) -> bool {
        in_home(self.source()) || exists|i: int|
            0 <= i < self.target.len() && in_home(#[trigger] self.target[i])
    }

    /// The entry that links the dotfile to its target number `i` on a
    /// machine: named by the dotfile's path, with source and target corrected
    /// for the machine.
    pub open spec fn entry(self, i: int, host: HostView) -> Entry {
        Entry {
            name: self.path,
            path: corrected(self.source(), host.home, host.platform).unwrap(),
            target: corrected(self.target[i], host.home, host.platform).unwrap(),
            sync_type: self.sync_type,
            enable: self.enable,
            hook_add: self.hook_add,
        }
    }

    /// The entries of the dotfile on a machine: one for each target, in
    /// their order. `None` where a path lies in a home directory that is not
    /// known.
    pub open spec fn entries(self, host: HostView) -> Option<Seq<Entry>> {
        if host.home is None && self.needs_home() {
            None
        } else {
            Some(Seq::new(self.target.len(), |i: int| self.entry(i, host)))
        }
    }
}

/// Entries as contracts see them.
pub open spec fn entry_views(list: Seq<crate::dotfile::Dotfile>) -> Seq<Entry> {
    Seq::new(list.len(), |i: int| list[i]@)
}

impl Dotfile {
    /// The entries of the sync engine that the dotfile stands for on a
    /// machine: one for each target. `None` where a path lies in a home
    /// directory that is not known.
    pub fn entries(&self, host: &Host) -> (out: Option<Vec<crate::dotfile::Dotfile>>)
        ensures
            match out {
                Some(list) => self@.entries(host@) == Some(entry_views(list@)),
                None => self@.entries(host@) is None,
            },
    {
        let mut source = self.dir.clone();
        source.append("/");
        source.append(self.path.as_str());
        let source = match correct_from(source.as_str(), host.home(), host.platform) {
            Some(source) => source,
            None => {
                return None;
            },
        };
        let mut list: Vec<crate::dotfile::Dotfile> = Vec::new();
        let mut i: usize = 0;
        while i < self.target.len()
            invariant
                i <= self.target.len(),
                list@.len() == i,
                Some(source@) == corrected(self@.source(), host@.home, host@.platform),
                forall|j: int|
                    0 <= j < i ==> corrected(
                        #[trigger] self@.target[j],
                        host@.home,
                        host@.platform,
                    ) is Some,
                forall|j: int| 0 <= j < i ==> #[trigger] entry_views(list@)[j] == self@.entry(j, host@),
            decreases self.target.len() - i,
        {
            let target = match correct_from(self.target[i].as_str(), host.home(), host.platform) {
                Some(target) => target,
                None => {
                    assert(in_home(self@.target[i as int]));
                    return None;
                },
            };
            let entry = crate::dotfile::Dotfile::new(
                self.path.clone(),
                source.clone(),
                target,
                self.sync_type.clone(),
                self.enable,
                self.hook_add.clone(),
            );
            let ghost before = entry_views(list@);
            list.push(entry);
            assert forall|j: int| 0 <= j < i + 1 implies #[trigger] entry_views(list@)[j]
                == self@.entry(j, host@) by {
                if j < i {
                    assert(entry_views(list@)[j] == before[j]);
                }
            }
            i += 1;
        }
        proof {
            if host@.home is None && self@.needs_home() {
                if !in_home(self@.source()) {
                    let w = choose|w: int|
                        0 <= w < self@.target.len() && in_home(#[trigger] self@.target[w]);
                    assert(corrected(self@.target[w], host@.home, host@.platform) is Some);
                }
            }
            assert(entry_views(list@) =~= self@.entries(host@).unwrap());
        }
        Some(list)
    }
}

} // verus!
