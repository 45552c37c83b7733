//! Values that depend on the machine.
//!
//! A table whose first key has the form `sys(..)` or `which(..)` stands for
//! one of the values it holds: the one that belongs to this machine.

use crate::config::value::{pairs, position, view_of_parts, Tree, Value};
use crate::dotfile::protocol::Platform;
use crate::path::{correct_from, corrected, home_dir, in_home, shown};
use crate::text::{first_index, last_index, same, texts};
use vstd::prelude::*;

verus! {

/// `os_info::get`, its type shown by `Display`: the name of the operating
/// system, as found on this machine. Nothing is claimed of the result.
#[verifier::external_body]
fn os_name() -> String {
    format!("{}", os_info::get().os_type())
}

/// The lower-case form of a text, as `str::to_lowercase` gives it.
pub uninterp spec fn lowercased(text: Seq<char>) -> Seq<char>;

/// `str::to_lowercase`: the text in lower case.
///
/// Not proved: that the result is [`lowercased`] of the text, which is to say
/// that the same text always gives the same result.
#[verifier::external_body]
fn lowercase(text: &str) -> (out: String)
    ensures
        out@ == lowercased(text@),
{
    text.to_lowercase()
}

/// `pathsearch::find_executable_in_path`: the path of the first executable of
/// that name on the search path, where there is one and it can be written as
/// a text. What it finds depends on the environment and the disk, so nothing
/// is claimed of the result.
#[verifier::external_body]
fn find_executable(name: &str) -> Option<String> {
    pathsearch::find_executable_in_path(name).and_then(|path| path.to_str().map(str::to_string))
}

/// What a configuration may ask of the machine.
#[derive(Debug, PartialEq, Eq)]
pub struct Host {
    pub platform: Platform,
    /// The operating system for which the program was built.
    pub os_type: String,
    /// The family of that operating system.
    pub os_family: String,
    /// The name of the operating system that runs, in lower case.
    pub os: String,
    /// The home directory of the user, where there is one.
    pub home: Option<String>,
}

pub struct HostView {
    pub platform: Platform,
    pub os_type: Seq<char>,
    pub os_family: Seq<char>,
    pub os: Seq<char>,
    pub home: Option<Seq<char>>,
}

impl View for Host {
    type V = HostView;

    open spec fn view(&self) -> HostView {
        HostView {
            platform: self.platform,
            os_type: self.os_type@,
            os_family: self.os_family@,
            os: self.os@,
            home: shown(self.home),
        }
    }
}

impl Host {
    /// The machine that the program runs on. The operating system's name and
    /// the user's home directory are asked of the machine; the rest is what
    /// the program was built for.
    pub fn detect(platform: Platform, os_type: String, os_family: String) -> (host: Host)
        ensures
            host@.platform == platform,
            host@.os_type == os_type@,
            host@.os_family == os_family@,
            exists|name: Seq<char>| host@.os == lowercased(name),
    {
        let name = os_name();
        let os = lowercase(name.as_str());
        Host { platform, os_type, os_family, os, home: home_dir() }
    }
}

/// The name and the argument of a key of the form `name(argument)`: what
/// stands before the first `(` and what stands between it and the last `)`.
/// Both are empty where the key has no such form.
pub open spec fn call_of(key: Seq<char>) -> (Seq<char>, Seq<char>) {
    match key.index_of_last(')') {
        Some(close) => {
            let head = key.subrange(0, close);
            match head.index_of_first('(') {
                Some(open) => (head.subrange(0, open), head.subrange(open + 1, head.len() as int)),
                None => (Seq::empty(), Seq::empty()),
            }
        },
        None => (Seq::empty(), Seq::empty()),
    }
}

/// Splits a key of the form `name(argument)`.
pub fn split_call(key: &str) -> (call: (String, String))
    ensures
        (call.0@, call.1@) == call_of(key@),
{
    match last_index(key, ')') {
        Some(close) => {
            let head = key.substring_char(0, close);
            match first_index(head, '(') {
                Some(open) => {
                    let n: usize = head.unicode_len();
                    (
                        String::from_str(head.substring_char(0, open)),
                        String::from_str(head.substring_char(open + 1, n)),
                    )
                },
                None => (String::new(), String::new()),
            }
        },
        None => (String::new(), String::new()),
    }
}

/// What the machine answers to `sys(argument)`, for the arguments it knows.
pub open spec fn sys_key(argument: Seq<char>, host: HostView) -> Option<Seq<char>> {
    if argument == "os_type"@ {
        Some(host.os_type)
    } else if argument == "os_family"@ {
        Some(host.os_family)
    } else if argument == "os"@ {
        Some(host.os)
    } else {
        None
    }
}

impl Host {
    /// The home directory of the user, where there is one.
    pub fn home(&self) -> (home: Option<&str>)
        ensures
            match home {
                Some(home) => self@.home == Some(home@),
                None => self@.home is None,
            },
    {
        match &self.home {
            Some(home) => Some(home.as_str()),
            None => None,
        }
    }

    /// What the machine answers to `sys(argument)`, for the arguments it knows.
    pub fn sys_key(&self, argument: &str) -> (key: Option<&String>)
        ensures
            match key {
                Some(key) => sys_key(argument@, self@) == Some(key@),
                None => sys_key(argument@, self@) is None,
            },
    {
        if same(argument, "os_type") {
            Some(&self.os_type)
        } else if same(argument, "os_family") {
            Some(&self.os_family)
        } else if same(argument, "os") {
            Some(&self.os)
        } else {
            None
        }
    }
}

/// The place of the value that a table gives for a key: the place of the
/// key, else the place of the key `default`.
pub open spec fn branch(entries: Seq<(Seq<char>, Tree)>, key: Seq<char>) -> Option<int> {
    match position(entries, key) {
        Some(i) => Some(i),
        None => position(entries, "default"@),
    }
}

/// Whether a table has a key that lies in the home directory.
pub open spec fn keys_need_home(choices: Seq<(Seq<char>, Tree)>) -> bool {
    exists|i: int| 0 <= i < choices.len() && in_home(#[trigger] choices[i].0)
}

/// The keys of a table, each corrected for the machine; `None` where one
/// lies in a home directory that is not known.
pub open spec fn corrected_keys(choices: Seq<(Seq<char>, Tree)>, host: HostView) -> Option<
    Seq<Seq<char>>,
> {
    if host.home is None && keys_need_home(choices) {
        None
    } else {
        Some(
            Seq::new(
                choices.len(),
                |i: int| corrected(choices[i].0, host.home, host.platform).unwrap(),
            ),
        )
    }
}

/// The place of the value that a table gives for a key once its keys were
/// corrected. Where two keys have become one, the later entry counts.
pub open spec fn last_branch(keys: Seq<Seq<char>>, key: Seq<char>) -> Option<int> {
    match keys.index_of_last(key) {
        Some(i) => Some(i),
        None => keys.index_of_last("default"@),
    }
}

/// The place of the value that a table of paths gives where `found` is the
/// path of the executable that was looked for. The keys are corrected for the
/// machine; the last key that is the path found counts, else the last key
/// `default`. `None` where neither key is there, or where a key lies in a
/// home directory that is not known.
pub open spec fn picked(choices: Seq<(Seq<char>, Tree)>, found: Seq<char>, host: HostView) -> Option<
    int,
> {
    match corrected_keys(choices, host) {
        Some(keys) => last_branch(keys, found),
        None => None,
    }
}

/// Whether `out` is what a value stands for on a machine; `None` where the
/// configuration does not say.
///
/// A value that is no table stands for itself. A table is read by its first
/// entry, a key and an item. Under `sys(argument)`, with an argument that the
/// machine knows, the item is a table and the machine's answer picks one of
/// its values. Under `which(name)` the item is a table whose keys are paths,
/// and the path of the executable of that name picks one of its values (see
/// [`picked`]); what is found on the search path is not known here.
/// What is picked is read in the same way. Under any other key the item is
/// the value.
pub open spec fn resolves(out: Option<Tree>, raw: Tree, host: HostView) -> bool
    decreases raw,
{
    match raw {
        Tree::Table(entries) => if entries.len() == 0 {
            out is None
        } else {
            let item = entries[0].1;
            let (name, argument) = call_of(entries[0].0);
            if name == "sys"@ && sys_key(argument, host) is Some {
                match item {
                    Tree::Table(choices) => match branch(choices, sys_key(argument, host).unwrap()) {
                        Some(i) => 0 <= i < choices.len() && resolves(out, choices[i].1, host),
                        None => out is None,
                    },
                    _ => out is None,
                }
            } else if name == "which"@ {
                match item {
                    Tree::Table(choices) => exists|found: Seq<char>|
                        match #[trigger] picked(choices, found, host) {
                            Some(i) => 0 <= i < choices.len() && resolves(out, choices[i].1, host),
                            None => out is None,
                        },
                    _ => out is None,
                }
            } else {
                out == Some(item)
            }
        },
        _ => out == Some(raw),
    }
}

/// Whether `out` is what a table of paths stands for where `found` is the
/// path of the executable that was looked for, or empty where there is none:
/// what the value that is picked stands for (see [`picked`]), and `None`
/// where none is picked.
pub open spec fn picks_which(
    out: Option<Tree>,
    choices: Seq<(Seq<char>, Tree)>,
    found: Seq<char>,
    host: HostView,
) -> bool {
    match picked(choices, found, host) {
        Some(i) => 0 <= i < choices.len() && resolves(out, choices[i].1, host),
        None => out is None,
    }
}

/// Whether settling a value comes to ask the search path: whether a table
/// under `which(..)` is met on the way.
pub open spec fn searches(raw: Tree, host: HostView) -> bool
    decreases raw,
{
    match raw {
        Tree::Table(entries) => if entries.len() == 0 {
            false
        } else {
            let item = entries[0].1;
            let (name, argument) = call_of(entries[0].0);
            if name == "sys"@ && sys_key(argument, host) is Some {
                match item {
                    Tree::Table(choices) => match branch(choices, sys_key(argument, host).unwrap()) {
                        Some(i) => 0 <= i < choices.len() && searches(choices[i].1, host),
                        None => false,
                    },
                    _ => false,
                }
            } else {
                name == "which"@
            }
        },
        _ => false,
    }
}

/// A value that does not come to ask the search path stands for one thing
/// only: the machine as it is described decides.
pub proof fn settled_without_search(raw: Tree, host: HostView, one: Option<Tree>, other: Option<Tree>)
    requires
        !searches(raw, host),
        resolves(one, raw, host),
        resolves(other, raw, host),
    ensures
        one == other,
    decreases raw,
{
    match raw {
        Tree::Table(entries) => {
            if entries.len() != 0 {
                let item = entries[0].1;
                let (name, argument) = call_of(entries[0].0);
                if name == "sys"@ && sys_key(argument, host) is Some {
                    match item {
                        Tree::Table(choices) => {
                            match branch(choices, sys_key(argument, host).unwrap()) {
                                Some(i) => {
                                    settled_without_search(choices[i].1, host, one, other);
                                },
                                None => {},
                            }
                        },
                        _ => {},
                    }
                }
            }
        },
        _ => {},
    }
}

/// An optional value as contracts see it.
pub open spec fn seen(out: Option<Value>) -> Option<Tree> {
    match out {
        Some(value) => Some(value@),
        None => None,
    }
}

/// The last place at which a key stands among keys.
fn last_of(keys: &Vec<String>, key: &str) -> (place: Option<usize>)
    ensures
        match place {
            Some(i) => texts(keys@).index_of_last(key@) == Some(i as int) && i < keys.len(),
            None => texts(keys@).index_of_last(key@) is None,
        },
{
    let mut i: usize = keys.len();
    while i > 0
        invariant
            i <= keys.len(),
            forall|j: int| i <= j < keys.len() ==> texts(keys@)[j] != key@,
        decreases i,
    {
        i -= 1;
        if same(keys[i].as_str(), key) {
            proof {
                texts(keys@).index_of_last_ensures(key@);
                assert(texts(keys@)[i as int] == key@);
            }
            return Some(i);
        }
    }
    proof {
        texts(keys@).index_of_last_ensures(key@);
    }
    None
}

/// The keys of a table, each corrected for the machine; `None` where one of
/// them lies in a home directory that is not known.
fn correct_keys(choices: &Vec<(String, Value)>, host: &Host) -> (keys: Option<Vec<String>>)
    ensures
        match keys {
            Some(keys) => corrected_keys(pairs(choices@), host@) == Some(texts(keys@)),
            None => corrected_keys(pairs(choices@), host@) is None,
        },
{
    let mut keys: Vec<String> = Vec::new();
    let mut i: usize = 0;
    while i < choices.len()
        invariant
            i <= choices.len(),
            keys@.len() == i,
            forall|j: int|
                0 <= j < i ==> Some(#[trigger] texts(keys@)[j]) == corrected(
                    pairs(choices@)[j].0,
                    host@.home,
                    host@.platform,
                ),
        decreases choices.len() - i,
    {
        match correct_from(choices[i].0.as_str(), host.home(), host.platform) {
            Some(key) => {
                let ghost before = texts(keys@);
                keys.push(key);
                assert forall|j: int| 0 <= j < i + 1 implies Some(#[trigger] texts(keys@)[j])
                    == corrected(pairs(choices@)[j].0, host@.home, host@.platform) by {
                    if j < i {
                        assert(texts(keys@)[j] == before[j]);
                    }
                }
            },
            None => {
                assert(in_home(pairs(choices@)[i as int].0));
                return None;
            },
        }
        i += 1;
    }
    proof {
        if host@.home is None && keys_need_home(pairs(choices@)) {
            let w = choose|w: int|
                0 <= w < pairs(choices@).len() && in_home(#[trigger] pairs(choices@)[w].0);
            assert(Some(texts(keys@)[w]) == corrected(
                pairs(choices@)[w].0,
                host@.home,
                host@.platform,
            ));
        }
        assert(texts(keys@) =~= corrected_keys(pairs(choices@), host@).unwrap());
    }
    Some(keys)
}

/// What a table of paths stands for on this machine, where `found` is the
/// path of the executable that was looked for, or empty where there is none.
pub fn pick_which(choices: &Vec<(String, Value)>, found: &str, host: &Host) -> (out: Option<Value>)
    ensures
        picks_which(seen(out), pairs(choices@), found@, host@),
    decreases choices,
{
    match correct_keys(choices, host) {
        Some(keys) => {
            assert(texts(keys@).len() == choices@.len());
            let place = match last_of(&keys, found) {
                Some(i) => Some(i),
                None => last_of(&keys, "default"),
            };
            match place {
                Some(i) => {
                    assert(pairs(choices@)[i as int].1 == choices@[i as int].1@);
                    resolve(&choices[i].1, host)
                },
                None => None,
            }
        },
        None => None,
    }
}

/// What a value stands for on this machine; `None` where the configuration
/// does not say.
pub fn resolve(raw: &Value, host: &Host) -> (out: Option<Value>)
    ensures
        resolves(seen(out), raw@, host@),
    decreases raw,
{
    proof {
        view_of_parts(*raw);
    }
    match raw {
        Value::Table(entries) => {
            if entries.len() == 0 {
                return None;
            }
            let item = &entries[0].1;
            let (name, argument) = split_call(entries[0].0.as_str());
            proof {
                view_of_parts(*item);
            }
            let sys = if same(name.as_str(), "sys") {
                host.sys_key(argument.as_str())
            } else {
                None
            };
            match sys {
                Some(key) => match item {
                    Value::Table(choices) => {
                        let place = match Value::find(choices, key.as_str()) {
                            Some(i) => Some(i),
                            None => Value::find(choices, "default"),
                        };
                        match place {
                            Some(i) => {
                                assert(pairs(choices@)[i as int].1 == choices@[i as int].1@);
                                let out = resolve(&choices[i].1, host);
                                assert(resolves(seen(out), raw@, host@));
                                out
                            },
                            None => None,
                        }
                    },
                    _ => None,
                },
                None => if same(name.as_str(), "which") {
                    match item {
                        Value::Table(choices) => {
                            let found = match find_executable(argument.as_str()) {
                                Some(path) => path,
                                None => String::new(),
                            };
                            let out = pick_which(choices, found.as_str(), host);
                            assert(resolves(seen(out), raw@, host@)) by {
                                assert(raw@ == Tree::Table(pairs(entries@)));
                                assert(pairs(entries@)[0] == (entries@[0].0@, item@));
                                assert(item@ == Tree::Table(pairs(choices@)));
                                assert(call_of(entries@[0].0@) == (name@, argument@));
                                assert(picks_which(seen(out), pairs(choices@), found@, host@));
                            }
                            out
                        },
                        _ => None,
                    }
                } else {
                    let out = Some(item.copy());
                    assert(resolves(seen(out), raw@, host@));
                    out
                },
            }
        },
        _ => Some(raw.copy()),
    }
}

} // verus!
