//! Paths as the configuration writes them, made fit for the machine.

use crate::dotfile::protocol::Platform;
use crate::text::same;
use vstd::prelude::*;

verus! {

/// `dirs::home_dir`: the home directory of the user, where the system knows
/// of one. Which that is depends on the environment, so nothing is claimed of
/// the result.
#[verifier::external_body]
pub(crate) fn home_dir() -> Option<String> {
    dirs::home_dir().map(|home| home.display().to_string())
}

/// The separator that the platform does not use.
pub open spec fn foreign_separator(platform: Platform) -> char {
    match platform {
        Platform::Windows => '/',
        Platform::Unix => '\\',
    }
}

/// The separator that the platform uses.
pub open spec fn separator(platform: Platform) -> char {
    match platform {
        Platform::Windows => '\\',
        Platform::Unix => '/',
    }
}

/// A path with each separator of the other platform turned into the
/// platform's own.
pub open spec fn separated(path: Seq<char>, platform: Platform) -> Seq<char> {
    Seq::new(
        path.len(),
        |i: int|
            if path[i] == foreign_separator(platform) {
                separator(platform)
            } else {
                path[i]
            },
    )
}

/// Turns each separator of the other platform into the platform's own.
pub fn fix_separators(path: &str, platform: Platform) -> (out: String)
    ensures
        out@ == separated(path@, platform),
{
    let (from, to) = match platform {
        Platform::Windows => ('/', "\\"),
        Platform::Unix => ('\\', "/"),
    };
    proof {
        reveal_strlit("\\");
        reveal_strlit("/");
    }
    let n = path.unicode_len();
    let mut out = String::new();
    let mut i: usize = 0;
    while i < n
        invariant
            i <= n,
            n == path@.len(),
            from == foreign_separator(platform),
            to@ == seq![separator(platform)],
            out@ == separated(path@.subrange(0, i as int), platform),
        decreases n - i,
    {
        if path.get_char(i) == from {
            out.append(to);
        } else {
            out.append(path.substring_char(i, i + 1));
        }
        i += 1;
    }
    out
}

/// The characters that `~` and the separator after it are made of.
pub open spec fn is_home_mark(c: char) -> bool {
    c == '~' || c == '/' || c == '\\'
}

/// A path without the marks it begins with.
pub open spec fn below_home(path: Seq<char>) -> Seq<char>
    decreases path.len(),
{
    if path.len() > 0 && is_home_mark(path[0]) {
        below_home(path.drop_first())
    } else {
        path
    }
}

/// Cuts off the marks that a path begins with.
pub fn strip_home_marks(path: &str) -> (rest: &str)
    ensures
        rest@ == below_home(path@),
{
    let n = path.unicode_len();
    let mut i: usize = 0;
    assert(path@.subrange(0, n as int) =~= path@);
    while i < n && (path.get_char(i) == '~' || path.get_char(i) == '/' || path.get_char(i) == '\\')
        invariant
            i <= n,
            n == path@.len(),
            below_home(path@) == below_home(path@.subrange(i as int, n as int)),
        decreases n - i,
    {
        assert(path@.subrange(i as int, n as int).drop_first() =~= path@.subrange(
            i as int + 1,
            n as int,
        ));
        i += 1;
    }
    path.substring_char(i, n)
}

/// Whether a path begins in the home directory.
pub open spec fn in_home(path: Seq<char>) -> bool {
    path.len() > 0 && path[0] == '~'
}

/// Whether a path begins in the home directory.
pub fn begins_in_home(path: &str) -> (yes: bool)
    ensures
        yes == in_home(path@),
{
    path.unicode_len() > 0 && path.get_char(0) == '~'
}

/// A path that holds no separator of the other platform.
pub open spec fn well_separated(path: Seq<char>, platform: Platform) -> bool {
    forall|i: int| 0 <= i < path.len() ==> path[i] != foreign_separator(platform)
}

/// Whether the platform reads a character as a separator.
pub open spec fn is_separator(c: char, platform: Platform) -> bool {
    match platform {
        Platform::Windows => c == '/' || c == '\\',
        Platform::Unix => c == '/',
    }
}

/// A path put beneath a directory: the two with the platform's separator
/// between them, which is left out where the directory is empty or ends with
/// a separator already.
pub open spec fn joined(base: Seq<char>, rest: Seq<char>, platform: Platform) -> Seq<char> {
    if base.len() == 0 || is_separator(base.last(), platform) {
        base + rest
    } else {
        base + seq![separator(platform)] + rest
    }
}

/// Puts a path beneath a directory.
pub fn join(base: &str, rest: &str, platform: Platform) -> (out: String)
    ensures
        out@ == joined(base@, rest@, platform),
{
    let n: usize = base.unicode_len();
    let mut out = String::from_str(base);
    if n > 0 {
        let last = base.get_char(n - 1);
        proof {
            reveal_strlit("\\");
            reveal_strlit("/");
        }
        match platform {
            Platform::Windows => if !(last == '/' || last == '\\') {
                out.append("\\");
            },
            Platform::Unix => if last != '/' {
                out.append("/");
            },
        }
    }
    out.append(rest);
    out
}

/// A path made fit for the machine, where the home directory is `home`.
///
/// A path that does not begin with `~` has its separators corrected. One that
/// does is first put beneath the home directory, without the marks it begins
/// with; without a home directory there is no result.
pub open spec fn corrected(path: Seq<char>, home: Option<Seq<char>>, platform: Platform) -> Option<
    Seq<char>,
> {
    if !in_home(path) {
        Some(separated(path, platform))
    } else {
        match home {
            Some(home) => Some(separated(joined(home, below_home(path), platform), platform)),
            None => None,
        }
    }
}

/// Whether `out` is what [`to_correct`] may make of a path: the corrected
/// path for some home directory or for none.
pub open spec fn corrects(out: Option<Seq<char>>, path: Seq<char>, platform: Platform) -> bool {
    exists|home: Option<Seq<char>>| out == #[trigger] corrected(path, home, platform)
}

/// A corrected path holds no separator of the other platform.
pub proof fn corrected_is_well_separated(
    path: Seq<char>,
    home: Option<Seq<char>>,
    platform: Platform,
)
    ensures
        corrected(path, home, platform) matches Some(out) ==> well_separated(out, platform),
{
}

/// A path without the marks it begins with begins with no mark.
pub proof fn below_home_begins_plainly(path: Seq<char>)
    ensures
        below_home(path).len() > 0 ==> !is_home_mark(below_home(path)[0]),
    decreases path.len(),
{
    if path.len() > 0 && is_home_mark(path[0]) {
        below_home_begins_plainly(path.drop_first());
    }
}

/// Correcting a corrected path changes nothing, where the home directory
/// does not itself begin with `~`.
pub proof fn correcting_twice_changes_nothing(
    path: Seq<char>,
    home: Option<Seq<char>>,
    platform: Platform,
)
    requires
        home matches Some(h) ==> !in_home(h),
    ensures
        corrected(path, home, platform) matches Some(out) ==> corrected(out, home, platform)
            == Some(out),
{
    if let Some(out) = corrected(path, home, platform) {
        assert(separated(out, platform) =~= out);
        if in_home(path) {
            below_home_begins_plainly(path);
        }
    }
}

/// An optional text as contracts see it.
pub open spec fn shown(out: Option<String>) -> Option<Seq<char>> {
    match out {
        Some(text) => Some(text@),
        None => None,
    }
}

/// Expands a leading `~` to the given home directory and corrects the
/// separators. `None` where the path begins with `~` and there is no home
/// directory.
pub fn correct_from(path: &str, home: Option<&str>, platform: Platform) -> (out: Option<String>)
    ensures
        shown(out) == corrected(
            path@,
            match home {
                Some(home) => Some(home@),
                None => None,
            },
            platform,
        ),
{
    if begins_in_home(path) {
        match home {
            Some(home) => {
                let below = join(home, strip_home_marks(path), platform);
                Some(fix_separators(below.as_str(), platform))
            },
            None => None,
        }
    } else {
        Some(fix_separators(path, platform))
    }
}

/// Expands a leading `~` to the user's home directory and corrects the
/// separators. `None` where the path begins with `~` and the user has no home
/// directory.
pub fn to_correct(path: String, platform: Platform) -> (out: Option<String>)
    ensures
        corrects(shown(out), path@, platform),
{
    if begins_in_home(path.as_str()) {
        match home_dir() {
            Some(home) => correct_from(path.as_str(), Some(home.as_str()), platform),
            None => correct_from(path.as_str(), None, platform),
        }
    } else {
        correct_from(path.as_str(), None, platform)
    }
}

/// The directory of the configuration: the first that is set of the
/// directory named for this program and the user's configuration directory,
/// else `.config` in the home directory.
pub open spec fn config_dir(
    sinc_config_dir: Option<Seq<char>>,
    xdg_config_home: Option<Seq<char>>,
) -> Seq<char> {
    match sinc_config_dir {
        Some(dir) => dir,
        None => match xdg_config_home {
            Some(dir) => dir,
            None => "~/.config"@,
        },
    }
}

/// The path of the configuration file, from the values of the environment
/// variables `SINC_CONFIG_DIR` and `XDG_CONFIG_HOME`.
pub fn config_file(
    sinc_config_dir: Option<String>,
    xdg_config_home: Option<String>,
    platform: Platform,
) -> (out: Option<String>)
    ensures
        corrects(
            shown(out),
            config_dir(shown(sinc_config_dir), shown(xdg_config_home)) + "/sinc/sinc.toml"@,
            platform,
        ),
{
    let mut file = match sinc_config_dir {
        Some(dir) => dir,
        None => match xdg_config_home {
            Some(dir) => dir,
            None => String::from_str("~/.config"),
        },
    };
    file.append("/sinc/sinc.toml");
    to_correct(file, platform)
}

/// The path of a file in this program's cache directory, from the value of
/// the environment variable `XDG_CACHE_HOME`: the file lies in `sinc` under
/// that directory, or under `.cache` in the home directory.
pub fn cache_file(file_name: &str, xdg_cache_home: Option<String>, platform: Platform) -> (out:
    Option<String>)
    ensures
        corrects(
            shown(out),
            match xdg_cache_home {
                Some(dir) => dir@,
                None => "~/.cache"@,
            } + "/sinc/"@ + file_name@,
            platform,
        ),
{
    let mut file = match xdg_cache_home {
        Some(dir) => dir,
        None => String::from_str("~/.cache"),
    };
    file.append("/sinc/");
    file.append(file_name);
    to_correct(file, platform)
}

/// Whether `pattern` stands in `text` at position `i`.
pub open spec fn occurs_at(text: Seq<char>, pattern: Seq<char>, i: int) -> bool {
    0 <= i && i + pattern.len() <= text.len() && text.subrange(i, i + pattern.len()) == pattern
}

/// Whether `out` is `text` with the first `pattern` in it replaced by `with`,
/// or `text` itself where it holds no `pattern`.
pub open spec fn replaces_first(
    out: Seq<char>,
    text: Seq<char>,
    pattern: Seq<char>,
    with: Seq<char>,
) -> bool {
    ||| out == text && forall|i: int| !occurs_at(text, pattern, i)
    ||| exists|i: int|
        {
            &&& #[trigger] occurs_at(text, pattern, i)
            &&& forall|j: int| j < i ==> !occurs_at(text, pattern, j)
            &&& out == text.subrange(0, i) + with + text.subrange(
                i + pattern.len(),
                text.len() as int,
            )
        }
}

/// Replaces the first `pattern` in `text` by `with`.
pub fn replace_first(text: &str, pattern: &str, with: &str) -> (out: String)
    ensures
        replaces_first(out@, text@, pattern@, with@),
{
    let n = text.unicode_len();
    let m = pattern.unicode_len();
    if m <= n {
        let mut i: usize = 0;
        loop
            invariant_except_break
                i <= n - m,
                forall|j: int| j < i ==> !occurs_at(text@, pattern@, j),
            invariant
                n == text@.len(),
                m == pattern@.len(),
                m <= n,
            ensures
                forall|j: int| j <= n - m ==> !occurs_at(text@, pattern@, j),
            decreases n - m - i,
        {
            if same(text.substring_char(i, i + m), pattern) {
                let mut out = String::from_str(text.substring_char(0, i));
                out.append(with);
                out.append(text.substring_char(i + m, n));
                assert(occurs_at(text@, pattern@, i as int));
                return out;
            }
            if i == n - m {
                break ;
            }
            i += 1;
        }
    }
    String::from_str(text)
}

/// Writes `~` for the user's home directory where a path first names it.
/// Where the user has no home directory, the path stays as it is.
pub fn omit_home(path: String) -> (out: String)
    ensures
        out@ == path@ || exists|home: Seq<char>| replaces_first(out@, path@, home, "~"@),
{
    match home_dir() {
        Some(home) => omit_home_from(path, Some(home.as_str())),
        None => omit_home_from(path, None),
    }
}

/// Whether `out` is a path with `~` written for the home directory where the
/// path first names it; the path itself where there is no home directory.
pub open spec fn omits(out: Seq<char>, path: Seq<char>, home: Option<Seq<char>>) -> bool {
    match home {
        Some(home) => replaces_first(out, path, home, "~"@),
        None => out == path,
    }
}

/// Writes `~` for the given home directory where a path first names it. Where
/// there is no home directory, the path stays as it is.
pub fn omit_home_from(path: String, home: Option<&str>) -> (out: String)
    ensures
        omits(
            out@,
            path@,
            match home {
                Some(home) => Some(home@),
                None => None,
            },
        ),
{
    match home {
        Some(home) => replace_first(path.as_str(), home, "~"),
        None => path,
    }
}

} // verus!
