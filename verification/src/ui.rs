//! The pieces of which the lines shown to the user are made.
//!
//! The styles come from `crossterm`. What a style adds to a text depends on
//! the terminal and the environment, so the contracts say where the text
//! stands, not which control sequences surround it.

use crate::path::{home_dir, omit_home_from, omits};
use vstd::prelude::*;

verus! {

/// Whether `out` is `text` with a style laid on it: the text between what
/// switches the style on and what switches it off. Either may be empty: a
/// console that takes no control sequences is shown the text alone.
pub open spec fn styled(out: Seq<char>, text: Seq<char>) -> bool {
    exists|on: Seq<char>, off: Seq<char>| out == on + text + off
}

/// `Stylize::cyan` of `crossterm`, shown by `Display`: the text in cyan.
///
/// Not proved, here and for the styles below: that the result is the text
/// between what switches the style on and off, or nothing (see [`rendered`]).
#[verifier::external_body]
fn cyan(text: &str) -> (out: String)
    ensures
        rendered(out@, text@),
{
    format!("{}", crossterm::style::Stylize::cyan(text))
}

/// `Stylize::cyan` and `Stylize::bold` of `crossterm`, shown by `Display`: the
/// text in bold cyan.
#[verifier::external_body]
fn cyan_bold(text: &str) -> (out: String)
    ensures
        rendered(out@, text@),
{
    format!("{}", crossterm::style::Stylize::bold(crossterm::style::Stylize::cyan(text)))
}

/// `Stylize::magenta` and `Stylize::bold` of `crossterm`, shown by `Display`:
/// the text in bold magenta.
#[verifier::external_body]
fn magenta_bold(text: &str) -> (out: String)
    ensures
        rendered(out@, text@),
{
    format!("{}", crossterm::style::Stylize::bold(crossterm::style::Stylize::magenta(text)))
}

/// `Stylize::green` of `crossterm`, shown by `Display`: the text in green.
#[verifier::external_body]
fn green(text: &str) -> (out: String)
    ensures
        rendered(out@, text@),
{
    format!("{}", crossterm::style::Stylize::green(text))
}

/// `Stylize::green` and `Stylize::dim` of `crossterm`, shown by `Display`: the
/// text in dim green.
#[verifier::external_body]
fn green_dim(text: &str) -> (out: String)
    ensures
        rendered(out@, text@),
{
    format!("{}", crossterm::style::Stylize::dim(crossterm::style::Stylize::green(text)))
}

/// `Stylize::dark_grey` of `crossterm`, shown by `Display`: the text in dark
/// grey.
#[verifier::external_body]
fn dark_grey(text: &str) -> (out: String)
    ensures
        rendered(out@, text@),
{
    format!("{}", crossterm::style::Stylize::dark_grey(text))
}

/// A sign between the parts of a line, in cyan.
pub fn symbol(sign: &str) -> (out: String)
    ensures
        styled(out@, sign@),
{
    or_plain(cyan(sign), sign)
}

/// The name of a link strategy, in bold magenta.
pub fn item_type(name: &str) -> (out: String)
    ensures
        styled(out@, name@),
{
    or_plain(magenta_bold(name), name)
}

/// Whether `out` shows a path where the home directory is `home`: the path
/// with `~` for the home directory where it first names it, in green, between
/// two backquotes in dim green.
pub open spec fn shows_path_from(out: Seq<char>, path: Seq<char>, home: Option<Seq<char>>) -> bool {
    exists|quote: Seq<char>, body: Seq<char>, shown: Seq<char>|
        {
            &&& styled(quote, "`"@)
            &&& omits(shown, path, home)
            &&& styled(body, shown)
            &&& out == quote + body + quote
        }
}

/// Whether `out` shows a path, for some home directory or for none.
pub open spec fn shows_path(out: Seq<char>, path: Seq<char>) -> bool {
    exists|home: Option<Seq<char>>| #[trigger] shows_path_from(out, path, home)
}

/// A path between backquotes, with `~` for the given home directory.
pub fn path_from(location: &str, home: Option<&str>) -> (out: String)
    ensures
        shows_path_from(
            out@,
            location@,
            match home {
                Some(home) => Some(home@),
                None => None,
            },
        ),
{
    let backquote = or_plain(green_dim("`"), "`");
    let shown = omit_home_from(String::from_str(location), home);
    let body = or_plain(green(shown.as_str()), shown.as_str());
    let mut out = backquote.clone();
    out.append(body.as_str());
    out.append(backquote.as_str());
    assert(styled(backquote@, "`"@) && styled(body@, shown@));
    out
}

/// A path between backquotes, with `~` for the user's home directory.
pub fn path(location: &str) -> (out: String)
    ensures
        shows_path(out@, location@),
{
    match home_dir() {
        Some(home) => path_from(location, Some(home.as_str())),
        None => path_from(location, None),
    }
}

/// The character of which the rule under a title is made.
pub open spec fn rule_char() -> char {
    '▔'
}

/// The text of an entry's title before it is styled.
pub open spec fn title_text(title: Seq<char>) -> Seq<char> {
    "▂\n█  "@ + title + "\n▔"@
}

/// Whether `out` is the title block of an entry for a terminal of the given
/// width: the title in bold cyan, then a rule in dark grey that fills the
/// last line.
pub open spec fn shows_title(out: Seq<char>, title: Seq<char>, width: u16) -> bool {
    exists|head: Seq<char>, rule: Seq<char>|
        {
            &&& styled(head, title_text(title))
            &&& styled(rule, Seq::new((width - 1) as nat, |i: int| rule_char()))
            &&& out == head + rule
        }
}

/// The title block of an entry, for a terminal `width` columns wide.
pub fn title(label: &str, width: u16) -> (out: String)
    requires
        width >= 1,
    ensures
        shows_title(out@, label@, width),
{
    let mut text = String::from_str("▂\n█  ");
    text.append(label);
    text.append("\n▔");
    let mut rule = String::new();
    let mut i: u16 = 1;
    proof {
        reveal_strlit("▔");
    }
    while i < width
        invariant
            1 <= i <= width,
            "▔"@ == seq![rule_char()],
            rule@ == Seq::new((i - 1) as nat, |k: int| rule_char()),
        decreases width - i,
    {
        rule.append("▔");
        i += 1;
    }
    let head = or_plain(cyan_bold(text.as_str()), text.as_str());
    let tail = or_plain(dark_grey(rule.as_str()), rule.as_str());
    let mut out = head.clone();
    out.append(tail.as_str());
    out
}

/// Whether `out` is what `crossterm` shows of a text with a style: the text
/// between what switches the style on and off, or nothing at all, which is
/// what it shows on a console that takes no control sequences.
pub open spec fn rendered(out: Seq<char>, text: Seq<char>) -> bool {
    out.len() == 0 || styled(out, text)
}

/// What is shown of a text once `crossterm` has laid a style on it: what it
/// has made of the text, or the text alone where it has made nothing of it.
pub open spec fn shown_or_plain(shown: Seq<char>, text: Seq<char>) -> Seq<char> {
    if shown.len() == 0 {
        text
    } else {
        shown
    }
}

/// Keeps a text in sight: gives what `crossterm` has made of it, or the text
/// alone where that is nothing. The result always holds the text.
pub fn or_plain(shown: String, text: &str) -> (out: String)
    ensures
        out@ == shown_or_plain(shown@, text@),
        rendered(shown@, text@) ==> styled(out@, text@),
{
    if shown.as_str().is_empty() {
        let out = String::from_str(text);
        assert(out@ =~= Seq::<char>::empty() + text@ + Seq::<char>::empty());
        out
    } else {
        shown
    }
}

} // verus!
