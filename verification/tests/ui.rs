use crossterm::style::{Colored, Stylize};
use sinc::ui;

fn colours() -> bool {
    !Colored::ansi_color_disabled_memoized()
}

/// The text alone where the terminal has been shown nothing of it.
fn seen(shown: String, text: &str) -> String {
    if shown.is_empty() {
        text.to_string()
    } else {
        shown
    }
}

#[test]
fn symbol_is_cyan() {
    assert_eq!(ui::symbol(" ====( "), seen(format!("{}", " ====( ".cyan()), " ====( "));
    assert_ne!(ui::symbol("x"), "x");
    assert!(ui::symbol("x").contains('x'));
    if colours() {
        assert_eq!(ui::symbol("x"), "\u{1b}[38;5;14mx\u{1b}[39m");
    }
}

#[test]
fn item_type_is_bold_magenta() {
    assert_eq!(ui::item_type("copy"), seen(format!("{}", "copy".magenta().bold()), "copy"));
    assert_ne!(ui::item_type("copy"), "copy");
    assert!(ui::item_type("copy").contains("copy"));
    if colours() {
        assert_eq!(ui::item_type("copy"), "\u{1b}[38;5;13m\u{1b}[1mcopy\u{1b}[0m");
    }
}

fn abbreviated(path: &str) -> String {
    match dirs::home_dir() {
        Some(home) => path.replacen(&home.display().to_string(), "~", 1),
        None => path.to_string(),
    }
}

#[test]
fn path_stands_between_backquotes() {
    let quote = seen(format!("{}", "`".green().dim()), "`");
    let body = abbreviated("/nowhere/special");
    let shown = ui::path("/nowhere/special");
    assert_eq!(
        shown,
        format!("{}{}{}", quote, seen(format!("{}", body.as_str().green()), &body), quote)
    );
    assert!(shown.contains(&body));
    assert!(shown.starts_with(&quote));
    assert!(shown.ends_with(&quote));
    if colours() {
        assert_eq!(
            shown,
            format!(
                "\u{1b}[38;5;10m\u{1b}[2m`\u{1b}[0m\u{1b}[38;5;10m{}\u{1b}[39m\u{1b}[38;5;10m\u{1b}[2m`\u{1b}[0m",
                body
            )
        );
    }
}

#[test]
fn path_writes_a_tilde_for_home() {
    if let Some(home) = dirs::home_dir() {
        let home = home.display().to_string();
        let shown = ui::path(&format!("{}/.vimrc", home));
        assert!(shown.contains("~/.vimrc"));
        if home.len() > 1 {
            assert!(!shown.contains(&home));
        }
    }
}

#[test]
fn title_fills_the_line() {
    let head = seen(format!("{}", "▂\n█  vimrc\n▔".cyan().bold()), "▂\n█  vimrc\n▔");
    let rule = seen(format!("{}", "▔▔▔▔".dark_grey()), "▔▔▔▔");
    assert_eq!(ui::title("vimrc", 5), format!("{}{}", head, rule));
    if colours() {
        assert_eq!(
            ui::title("vimrc", 5),
            "\u{1b}[38;5;14m\u{1b}[1m▂\n█  vimrc\n▔\u{1b}[0m\u{1b}[38;5;8m▔▔▔▔\u{1b}[39m"
        );
    }
}

#[test]
fn title_without_room_has_no_rule() {
    let head = seen(format!("{}", "▂\n█  a\n▔".cyan().bold()), "▂\n█  a\n▔");
    let rule = seen(format!("{}", "".dark_grey()), "");
    assert_eq!(ui::title("a", 1), format!("{}{}", head, rule));
    assert_eq!(ui::title("a", 81).matches('▔').count(), 81);
}

#[test]
fn a_text_stays_in_sight() {
    assert_eq!(ui::or_plain(String::new(), "vimrc"), "vimrc");
    assert_eq!(ui::or_plain(String::new(), ""), "");
    assert_eq!(ui::or_plain("\u{1b}[mvimrc\u{1b}[m".to_string(), "vimrc"), "\u{1b}[mvimrc\u{1b}[m");
    assert_eq!(ui::or_plain("\u{1b}[m\u{1b}[m".to_string(), ""), "\u{1b}[m\u{1b}[m");
}

#[test]
fn styled_pieces_hold_their_text() {
    for text in ["x", " ====( ", "symlink", "▔"] {
        assert!(ui::symbol(text).contains(text));
        assert!(ui::item_type(text).contains(text));
        assert!(ui::title(text, 3).contains(text));
    }
    assert!(ui::path("/nowhere").contains('`'));
}

#[test]
fn path_from_writes_a_tilde_for_the_home_it_is_given() {
    let quote = seen(format!("{}", "`".green().dim()), "`");
    let body = |text: &str| seen(format!("{}", text.green()), text);
    assert_eq!(
        ui::path_from("/home/u/.vimrc", Some("/home/u")),
        format!("{}{}{}", quote, body("~/.vimrc"), quote)
    );
    assert_eq!(
        ui::path_from("/etc/hosts", Some("/home/u")),
        format!("{}{}{}", quote, body("/etc/hosts"), quote)
    );
    assert_eq!(
        ui::path_from("/home/u/.vimrc", None),
        format!("{}{}{}", quote, body("/home/u/.vimrc"), quote)
    );
    let home = dirs::home_dir().map(|home| home.display().to_string());
    assert_eq!(ui::path("/etc/hosts"), ui::path_from("/etc/hosts", home.as_deref()));
}
