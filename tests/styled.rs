use ansistyle::color::{Color, Style};
use ansistyle::policy::{setting_is_on, supports_styling};
use ansistyle::styled::{style, Styled};

fn shown<D>(w: &Styled<D>, policy: bool, inner: &str) -> String {
    w.render(policy, inner)
}

#[test]
fn red_round_trip() {
    let w = style("hi").red().force_styling(true);
    assert_eq!(shown(&w, false, "hi"), "\x1b[31mhi\x1b[0m");
}

#[test]
fn background_then_attributes() {
    let w = style("x").on_blue().bold().force_styling(true);
    assert_eq!(shown(&w, false, "x"), "\x1b[44m\x1b[1mx\x1b[0m");
}

#[test]
fn last_foreground_wins() {
    let w = style("x").red().green().force_styling(true);
    assert_eq!(shown(&w, false, "x"), "\x1b[32mx\x1b[0m");
}

#[test]
fn last_background_wins() {
    let w = style("x").on_red().on_cyan();
    assert_eq!(shown(&w, true, "x"), "\x1b[46mx\x1b[0m");
}

#[test]
fn forced_plain_wrapper_emits_nothing() {
    let w = style(42).force_styling(true);
    assert_eq!(shown(&w, false, "42"), "42");
    assert_eq!(shown(&w, true, "42"), "42");
    let (prefix, suffix) = w.escapes(true);
    assert_eq!(prefix, "");
    assert_eq!(suffix, "");
}

#[test]
fn force_on_ignores_policy() {
    let w = style("v").yellow().underlined().force_styling(true);
    let expected = "\x1b[33m\x1b[4mv\x1b[0m";
    assert_eq!(shown(&w, false, "v"), expected);
    assert_eq!(shown(&w, true, "v"), expected);
}

#[test]
fn force_off_ignores_policy() {
    let w = style("v").yellow().on_white().hidden().force_styling(false);
    assert_eq!(shown(&w, true, "v"), "v");
    assert_eq!(shown(&w, false, "v"), "v");
}

#[test]
fn policy_decides_without_override() {
    let w = style("v").magenta();
    assert_eq!(shown(&w, true, "v"), "\x1b[35mv\x1b[0m");
    assert_eq!(shown(&w, false, "v"), "v");
    assert!(w.effective_styling(true));
    assert!(!w.effective_styling(false));
}

#[test]
fn later_override_replaces_earlier() {
    let w = style("v").blue().force_styling(false).force_styling(true);
    assert_eq!(shown(&w, false, "v"), "\x1b[34mv\x1b[0m");
}

#[test]
fn repeated_attribute_is_idempotent() {
    let once = style("b").bold().force_styling(true);
    let twice = style("b").bold().bold().force_styling(true);
    assert_eq!(shown(&once, false, "b"), shown(&twice, false, "b"));
    assert_eq!(shown(&once, false, "b"), "\x1b[1mb\x1b[0m");
}

#[test]
fn attribute_order_does_not_matter() {
    let a = style("o").bold().underlined().force_styling(true);
    let b = style("o").underlined().bold().force_styling(true);
    assert_eq!(shown(&a, false, "o"), shown(&b, false, "o"));
    assert_eq!(shown(&a, false, "o"), "\x1b[1m\x1b[4mo\x1b[0m");
}

#[test]
fn all_attributes_in_ascending_code() {
    let w = style("a").hidden().reverse().blink().underlined().dim().bold();
    assert_eq!(
        shown(&w, true, "a"),
        "\x1b[1m\x1b[2m\x1b[4m\x1b[5m\x1b[7m\x1b[8ma\x1b[0m"
    );
}

#[test]
fn foreground_background_attributes_order() {
    let w = style("z").dim().on_black().white();
    assert_eq!(shown(&w, true, "z"), "\x1b[37m\x1b[40m\x1b[2mz\x1b[0m");
}

#[test]
fn foreground_shortcuts() {
    let cases: Vec<(Styled<u8>, &str)> = vec![
        (style(0).black(), "\x1b[30m"),
        (style(0).red(), "\x1b[31m"),
        (style(0).green(), "\x1b[32m"),
        (style(0).yellow(), "\x1b[33m"),
        (style(0).blue(), "\x1b[34m"),
        (style(0).magenta(), "\x1b[35m"),
        (style(0).cyan(), "\x1b[36m"),
        (style(0).white(), "\x1b[37m"),
    ];
    for (w, prefix) in cases {
        assert_eq!(w.escapes(true), (prefix.to_string(), "\x1b[0m".to_string()));
    }
}

#[test]
fn background_shortcuts() {
    let cases: Vec<(Styled<u8>, &str)> = vec![
        (style(0).on_black(), "\x1b[40m"),
        (style(0).on_red(), "\x1b[41m"),
        (style(0).on_green(), "\x1b[42m"),
        (style(0).on_yellow(), "\x1b[43m"),
        (style(0).on_blue(), "\x1b[44m"),
        (style(0).on_magenta(), "\x1b[45m"),
        (style(0).on_cyan(), "\x1b[46m"),
        (style(0).on_white(), "\x1b[47m"),
    ];
    for (w, prefix) in cases {
        assert_eq!(w.escapes(true), (prefix.to_string(), "\x1b[0m".to_string()));
    }
}

#[test]
fn attribute_shortcuts() {
    let cases: Vec<(Styled<u8>, &str)> = vec![
        (style(0).bold(), "\x1b[1m"),
        (style(0).dim(), "\x1b[2m"),
        (style(0).underlined(), "\x1b[4m"),
        (style(0).blink(), "\x1b[5m"),
        (style(0).reverse(), "\x1b[7m"),
        (style(0).hidden(), "\x1b[8m"),
    ];
    for (w, prefix) in cases {
        assert_eq!(w.escapes(true), (prefix.to_string(), "\x1b[0m".to_string()));
    }
}

#[test]
fn general_setters_match_shortcuts() {
    let a = style(1).fg(Color::Cyan).bg(Color::Red).style(Style::Blink);
    let b = style(1).cyan().on_red().blink();
    assert_eq!(a.escapes(true), b.escapes(true));
    assert_eq!(a.escapes(true).0, "\x1b[36m\x1b[41m\x1b[5m");
}

#[test]
fn wrapped_value_is_kept() {
    let w = style(vec![1, 2, 3]).red().bold().force_styling(true);
    assert_eq!(w.value(), &vec![1, 2, 3]);
}

#[test]
fn color_and_style_numbers() {
    let colors = [
        Color::Black,
        Color::Red,
        Color::Green,
        Color::Yellow,
        Color::Blue,
        Color::Magenta,
        Color::Cyan,
        Color::White,
    ];
    for (i, c) in colors.iter().enumerate() {
        assert_eq!(c.ansi_num(), i);
    }
    let styles = [
        (Style::Bold, 1),
        (Style::Dim, 2),
        (Style::Underlined, 4),
        (Style::Blink, 5),
        (Style::Reverse, 7),
        (Style::Hidden, 8),
    ];
    for (s, n) in styles.iter() {
        assert_eq!(s.ansi_num(), *n);
    }
}

#[test]
fn policy_defaults_off_without_variables() {
    assert!(!supports_styling(None, None, false));
    assert!(!supports_styling(None, None, true));
    assert!(!supports_styling(Some("0"), Some("0"), true));
    assert!(!supports_styling(Some("0"), None, false));
}

#[test]
fn policy_clicolor_follows_terminal() {
    assert!(supports_styling(Some("1"), None, true));
    assert!(!supports_styling(Some("1"), None, false));
    assert!(supports_styling(Some("1"), Some("0"), true));
}

#[test]
fn policy_force_ignores_terminal() {
    assert!(supports_styling(None, Some("1"), false));
    assert!(supports_styling(None, Some("1"), true));
    assert!(supports_styling(Some("0"), Some("yes"), false));
}

#[test]
fn setting_values() {
    assert!(!setting_is_on(None));
    assert!(!setting_is_on(Some("0")));
    assert!(setting_is_on(Some("1")));
    assert!(setting_is_on(Some("")));
    assert!(setting_is_on(Some("00")));
    assert!(setting_is_on(Some("false")));
}
