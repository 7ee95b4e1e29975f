use cli_rs::arg::Arg;
use cli_rs::command::Command;
use cli_rs::help::{paint, Span, Style};

#[test]
fn styled_help_carries_the_terminal_codes() {
    colored::control::set_override(true);
    let cmd = Command::name("edit").input(Arg::str("name"));
    let plain = cmd.plain_help();
    let styled = cmd.gen_help().msg;
    assert_ne!(styled, plain);
    assert!(styled.starts_with("\u{1b}[1;32medit\u{1b}[0m\n\n\u{1b}[1;33mUSAGE:\u{1b}[0m\n\t"));
    assert!(styled.contains("\u{1b}[1mname      \u{1b}[0m"));
    let strong = paint(&Span { text: "x".to_string(), style: Style::Strong });
    assert_eq!(strong, "\u{1b}[1mx\u{1b}[0m");
    let untouched = paint(&Span { text: "x".to_string(), style: Style::Plain });
    assert_eq!(untouched, "x");

    colored::control::set_override(false);
    assert_eq!(cmd.gen_help().msg, plain);
}
