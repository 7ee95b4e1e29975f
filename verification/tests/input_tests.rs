use cli_rs::arg::Arg;
use cli_rs::cli_error::{CliResult, ErrorKind};
use cli_rs::flag::Flag;
use cli_rs::input::{Completor, Input};
use cli_rs::value::{Value, ValueKind};

struct Fixed(Vec<&'static str>);

impl Completor for Fixed {
    fn suggest(&mut self, _partial: &str) -> CliResult<Vec<String>> {
        Ok(self.0.iter().map(|s| s.to_string()).collect())
    }
}

#[test]
fn flag_takes_long_form_with_value() {
    let mut flag = Flag::new("editor", ValueKind::Str);
    assert!(!flag.parsed());
    assert_eq!(flag.parse("--editor=vim").unwrap(), true);
    assert!(flag.parsed());
    assert!(matches!(flag.get(), Value::Str(s) if s == "vim"));
}

#[test]
fn arg_refuses_flag_shaped_token() {
    let mut arg = Arg::i32("age");
    let err = arg.parse("--age").unwrap_err();
    assert_eq!(err.kind, ErrorKind::UnexpectedFlagLikeToken);
    let err = arg.parse("x1").unwrap_err();
    assert_eq!(err.kind, ErrorKind::ValueConversionFailure);
    assert_eq!(err.msg, "x1 cannot be parsed for age.");
    assert_eq!(arg.parse("-27").unwrap(), true);
    assert!(matches!(arg.get(), Value::Int(-27)));
}

#[test]
fn completions_are_filtered_by_prefix() {
    let mut flag = Flag::new("editor", ValueKind::Str).completor(Fixed(vec!["vim", "nvim", "nano"]));
    assert_eq!(flag.complete("n").unwrap(), vec!["nvim".to_string(), "nano".to_string()]);
}
