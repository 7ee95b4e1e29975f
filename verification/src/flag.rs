//! Flags: inputs found by name, wherever they stand on the line.

use vstd::prelude::*;
use crate::cli_error::{CliError, CliResult, ErrorKind};
use crate::input::{ask_completor, datum_of, text_of, Completor, Input, InputType, Slot};
use crate::text::{has_prefix, join2, join3, letters_match, str_eq, tail};
use crate::value::{fallback, Value, ValueKind};

verus! {

/// A flag. `--name=text` gives it a value; where it is boolean, `--name` and
/// a dash with the first letter of the name set it to `true`.
pub struct Flag<'a> {
    pub name: String,
    pub description: Option<String>,
    pub value: Option<Value>,
    pub bool_flag: bool,
    pub kind: ValueKind,
    pub completor: Option<Box<dyn Completor + 'a>>,
}

impl<'a> Flag<'a> {
    /// A boolean flag: present means `true`, absent means `false`.
    pub fn bool(name: &str) -> (r: Self)
        ensures
            r.slot() == (Slot {
                name: name@,
                description: None,
                kind: InputType::Flag,
                bool_flag: true,
                domain: crate::value::Domain::Bool,
                value: None,
                default_value: Some(crate::value::Datum::Bool(false)),
                has_completor: false,
            }),
    {
        Flag {
            name: String::from_str(name),
            value: None,
            bool_flag: true,
            kind: ValueKind::Bool,
            completor: None,
            description: None,
        }
    }

    /// A flag that needs a value of the given kind: `--name=text`.
    pub fn new(name: &str, kind: ValueKind) -> (r: Self)
        ensures
            r.slot() == (Slot {
                name: name@,
                description: None,
                kind: InputType::Flag,
                bool_flag: false,
                domain: kind@,
                value: None,
                default_value: Some(fallback(kind@)),
                has_completor: false,
            }),
    {
        Flag {
            name: String::from_str(name),
            value: None,
            bool_flag: false,
            kind,
            completor: None,
            description: None,
        }
    }

    /// The value of the flag: the one a token gave, else the fallback of its kind.
    pub fn get(&self) -> (r: Value)
        ensures
            Some(r@) == self.slot().reading(),
    {
        match &self.value {
            Some(v) => v.duplicate(),
            None => self.kind.fallback(),
        }
    }

    /// Sets the text shown for this flag in help and completions.
    pub fn description(self, description: &str) -> (r: Self)
        ensures
            r.slot() == (Slot { description: Some(description@), ..self.slot() }),
    {
        let mut flag = self;
        flag.description = Some(String::from_str(description));
        flag
    }

    /// Sets the source of completion candidates for the flag's value.
    pub fn completor<C: Completor + 'a>(self, completor: C) -> (r: Self)
        ensures
            r.slot() == (Slot { has_completor: true, ..self.slot() }),
    {
        let mut flag = self;
        flag.completor = Some(Box::new(completor));
        flag
    }

    /// Whether `token` is a dash and the first letter of the name.
    fn matches_alias(&self, token: &str) -> (r: bool)
        ensures
            r == crate::input::is_short_alias(self.name@, token@),
    {
        token.unicode_len() == 2 && token.get_char(0) == '-' && self.name.as_str().unicode_len()
            > 0 && letters_match(token.get_char(1), self.name.as_str().get_char(0))
    }
}

impl<'a> Input for Flag<'a> {
    open spec fn slot(&self) -> Slot {
        Slot {
            name: self.name@,
            description: text_of(self.description),
            kind: InputType::Flag,
            bool_flag: self.bool_flag,
            domain: self.kind@,
            value: datum_of(self.value),
            default_value: Some(fallback(self.kind@)),
            has_completor: self.completor is Some,
        }
    }

    fn parsed(&self) -> (r: bool) {
        self.value.is_some()
    }

    fn has_default(&self) -> (r: bool) {
        true
    }

    fn parse(&mut self, token: &str) -> (r: CliResult<bool>) {
        let name = self.name.as_str();
        let with_eq = join3("--", name, "=");
        if has_prefix(token, with_eq.as_str()) {
            let text = tail(token, with_eq.as_str().unicode_len());
            match self.kind.convert(text) {
                Some(v) => {
                    self.value = Some(v);
                    Ok(true)
                },
                None => Err(
                    CliError::new(
                        ErrorKind::ValueConversionFailure,
                        join3(text, " cannot be parsed for ", name),
                    ),
                ),
            }
        } else if self.bool_flag && (str_eq(token, join2("--", name).as_str())
            || self.matches_alias(token)) {
            self.value = Some(Value::Bool(true));
            Ok(true)
        } else {
            Ok(false)
        }
    }

    fn display_name(&self) -> (r: String) {
        self.name.clone()
    }

    fn description(&self) -> (r: Option<String>) {
        match &self.description {
            Some(d) => Some(d.clone()),
            None => None,
        }
    }

    fn input_type(&self) -> (r: InputType) {
        InputType::Flag
    }

    fn is_bool_flag(&self) -> (r: bool) {
        self.bool_flag
    }

    fn complete(&mut self, value: &str) -> (r: CliResult<Vec<String>>) {
        ask_completor(&mut self.completor, value)
    }
}

} // verus!
