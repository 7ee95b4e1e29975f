//! Arguments: inputs found by their position on the line.

use vstd::prelude::*;
use crate::cli_error::{CliError, CliResult, ErrorKind};
use crate::input::{ask_completor, datum_of, text_of, Completor, Input, InputType, Slot};
use crate::text::{has_prefix, join3};
use crate::value::{Domain, Value, ValueKind};

verus! {

/// A positional argument. It takes the first token that no flag is offered
/// and that no earlier argument took.
pub struct Arg<'a> {
    pub name: String,
    pub description: Option<String>,
    pub value: Option<Value>,
    pub kind: ValueKind,
    pub completor: Option<Box<dyn Completor + 'a>>,
    pub default_value: Option<Value>,
}

impl<'a> Arg<'a> {
    /// An argument of the given kind, without default, description or completor.
    pub fn name(name: &str, kind: ValueKind) -> (r: Self)
        ensures
            r.slot() == (Slot {
                name: name@,
                description: None,
                kind: InputType::Arg,
                bool_flag: false,
                domain: kind@,
                value: None,
                default_value: None,
                has_completor: false,
            }),
    {
        Arg {
            name: String::from_str(name),
            description: None,
            value: None,
            kind,
            completor: None,
            default_value: None,
        }
    }

    /// Sets the value to use when the line gives none; the argument is then optional.
    pub fn default(self, default: Value) -> (r: Self)
        ensures
            r.slot() == (Slot { default_value: Some(default@), ..self.slot() }),
    {
        let mut arg = self;
        arg.default_value = Some(default);
        arg
    }

    /// Sets the text shown for this argument in help.
    pub fn description(self, description: &str) -> (r: Self)
        ensures
            r.slot() == (Slot { description: Some(description@), ..self.slot() }),
    {
        let mut arg = self;
        arg.description = Some(String::from_str(description));
        arg
    }

    /// The value of the argument: the one a token gave, else the default.
    pub fn get(&self) -> (r: Value)
        requires
            self.slot().parsed() || self.slot().has_default(),
        ensures
            Some(r@) == self.slot().reading(),
    {
        match &self.value {
            Some(v) => v.duplicate(),
            None => self.default_value.as_ref().unwrap().duplicate(),
        }
    }

    /// The value of the argument, if a token gave one or there is a default.
    pub fn try_get(&self) -> (r: Option<Value>)
        ensures
            datum_of(r) == self.slot().reading(),
    {
        if self.value.is_some() || self.default_value.is_some() {
            Some(self.get())
        } else {
            None
        }
    }

    /// Sets the source of completion candidates for the argument.
    pub fn completor<C: Completor + 'a>(self, completor: C) -> (r: Self)
        ensures
            r.slot() == (Slot { has_completor: true, ..self.slot() }),
    {
        let mut arg = self;
        arg.completor = Some(Box::new(completor));
        arg
    }

    /// An argument that takes any text.
    pub fn str(name: &str) -> (r: Self)
        ensures
            r.slot() == (Slot {
                name: name@,
                description: None,
                kind: InputType::Arg,
                bool_flag: false,
                domain: Domain::Str,
                value: None,
                default_value: None,
                has_completor: false,
            }),
    {
        Self::name(name, ValueKind::Str)
    }

    /// An argument that takes a decimal number of 32 signed bits.
    pub fn i32(name: &str) -> (r: Self)
        ensures
            r.slot() == (Slot {
                name: name@,
                description: None,
                kind: InputType::Arg,
                bool_flag: false,
                domain: Domain::Int,
                value: None,
                default_value: None,
                has_completor: false,
            }),
    {
        Self::name(name, ValueKind::Int)
    }
}

impl<'a> Input for Arg<'a> {
    open spec fn slot(&self) -> Slot {
        Slot {
            name: self.name@,
            description: text_of(self.description),
            kind: InputType::Arg,
            bool_flag: false,
            domain: self.kind@,
            value: datum_of(self.value),
            default_value: datum_of(self.default_value),
            has_completor: self.completor is Some,
        }
    }

    fn parsed(&self) -> (r: bool) {
        self.value.is_some()
    }

    fn has_default(&self) -> (r: bool) {
        self.default_value.is_some()
    }

    fn parse(&mut self, token: &str) -> (r: CliResult<bool>) {
        let name = self.name.as_str();
        if has_prefix(token, "--") {
            let head = join3("unexpected flag \"", token, "\" found while looking for argument \"");
            return Err(
                CliError::new(ErrorKind::UnexpectedFlagLikeToken, join3(head.as_str(), name, "\"")),
            );
        }
        match self.kind.convert(token) {
            Some(v) => {
                self.value = Some(v);
                Ok(true)
            },
            None => {
                let head = join3(token, " cannot be parsed for ", name);
                Err(
                    CliError::new(
                        ErrorKind::ValueConversionFailure,
                        crate::text::join2(head.as_str(), "."),
                    ),
                )
            },
        }
    }

    fn display_name(&self) -> (r: String) {
        self.name.clone()
    }

    fn description(&self) -> (r: Option<String>) {
        match &self.description {
            Some(d) => Some(d.clone()),
            None => None,
        }
    }

    fn input_type(&self) -> (r: InputType) {
        InputType::Arg
    }

    fn is_bool_flag(&self) -> (r: bool) {
        false
    }

    fn complete(&mut self, value: &str) -> (r: CliResult<Vec<String>>) {
        ask_completor(&mut self.completor, value)
    }
}

} // verus!
