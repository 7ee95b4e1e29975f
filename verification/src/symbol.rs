//! The closed set of inputs a command can own.

use vstd::prelude::*;
use crate::arg::Arg;
use crate::cli_error::CliResult;
use crate::flag::Flag;
use crate::input::{datum_of, Input, InputType, Slot};
use crate::value::Value;

verus! {

/// An input of a command: a flag or an argument.
pub enum Symbol<'a> {
    Flag(Flag<'a>),
    Arg(Arg<'a>),
}

impl<'a> Symbol<'a> {
    /// The value a handler reads from this input: the one a token gave, else
    /// the default; `None` for an argument that has neither.
    pub fn get(&self) -> (r: Option<Value>)
        ensures
            datum_of(r) == self.slot().reading(),
    {
        match self {
            Symbol::Flag(f) => Some(f.get()),
            Symbol::Arg(a) => a.try_get(),
        }
    }
}

impl<'a> From<Flag<'a>> for Symbol<'a> {
    fn from(flag: Flag<'a>) -> (r: Symbol<'a>) {
        Symbol::Flag(flag)
    }
}

impl<'a> vstd::std_specs::convert::FromSpecImpl<Flag<'a>> for Symbol<'a> {
    open spec fn obeys_from_spec() -> bool {
        true
    }

    open spec fn from_spec(flag: Flag<'a>) -> Symbol<'a> {
        Symbol::Flag(flag)
    }
}

impl<'a> From<Arg<'a>> for Symbol<'a> {
    fn from(arg: Arg<'a>) -> (r: Symbol<'a>) {
        Symbol::Arg(arg)
    }
}

impl<'a> vstd::std_specs::convert::FromSpecImpl<Arg<'a>> for Symbol<'a> {
    open spec fn obeys_from_spec() -> bool {
        true
    }

    open spec fn from_spec(arg: Arg<'a>) -> Symbol<'a> {
        Symbol::Arg(arg)
    }
}

impl<'a> Input for Symbol<'a> {
    open spec fn slot(&self) -> Slot {
        match self {
            Symbol::Flag(f) => f.slot(),
            Symbol::Arg(a) => a.slot(),
        }
    }

    fn parsed(&self) -> (r: bool) {
        match self {
            Symbol::Flag(f) => f.parsed(),
            Symbol::Arg(a) => a.parsed(),
        }
    }

    fn has_default(&self) -> (r: bool) {
        match self {
            Symbol::Flag(f) => f.has_default(),
            Symbol::Arg(a) => a.has_default(),
        }
    }

    fn parse(&mut self, token: &str) -> (r: CliResult<bool>) {
        match self {
            Symbol::Flag(f) => f.parse(token),
            Symbol::Arg(a) => a.parse(token),
        }
    }

    fn display_name(&self) -> (r: String) {
        match self {
            Symbol::Flag(f) => f.display_name(),
            Symbol::Arg(a) => a.display_name(),
        }
    }

    fn description(&self) -> (r: Option<String>) {
        match self {
            Symbol::Flag(f) => Input::description(f),
            Symbol::Arg(a) => Input::description(a),
        }
    }

    fn input_type(&self) -> (r: InputType) {
        match self {
            Symbol::Flag(f) => f.input_type(),
            Symbol::Arg(a) => a.input_type(),
        }
    }

    fn is_bool_flag(&self) -> (r: bool) {
        match self {
            Symbol::Flag(f) => f.is_bool_flag(),
            Symbol::Arg(a) => a.is_bool_flag(),
        }
    }

    fn complete(&mut self, value: &str) -> (r: CliResult<Vec<String>>) {
        match self {
            Symbol::Flag(f) => f.complete(value),
            Symbol::Arg(a) => a.complete(value),
        }
    }
}

} // verus!
