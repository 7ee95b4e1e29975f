//! The contract of one named unit that consumes at most one token.

use vstd::prelude::*;
use crate::cli_error::{CliError, CliResult, ErrorKind, Failure};
use crate::text::has_prefix;
use crate::value::{belongs, convert, lemma_convert_belongs, Datum, Domain, Value};

verus! {

/// The two kinds of input.
#[derive(Debug, Clone, Copy, PartialEq, Eq, Structural)]
pub enum InputType {
    /// Found by its name, wherever it stands on the line.
    Flag,
    /// Found by its position among the other arguments.
    Arg,
}

impl InputType {
    /// The name of the kind, as shown to users.
    pub fn label(&self) -> (r: String)
        ensures
            r@ == (match self {
                InputType::Flag => "Flag"@,
                InputType::Arg => "Arg"@,
            }),
    {
        match self {
            InputType::Flag => String::from_str("Flag"),
            InputType::Arg => String::from_str("Arg"),
        }
    }
}

/// A source of completion candidates for the value of one input.
///
/// Nothing is asked of an implementation: [`Input::complete`] keeps only the
/// candidates that begin with the text typed so far.
pub trait Completor {
    fn suggest(&mut self, partial: &str) -> CliResult<Vec<String>>;
}

/// The state of an input, without its completor.
pub struct Slot {
    pub name: Seq<char>,
    pub description: Option<Seq<char>>,
    pub kind: InputType,
    /// Whether the bare name, and the short alias, set the value to `true`.
    pub bool_flag: bool,
    pub domain: Domain,
    /// The value that a token gave, once one did.
    pub value: Option<Datum>,
    /// The value to use when no token gave one.
    pub default_value: Option<Datum>,
    pub has_completor: bool,
}

impl Slot {
    /// Whether a token has given a value.
    pub open spec fn parsed(self) -> bool {
        self.value is Some
    }

    /// Whether there is a value even if no token gives one.
    pub open spec fn has_default(self) -> bool {
        self.default_value is Some
    }

    /// This slot after it has taken the value `d`.
    pub open spec fn filled(self, d: Datum) -> Slot {
        Slot { value: Some(d), ..self }
    }

    /// Whether this is an argument that the line must supply.
    pub open spec fn required(self) -> bool {
        self.kind == InputType::Arg && !self.has_default()
    }

    /// Whether the values are of the slot's kind, and only a flag of the
    /// boolean kind is a boolean flag.
    pub open spec fn wf(self) -> bool {
        &&& self.bool_flag ==> self.kind == InputType::Flag && self.domain == Domain::Bool
        &&& self.value matches Some(d) ==> belongs(self.domain, d)
        &&& self.kind == InputType::Arg ==> (self.default_value matches Some(d) ==> belongs(
            self.domain,
            d,
        ))
    }

    /// The value a handler reads: the one a token gave, else the default.
    pub open spec fn reading(self) -> Option<Datum> {
        if self.value is Some {
            self.value
        } else {
            self.default_value
        }
    }
}

/// What an input makes of a token that is offered to it.
pub enum Claim {
    /// The token is this input's and converts to the value.
    Taken(Datum),
    /// The token is none of this input's concern.
    NotMine,
    /// The token is shaped for this input, or must not appear here, and is refused.
    Refused(Failure),
}

/// The text `--name`.
pub open spec fn long_form(name: Seq<char>) -> Seq<char> {
    "--"@ + name
}

/// The text `--name=`.
pub open spec fn long_form_eq(name: Seq<char>) -> Seq<char> {
    "--"@ + name + "="@
}

/// Whether `token` is the one-letter alias of a flag called `name`: a dash and
/// the first character of the name, in either case.
pub open spec fn is_short_alias(name: Seq<char>, token: Seq<char>) -> bool {
    &&& token.len() == 2
    &&& token[0] == '-'
    &&& name.len() > 0
    &&& crate::text::same_letter(token[1], name[0])
}

/// The message of a flag whose value text does not convert.
pub open spec fn flag_conversion_msg(name: Seq<char>, text: Seq<char>) -> Seq<char> {
    text + " cannot be parsed for "@ + name
}

/// The message of an argument whose token does not convert.
pub open spec fn arg_conversion_msg(name: Seq<char>, token: Seq<char>) -> Seq<char> {
    token + " cannot be parsed for "@ + name + "."@
}

/// The message of an argument that is offered a token shaped like a flag.
pub open spec fn arg_flag_msg(name: Seq<char>, token: Seq<char>) -> Seq<char> {
    "unexpected flag \""@ + token + "\" found while looking for argument \""@ + name + "\""@
}

/// What a flag makes of `token`.
///
/// `--name=text` is the flag's whatever its type, and `text` must convert.
/// `--name` alone and the short alias belong to boolean flags only and stand
/// for `true`. Any other token is not the flag's. The full name is tried
/// before the alias.
pub open spec fn flag_claim(s: Slot, token: Seq<char>) -> Claim {
    if long_form_eq(s.name).is_prefix_of(token) {
        let text = token.skip(long_form_eq(s.name).len() as int);
        match convert(s.domain, text) {
            Some(d) => Claim::Taken(d),
            None => Claim::Refused(
                Failure {
                    kind: ErrorKind::ValueConversionFailure,
                    msg: flag_conversion_msg(s.name, text),
                },
            ),
        }
    } else if s.bool_flag && (token == long_form(s.name) || is_short_alias(s.name, token)) {
        Claim::Taken(Datum::Bool(true))
    } else {
        Claim::NotMine
    }
}

/// What an argument makes of `token`.
///
/// An argument never answers "not mine": a token that begins with two dashes
/// is refused, any other must convert.
pub open spec fn arg_claim(s: Slot, token: Seq<char>) -> Claim {
    if "--"@.is_prefix_of(token) {
        Claim::Refused(
            Failure { kind: ErrorKind::UnexpectedFlagLikeToken, msg: arg_flag_msg(s.name, token) },
        )
    } else {
        match convert(s.domain, token) {
            Some(d) => Claim::Taken(d),
            None => Claim::Refused(
                Failure {
                    kind: ErrorKind::ValueConversionFailure,
                    msg: arg_conversion_msg(s.name, token),
                },
            ),
        }
    }
}

/// What an input makes of `token`.
pub open spec fn claim(s: Slot, token: Seq<char>) -> Claim {
    match s.kind {
        InputType::Flag => flag_claim(s, token),
        InputType::Arg => arg_claim(s, token),
    }
}

/// Whether `r` and the state `after` are what offering `token` to an input in
/// the state `before` must give.
pub open spec fn parse_outcome(before: Slot, token: Seq<char>, after: Slot, r: CliResult<bool>) -> bool {
    match claim(before, token) {
        Claim::Taken(d) => r == Ok::<bool, CliError>(true) && after == before.filled(d),
        Claim::NotMine => r == Ok::<bool, CliError>(false) && after == before,
        Claim::Refused(f) => r is Err && r->Err_0@ == f && r->Err_0.wf() && after == before,
    }
}

/// Offering a token to an input leaves its name, its kind and its default as
/// they are, and leaves a well-formed input well-formed.
pub proof fn lemma_claim_keeps(s: Slot, token: Seq<char>)
    ensures
        claim(s, token) matches Claim::Taken(d) ==> {
            &&& s.filled(d).name == s.name
            &&& s.filled(d).kind == s.kind
            &&& s.filled(d).parsed()
            &&& s.wf() ==> s.filled(d).wf()
        },
{
    match s.kind {
        InputType::Flag => {
            let text = token.skip(long_form_eq(s.name).len() as int);
            lemma_convert_belongs(s.domain, text);
        },
        InputType::Arg => {
            lemma_convert_belongs(s.domain, token);
        },
    }
}

/// The candidates of `list` that begin with `partial`, in their order.
pub open spec fn with_prefix(list: Seq<Seq<char>>, partial: Seq<char>) -> Seq<Seq<char>>
    decreases list.len(),
{
    if list.len() == 0 {
        Seq::empty()
    } else if partial.is_prefix_of(list.last()) {
        with_prefix(list.drop_last(), partial).push(list.last())
    } else {
        with_prefix(list.drop_last(), partial)
    }
}

/// Every candidate that [`with_prefix`] keeps begins with the partial text.
pub proof fn lemma_with_prefix(list: Seq<Seq<char>>, partial: Seq<char>)
    ensures
        forall|i: int|
            0 <= i < with_prefix(list, partial).len() ==> partial.is_prefix_of(
                #[trigger] with_prefix(list, partial)[i],
            ),
    decreases list.len(),
{
    if list.len() > 0 {
        lemma_with_prefix(list.drop_last(), partial);
        let kept = with_prefix(list, partial);
        let before = with_prefix(list.drop_last(), partial);
    }
}

/// Keeps the candidates that begin with `partial`.
pub fn keep_with_prefix(list: &Vec<String>, partial: &str) -> (r: Vec<String>)
    ensures
        r.deep_view() == with_prefix(list.deep_view(), partial@),
{
    let mut out: Vec<String> = Vec::new();
    let mut i: usize = 0;
    while i < list.len()
        invariant
            i <= list.len(),
            out.deep_view() == with_prefix(list.deep_view().take(i as int), partial@),
        decreases list.len() - i,
    {
        let ghost all = list.deep_view();
        assert(all.take(i + 1).drop_last() =~= all.take(i as int));
        if has_prefix(list[i].as_str(), partial) {
            out.push(list[i].clone());
        }
        i = i + 1;
    }
    assert(list.deep_view().take(i as int) =~= list.deep_view());
    out
}

/// One named unit that consumes at most one token of the command line.
pub trait Input: Sized {
    /// The state of this input.
    spec fn slot(&self) -> Slot;

    /// Whether a token has given this input its value.
    fn parsed(&self) -> (r: bool)
        ensures
            r == self.slot().parsed(),
    ;

    /// Whether this input has a value even if no token gives it one.
    fn has_default(&self) -> (r: bool)
        ensures
            r == self.slot().has_default(),
    ;

    /// Offers `token` to this input.
    ///
    /// `Ok(true)`: the input took it. `Ok(false)`: it is not this input's
    /// concern, and the caller may offer it elsewhere. `Err`: it is refused.
    fn parse(&mut self, token: &str) -> (r: CliResult<bool>)
        ensures
            parse_outcome(old(self).slot(), token@, final(self).slot(), r),
    ;

    fn display_name(&self) -> (r: String)
        ensures
            r@ == self.slot().name,
    ;

    fn description(&self) -> (r: Option<String>)
        ensures
            text_of(r) == self.slot().description,
    ;

    fn input_type(&self) -> (r: InputType)
        ensures
            r == self.slot().kind,
    ;

    fn is_bool_flag(&self) -> (r: bool)
        ensures
            r == self.slot().bool_flag,
    ;

    /// The candidates for this input's value that begin with `value`.
    ///
    /// Without a completor there are none. What the completor fails with is
    /// passed on.
    fn complete(&mut self, value: &str) -> (r: CliResult<Vec<String>>)
        ensures
            final(self).slot() == old(self).slot(),
            !old(self).slot().has_completor ==> r is Ok && r->Ok_0@.len() == 0,
            r is Ok ==> forall|i: int|
                0 <= i < r->Ok_0@.len() ==> value@.is_prefix_of(#[trigger] r->Ok_0@[i]@),
    ;
}

/// The view of an optional text.
pub open spec fn text_of(o: Option<String>) -> Option<Seq<char>> {
    match o {
        Some(s) => Some(s@),
        None => None,
    }
}

/// The view of an optional value.
pub open spec fn datum_of(o: Option<Value>) -> Option<Datum> {
    match o {
        Some(v) => Some(v@),
        None => None,
    }
}

/// Asks `completor` for candidates and keeps those that begin with `partial`.
pub fn ask_completor<'a>(completor: &mut Option<Box<dyn Completor + 'a>>, partial: &str) -> (r:
    CliResult<Vec<String>>)
    ensures
        (*old(completor) is Some) == (*final(completor) is Some),
        *old(completor) is None ==> r is Ok && r->Ok_0@.len() == 0,
        r is Ok ==> forall|i: int|
            0 <= i < r->Ok_0@.len() ==> partial@.is_prefix_of(#[trigger] r->Ok_0@[i]@),
{
    match completor {
        Some(c) => {
            match c.suggest(partial) {
                Ok(list) => {
                    let kept = keep_with_prefix(&list, partial);
                    proof {
                        lemma_with_prefix(list.deep_view(), partial@);
                        assert forall|i: int| 0 <= i < kept@.len() implies partial@.is_prefix_of(
                            #[trigger] kept@[i]@,
                        ) by {
                            assert(kept.deep_view()[i] == kept@[i]@);
                        }
                    }
                    Ok(kept)
                },
                Err(e) => Err(e),
            }
        },
        None => Ok(Vec::new()),
    }
}

} // verus!
