//! Running a token stream against a command tree.
//!
//! Tokens are consumed left to right in a single pass. Wherever several
//! candidates could take a token, the one declared first does.

use vstd::prelude::*;
use vstd::slice::slice_subrange;
use crate::cli_error::{CliError, CliResult, ErrorKind, Failure};
use crate::command::{Command, CompletionMode, DocInfo};
use crate::symbol::Symbol;
use crate::help::is_help_of;
use crate::input::{arg_claim, flag_claim, Claim, Input, InputType, Slot};
use crate::text::{dash_led, join2, starts_with_dash, str_eq};
use crate::value::Datum;

verus! {

/// The states of the inputs after some tokens, and why consumption stopped, if it did.
pub struct Step {
    pub slots: Seq<Slot>,
    pub failure: Option<Failure>,
}

/// The message for a dash-led token that no flag claimed.
pub open spec fn unexpected_flag_msg(token: Seq<char>) -> Seq<char> {
    "Unexpected flag-like token found "@ + token
}

/// The message for a token that no argument was left to take.
pub open spec fn unexpected_token_msg(token: Seq<char>) -> Seq<char> {
    "Unexpected token found "@ + token
}

/// The message for an argument that the line had to supply and did not.
pub open spec fn missing_msg(name: Seq<char>) -> Seq<char> {
    "Missing required argument: "@ + name
}

/// The message for a first token that names no subcommand.
pub open spec fn no_subcommand_msg(token: Seq<char>) -> Seq<char> {
    token + " is not a valid subcommand"@
}

/// The message for a command that was selected and has no handler.
pub open spec fn no_handler_msg(path: Seq<char>) -> Seq<char> {
    "No handler hooked up to "@ + path
}

/// A dash-led token is offered to the flags that have no value yet, from
/// position `from` on in the order of their declaration, until one takes it
/// or refuses it. If none does, the token is unexpected.
pub open spec fn offer_to_flags(slots: Seq<Slot>, token: Seq<char>, from: int) -> Step
    decreases slots.len() - from,
{
    if from < 0 || from >= slots.len() {
        Step {
            slots,
            failure: Some(
                Failure {
                    kind: ErrorKind::UnexpectedFlagLikeToken,
                    msg: unexpected_flag_msg(token),
                },
            ),
        }
    } else if slots[from].kind == InputType::Flag && !slots[from].parsed() {
        match flag_claim(slots[from], token) {
            Claim::Taken(d) => Step { slots: slots.update(from, slots[from].filled(d)), failure: None },
            Claim::NotMine => offer_to_flags(slots, token, from + 1),
            Claim::Refused(f) => Step { slots, failure: Some(f) },
        }
    } else {
        offer_to_flags(slots, token, from + 1)
    }
}

/// Any other token goes to the first argument, from position `from` on, that
/// has no value yet. If there is none, the token is unexpected.
pub open spec fn offer_to_args(slots: Seq<Slot>, token: Seq<char>, from: int) -> Step
    decreases slots.len() - from,
{
    if from < 0 || from >= slots.len() {
        Step {
            slots,
            failure: Some(
                Failure { kind: ErrorKind::UnexpectedToken, msg: unexpected_token_msg(token) },
            ),
        }
    } else if slots[from].kind == InputType::Arg && !slots[from].parsed() {
        match arg_claim(slots[from], token) {
            Claim::Taken(d) => Step { slots: slots.update(from, slots[from].filled(d)), failure: None },
            Claim::NotMine => Step { slots, failure: None },
            Claim::Refused(f) => Step { slots, failure: Some(f) },
        }
    } else {
        offer_to_args(slots, token, from + 1)
    }
}

/// What one token does to the inputs.
pub open spec fn offer(slots: Seq<Slot>, token: Seq<char>) -> Step {
    if dash_led(token) {
        offer_to_flags(slots, token, 0)
    } else {
        offer_to_args(slots, token, 0)
    }
}

/// What the tokens from position `from` on do to the inputs, left to right.
/// Consumption stops at the first token that fails.
pub open spec fn consume(slots: Seq<Slot>, tokens: Seq<Seq<char>>, from: int) -> Step
    decreases tokens.len() - from,
{
    if from < 0 || from >= tokens.len() {
        Step { slots, failure: None }
    } else {
        let step = offer(slots, tokens[from]);
        if step.failure is Some {
            step
        } else {
            consume(step.slots, tokens, from + 1)
        }
    }
}

/// The position of the first argument, from `from` on, that the line had to
/// supply and did not.
pub open spec fn first_missing(slots: Seq<Slot>, from: int) -> Option<int>
    decreases slots.len() - from,
{
    if from < 0 || from >= slots.len() {
        None
    } else if slots[from].required() && !slots[from].parsed() {
        Some(from)
    } else {
        first_missing(slots, from + 1)
    }
}

/// The position of the first subcommand, from `from` on, whose name is `token`.
pub open spec fn find_child(names: Seq<Seq<char>>, token: Seq<char>, from: int) -> Option<int>
    decreases names.len() - from,
{
    if from < 0 || from >= names.len() {
        None
    } else if names[from] == token {
        Some(from)
    } else {
        find_child(names, token, from + 1)
    }
}

/// Whether everything but the inputs is the same in `post` as in `pre`, apart
/// from what a handler keeps to itself.
pub open spec fn same_frame(pre: Command, post: Command) -> bool {
    &&& post.docs == pre.docs
    &&& post.subcommands == pre.subcommands
    &&& post.script_for == pre.script_for
    &&& (post.handler is Some) == (pre.handler is Some)
    &&& post.symbols@.len() == pre.symbols@.len()
}

impl<'a> Command<'a> {
    /// Offers a dash-led token to the flags.
    pub fn offer_flags(&mut self, token: &str) -> (r: CliResult<()>)
        ensures
            same_frame(*old(self), *final(self)),
            final(self).handler == old(self).handler,
            final(self).slots() == offer_to_flags(old(self).slots(), token@, 0).slots,
            crate::cli_error::failure_of(r) == offer_to_flags(old(self).slots(), token@, 0).failure,
            r is Err ==> r->Err_0.wf(),
    {
        let mut i: usize = 0;
        while i < self.symbols.len()
            invariant
                i <= self.symbols.len(),
                same_frame(*old(self), *self),
                self.handler == old(self).handler,
                self.slots() == old(self).slots(),
                offer_to_flags(old(self).slots(), token@, 0) == offer_to_flags(
                    old(self).slots(),
                    token@,
                    i as int,
                ),
            decreases self.symbols.len() - i,
        {
            if self.symbols[i].input_type() == InputType::Flag && !self.symbols[i].parsed() {
                let taken = self.symbols[i].parse(token)?;
                if taken {
                    return Ok(());
                }
            }
            i = i + 1;
        }
        Err(
            CliError::new(
                ErrorKind::UnexpectedFlagLikeToken,
                join2("Unexpected flag-like token found ", token),
            ),
        )
    }
}

impl<'a> Command<'a> {
    /// Gives a token that is not dash-led to the first argument without a value.
    pub fn offer_args(&mut self, token: &str) -> (r: CliResult<()>)
        ensures
            same_frame(*old(self), *final(self)),
            final(self).handler == old(self).handler,
            final(self).slots() == offer_to_args(old(self).slots(), token@, 0).slots,
            crate::cli_error::failure_of(r) == offer_to_args(old(self).slots(), token@, 0).failure,
            r is Err ==> r->Err_0.wf(),
    {
        let mut i: usize = 0;
        while i < self.symbols.len()
            invariant
                i <= self.symbols.len(),
                *self == *old(self),
                offer_to_args(old(self).slots(), token@, 0) == offer_to_args(
                    old(self).slots(),
                    token@,
                    i as int,
                ),
            decreases self.symbols.len() - i,
        {
            if self.symbols[i].input_type() == InputType::Arg && !self.symbols[i].parsed() {
                let taken = self.symbols[i].parse(token)?;
                return Ok(());
            }
            i = i + 1;
        }
        Err(CliError::new(ErrorKind::UnexpectedToken, join2("Unexpected token found ", token)))
    }

    /// Consumes the tokens, left to right, as inputs of this command.
    pub fn fill(&mut self, tokens: &[String]) -> (r: CliResult<()>)
        ensures
            same_frame(*old(self), *final(self)),
            final(self).handler == old(self).handler,
            final(self).slots() == consume(old(self).slots(), tokens.deep_view(), 0).slots,
            crate::cli_error::failure_of(r) == consume(
                old(self).slots(),
                tokens.deep_view(),
                0,
            ).failure,
            r is Err ==> r->Err_0.wf(),
    {
        let mut i: usize = 0;
        while i < tokens.len()
            invariant
                i <= tokens.len(),
                same_frame(*old(self), *self),
                self.handler == old(self).handler,
                consume(old(self).slots(), tokens.deep_view(), 0) == consume(
                    self.slots(),
                    tokens.deep_view(),
                    i as int,
                ),
            decreases tokens.len() - i,
        {
            let token = tokens[i].as_str();
            if starts_with_dash(token) {
                self.offer_flags(token)?;
            } else {
                self.offer_args(token)?;
            }
            i = i + 1;
        }
        Ok(())
    }

    /// Finds the first argument that the line had to supply and did not.
    pub fn missing_argument(&self) -> (r: Option<usize>)
        ensures
            match r {
                Some(i) => first_missing(self.slots(), 0) == Some(i as int) && i
                    < self.symbols@.len(),
                None => first_missing(self.slots(), 0) is None,
            },
    {
        let mut i: usize = 0;
        while i < self.symbols.len()
            invariant
                i <= self.symbols.len(),
                first_missing(self.slots(), 0) == first_missing(self.slots(), i as int),
            decreases self.symbols.len() - i,
        {
            let symbol = &self.symbols[i];
            if symbol.input_type() == InputType::Arg && !symbol.has_default() && !symbol.parsed() {
                return Some(i);
            }
            i = i + 1;
        }
        None
    }

    /// Finds the first subcommand whose name is `token`.
    pub fn child_named(&self, token: &str) -> (r: Option<usize>)
        ensures
            match r {
                Some(i) => find_child(self.child_names(), token@, 0) == Some(i as int) && i
                    < self.subcommands@.len(),
                None => find_child(self.child_names(), token@, 0) is None,
            },
    {
        let mut i: usize = 0;
        while i < self.subcommands.len()
            invariant
                i <= self.subcommands.len(),
                find_child(self.child_names(), token@, 0) == find_child(
                    self.child_names(),
                    token@,
                    i as int,
                ),
            decreases self.subcommands.len() - i,
        {
            if str_eq(self.subcommands[i].docs.name.as_str(), token) {
                return Some(i);
            }
            i = i + 1;
        }
        None
    }
}

impl<'a> Command<'a> {
    /// The identity of this command.
    pub fn docs(&self) -> (r: &DocInfo)
        ensures
            *r == self.docs,
    {
        &self.docs
    }

    /// The inputs of this command, in the order of their declaration.
    pub fn symbols(&mut self) -> (r: &mut Vec<Symbol<'a>>)
        ensures
            *r == old(self).symbols,
            final(self).symbols == *final(r),
            final(self).docs == old(self).docs,
            final(self).subcommands == old(self).subcommands,
            final(self).handler == old(self).handler,
            final(self).script_for == old(self).script_for,
    {
        &mut self.symbols
    }

    /// The identity of each subcommand, in the order of their declaration.
    pub fn subcommand_docs(&self) -> (r: Vec<DocInfo>)
        ensures
            r@.len() == self.subcommands@.len(),
            forall|i: int|
                0 <= i < r@.len() ==> {
                    &&& (#[trigger] r@[i]).name@ == self.subcommands@[i].docs.name@
                    &&& crate::input::text_of(r@[i].version) == crate::input::text_of(
                        self.subcommands@[i].docs.version,
                    )
                    &&& crate::input::text_of(r@[i].description) == crate::input::text_of(
                        self.subcommands@[i].docs.description,
                    )
                    &&& r@[i].parents.deep_view() == self.subcommands@[i].docs.parents.deep_view()
                },
    {
        let mut out: Vec<DocInfo> = Vec::new();
        let mut i: usize = 0;
        while i < self.subcommands.len()
            invariant
                i <= self.subcommands.len(),
                out@.len() == i,
                forall|j: int|
                    0 <= j < i ==> {
                        &&& (#[trigger] out@[j]).name@ == self.subcommands@[j].docs.name@
                        &&& crate::input::text_of(out@[j].version) == crate::input::text_of(
                            self.subcommands@[j].docs.version,
                        )
                        &&& crate::input::text_of(out@[j].description) == crate::input::text_of(
                            self.subcommands@[j].docs.description,
                        )
                        &&& out@[j].parents.deep_view()
                            == self.subcommands@[j].docs.parents.deep_view()
                    },
            decreases self.subcommands.len() - i,
        {
            out.push(self.subcommands[i].docs.duplicate());
            i = i + 1;
        }
        out
    }
}

/// What running a command line gave, where it did not fail.
#[derive(Debug, Clone, PartialEq, Eq)]
pub enum Reply {
    /// The handler of the selected command ran and succeeded.
    Done,
    /// Text for the standard output.
    Print(String),
}

/// The content of a [`Reply`].
pub enum Output {
    Done,
    Print(Seq<char>),
}

impl View for Reply {
    type V = Output;

    open spec fn view(&self) -> Output {
        match self {
            Reply::Done => Output::Done,
            Reply::Print(text) => Output::Print(text@),
        }
    }
}

/// The shell chosen by a position in the list `bash`, `zsh`, `fish`.
pub open spec fn shell_at(position: int) -> Option<CompletionMode> {
    if position == 0 {
        Some(CompletionMode::Bash)
    } else if position == 1 {
        Some(CompletionMode::Zsh)
    } else if position == 2 {
        Some(CompletionMode::Fish)
    } else {
        None
    }
}

/// The script, and the end of its last line, that a command with the given
/// inputs hands out, where it hands out scripts for `program` and its first
/// input chooses a shell.
pub open spec fn script_reply(slots: Seq<Slot>, program: Option<Seq<char>>) -> Option<Seq<char>> {
    if program is Some && slots.len() > 0 {
        match slots[0].reading() {
            Some(Datum::Choice(i)) => match shell_at(i) {
                Some(shell) => Some(crate::script::script_text(shell, program->0) + "\n"@),
                None => None,
            },
            _ => None,
        }
    } else {
        None
    }
}

/// Whether `r` is the failure of the given kind and message.
pub open spec fn fails(r: CliResult<Reply>, kind: ErrorKind, msg: Seq<char>) -> bool {
    r is Err && r->Err_0@ == (Failure { kind, msg }) && r->Err_0.wf()
}

/// Whether `r` is a failure of the given kind whose message is `lead` and
/// then the usage text of `cmd`.
pub open spec fn fails_with_help(r: CliResult<Reply>, kind: ErrorKind, lead: Seq<char>, cmd: Command) -> bool {
    &&& r is Err
    &&& r->Err_0.kind == kind
    &&& r->Err_0.wf()
    &&& exists|help: Seq<char>| #[trigger] is_help_of(cmd, help) && r->Err_0.msg@ == lead + help
}

/// What the tokens do to a command that is run as a leaf: the tokens fill the
/// inputs; then every argument without a default must have a value; then the
/// command acts. Where the handler runs, `r` is what it returned.
pub open spec fn leaf_outcome(pre: Command, tokens: Seq<Seq<char>>, post: Command, r: CliResult<Reply>) -> bool {
    let step = consume(pre.slots(), tokens, 0);
    &&& same_frame(pre, post)
    &&& post.slots() == step.slots
    &&& match step.failure {
        Some(f) => post.handler == pre.handler && fails(r, f.kind, f.msg),
        None => match first_missing(step.slots, 0) {
            Some(i) => post.handler == pre.handler && fails(
                r,
                ErrorKind::MissingRequiredArgument,
                missing_msg(step.slots[i].name),
            ),
            None => match script_reply(step.slots, crate::input::text_of(pre.script_for)) {
                Some(text) => post.handler == pre.handler && r is Ok && r->Ok_0@ == Output::Print(
                    text,
                ),
                None => if pre.handler is None {
                    fails(r, ErrorKind::NoHandlerBound, no_handler_msg(pre.docs.path()))
                } else {
                    r is Ok ==> r->Ok_0@ == Output::Done
                },
            },
        },
    }
}

/// Whether `post` is `pre` but for the subcommand at `index`.
pub open spec fn only_child_changed(pre: Command, post: Command, index: int) -> bool {
    &&& post.docs == pre.docs
    &&& post.symbols == pre.symbols
    &&& post.handler == pre.handler
    &&& post.script_for == pre.script_for
    &&& post.subcommands@.len() == pre.subcommands@.len()
    &&& forall|j: int|
        0 <= j < pre.subcommands@.len() && j != index ==> post.subcommands@[j]
            == pre.subcommands@[j]
}

/// What running `tokens` against `pre` gives: the result `r` and the tree `post`.
///
/// 1. Without tokens, a command with subcommands, or with an argument that has
///    no default, fails with its usage text.
/// 2. `--help` as first token stops with the usage text; `--version` stops
///    with the version where the command has one.
/// 3. A command with subcommands hands the remaining tokens to the first
///    subcommand named by the first token, and fails if there is none.
/// 4. Any other command is run as a leaf.
pub open spec fn outcome(pre: Command, tokens: Seq<Seq<char>>, post: Command, r: CliResult<Reply>) -> bool
    decreases tokens.len(),
{
    if tokens.len() == 0 && pre.subcommands@.len() > 0 {
        post == pre && fails_with_help(r, ErrorKind::SubcommandNotFound, Seq::empty(), pre)
    } else if tokens.len() == 0 && first_missing(pre.slots(), 0) is Some {
        post == pre && fails_with_help(
            r,
            ErrorKind::MissingRequiredArgument,
            missing_msg(pre.slots()[first_missing(pre.slots(), 0)->0].name) + "\n\n"@,
            pre,
        )
    } else if tokens.len() > 0 && tokens[0] == "--help"@ {
        post == pre && fails_with_help(r, ErrorKind::HelpRequested, Seq::empty(), pre)
    } else if tokens.len() > 0 && tokens[0] == "--version"@ && pre.docs.version is Some {
        post == pre && fails(
            r,
            ErrorKind::HelpRequested,
            pre.docs.path() + " -- "@ + pre.docs.version->0@,
        )
    } else if pre.subcommands@.len() > 0 {
        match find_child(pre.child_names(), tokens[0], 0) {
            Some(i) => {
                &&& 0 <= i < pre.subcommands@.len()
                &&& only_child_changed(pre, post, i)
                &&& outcome(pre.subcommands@[i], tokens.skip(1), post.subcommands@[i], r)
            },
            None => post == pre && fails(
                r,
                ErrorKind::SubcommandNotFound,
                no_subcommand_msg(tokens[0]),
            ),
        }
    } else {
        leaf_outcome(pre, tokens, post, r)
    }
}

impl<'a> Command<'a> {
    /// The script this command hands out, if it hands out scripts and its
    /// first input chooses a shell.
    fn script(&self) -> (r: Option<String>)
        ensures
            crate::input::text_of(r) == script_reply(
                self.slots(),
                crate::input::text_of(self.script_for),
            ),
    {
        match &self.script_for {
            Some(program) => {
                if self.symbols.len() == 0 {
                    return None;
                }
                let shell = match self.symbols[0].get() {
                    Some(crate::value::Value::Choice(0)) => CompletionMode::Bash,
                    Some(crate::value::Value::Choice(1)) => CompletionMode::Zsh,
                    Some(crate::value::Value::Choice(2)) => CompletionMode::Fish,
                    _ => {
                        return None;
                    },
                };
                Some(join2(shell.script(program.as_str()).as_str(), "\n"))
            },
            None => None,
        }
    }

    /// Invokes the handler with the inputs in the order of their declaration,
    /// or fails where none is bound.
    pub fn call_handler(&mut self) -> (r: CliResult<()>)
        ensures
            same_frame(*old(self), *final(self)),
            final(self).symbols == old(self).symbols,
            old(self).handler is None ==> *final(self) == *old(self) && r is Err && r->Err_0@ == (
            Failure {
                kind: ErrorKind::NoHandlerBound,
                msg: no_handler_msg(old(self).docs.path()),
            }) && r->Err_0.wf(),
    {
        match &mut self.handler {
            Some(handler) => handler.call(&self.symbols),
            None => Err(
                CliError::new(
                    ErrorKind::NoHandlerBound,
                    join2("No handler hooked up to ", self.docs.cmd_path().as_str()),
                ),
            ),
        }
    }

    /// Runs this command as a leaf.
    fn run_leaf(&mut self, tokens: &[String]) -> (r: CliResult<Reply>)
        ensures
            leaf_outcome(*old(self), tokens.deep_view(), *final(self), r),
    {
        self.fill(tokens)?;
        if let Some(i) = self.missing_argument() {
            let name = self.symbols[i].display_name();
            return Err(
                CliError::new(
                    ErrorKind::MissingRequiredArgument,
                    join2("Missing required argument: ", name.as_str()),
                ),
            );
        }
        if let Some(text) = self.script() {
            return Ok(Reply::Print(text));
        }
        match self.call_handler() {
            Ok(_) => Ok(Reply::Done),
            Err(e) => Err(e),
        }
    }

    /// Runs the tokens against this command: resolves subcommands, fills the
    /// inputs of the selected command and invokes its handler.
    ///
    /// On success every argument of the selected command that has no default
    /// has a value.
    pub fn parse_args(&mut self, tokens: &[String]) -> (r: CliResult<Reply>)
        ensures
            outcome(*old(self), tokens.deep_view(), *final(self), r),
            r is Ok ==> forall|i: int|
                0 <= i < selected(*final(self), tokens.deep_view()).slots().len() && (
                #[trigger] selected(*final(self), tokens.deep_view()).slots()[i]).required()
                    ==> selected(*final(self), tokens.deep_view()).slots()[i].parsed(),
    {
        let r = self.run(tokens);
        proof {
            if r is Ok {
                lemma_success_fills_arguments(*old(self), tokens.deep_view(), *self, r);
            }
        }
        r
    }

    /// Runs the tokens against this command and, through the first token,
    /// against the commands below it.
    fn run(&mut self, tokens: &[String]) -> (r: CliResult<Reply>)
        ensures
            outcome(*old(self), tokens.deep_view(), *final(self), r),
        decreases tokens@.len(),
    {
        if tokens.len() == 0 {
            if self.subcommands.len() > 0 {
                let help = self.gen_help();
                let e = CliError::new(ErrorKind::SubcommandNotFound, help.msg);
                return Err(e);
            }
            if let Some(i) = self.missing_argument() {
                let help = self.gen_help();
                let name = self.symbols[i].display_name();
                let lead = crate::text::join3("Missing required argument: ", name.as_str(), "\n\n");
                let e = CliError::new(
                    ErrorKind::MissingRequiredArgument,
                    join2(lead.as_str(), help.msg.as_str()),
                );
                return Err(e);
            }
        } else {
            let token = tokens[0].as_str();
            if str_eq(token, "--help") {
                let help = self.gen_help();
                return Err(help);
            }
            if str_eq(token, "--version") {
                if let Some(version) = &self.docs.version {
                    let path = self.docs.cmd_path();
                    return Err(
                        CliError::new(
                            ErrorKind::HelpRequested,
                            crate::text::join3(path.as_str(), " -- ", version.as_str()),
                        ),
                    );
                }
            }
            if self.subcommands.len() > 0 {
                match self.child_named(token) {
                    Some(i) => {
                        let rest = slice_subrange(tokens, 1, tokens.len());
                        assert(rest.deep_view() =~= tokens.deep_view().skip(1));
                        return self.subcommands[i].run(rest);
                    },
                    None => {
                        return Err(
                            CliError::new(
                                ErrorKind::SubcommandNotFound,
                                join2(token, " is not a valid subcommand"),
                            ),
                        );
                    },
                }
            }
        }
        self.run_leaf(tokens)
    }
}

impl<'a> Command<'a> {
    /// Runs the tokens against the subcommand at `sub_idx`.
    pub fn parse_subcommand(&mut self, sub_idx: usize, tokens: &[String]) -> (r: CliResult<Reply>)
        requires
            sub_idx < old(self).subcommands@.len(),
        ensures
            only_child_changed(*old(self), *final(self), sub_idx as int),
            outcome(
                old(self).subcommands@[sub_idx as int],
                tokens.deep_view(),
                final(self).subcommands@[sub_idx as int],
                r,
            ),
    {
        self.subcommands[sub_idx].parse_args(tokens)
    }
}

/// The command that the tokens lead to: at each command with subcommands, the
/// first token names the next.
pub open spec fn selected(cmd: Command, tokens: Seq<Seq<char>>) -> Command
    decreases tokens.len(),
{
    if tokens.len() > 0 && cmd.subcommands@.len() > 0 {
        match find_child(cmd.child_names(), tokens[0], 0) {
            Some(i) => if 0 <= i < cmd.subcommands@.len() {
                selected(cmd.subcommands@[i], tokens.skip(1))
            } else {
                cmd
            },
            None => cmd,
        }
    } else {
        cmd
    }
}

/// Where no argument is reported missing, every argument without a default has a value.
pub proof fn lemma_none_missing(slots: Seq<Slot>, from: int)
    requires
        0 <= from,
        first_missing(slots, from) is None,
    ensures
        forall|i: int| from <= i < slots.len() && (#[trigger] slots[i]).required() ==> slots[i].parsed(),
    decreases slots.len() - from,
{
    if from < slots.len() {
        lemma_none_missing(slots, from + 1);
    }
}

/// Running a command line changes the name of no command.
pub proof fn lemma_names_kept(pre: Command, tokens: Seq<Seq<char>>, post: Command, r: CliResult<Reply>)
    requires
        outcome(pre, tokens, post, r),
    ensures
        post.docs == pre.docs,
        post.subcommands@.len() == pre.subcommands@.len(),
        post.child_names() == pre.child_names(),
    decreases tokens.len(),
{
    if tokens.len() > 0 && !(tokens[0] == "--help"@) && !(tokens[0] == "--version"@
        && pre.docs.version is Some) && pre.subcommands@.len() > 0 {
        match find_child(pre.child_names(), tokens[0], 0) {
            Some(i) => {
                lemma_names_kept(pre.subcommands@[i], tokens.skip(1), post.subcommands@[i], r);
            },
            None => {},
        }
    } else {
    }
}

/// Whenever running a command line succeeds, every argument of the selected
/// command that has no default has received a value.
pub proof fn lemma_success_fills_arguments(pre: Command, tokens: Seq<Seq<char>>, post: Command, r: CliResult<Reply>)
    requires
        outcome(pre, tokens, post, r),
        r is Ok,
    ensures
        forall|i: int|
            0 <= i < selected(post, tokens).slots().len() && (#[trigger] selected(
                post,
                tokens,
            ).slots()[i]).required() ==> selected(post, tokens).slots()[i].parsed(),
    decreases tokens.len(),
{
    lemma_names_kept(pre, tokens, post, r);
    if tokens.len() > 0 && pre.subcommands@.len() > 0 {
        match find_child(pre.child_names(), tokens[0], 0) {
            Some(i) => {
                lemma_success_fills_arguments(
                    pre.subcommands@[i],
                    tokens.skip(1),
                    post.subcommands@[i],
                    r,
                );
            },
            None => {},
        }
    } else {
        let step = consume(pre.slots(), tokens, 0);
        lemma_none_missing(step.slots, 0);
    }
}

/// Among the flags that have no value yet, the first one declared that does
/// not pass the token on decides what becomes of it: later flags are not asked.
pub proof fn lemma_first_claim_decides(slots: Seq<Slot>, token: Seq<char>, i: int, from: int)
    requires
        0 <= from <= i < slots.len(),
        slots[i].kind == InputType::Flag,
        !slots[i].parsed(),
        !(flag_claim(slots[i], token) is NotMine),
        forall|k: int|
            from <= k < i && (#[trigger] slots[k]).kind == InputType::Flag && !slots[k].parsed()
                ==> flag_claim(slots[k], token) is NotMine,
    ensures
        offer_to_flags(slots, token, from) == (match flag_claim(slots[i], token) {
            Claim::Taken(d) => Step { slots: slots.update(i, slots[i].filled(d)), failure: None },
            Claim::NotMine => Step { slots, failure: None },
            Claim::Refused(f) => Step { slots, failure: Some(f) },
        }),
    decreases i - from,
{
    if from < i {
        lemma_first_claim_decides(slots, token, i, from + 1);
    }
}

/// Where the short aliases of two boolean flags collide, the flag declared
/// first takes the alias and the other keeps its state.
pub proof fn lemma_first_alias_wins(slots: Seq<Slot>, token: Seq<char>, i: int, j: int)
    requires
        0 <= i < j < slots.len(),
        slots[i].kind == InputType::Flag && slots[i].bool_flag && !slots[i].parsed(),
        slots[j].kind == InputType::Flag && slots[j].bool_flag && !slots[j].parsed(),
        crate::input::is_short_alias(slots[i].name, token),
        crate::input::is_short_alias(slots[j].name, token),
        forall|k: int|
            0 <= k < i && (#[trigger] slots[k]).kind == InputType::Flag && !slots[k].parsed()
                ==> flag_claim(slots[k], token) is NotMine,
    ensures
        offer_to_flags(slots, token, 0).failure is None,
        offer_to_flags(slots, token, 0).slots == slots.update(
            i,
            slots[i].filled(Datum::Bool(true)),
        ),
        offer_to_flags(slots, token, 0).slots[j] == slots[j],
{
    reveal_strlit("--");
    reveal_strlit("=");
    lemma_first_claim_decides(slots, token, i, 0);
}

/// Whether `after` is `before` with some inputs that had no value filled:
/// an input that has a value keeps it, and nothing else of an input changes.
pub open spec fn advanced(before: Seq<Slot>, after: Seq<Slot>) -> bool {
    &&& after.len() == before.len()
    &&& forall|i: int|
        0 <= i < before.len() ==> (#[trigger] after[i]) == before[i] || (!before[i].parsed()
            && after[i].parsed() && after[i] == before[i].filled(after[i].value->0))
}

/// One token fills one input at most, and only an input that had no value.
pub proof fn lemma_offer_advances(slots: Seq<Slot>, token: Seq<char>, from: int)
    requires
        0 <= from,
    ensures
        advanced(slots, offer_to_flags(slots, token, from).slots),
        advanced(slots, offer_to_args(slots, token, from).slots),
        crate::command::all_wf(slots) ==> crate::command::all_wf(
            offer_to_flags(slots, token, from).slots,
        ) && crate::command::all_wf(offer_to_args(slots, token, from).slots),
    decreases slots.len() - from,
{
    if from < slots.len() {
        lemma_offer_advances(slots, token, from + 1);
        crate::input::lemma_claim_keeps(slots[from], token);
    }
}

/// A run of tokens gives each input a value at most once: an input that has
/// a value keeps it, and nothing else of an input changes.
pub proof fn lemma_consume_advances(slots: Seq<Slot>, tokens: Seq<Seq<char>>, from: int)
    requires
        0 <= from,
    ensures
        advanced(slots, consume(slots, tokens, from).slots),
        crate::command::all_wf(slots) ==> crate::command::all_wf(consume(slots, tokens, from).slots),
    decreases tokens.len() - from,
{
    if from < tokens.len() {
        lemma_offer_advances(slots, tokens[from], 0);
        let step = offer(slots, tokens[from]);
        if step.failure is None {
            lemma_consume_advances(step.slots, tokens, from + 1);
            let end = consume(step.slots, tokens, from + 1).slots;
        }
    }
}

/// Filling inputs gives no two inputs of one kind the same name.
pub proof fn lemma_advanced_unique(before: Seq<Slot>, after: Seq<Slot>)
    requires
        advanced(before, after),
        crate::command::unique_names(before),
    ensures
        crate::command::unique_names(after),
{
}

/// Running a command line leaves a well-formed tree well-formed.
pub proof fn lemma_outcome_well_formed(pre: Command, tokens: Seq<Seq<char>>, post: Command, r: CliResult<Reply>)
    requires
        outcome(pre, tokens, post, r),
        crate::command::well_formed(pre),
    ensures
        crate::command::well_formed(post),
    decreases tokens.len(),
{
    lemma_names_kept(pre, tokens, post, r);
    if tokens.len() > 0 && !(tokens[0] == "--help"@) && !(tokens[0] == "--version"@
        && pre.docs.version is Some) && pre.subcommands@.len() > 0 {
        match find_child(pre.child_names(), tokens[0], 0) {
            Some(i) => {
                lemma_outcome_well_formed(
                    pre.subcommands@[i],
                    tokens.skip(1),
                    post.subcommands@[i],
                    r,
                );
                lemma_names_kept(pre.subcommands@[i], tokens.skip(1), post.subcommands@[i], r);
            },
            None => {},
        }
    } else if tokens.len() == 0 && (pre.subcommands@.len() > 0 || first_missing(pre.slots(), 0) is Some) {
    } else if tokens.len() > 0 && (tokens[0] == "--help"@ || (tokens[0] == "--version"@
        && pre.docs.version is Some)) {
    } else {
        lemma_consume_advances(pre.slots(), tokens, 0);
        lemma_advanced_unique(pre.slots(), post.slots());
    }
}

} // verus!
