//! Suggesting how a partially typed command line can go on.
//!
//! The last token is the one being typed. Subcommands are resolved as they
//! are when a line is run.

use vstd::prelude::*;
use vstd::slice::slice_subrange;
use crate::cli_error::{CliError, CliResult, ErrorKind, Failure};
use crate::command::Command;
use crate::input::{text_of, Input, InputType, Slot};
use crate::parser::{find_child, no_subcommand_msg};
use crate::text::{dash_led, find_char, has_prefix, head, join2, join3, position, starts_with_dash, str_eq, tail};

verus! {

/// A completion candidate.
#[derive(Debug, Clone, PartialEq, Eq)]
pub struct CompOut {
    pub name: String,
    pub desc: Option<String>,
}

/// The content of a [`CompOut`].
pub struct Candidate {
    pub name: Seq<char>,
    pub desc: Option<Seq<char>>,
}

impl View for CompOut {
    type V = Candidate;

    open spec fn view(&self) -> Candidate {
        Candidate { name: self.name@, desc: text_of(self.desc) }
    }
}

impl DeepView for CompOut {
    type V = Candidate;

    open spec fn deep_view(&self) -> Candidate {
        self@
    }
}

/// `token` without its leading dash, or its two leading dashes.
pub open spec fn strip_dashes(token: Seq<char>) -> Seq<char> {
    if "--"@.is_prefix_of(token) {
        token.skip(2)
    } else if dash_led(token) {
        token.skip(1)
    } else {
        token
    }
}

/// The token as candidates spell it: a dash-led token with two dashes.
pub open spec fn normalized(token: Seq<char>) -> Seq<char> {
    if dash_led(token) {
        "--"@ + strip_dashes(token)
    } else {
        token
    }
}

/// How many of the first `n` tokens are not dash-led.
pub open spec fn positional_before(tokens: Seq<Seq<char>>, n: int) -> int
    decreases n,
{
    if n <= 0 || n > tokens.len() {
        0
    } else if dash_led(tokens[n - 1]) {
        positional_before(tokens, n - 1)
    } else {
        positional_before(tokens, n - 1) + 1
    }
}

/// The position of the argument that has `k` arguments before it, counting
/// from position `from`.
pub open spec fn nth_arg(slots: Seq<Slot>, k: int, from: int) -> Option<int>
    decreases slots.len() - from,
{
    if from < 0 || from >= slots.len() {
        None
    } else if slots[from].kind == InputType::Arg {
        if k == 0 {
            Some(from)
        } else {
            nth_arg(slots, k - 1, from + 1)
        }
    } else {
        nth_arg(slots, k, from + 1)
    }
}

/// The position of the first flag called `name`, from position `from` on.
pub open spec fn flag_named(slots: Seq<Slot>, name: Seq<char>, from: int) -> Option<int>
    decreases slots.len() - from,
{
    if from < 0 || from >= slots.len() {
        None
    } else if slots[from].kind == InputType::Flag && slots[from].name == name {
        Some(from)
    } else {
        flag_named(slots, name, from + 1)
    }
}

/// How a flag is suggested: `--name` where it is boolean, `--name=` where it
/// needs a value.
pub open spec fn flag_candidate(name: Seq<char>, bool_flag: bool, description: Option<Seq<char>>) -> Candidate {
    Candidate {
        name: if bool_flag {
            "--"@ + name
        } else {
            "--"@ + name + "="@
        },
        desc: description,
    }
}

/// The flags whose name begins with `partial`, in the order of their declaration.
pub open spec fn flag_candidates(slots: Seq<Slot>, partial: Seq<char>) -> Seq<Candidate>
    decreases slots.len(),
{
    if slots.len() == 0 {
        Seq::empty()
    } else {
        let last = slots.last();
        let rest = flag_candidates(slots.drop_last(), partial);
        if last.kind == InputType::Flag && partial.is_prefix_of(last.name) {
            rest.push(flag_candidate(last.name, last.bool_flag, last.description))
        } else {
            rest
        }
    }
}

/// The flags every command has, as far as their name begins with `partial`.
pub open spec fn built_in_candidates(has_version: bool, partial: Seq<char>) -> Seq<Candidate> {
    let help = if partial.is_prefix_of("help"@) {
        seq![flag_candidate("help"@, true, Some("view help"@))]
    } else {
        Seq::empty()
    };
    if has_version && partial.is_prefix_of("version"@) {
        help.push(flag_candidate("version"@, true, Some("display CLI version"@)))
    } else {
        help
    }
}

/// The subcommands whose name begins with `partial`, in the order of their declaration.
pub open spec fn child_candidates(children: Seq<Command>, partial: Seq<char>) -> Seq<Candidate>
    decreases children.len(),
{
    if children.len() == 0 {
        Seq::empty()
    } else {
        let last = children.last();
        let rest = child_candidates(children.drop_last(), partial);
        if partial.is_prefix_of(last.docs.name@) {
            rest.push(Candidate { name: last.docs.name@, desc: text_of(last.docs.description) })
        } else {
            rest
        }
    }
}

/// The flag whose value is being typed: where `stripped` is `name=text` and
/// `name` is the name of a flag, the position of the first such flag and the
/// position of the `=`.
pub open spec fn value_target(slots: Seq<Slot>, stripped: Seq<char>) -> Option<(int, int)> {
    match position(stripped, '=', 0) {
        Some(at) => match flag_named(slots, stripped.take(at), 0) {
            Some(i) => Some((i, at)),
            None => None,
        },
        None => None,
    }
}

/// Whether `list` holds candidates without description whose names begin with `lead`.
pub open spec fn all_extend(list: Seq<Candidate>, lead: Seq<char>) -> bool {
    forall|j: int|
        0 <= j < list.len() ==> (#[trigger] list[j]).desc is None && lead.is_prefix_of(list[j].name)
}

/// Whether `r` is the success that holds exactly `list`.
pub open spec fn suggests(r: CliResult<Vec<CompOut>>, list: Seq<Candidate>) -> bool {
    r is Ok && r->Ok_0.deep_view() == list
}

/// What completion gives at a command whose own inputs are being typed.
///
/// Where the last token is dash-led and spells `name=text` for a flag `name`,
/// the candidates come from that flag's completor, each spelled `--name=` and
/// the candidate. Any other dash-led token lists the flags whose name begins
/// with it. A token that is not dash-led asks the completor of the argument
/// whose turn it is: the one with as many arguments before it as there are
/// tokens before the last that are not dash-led.
pub open spec fn leaf_completion(pre: Command, tokens: Seq<Seq<char>>, post: Command, r: CliResult<Vec<CompOut>>) -> bool
    recommends
        tokens.len() > 0,
{
    let last = tokens.last();
    let slots = pre.slots();
    &&& crate::parser::same_frame(pre, post)
    &&& post.handler == pre.handler
    &&& post.slots() == slots
    &&& if dash_led(last) {
        let stripped = strip_dashes(last);
        match value_target(slots, stripped) {
            Some((i, at)) => if slots[i].has_completor {
                r is Ok ==> all_extend(r->Ok_0.deep_view(), "--"@ + stripped)
            } else {
                suggests(r, Seq::empty())
            },
            None => suggests(
                r,
                flag_candidates(slots, stripped) + built_in_candidates(
                    pre.docs.version is Some,
                    stripped,
                ),
            ),
        }
    } else {
        match nth_arg(slots, positional_before(tokens, tokens.len() - 1), 0) {
            Some(i) => if slots[i].has_completor {
                r is Ok ==> all_extend(r->Ok_0.deep_view(), last)
            } else {
                suggests(r, Seq::empty())
            },
            None => suggests(r, Seq::empty()),
        }
    }
}

/// What completion gives for `tokens` at `pre`: the result `r` and the tree `post`.
///
/// 1. Without tokens there are no candidates.
/// 2. A command with subcommands and more than one token hands the remaining
///    tokens to the first subcommand named by the first token, and fails if
///    there is none. With one token that is not dash-led, the candidates are
///    the subcommands whose name begins with it.
/// 3. Otherwise the command's own inputs are being typed.
pub open spec fn completion(pre: Command, tokens: Seq<Seq<char>>, post: Command, r: CliResult<Vec<CompOut>>) -> bool
    decreases tokens.len(),
{
    if tokens.len() == 0 {
        post == pre && suggests(r, Seq::empty())
    } else if pre.subcommands@.len() > 0 && tokens.len() > 1 {
        match find_child(pre.child_names(), tokens[0], 0) {
            Some(i) => {
                &&& 0 <= i < pre.subcommands@.len()
                &&& crate::parser::only_child_changed(pre, post, i)
                &&& completion(pre.subcommands@[i], tokens.skip(1), post.subcommands@[i], r)
            },
            None => post == pre && r is Err && r->Err_0@ == (Failure {
                kind: ErrorKind::SubcommandNotFound,
                msg: no_subcommand_msg(tokens[0]),
            }) && r->Err_0.wf(),
        }
    } else if pre.subcommands@.len() > 0 && !dash_led(tokens[0]) {
        post == pre && suggests(r, child_candidates(pre.subcommands@, tokens[0]))
    } else {
        leaf_completion(pre, tokens, post, r)
    }
}

/// Strips the leading dash, or the two leading dashes, of `token`.
pub fn strip(token: &str) -> (r: &str)
    ensures
        r@ == strip_dashes(token@),
{
    if has_prefix(token, "--") {
        proof {
            reveal_strlit("--");
        }
        tail(token, 2)
    } else if starts_with_dash(token) {
        tail(token, 1)
    } else {
        token
    }
}

/// The candidates `lead` followed by each of `list`, without descriptions.
pub open spec fn spelled(lead: Seq<char>, list: Seq<Seq<char>>) -> Seq<Candidate> {
    Seq::new(list.len(), |i: int| Candidate { name: lead + list[i], desc: None })
}

/// Turns what a completor returned into candidates, each spelled `lead` and
/// then the completor's text.
pub fn spell(lead: &str, list: &Vec<String>) -> (r: Vec<CompOut>)
    ensures
        r.deep_view() == spelled(lead@, list.deep_view()),
{
    let mut out: Vec<CompOut> = Vec::new();
    let mut i: usize = 0;
    while i < list.len()
        invariant
            i <= list.len(),
            out@.len() == i,
            forall|j: int|
                0 <= j < i ==> (#[trigger] out@[j])@ == (Candidate {
                    name: lead@ + list@[j]@,
                    desc: None,
                }),
        decreases list.len() - i,
    {
        out.push(CompOut { name: join2(lead, list[i].as_str()), desc: None });
        i = i + 1;
    }
    out
}

/// Candidates spelled with a lead, from texts that begin with `partial`,
/// begin with the lead and the partial text.
pub proof fn lemma_spelled_extend(lead: Seq<char>, partial: Seq<char>, list: Seq<Seq<char>>)
    requires
        forall|j: int| 0 <= j < list.len() ==> partial.is_prefix_of(#[trigger] list[j]),
    ensures
        all_extend(spelled(lead, list), lead + partial),
{
}

/// Counts the tokens before the last that are not dash-led.
pub fn positional_count(tokens: &[String]) -> (r: usize)
    ensures
        r == positional_before(tokens.deep_view(), tokens@.len() - 1),
{
    let mut count: usize = 0;
    if tokens.len() == 0 {
        return count;
    }
    let before: usize = tokens.len() - 1;
    let mut i: usize = 0;
    while i < before
        invariant
            i <= before,
            before < tokens.len(),
            count <= i,
            count == positional_before(tokens.deep_view(), i as int),
        decreases before - i,
    {
        if !starts_with_dash(tokens[i].as_str()) {
            count = count + 1;
        }
        i = i + 1;
    }
    count
}

impl<'a> Command<'a> {
    /// Finds the argument that has `k` arguments before it.
    pub fn arg_at(&self, k: usize) -> (r: Option<usize>)
        ensures
            match r {
                Some(i) => nth_arg(self.slots(), k as int, 0) == Some(i as int) && i
                    < self.symbols@.len(),
                None => nth_arg(self.slots(), k as int, 0) is None,
            },
    {
        let mut left: usize = k;
        let mut i: usize = 0;
        while i < self.symbols.len()
            invariant
                i <= self.symbols.len(),
                nth_arg(self.slots(), k as int, 0) == nth_arg(self.slots(), left as int, i as int),
            decreases self.symbols.len() - i,
        {
            if self.symbols[i].input_type() == InputType::Arg {
                if left == 0 {
                    return Some(i);
                }
                left = left - 1;
            }
            i = i + 1;
        }
        None
    }

    /// Finds the first flag called `name`.
    pub fn flag_called(&self, name: &str) -> (r: Option<usize>)
        ensures
            match r {
                Some(i) => flag_named(self.slots(), name@, 0) == Some(i as int) && i
                    < self.symbols@.len(),
                None => flag_named(self.slots(), name@, 0) is None,
            },
    {
        let mut i: usize = 0;
        while i < self.symbols.len()
            invariant
                i <= self.symbols.len(),
                flag_named(self.slots(), name@, 0) == flag_named(self.slots(), name@, i as int),
            decreases self.symbols.len() - i,
        {
            if self.symbols[i].input_type() == InputType::Flag {
                let own = self.symbols[i].display_name();
                if str_eq(own.as_str(), name) {
                    return Some(i);
                }
            }
            i = i + 1;
        }
        None
    }

    /// The flags, built-in ones included, whose name begins with `partial`.
    pub fn list_flags(&self, partial: &str) -> (r: Vec<CompOut>)
        ensures
            r.deep_view() == flag_candidates(self.slots(), partial@) + built_in_candidates(
                self.docs.version is Some,
                partial@,
            ),
    {
        let mut out: Vec<CompOut> = Vec::new();
        let mut i: usize = 0;
        while i < self.symbols.len()
            invariant
                i <= self.symbols.len(),
                out.deep_view() == flag_candidates(self.slots().take(i as int), partial@),
            decreases self.symbols.len() - i,
        {
            assert(self.slots().take(i + 1).drop_last() =~= self.slots().take(i as int));
            let symbol = &self.symbols[i];
            if symbol.input_type() == InputType::Flag {
                let name = symbol.display_name();
                if has_prefix(name.as_str(), partial) {
                    let spelling = if symbol.is_bool_flag() {
                        join2("--", name.as_str())
                    } else {
                        join3("--", name.as_str(), "=")
                    };
                    let candidate = CompOut { name: spelling, desc: Input::description(symbol) };
                    out.push(candidate);
                }
            }
            i = i + 1;
        }
        assert(self.slots().take(i as int) =~= self.slots());
        if has_prefix("help", partial) {
            let candidate = CompOut {
                name: join2("--", "help"),
                desc: Some(String::from_str("view help")),
            };
            out.push(candidate);
        }
        if self.docs.version.is_some() && has_prefix("version", partial) {
            let candidate = CompOut {
                name: join2("--", "version"),
                desc: Some(String::from_str("display CLI version")),
            };
            out.push(candidate);
        }
        out
    }

    /// The subcommands whose name begins with `partial`.
    pub fn list_children(&self, partial: &str) -> (r: Vec<CompOut>)
        ensures
            r.deep_view() == child_candidates(self.subcommands@, partial@),
    {
        let mut out: Vec<CompOut> = Vec::new();
        let mut i: usize = 0;
        while i < self.subcommands.len()
            invariant
                i <= self.subcommands.len(),
                out.deep_view() == child_candidates(self.subcommands@.take(i as int), partial@),
            decreases self.subcommands.len() - i,
        {
            assert(self.subcommands@.take(i + 1).drop_last() =~= self.subcommands@.take(i as int));
            let docs = &self.subcommands[i].docs;
            if has_prefix(docs.name.as_str(), partial) {
                let candidate = CompOut {
                    name: docs.name.clone(),
                    desc: match &docs.description {
                        Some(d) => Some(d.clone()),
                        None => None,
                    },
                };
                out.push(candidate);
            }
            i = i + 1;
        }
        assert(self.subcommands@.take(i as int) =~= self.subcommands@);
        out
    }

    /// Asks the completor of the input at `index` for texts that begin with
    /// `partial`, and spells each candidate `lead` and then the text.
    fn ask(&mut self, index: usize, lead: &str, partial: &str) -> (r: CliResult<Vec<CompOut>>)
        requires
            index < old(self).symbols@.len(),
        ensures
            crate::parser::same_frame(*old(self), *final(self)),
            final(self).handler == old(self).handler,
            final(self).slots() == old(self).slots(),
            !old(self).slots()[index as int].has_completor ==> suggests(r, Seq::empty()),
            r is Ok ==> all_extend(r->Ok_0.deep_view(), lead@ + partial@),
    {
        let found = self.symbols[index].complete(partial);
        match found {
            Ok(list) => {
                let out = spell(lead, &list);
                proof {
                    if !old(self).slots()[index as int].has_completor {
                        assert(out.deep_view() =~= Seq::empty());
                    }
                    lemma_spelled_extend(lead@, partial@, list.deep_view());
                }
                Ok(out)
            },
            Err(e) => Err(e),
        }
    }

    /// Completes the last token against this command's own inputs.
    fn complete_leaf(&mut self, tokens: &[String]) -> (r: CliResult<Vec<CompOut>>)
        requires
            tokens@.len() > 0,
        ensures
            leaf_completion(*old(self), tokens.deep_view(), *final(self), r),
    {
        let last = tokens[tokens.len() - 1].as_str();
        if starts_with_dash(last) {
            let stripped = strip(last);
            let length = stripped.unicode_len();
            if let Some(at) = find_char(stripped, '=') {
                let name = head(stripped, at);
                if let Some(i) = self.flag_called(name) {
                    let partial = tail(stripped, at + 1);
                    let lead = join3("--", name, "=");
                    proof {
                        reveal_strlit("=");
                        crate::text::lemma_position(stripped@, '=', 0);
                    }
                    return self.ask(i, lead.as_str(), partial);
                }
            }
            Ok(self.list_flags(stripped))
        } else {
            match self.arg_at(positional_count(tokens)) {
                Some(i) => {
                    assert(""@ + last@ =~= last@) by {
                        reveal_strlit("");
                    }
                    self.ask(i, "", last)
                },
                None => {
                    let none: Vec<CompOut> = Vec::new();
                    assert(none.deep_view() =~= Seq::empty());
                    Ok(none)
                },
            }
        }
    }

    /// The candidates for the last of `tokens`, the token being typed.
    ///
    /// Every candidate begins with that token, spelled with two dashes where
    /// it is dash-led.
    pub fn complete_args(&mut self, tokens: &[String]) -> (r: CliResult<Vec<CompOut>>)
        ensures
            completion(*old(self), tokens.deep_view(), *final(self), r),
            r is Ok && tokens@.len() > 0 ==> forall|j: int|
                0 <= j < r->Ok_0@.len() ==> normalized(tokens.deep_view().last()).is_prefix_of(
                    (#[trigger] r->Ok_0@[j]).name@,
                ),
    {
        let r = self.suggest(tokens);
        proof {
            if r is Ok && tokens@.len() > 0 {
                lemma_candidates_extend_partial(*old(self), tokens.deep_view(), *self, r);
                assert forall|j: int| 0 <= j < r->Ok_0@.len() implies normalized(
                    tokens.deep_view().last(),
                ).is_prefix_of((#[trigger] r->Ok_0@[j]).name@) by {
                    assert(r->Ok_0.deep_view()[j].name == r->Ok_0@[j].name@);
                }
            }
        }
        r
    }

    /// Completes the tokens against this command and, through the first
    /// token, against the commands below it.
    fn suggest(&mut self, tokens: &[String]) -> (r: CliResult<Vec<CompOut>>)
        ensures
            completion(*old(self), tokens.deep_view(), *final(self), r),
        decreases tokens@.len(),
    {
        if tokens.len() == 0 {
            let none: Vec<CompOut> = Vec::new();
            assert(none.deep_view() =~= Seq::empty());
            return Ok(none);
        }
        let first = tokens[0].as_str();
        if self.subcommands.len() > 0 {
            if tokens.len() > 1 {
                match self.child_named(first) {
                    Some(i) => {
                        let rest = slice_subrange(tokens, 1, tokens.len());
                        assert(rest.deep_view() =~= tokens.deep_view().skip(1));
                        return self.subcommands[i].suggest(rest);
                    },
                    None => {
                        return Err(
                            CliError::new(
                                ErrorKind::SubcommandNotFound,
                                join2(first, " is not a valid subcommand"),
                            ),
                        );
                    },
                }
            }
            if !starts_with_dash(first) {
                return Ok(self.list_children(first));
            }
        }
        self.complete_leaf(tokens)
    }
}

impl<'a> Command<'a> {
    /// Completes the tokens against the subcommand at `sub_idx`.
    pub fn complete_subcommand(&mut self, sub_idx: usize, tokens: &[String]) -> (r: CliResult<
        Vec<CompOut>,
    >)
        requires
            sub_idx < old(self).subcommands@.len(),
        ensures
            crate::parser::only_child_changed(*old(self), *final(self), sub_idx as int),
            completion(
                old(self).subcommands@[sub_idx as int],
                tokens.deep_view(),
                final(self).subcommands@[sub_idx as int],
                r,
            ),
    {
        self.subcommands[sub_idx].complete_args(tokens)
    }
}

/// The name of every suggested flag begins with two dashes and the partial name.
pub proof fn lemma_flag_candidates_extend(slots: Seq<Slot>, partial: Seq<char>)
    ensures
        forall|j: int|
            0 <= j < flag_candidates(slots, partial).len() ==> ("--"@ + partial).is_prefix_of(
                (#[trigger] flag_candidates(slots, partial)[j]).name,
            ),
    decreases slots.len(),
{
    if slots.len() > 0 {
        lemma_flag_candidates_extend(slots.drop_last(), partial);
        let all = flag_candidates(slots, partial);
        let rest = flag_candidates(slots.drop_last(), partial);
        let last = slots.last();
    }
}

/// The spelling of a flag begins with two dashes and any beginning of its name.
pub proof fn lemma_dashed_extend(name: Seq<char>, bool_flag: bool, partial: Seq<char>)
    requires
        partial.is_prefix_of(name),
    ensures
        ("--"@ + partial).is_prefix_of(flag_candidate(name, bool_flag, None).name),
{
    let lead = "--"@ + partial;
    let spelling = flag_candidate(name, bool_flag, None).name;
}

/// The name of every suggested subcommand begins with the partial name.
pub proof fn lemma_child_candidates_extend(children: Seq<Command>, partial: Seq<char>)
    ensures
        forall|j: int|
            0 <= j < child_candidates(children, partial).len() ==> partial.is_prefix_of(
                (#[trigger] child_candidates(children, partial)[j]).name,
            ),
    decreases children.len(),
{
    if children.len() > 0 {
        lemma_child_candidates_extend(children.drop_last(), partial);
        let all = child_candidates(children, partial);
        let rest = child_candidates(children.drop_last(), partial);
    }
}

/// Every candidate begins with the token being typed, the token spelled with
/// two dashes where it is dash-led.
pub proof fn lemma_candidates_extend_partial(pre: Command, tokens: Seq<Seq<char>>, post: Command, r: CliResult<Vec<CompOut>>)
    requires
        completion(pre, tokens, post, r),
        r is Ok,
        tokens.len() > 0,
    ensures
        forall|j: int|
            0 <= j < r->Ok_0.deep_view().len() ==> normalized(tokens.last()).is_prefix_of(
                (#[trigger] r->Ok_0.deep_view()[j]).name,
            ),
    decreases tokens.len(),
{
    let list = r->Ok_0.deep_view();
    let last = tokens.last();
    if pre.subcommands@.len() > 0 && tokens.len() > 1 {
        match find_child(pre.child_names(), tokens[0], 0) {
            Some(i) => {
                lemma_candidates_extend_partial(
                    pre.subcommands@[i],
                    tokens.skip(1),
                    post.subcommands@[i],
                    r,
                );
            },
            None => {},
        }
    } else if pre.subcommands@.len() > 0 && !dash_led(tokens[0]) {
        lemma_child_candidates_extend(pre.subcommands@, tokens[0]);
    } else if dash_led(last) {
        let stripped = strip_dashes(last);
        let slots = pre.slots();
        if value_target(slots, stripped) is None {
            lemma_flag_candidates_extend(slots, stripped);
            let own = flag_candidates(slots, stripped);
            let built = built_in_candidates(pre.docs.version is Some, stripped);
        }
    }
}

/// Completion changes no name, and leaves a well-formed tree well-formed.
pub proof fn lemma_completion_well_formed(pre: Command, tokens: Seq<Seq<char>>, post: Command, r: CliResult<Vec<CompOut>>)
    requires
        completion(pre, tokens, post, r),
    ensures
        post.docs == pre.docs,
        post.slots() == pre.slots(),
        crate::command::well_formed(pre) ==> crate::command::well_formed(post),
    decreases tokens.len(),
{
    if tokens.len() > 0 && pre.subcommands@.len() > 0 && tokens.len() > 1 {
        match find_child(pre.child_names(), tokens[0], 0) {
            Some(i) => {
                lemma_completion_well_formed(
                    pre.subcommands@[i],
                    tokens.skip(1),
                    post.subcommands@[i],
                    r,
                );
                if crate::command::well_formed(pre) {
                }
            },
            None => {},
        }
    }
}

} // verus!
