//! The two ways a program is invoked: to run a command line, or to answer a
//! shell that asks for completions.
//!
//! A completion request has the form `<program> complete <shell> <index>
//! <line>`. The line is split at single spaces. For bash and zsh, `<index>`
//! is the position of the word being typed, and the words after it are
//! dropped; for fish the whole line counts and `<index>` is not read. The
//! words after the last occurrence of the program's name are completed.

use vstd::prelude::*;
use vstd::slice::slice_subrange;
use crate::cli_error::{CliError, CliResult, ErrorKind, Failure};
use crate::command::{shell_named, Command, CompletionMode};
use crate::completion::{completion, Candidate, CompOut};
use crate::exit::{reported, silent, Ending, Exit, Farewell};
use crate::parser::{fails, outcome, Output, Reply};
use crate::text::{chars_of, join2, str_eq};
use crate::value::{all_digits, digits_value, lemma_digits_monotone};

verus! {

/// The pieces of `s` between single occurrences of `sep`. There is one piece
/// more than there are separators; pieces can be empty.
pub open spec fn split(s: Seq<char>, sep: char) -> Seq<Seq<char>>
    decreases s.len(),
{
    if s.len() == 0 {
        seq![Seq::empty()]
    } else if s.last() == sep {
        split(s.drop_last(), sep).push(Seq::empty())
    } else {
        let before = split(s.drop_last(), sep);
        before.drop_last().push(before.last().push(s.last()))
    }
}

/// Splits `s` at each occurrence of `sep`.
pub fn split_at(s: &str, sep: char) -> (r: Vec<String>)
    ensures
        r.deep_view() == split(s@, sep),
        r@.len() > 0,
{
    let chars = chars_of(s);
    let mut out: Vec<String> = Vec::new();
    let mut start: usize = 0;
    let mut i: usize = 0;
    assert(s@.subrange(0, 0) =~= Seq::empty());
    while i < chars.len()
        invariant
            start <= i <= chars.len(),
            chars@ == s@,
            split(s@.take(i as int), sep) == out.deep_view().push(
                s@.subrange(start as int, i as int),
            ),
        decreases chars.len() - i,
    {
        let ghost word = s@.subrange(start as int, i as int);
        assert(s@.take(i + 1).drop_last() =~= s@.take(i as int));
        if chars[i] == sep {
            out.push(String::from_str(s.substring_char(start, i)));
            start = i + 1;
            assert(s@.subrange(start as int, i + 1) =~= Seq::empty());
        } else {
            assert(s@.subrange(start as int, i + 1) =~= word.push(chars@[i as int]));
        }
        i = i + 1;
    }
    assert(s@.take(i as int) =~= s@);
    out.push(String::from_str(s.substring_char(start, i)));
    out
}

/// The number written by `s` in decimal digits, where `s` is one digit at
/// least and nothing else, and the number is an index a machine can hold.
pub open spec fn word_index(s: Seq<char>) -> Option<int> {
    if s.len() > 0 && all_digits(s) && digits_value(s) <= usize::MAX {
        Some(digits_value(s))
    } else {
        None
    }
}

/// Converts the index of a word.
pub fn parse_index(s: &str) -> (r: Option<usize>)
    ensures
        match r {
            Some(n) => word_index(s@) == Some(n as int),
            None => word_index(s@) is None,
        },
{
    let chars = chars_of(s);
    if chars.len() == 0 {
        return None;
    }
    let mut acc: u128 = 0;
    let mut i: usize = 0;
    while i < chars.len()
        invariant
            i <= chars.len(),
            chars@ == s@,
            all_digits(s@.take(i as int)),
            acc == digits_value(s@.take(i as int)),
            acc <= usize::MAX,
        decreases chars.len() - i,
    {
        let c = chars[i];
        if !('0' <= c && c <= '9') {
            return None;
        }
        assert(s@.take(i + 1).drop_last() =~= s@.take(i as int));
        acc = acc * 10 + (c as u32 - '0' as u32) as u128;
        if acc > usize::MAX as u128 {
            proof {
                if all_digits(s@) {
                    lemma_digits_monotone(s@, i + 1);
                }
            }
            return None;
        }
        i = i + 1;
    }
    assert(s@.take(i as int) =~= s@);
    Some(acc as usize)
}

/// The position of the last of the first `n` words that is `name`; zero where none is.
pub open spec fn last_named(words: Seq<Seq<char>>, name: Seq<char>, n: int) -> int
    decreases n,
{
    if n <= 0 || n > words.len() {
        0
    } else if words[n - 1] == name {
        n - 1
    } else {
        last_named(words, name, n - 1)
    }
}

/// Finds the last word that is `name`.
pub fn find_last(words: &Vec<String>, name: &str) -> (r: usize)
    ensures
        r == last_named(words.deep_view(), name@, words@.len() as int),
        words@.len() > 0 ==> r < words@.len(),
{
    let mut n: usize = words.len();
    while n > 0
        invariant
            n <= words.len(),
            last_named(words.deep_view(), name@, words@.len() as int) == last_named(
                words.deep_view(),
                name@,
                n as int,
            ),
        decreases n,
    {
        if str_eq(words[n - 1].as_str(), name) {
            return n - 1;
        }
        n = n - 1;
    }
    0
}

/// Whether the arguments of the program ask for completions.
pub open spec fn is_request(args: Seq<Seq<char>>) -> bool {
    args.len() >= 5 && args[1] == "complete"@
}

/// The message for a request that names no known shell.
pub open spec fn unknown_shell_msg() -> Seq<char> {
    "unsupported shell, choices are bash, zsh, and fish"@
}

/// The message for a request whose word index is no number.
pub open spec fn bad_index_msg(text: Seq<char>) -> Seq<char> {
    text + " cannot be parsed for word index"@
}

/// The words of a request that count: all of the line for fish, and for the
/// other shells the words up to the one at the index.
pub open spec fn counted_words(shell: CompletionMode, index: int, line: Seq<char>) -> Seq<Seq<char>> {
    let words = split(line, ' ');
    if shell == CompletionMode::Fish || index + 1 >= words.len() {
        words
    } else {
        words.take(index + 1)
    }
}

/// The tokens to complete: the words after the last occurrence of the
/// program's name, or after the first word where the name does not occur.
pub open spec fn tokens_after(words: Seq<Seq<char>>, name: Seq<char>) -> Seq<Seq<char>> {
    words.skip(last_named(words, name, words.len() as int) + 1)
}

/// What a completion request asks: for which shell, and for which tokens.
pub open spec fn request_plan(name: Seq<char>, args: Seq<Seq<char>>) -> Result<
    (CompletionMode, Seq<Seq<char>>),
    Failure,
>
    recommends
        is_request(args),
{
    match shell_named(args[2]) {
        None => Err(Failure { kind: ErrorKind::ValueConversionFailure, msg: unknown_shell_msg() }),
        Some(shell) => if shell == CompletionMode::Fish {
            Ok((shell, tokens_after(counted_words(shell, 0, args[4]), name)))
        } else {
            match word_index(args[3]) {
                None => Err(
                    Failure { kind: ErrorKind::ValueConversionFailure, msg: bad_index_msg(args[3]) },
                ),
                Some(index) => Ok((shell, tokens_after(counted_words(shell, index, args[4]), name))),
            }
        },
    }
}

/// `s` without its single and double quotes.
pub open spec fn unquoted(s: Seq<char>) -> Seq<char>
    decreases s.len(),
{
    if s.len() == 0 {
        Seq::empty()
    } else if s.last() == '\'' || s.last() == '"' {
        unquoted(s.drop_last())
    } else {
        unquoted(s.drop_last()).push(s.last())
    }
}

/// One candidate as a line for bash: its name.
pub open spec fn bash_line(c: Candidate) -> Seq<char> {
    c.name + "\n"@
}

/// One candidate as a line for fish: its name, and after a tab its description.
pub open spec fn fish_line(c: Candidate) -> Seq<char> {
    match c.desc {
        Some(d) => c.name + "\t"@ + d + "\n"@,
        None => c.name + "\n"@,
    }
}

/// One candidate as an item for zsh: quoted, the description after a colon.
pub open spec fn zsh_item(c: Candidate) -> Seq<char> {
    match c.desc {
        Some(d) => "'"@ + c.name + ":"@ + unquoted(d) + "'"@,
        None => "'"@ + c.name + "'"@,
    }
}

/// The lines of the candidates, for bash or for fish.
pub open spec fn lines(shell: CompletionMode, list: Seq<Candidate>) -> Seq<char>
    decreases list.len(),
{
    if list.len() == 0 {
        Seq::empty()
    } else {
        lines(shell, list.drop_last()) + (if shell == CompletionMode::Fish {
            fish_line(list.last())
        } else {
            bash_line(list.last())
        })
    }
}

/// The items of the candidates for zsh, separated by spaces.
pub open spec fn zsh_items(list: Seq<Candidate>) -> Seq<char>
    decreases list.len(),
{
    if list.len() == 0 {
        Seq::empty()
    } else if list.len() == 1 {
        zsh_item(list.last())
    } else {
        zsh_items(list.drop_last()) + " "@ + zsh_item(list.last())
    }
}

/// The candidates as the shell expects them on the standard output.
pub open spec fn encoded(shell: CompletionMode, program: Seq<char>, list: Seq<Candidate>) -> Seq<char> {
    match shell {
        CompletionMode::Zsh => "_describe '"@ + program + "' \"("@ + zsh_items(list) + ")\"\n"@,
        _ => lines(shell, list),
    }
}

/// Removes the single and double quotes from `s`.
pub fn unquote(s: &str) -> (r: String)
    ensures
        r@ == unquoted(s@),
{
    let chars = chars_of(s);
    let mut out = String::new();
    let mut i: usize = 0;
    while i < chars.len()
        invariant
            i <= chars.len(),
            chars@ == s@,
            out@ == unquoted(s@.take(i as int)),
        decreases chars.len() - i,
    {
        assert(s@.take(i + 1).drop_last() =~= s@.take(i as int));
        if !(chars[i] == '\'' || chars[i] == '"') {
            out.append(s.substring_char(i, i + 1));
        }
        i = i + 1;
    }
    assert(s@.take(i as int) =~= s@);
    out
}

/// Writes the candidates as `shell` expects them.
pub fn encode(shell: CompletionMode, program: &str, list: &Vec<CompOut>) -> (r: String)
    ensures
        r@ == encoded(shell, program@, list.deep_view()),
{
    let ghost all = list.deep_view();
    let mut out = String::new();
    let mut i: usize = 0;
    match shell {
        CompletionMode::Zsh => {
            while i < list.len()
                invariant
                    i <= list.len(),
                    all == list.deep_view(),
                    out@ == zsh_items(all.take(i as int)),
                decreases list.len() - i,
            {
                assert(all.take(i + 1).drop_last() =~= all.take(i as int));
                if i > 0 {
                    out.append(" ");
                }
                out.append("'");
                out.append(list[i].name.as_str());
                match &list[i].desc {
                    Some(d) => {
                        out.append(":");
                        out.append(unquote(d.as_str()).as_str());
                    },
                    None => {},
                }
                out.append("'");
                i = i + 1;
            }
            assert(all.take(i as int) =~= all);
            let mut text = String::from_str("_describe '");
            text.append(program);
            text.append("' \"(");
            text.append(out.as_str());
            text.append(")\"\n");
            text
        },
        _ => {
            while i < list.len()
                invariant
                    i <= list.len(),
                    all == list.deep_view(),
                    shell != CompletionMode::Zsh,
                    out@ == lines(shell, all.take(i as int)),
                decreases list.len() - i,
            {
                assert(all.take(i + 1).drop_last() =~= all.take(i as int));
                out.append(list[i].name.as_str());
                if shell == CompletionMode::Fish {
                    match &list[i].desc {
                        Some(d) => {
                            out.append("\t");
                            out.append(d.as_str());
                        },
                        None => {},
                    }
                }
                out.append("\n");
                i = i + 1;
            }
            assert(all.take(i as int) =~= all);
            out
        },
    }
}

/// Whether `r` answers a request with what completion found: its failure, or
/// its candidates as `shell` expects them.
pub open spec fn answers(shell: CompletionMode, program: Seq<char>, found: CliResult<Vec<CompOut>>, r: CliResult<Reply>) -> bool {
    match found {
        Ok(list) => r is Ok && r->Ok_0@ == Output::Print(
            encoded(shell, program, list.deep_view()),
        ),
        Err(e) => r is Err && r->Err_0 == e,
    }
}

/// Answers a request with what completion found.
pub fn respond(shell: CompletionMode, program: &str, found: CliResult<Vec<CompOut>>) -> (r:
    CliResult<Reply>)
    ensures
        answers(shell, program@, found, r),
{
    match found {
        Ok(list) => Ok(Reply::Print(encode(shell, program, &list))),
        Err(e) => Err(e),
    }
}

/// What invoking the program with `args` gives, the program's own name
/// first: the result `r` and the tree `post`.
///
/// A completion request is answered from the tree; what it asks is given by
/// [`request_plan`]. Any other arguments are run, without the program's name.
pub open spec fn served(pre: Command, args: Seq<Seq<char>>, post: Command, r: CliResult<Reply>) -> bool {
    if is_request(args) {
        match request_plan(pre.docs.name@, args) {
            Err(f) => post == pre && fails(r, f.kind, f.msg),
            Ok((shell, tokens)) => exists|found: CliResult<Vec<CompOut>>| #[trigger]
                completion(pre, tokens, post, found) && answers(shell, pre.docs.name@, found, r),
        }
    } else {
        outcome(pre, run_tokens(args), post, r)
    }
}

/// The tokens to run: the arguments without the program's name.
pub open spec fn run_tokens(args: Seq<Seq<char>>) -> Seq<Seq<char>> {
    if args.len() == 0 {
        args
    } else {
        args.skip(1)
    }
}

/// Decides whether the arguments of the program ask for completions.
pub fn asks_for_completions(args: &[String]) -> (r: bool)
    ensures
        r == is_request(args.deep_view()),
{
    args.len() >= 5 && str_eq(args[1].as_str(), "complete")
}

/// How the process ends that was invoked with `args`: a completion request
/// keeps its failure to itself, any other invocation reports it.
pub open spec fn ended(args: Seq<Seq<char>>, r: CliResult<Reply>) -> Farewell {
    if is_request(args) {
        silent(r)
    } else {
        reported(r)
    }
}

impl<'a> Command<'a> {
    /// The tokens that a completion request asks to complete, and the shell
    /// that asks.
    pub fn plan(&self, args: &[String]) -> (r: CliResult<(CompletionMode, Vec<String>)>)
        requires
            is_request(args.deep_view()),
        ensures
            match request_plan(self.docs.name@, args.deep_view()) {
                Ok((shell, tokens)) => r is Ok && r->Ok_0.0 == shell && r->Ok_0.1.deep_view()
                    == tokens,
                Err(f) => r is Err && r->Err_0@ == f && r->Err_0.wf(),
            },
    {
        let shell = match CompletionMode::from_str(args[2].as_str()) {
            Some(shell) => shell,
            None => {
                return Err(
                    CliError::new(
                        ErrorKind::ValueConversionFailure,
                        String::from_str("unsupported shell, choices are bash, zsh, and fish"),
                    ),
                );
            },
        };
        let mut words = split_at(args[4].as_str(), ' ');
        if shell != CompletionMode::Fish {
            match parse_index(args[3].as_str()) {
                Some(index) => {
                    if index < words.len() - 1 {
                        let ghost all = words.deep_view();
                        words.truncate(index + 1);
                        assert(words.deep_view() =~= all.take(index + 1));
                    }
                },
                None => {
                    return Err(
                        CliError::new(
                            ErrorKind::ValueConversionFailure,
                            join2(args[3].as_str(), " cannot be parsed for word index"),
                        ),
                    );
                },
            }
        }
        let total = words.len();
        let at = find_last(&words, self.docs.name.as_str());
        let tokens = words.split_off(at + 1);
        Ok((shell, tokens))
    }

    /// Serves one invocation of the program. `args` are the arguments of the
    /// process, the program's own name first.
    pub fn parse(&mut self, args: &[String]) -> (r: CliResult<Reply>)
        ensures
            served(*old(self), args.deep_view(), *final(self), r),
    {
        if args.len() >= 5 && str_eq(args[1].as_str(), "complete") {
            let (shell, tokens) = self.plan(args)?;
            let found = self.complete_args(tokens.as_slice());
            let name = self.docs.name.clone();
            respond(shell, name.as_str(), found)
        } else {
            if args.len() >= 2 {
            }
            if args.len() == 0 {
                self.parse_args(args)
            } else {
                let rest = slice_subrange(args, 1, args.len());
                assert(rest.deep_view() =~= args.deep_view().skip(1));
                self.parse_args(rest)
            }
        }
    }
}

impl<'a> Command<'a> {
    /// Serves one invocation of the program and says how the process is to end.
    pub fn serve(&mut self, args: &[String]) -> (e: Ending)
        ensures
            exists|r: CliResult<Reply>| #[trigger]
                served(*old(self), args.deep_view(), *final(self), r) && e@ == ended(
                    args.deep_view(),
                    r,
                ),
    {
        let r = self.parse(args);
        if asks_for_completions(args) {
            r.exit_silently()
        } else {
            r.exit()
        }
    }
}

} // verus!
