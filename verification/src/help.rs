//! The usage text of a command.
//!
//! The text is laid out as a sequence of spans, each with a style. The layout
//! is a function of the command's own description, its inputs and the
//! descriptions of its direct subcommands. Styling is applied span by span
//! when the text is put together.

use vstd::prelude::*;
use colored::Colorize;
use crate::cli_error::{CliError, ErrorKind};
use crate::command::{Command, DocInfo};
use crate::input::{Input, InputType, Slot};
use crate::text::{join2, join3};

verus! {

/// How a span of the usage text is emphasised.
#[derive(Debug, Clone, Copy, PartialEq, Eq, Structural)]
pub enum Style {
    /// As it is.
    Plain,
    /// The path of the command at the top.
    Title,
    /// The caption of a section.
    Heading,
    /// A name.
    Strong,
}

/// A piece of the usage text.
#[derive(Debug, Clone, PartialEq, Eq)]
pub struct Span {
    pub text: String,
    pub style: Style,
}

/// The content of a [`Span`].
pub struct Piece {
    pub text: Seq<char>,
    pub style: Style,
}

impl View for Span {
    type V = Piece;

    open spec fn view(&self) -> Piece {
        Piece { text: self.text@, style: self.style }
    }
}

impl DeepView for Span {
    type V = Piece;

    open spec fn deep_view(&self) -> Piece {
        self@
    }
}

/// A span without emphasis.
pub open spec fn plain(text: Seq<char>) -> Piece {
    Piece { text, style: Style::Plain }
}

/// A span that holds a name.
pub open spec fn strong(text: Seq<char>) -> Piece {
    Piece { text, style: Style::Strong }
}

/// A span that holds the caption of a section.
pub open spec fn heading(text: Seq<char>) -> Piece {
    Piece { text, style: Style::Heading }
}

/// `n` spaces.
pub open spec fn spaces(n: int) -> Seq<char> {
    Seq::new(if n > 0 { n as nat } else { 0 }, |i: int| ' ')
}

/// `s`, followed by the spaces that bring it to `width` characters.
pub open spec fn padded(s: Seq<char>, width: int) -> Seq<char> {
    s + spaces(width - s.len())
}

/// What follows a name on its line: the description, if there is one, and the line's end.
pub open spec fn trailer(description: Option<Seq<char>>) -> Seq<char> {
    match description {
        Some(d) => " "@ + d + "\n"@,
        None => "\n"@,
    }
}

/// One line of a listing: the lead, the name in its column, the description.
pub open spec fn row(lead: Seq<char>, name: Seq<char>, description: Option<Seq<char>>, width: int) -> Seq<Piece> {
    seq![plain(lead), strong(padded(name, width)), plain(trailer(description))]
}

/// The lines of the inputs of the given kind, in the order of their declaration.
pub open spec fn input_rows(slots: Seq<Slot>, kind: InputType, lead: Seq<char>, width: int) -> Seq<Piece>
    decreases slots.len(),
{
    if slots.len() == 0 {
        Seq::empty()
    } else if slots.last().kind == kind {
        input_rows(slots.drop_last(), kind, lead, width) + row(
            lead,
            slots.last().name,
            slots.last().description,
            width,
        )
    } else {
        input_rows(slots.drop_last(), kind, lead, width)
    }
}

/// The lines of the flags every command has: `--help`, and `--version` where
/// the command has a version.
pub open spec fn built_in_rows(has_version: bool, width: int) -> Seq<Piece> {
    let help = row("\t--"@, "help"@, Some("view help"@), width);
    if has_version {
        help + row("\t--"@, "version"@, Some("display CLI version"@), width)
    } else {
        help
    }
}

/// The lines of the subcommands, in the order of their declaration.
pub open spec fn child_rows(children: Seq<Command>, width: int) -> Seq<Piece>
    decreases children.len(),
{
    if children.len() == 0 {
        Seq::empty()
    } else {
        child_rows(children.drop_last(), width) + row(
            "\t"@,
            children.last().docs.name@,
            crate::input::text_of(children.last().docs.description),
            width,
        )
    }
}

/// The width of the name column of a command without subcommands: three more
/// than its longest input name, and ten at least.
pub open spec fn input_width(slots: Seq<Slot>) -> int
    decreases slots.len(),
{
    if slots.len() == 0 {
        10
    } else {
        let rest = input_width(slots.drop_last());
        let own = slots.last().name.len() as int + 3;
        if own > rest {
            own
        } else {
            rest
        }
    }
}

/// The width of the name column of the subcommand listing: the longest name.
pub open spec fn child_width(children: Seq<Command>) -> int
    decreases children.len(),
{
    if children.len() == 0 {
        0
    } else {
        let rest = child_width(children.drop_last());
        let own = children.last().docs.name@.len() as int;
        if own > rest {
            own
        } else {
            rest
        }
    }
}

/// The width of the name column where only the built-in flags are listed.
pub open spec fn built_in_width(has_version: bool) -> int {
    if has_version {
        10
    } else {
        7
    }
}

/// The top of the usage text: the path, the description, the usage caption.
pub open spec fn head_rows(docs: DocInfo, usage: Seq<char>) -> Seq<Piece> {
    seq![
        Piece { text: docs.path(), style: Style::Title },
        plain(
            match docs.description {
                Some(d) => " - "@ + d@ + "\n\n"@,
                None => "\n\n"@,
            },
        ),
        heading("USAGE:"@),
        plain("\n\t"@),
        strong(docs.path() + usage),
        plain("\n\n"@),
    ]
}

/// The usage text of `cmd`, span by span.
pub open spec fn help_layout(cmd: Command) -> Seq<Piece> {
    let has_version = cmd.docs.version is Some;
    if cmd.subcommands@.len() == 0 {
        let width = input_width(cmd.slots());
        head_rows(cmd.docs, " [options], <args>"@) + seq![heading("FLAGS:"@), plain("\n"@)]
            + input_rows(cmd.slots(), InputType::Flag, "\t--"@, width) + built_in_rows(
            has_version,
            width,
        ) + seq![plain("\n"@), heading("ARGS:"@), plain("\n"@)] + input_rows(
            cmd.slots(),
            InputType::Arg,
            "\t"@,
            width,
        )
    } else {
        head_rows(cmd.docs, " <subcommand>"@) + seq![heading("SUBCOMMANDS:"@), plain("\n"@)]
            + child_rows(cmd.subcommands@, child_width(cmd.subcommands@)) + seq![
            plain("\n"@),
            heading("FLAGS:"@),
            plain("\n"@),
        ] + built_in_rows(has_version, built_in_width(has_version))
    }
}

/// The texts of `pieces`, one after the other.
pub open spec fn flat(pieces: Seq<Seq<char>>) -> Seq<char>
    decreases pieces.len(),
{
    if pieces.len() == 0 {
        Seq::empty()
    } else {
        flat(pieces.drop_last()) + pieces.last()
    }
}

/// The texts of the spans of `layout`.
pub open spec fn texts(layout: Seq<Piece>) -> Seq<Seq<char>> {
    Seq::new(layout.len(), |i: int| layout[i].text)
}

/// The usage text of `cmd` without styling.
pub open spec fn help_text(cmd: Command) -> Seq<char> {
    flat(texts(help_layout(cmd)))
}

/// Whether `painted` puts a text in place of each span of `layout` and leaves
/// the plain spans as they are.
pub open spec fn paints(layout: Seq<Piece>, painted: Seq<Seq<char>>) -> bool {
    &&& painted.len() == layout.len()
    &&& forall|i: int|
        0 <= i < layout.len() && layout[i].style == Style::Plain ==> #[trigger] painted[i]
            == layout[i].text
}

/// Whether `text` is the usage text of `cmd` in some styling.
pub open spec fn is_help_of(cmd: Command, text: Seq<char>) -> bool {
    exists|painted: Seq<Seq<char>>| #[trigger]
        paints(help_layout(cmd), painted) && text == flat(painted)
}

/// Pads `s` with spaces to `width` characters.
pub fn pad_to(s: &str, width: u128) -> (r: String)
    ensures
        r@ == padded(s@, width as int),
{
    let mut out = String::from_str(s);
    let mut len: u128 = s.unicode_len() as u128;
    while len < width
        invariant
            s@.len() <= len,
            len <= width || len == s@.len(),
            out@ == s@ + spaces(len - s@.len()),
        decreases width - len,
    {
        proof {
            reveal_strlit(" ");
        }
        out.append(" ");
        len = len + 1;
    }
    out
}

/// Appends one span.
fn push_span(out: &mut Vec<Span>, text: String, style: Style)
    ensures
        final(out).deep_view() == old(out).deep_view().push(Piece { text: text@, style }),
{
    out.push(Span { text, style });
}

/// Appends one line of a listing.
fn push_row(out: &mut Vec<Span>, lead: &str, name: &str, description: &Option<String>, width: u128)
    ensures
        final(out).deep_view() == old(out).deep_view() + row(
            lead@,
            name@,
            crate::input::text_of(*description),
            width as int,
        ),
{
    push_span(out, String::from_str(lead), Style::Plain);
    push_span(out, pad_to(name, width), Style::Strong);
    let end = match description {
        Some(d) => join3(" ", d.as_str(), "\n"),
        None => String::from_str("\n"),
    };
    push_span(out, end, Style::Plain);
}

/// Appends the lines of the built-in flags.
fn push_built_ins(out: &mut Vec<Span>, has_version: bool, width: u128)
    ensures
        final(out).deep_view() == old(out).deep_view() + built_in_rows(has_version, width as int),
{
    push_row(out, "\t--", "help", &Some(String::from_str("view help")), width);
    if has_version {
        push_row(out, "\t--", "version", &Some(String::from_str("display CLI version")), width);
    }
}

impl<'a> Command<'a> {
    /// The width of the name column of this command's input listing.
    fn column_width(&self) -> (r: u128)
        ensures
            r == input_width(self.slots()),
    {
        let mut width: u128 = 10;
        let mut i: usize = 0;
        while i < self.symbols.len()
            invariant
                i <= self.symbols.len(),
                width == input_width(self.slots().take(i as int)),
                width <= usize::MAX + 10,
            decreases self.symbols.len() - i,
        {
            assert(self.slots().take(i + 1).drop_last() =~= self.slots().take(i as int));
            let name = self.symbols[i].display_name();
            let own: u128 = name.as_str().unicode_len() as u128 + 3;
            if own > width {
                width = own;
            }
            i = i + 1;
        }
        assert(self.slots().take(i as int) =~= self.slots());
        width
    }

    /// The width of the name column of this command's subcommand listing.
    fn child_column_width(&self) -> (r: u128)
        ensures
            r == child_width(self.subcommands@),
    {
        let mut width: u128 = 0;
        let mut i: usize = 0;
        while i < self.subcommands.len()
            invariant
                i <= self.subcommands.len(),
                width == child_width(self.subcommands@.take(i as int)),
                width <= usize::MAX,
            decreases self.subcommands.len() - i,
        {
            assert(self.subcommands@.take(i + 1).drop_last() =~= self.subcommands@.take(i as int));
            let own: u128 = self.subcommands[i].docs.name.as_str().unicode_len() as u128;
            if own > width {
                width = own;
            }
            i = i + 1;
        }
        assert(self.subcommands@.take(i as int) =~= self.subcommands@);
        width
    }

    /// Appends the lines of the inputs of the given kind.
    fn push_input_rows(&self, out: &mut Vec<Span>, kind: InputType, lead: &str, width: u128)
        ensures
            final(out).deep_view() == old(out).deep_view() + input_rows(
                self.slots(),
                kind,
                lead@,
                width as int,
            ),
    {
        let mut i: usize = 0;
        while i < self.symbols.len()
            invariant
                i <= self.symbols.len(),
                out.deep_view() == old(out).deep_view() + input_rows(
                    self.slots().take(i as int),
                    kind,
                    lead@,
                    width as int,
                ),
            decreases self.symbols.len() - i,
        {
            assert(self.slots().take(i + 1).drop_last() =~= self.slots().take(i as int));
            if self.symbols[i].input_type() == kind {
                let name = self.symbols[i].display_name();
                let description = Input::description(&self.symbols[i]);
                push_row(out, lead, name.as_str(), &description, width);
            }
            i = i + 1;
        }
        assert(self.slots().take(i as int) =~= self.slots());
    }

    /// Appends the lines of the subcommands.
    fn push_child_rows(&self, out: &mut Vec<Span>, width: u128)
        ensures
            final(out).deep_view() == old(out).deep_view() + child_rows(
                self.subcommands@,
                width as int,
            ),
    {
        let mut i: usize = 0;
        while i < self.subcommands.len()
            invariant
                i <= self.subcommands.len(),
                out.deep_view() == old(out).deep_view() + child_rows(
                    self.subcommands@.take(i as int),
                    width as int,
                ),
            decreases self.subcommands.len() - i,
        {
            assert(self.subcommands@.take(i + 1).drop_last() =~= self.subcommands@.take(i as int));
            let child = &self.subcommands[i];
            push_row(out, "\t", child.docs.name.as_str(), &child.docs.description, width);
            i = i + 1;
        }
        assert(self.subcommands@.take(i as int) =~= self.subcommands@);
    }

    /// Appends the top of the usage text.
    fn push_head(&self, out: &mut Vec<Span>, usage: &str)
        ensures
            final(out).deep_view() == old(out).deep_view() + head_rows(self.docs, usage@),
    {
        let path = self.docs.cmd_path();
        push_span(out, path.clone(), Style::Title);
        let about = match &self.docs.description {
            Some(d) => join3(" - ", d.as_str(), "\n\n"),
            None => String::from_str("\n\n"),
        };
        push_span(out, about, Style::Plain);
        push_span(out, String::from_str("USAGE:"), Style::Heading);
        push_span(out, String::from_str("\n\t"), Style::Plain);
        push_span(out, join2(path.as_str(), usage), Style::Strong);
        push_span(out, String::from_str("\n\n"), Style::Plain);
    }

    /// The usage text of this command, span by span.
    pub fn layout(&self) -> (r: Vec<Span>)
        ensures
            r.deep_view() == help_layout(*self),
    {
        let mut out: Vec<Span> = Vec::new();
        let has_version = self.docs.version.is_some();
        if self.subcommands.len() == 0 {
            let width = self.column_width();
            self.push_head(&mut out, " [options], <args>");
            push_span(&mut out, String::from_str("FLAGS:"), Style::Heading);
            push_span(&mut out, String::from_str("\n"), Style::Plain);
            self.push_input_rows(&mut out, InputType::Flag, "\t--", width);
            push_built_ins(&mut out, has_version, width);
            push_span(&mut out, String::from_str("\n"), Style::Plain);
            push_span(&mut out, String::from_str("ARGS:"), Style::Heading);
            push_span(&mut out, String::from_str("\n"), Style::Plain);
            self.push_input_rows(&mut out, InputType::Arg, "\t", width);
        } else {
            let width = self.child_column_width();
            self.push_head(&mut out, " <subcommand>");
            push_span(&mut out, String::from_str("SUBCOMMANDS:"), Style::Heading);
            push_span(&mut out, String::from_str("\n"), Style::Plain);
            self.push_child_rows(&mut out, width);
            push_span(&mut out, String::from_str("\n"), Style::Plain);
            push_span(&mut out, String::from_str("FLAGS:"), Style::Heading);
            push_span(&mut out, String::from_str("\n"), Style::Plain);
            push_built_ins(&mut out, has_version, if has_version { 10 } else { 7 });
        }
        out
    }
}

/// A text together with the styles asked for it, as the `colored` crate holds it.
#[verifier::external_type_specification]
#[verifier::external_body]
pub struct ExColoredString(colored::ColoredString);

/// Asks for `text` in bold: `colored::Colorize::bold` on a string slice.
/// Nothing is claimed of the result.
#[verifier::external_body]
fn bold(text: &str) -> (r: colored::ColoredString) {
    text.bold()
}

/// Asks for green letters: `colored::Colorize::green` on a styled text.
/// Nothing is claimed of the result.
#[verifier::external_body]
fn green(text: colored::ColoredString) -> (r: colored::ColoredString) {
    text.green()
}

/// Asks for yellow letters: `colored::Colorize::yellow` on a styled text.
/// Nothing is claimed of the result.
#[verifier::external_body]
fn yellow(text: colored::ColoredString) -> (r: colored::ColoredString) {
    text.yellow()
}

/// Writes a styled text out: the `Display` of `colored::ColoredString`.
/// Whether the result carries terminal codes depends on the terminal and
/// the environment, so nothing is claimed of it.
#[verifier::external_body]
fn written(text: &colored::ColoredString) -> (r: String) {
    text.to_string()
}

/// The text of `span` in its style. A plain span is its own text.
pub fn paint(span: &Span) -> (r: String)
    ensures
        span.style == Style::Plain ==> r@ == span.text@,
{
    match span.style {
        Style::Plain => span.text.clone(),
        Style::Title => written(&green(bold(span.text.as_str()))),
        Style::Heading => written(&yellow(bold(span.text.as_str()))),
        Style::Strong => written(&bold(span.text.as_str())),
    }
}

/// The texts of the spans, one after the other, without styling.
pub fn plain_text(layout: &Vec<Span>) -> (r: String)
    ensures
        r@ == flat(texts(layout.deep_view())),
{
    let mut out = String::new();
    let mut i: usize = 0;
    let ghost all = texts(layout.deep_view());
    while i < layout.len()
        invariant
            i <= layout.len(),
            all == texts(layout.deep_view()),
            out@ == flat(all.take(i as int)),
        decreases layout.len() - i,
    {
        assert(all.take(i + 1).drop_last() =~= all.take(i as int));
        out.append(layout[i].text.as_str());
        i = i + 1;
    }
    assert(all.take(i as int) =~= all);
    out
}

/// The texts of the spans, one after the other, each in its style.
pub fn styled_text(layout: &Vec<Span>) -> (r: String)
    ensures
        exists|painted: Seq<Seq<char>>| #[trigger]
            paints(layout.deep_view(), painted) && r@ == flat(painted),
{
    let mut out = String::new();
    let mut i: usize = 0;
    let ghost mut painted: Seq<Seq<char>> = Seq::empty();
    while i < layout.len()
        invariant
            i <= layout.len(),
            painted.len() == i,
            forall|j: int|
                0 <= j < i && layout@[j].style == Style::Plain ==> #[trigger] painted[j]
                    == layout@[j].text@,
            out@ == flat(painted),
        decreases layout.len() - i,
    {
        let piece = paint(&layout[i]);
        out.append(piece.as_str());
        proof {
            let next = painted.push(piece@);
            assert(next.drop_last() =~= painted);
            painted = next;
        }
        i = i + 1;
    }
    assert(paints(layout.deep_view(), painted));
    out
}

impl<'a> Command<'a> {
    /// The usage text of this command without styling.
    pub fn plain_help(&self) -> (r: String)
        ensures
            r@ == help_text(*self),
    {
        plain_text(&self.layout())
    }

    /// The usage text of this command, styled for the terminal, as the error
    /// that stops processing when help is asked for.
    pub fn gen_help(&self) -> (r: CliError)
        ensures
            r.kind == ErrorKind::HelpRequested,
            r.wf(),
            is_help_of(*self, r.msg@),
    {
        CliError::new(ErrorKind::HelpRequested, styled_text(&self.layout()))
    }
}

/// The lines of the subcommands depend on their names and descriptions alone.
pub proof fn lemma_child_rows_stable(a: Seq<Command>, b: Seq<Command>, width: int)
    requires
        a.len() == b.len(),
        forall|i: int|
            0 <= i < a.len() ==> a[i].docs.name@ == b[i].docs.name@ && crate::input::text_of(
                a[i].docs.description,
            ) == crate::input::text_of(b[i].docs.description),
    ensures
        child_rows(a, width) == child_rows(b, width),
        child_width(a) == child_width(b),
    decreases a.len(),
{
    if a.len() > 0 {
        lemma_child_rows_stable(a.drop_last(), b.drop_last(), width);
    }
}

/// The usage text is a function of the command's own description, the states
/// of its inputs, and the names and descriptions of its direct subcommands:
/// two commands that agree on these have the same text, so rendering one
/// command twice gives the same text twice.
pub proof fn lemma_help_stable(a: Command, b: Command)
    requires
        a.docs.name@ == b.docs.name@,
        a.docs.parents.deep_view() == b.docs.parents.deep_view(),
        crate::input::text_of(a.docs.description) == crate::input::text_of(b.docs.description),
        a.docs.version is Some == b.docs.version is Some,
        a.slots() == b.slots(),
        a.subcommands@.len() == b.subcommands@.len(),
        forall|i: int|
            0 <= i < a.subcommands@.len() ==> a.subcommands@[i].docs.name@
                == b.subcommands@[i].docs.name@ && crate::input::text_of(
                a.subcommands@[i].docs.description,
            ) == crate::input::text_of(b.subcommands@[i].docs.description),
    ensures
        help_layout(a) == help_layout(b),
        help_text(a) == help_text(b),
{
    lemma_child_rows_stable(a.subcommands@, b.subcommands@, child_width(a.subcommands@));
    assert(head_rows(a.docs, " [options], <args>"@) =~= head_rows(b.docs, " [options], <args>"@));
    assert(head_rows(a.docs, " <subcommand>"@) =~= head_rows(b.docs, " <subcommand>"@));
}

} // verus!
