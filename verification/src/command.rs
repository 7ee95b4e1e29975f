//! Command nodes and the tree they form.

use vstd::prelude::*;
use vstd::std_specs::convert::IntoSpec;
use crate::arg::Arg;
use crate::cli_error::CliResult;
use crate::input::{keep_with_prefix, Completor, Input, Slot};
use crate::symbol::Symbol;
use crate::text::words_match;
use crate::value::ValueKind;

verus! {

/// The identity of a command: its name, what it is for, and the names of the
/// commands above it, outermost first.
#[derive(Debug, Clone, PartialEq, Eq)]
pub struct DocInfo {
    pub name: String,
    pub version: Option<String>,
    pub description: Option<String>,
    pub parents: Vec<String>,
}

/// The words of `parents`, each followed by a space.
pub open spec fn path_prefix(parents: Seq<Seq<char>>) -> Seq<char>
    decreases parents.len(),
{
    if parents.len() == 0 {
        Seq::empty()
    } else {
        path_prefix(parents.drop_last()) + parents.last() + " "@
    }
}

/// The names from the root of the tree down to the command, separated by spaces.
pub open spec fn path_text(parents: Seq<Seq<char>>, name: Seq<char>) -> Seq<char> {
    path_prefix(parents) + name
}

impl Default for DocInfo {
    /// The identity of a command without a name.
    fn default() -> (r: DocInfo)
        ensures
            r.name@.len() == 0,
            r.version is None,
            r.description is None,
            r.parents@.len() == 0,
    {
        DocInfo { name: String::new(), version: None, description: None, parents: Vec::new() }
    }
}

impl DocInfo {
    /// The path of the command this describes.
    pub open spec fn path(&self) -> Seq<char> {
        path_text(self.parents.deep_view(), self.name@)
    }

    /// The names from the root of the tree down to this command, separated by spaces.
    pub fn cmd_path(&self) -> (r: String)
        ensures
            r@ == self.path(),
    {
        let mut path = String::new();
        let mut i: usize = 0;
        while i < self.parents.len()
            invariant
                i <= self.parents.len(),
                path@ == path_prefix(self.parents.deep_view().take(i as int)),
            decreases self.parents.len() - i,
        {
            let ghost all = self.parents.deep_view();
            assert(all.take(i + 1).drop_last() =~= all.take(i as int));
            path.append(self.parents[i].as_str());
            path.append(" ");
            i = i + 1;
        }
        assert(self.parents.deep_view().take(i as int) =~= self.parents.deep_view());
        path.append(self.name.as_str());
        path
    }

    /// A copy of this description.
    pub fn duplicate(&self) -> (r: DocInfo)
        ensures
            r.name@ == self.name@,
            crate::input::text_of(r.version) == crate::input::text_of(self.version),
            crate::input::text_of(r.description) == crate::input::text_of(self.description),
            r.parents.deep_view() == self.parents.deep_view(),
    {
        DocInfo {
            name: self.name.clone(),
            version: match &self.version {
                Some(v) => Some(v.clone()),
                None => None,
            },
            description: match &self.description {
                Some(d) => Some(d.clone()),
                None => None,
            },
            parents: copy_words(&self.parents),
        }
    }
}

/// The shells for which completions can be produced.
#[derive(Debug, Clone, Copy, PartialEq, Eq, Structural)]
pub enum CompletionMode {
    Bash,
    Fish,
    Zsh,
}

/// The shell that `name` names, the case of its letters set aside.
pub open spec fn shell_named(name: Seq<char>) -> Option<CompletionMode> {
    if crate::text::same_word(name, "bash"@) {
        Some(CompletionMode::Bash)
    } else if crate::text::same_word(name, "zsh"@) {
        Some(CompletionMode::Zsh)
    } else if crate::text::same_word(name, "fish"@) {
        Some(CompletionMode::Fish)
    } else {
        None
    }
}

impl CompletionMode {
    /// The shell that `s` names, if it names one.
    pub fn from_str(s: &str) -> (r: Option<CompletionMode>)
        ensures
            r == shell_named(s@),
    {
        if words_match(s, "bash") {
            Some(CompletionMode::Bash)
        } else if words_match(s, "zsh") {
            Some(CompletionMode::Zsh)
        } else if words_match(s, "fish") {
            Some(CompletionMode::Fish)
        } else {
            None
        }
    }
}

/// What a command does once its inputs are filled.
///
/// The inputs are handed over in the order of their declaration. Whatever the
/// handler returns is what parsing returns.
pub trait Handler {
    fn call(&mut self, inputs: &Vec<Symbol<'_>>) -> CliResult<()>;
}

/// A completor that suggests from a fixed list of words.
pub struct WordList {
    pub words: Vec<String>,
}

impl WordList {
    /// The words of the list that begin with `partial`, in their order.
    pub fn matching(&self, partial: &str) -> (r: Vec<String>)
        ensures
            r.deep_view() == crate::input::with_prefix(self.words.deep_view(), partial@),
    {
        keep_with_prefix(&self.words, partial)
    }
}

impl Completor for WordList {
    /// Suggests the words of the list that begin with `partial`, in their
    /// order. It never fails, and the list stays as it is.
    fn suggest(&mut self, partial: &str) -> (r: CliResult<Vec<String>>)
        ensures
            r is Ok,
            r->Ok_0.deep_view() == crate::input::with_prefix(
                old(self).words.deep_view(),
                partial@,
            ),
            final(self).words == old(self).words,
    {
        Ok(self.matching(partial))
    }
}

/// A node of the command tree.
pub struct Command<'a> {
    pub docs: DocInfo,
    /// The inputs, in the order of their declaration.
    pub symbols: Vec<Symbol<'a>>,
    /// The subcommands, in the order of their declaration.
    pub subcommands: Vec<Command<'a>>,
    pub handler: Option<Box<dyn Handler + 'a>>,
    /// For the command that hands out shell registration scripts: the name of
    /// the program they are written for.
    pub script_for: Option<String>,
}

impl<'a> Command<'a> {
    /// The states of the inputs, in the order of their declaration.
    pub open spec fn slots(&self) -> Seq<Slot> {
        Seq::new(self.symbols@.len(), |i: int| self.symbols@[i].slot())
    }

    /// The names of the subcommands, in the order of their declaration.
    pub open spec fn child_names(&self) -> Seq<Seq<char>> {
        Seq::new(self.subcommands@.len(), |i: int| self.subcommands@[i].docs.name@)
    }

    /// A command without inputs, subcommands or handler.
    pub fn name(name: &str) -> (r: Self)
        ensures
            r.docs.name@ == name@,
            r.docs.version is None,
            r.docs.description is None,
            r.docs.parents@.len() == 0,
            r.symbols@.len() == 0,
            r.subcommands@.len() == 0,
            r.handler is None,
            r.script_for is None,
            well_formed(r),
    {
        Command {
            docs: DocInfo {
                name: String::from_str(name),
                version: None,
                description: None,
                parents: Vec::new(),
            },
            symbols: Vec::new(),
            subcommands: Vec::new(),
            handler: None,
            script_for: None,
        }
    }

    /// Sets the text shown for this command in help and completions.
    pub fn description(self, description: &str) -> (r: Self)
        ensures
            crate::input::text_of(r.docs.description) == Some(description@),
            r.docs.name == self.docs.name,
            r.docs.version == self.docs.version,
            r.docs.parents == self.docs.parents,
            r.symbols == self.symbols,
            r.subcommands == self.subcommands,
            r.handler == self.handler,
            r.script_for == self.script_for,
            well_formed(self) ==> well_formed(r),
    {
        let mut cmd = self;
        cmd.docs.description = Some(String::from_str(description));
        cmd
    }

    /// Sets the version that `--version` reports.
    pub fn version(self, version: &str) -> (r: Self)
        ensures
            crate::input::text_of(r.docs.version) == Some(version@),
            r.docs.name == self.docs.name,
            r.docs.description == self.docs.description,
            r.docs.parents == self.docs.parents,
            r.symbols == self.symbols,
            r.subcommands == self.subcommands,
            r.handler == self.handler,
            r.script_for == self.script_for,
            well_formed(self) ==> well_formed(r),
    {
        let mut cmd = self;
        cmd.docs.version = Some(String::from_str(version));
        cmd
    }

    /// Adds an input after those already declared.
    pub fn input<T: Into<Symbol<'a>>>(self, input: T) -> (r: Self)
        ensures
            T::obeys_into_spec() ==> r.symbols@ == self.symbols@.push(input.into_spec()),
            T::obeys_into_spec() ==> r.slots() == self.slots().push(input.into_spec().slot()),
            T::obeys_into_spec() && well_formed(self) && can_join(
                self.slots(),
                input.into_spec().slot(),
            ) ==> well_formed(r),
            r.symbols@.len() == self.symbols@.len() + 1,
            r.symbols@.drop_last() == self.symbols@,
            r.docs == self.docs,
            r.subcommands == self.subcommands,
            r.handler == self.handler,
            r.script_for == self.script_for,
    {
        let mut cmd = self;
        cmd.symbols.push(input.into());
        proof {
            if T::obeys_into_spec() {
                assert(cmd.slots() =~= self.slots().push(input.into_spec().slot()));
            }
        }
        cmd
    }

    /// Binds the handler; an earlier one is replaced.
    pub fn handler<H: Handler + 'a>(self, handler: H) -> (r: Self)
        ensures
            r.handler is Some,
            r.docs == self.docs,
            r.symbols == self.symbols,
            r.subcommands == self.subcommands,
            r.script_for == self.script_for,
            well_formed(self) ==> well_formed(r),
    {
        let mut cmd = self;
        cmd.handler = Some(Box::new(handler));
        cmd
    }
}

/// Whether no two inputs of one kind share a name.
pub open spec fn unique_names(slots: Seq<Slot>) -> bool {
    forall|i: int, j: int|
        0 <= i < j < slots.len() && (#[trigger] slots[i]).kind == (#[trigger] slots[j]).kind
            ==> slots[i].name != slots[j].name
}

/// Whether every input is well-formed.
pub open spec fn all_wf(slots: Seq<Slot>) -> bool {
    forall|i: int| 0 <= i < slots.len() ==> (#[trigger] slots[i]).wf()
}

/// Whether `cmd` and every command below it is well-formed: the inputs hold
/// values of their kinds, no two inputs of one kind share a name, and each
/// subcommand knows the path that leads to it.
pub open spec fn well_formed(cmd: Command) -> bool
    decreases cmd,
{
    &&& all_wf(cmd.slots())
    &&& unique_names(cmd.slots())
    &&& forall|i: int|
        0 <= i < cmd.subcommands@.len() ==> {
            &&& (#[trigger] cmd.subcommands@[i]).docs.parents.deep_view()
                == cmd.docs.parents.deep_view().push(cmd.docs.name@)
            &&& well_formed(cmd.subcommands@[i])
        }
}

/// Whether an input in the state `s` can join `slots`: it is well-formed and
/// no input of its kind has its name.
pub open spec fn can_join(slots: Seq<Slot>, s: Slot) -> bool {
    &&& s.wf()
    &&& forall|i: int|
        0 <= i < slots.len() && (#[trigger] slots[i]).kind == s.kind ==> slots[i].name != s.name
}

/// Putting names in front of the paths of a well-formed tree leaves it well-formed.
pub proof fn lemma_adopted_well_formed(pre: Command, post: Command, ancestry: Seq<Seq<char>>)
    requires
        adopted(pre, post, ancestry),
        well_formed(pre),
    ensures
        well_formed(post),
    decreases pre,
{
    assert forall|i: int| 0 <= i < post.subcommands@.len() implies {
        &&& (#[trigger] post.subcommands@[i]).docs.parents.deep_view()
            == post.docs.parents.deep_view().push(post.docs.name@)
        &&& well_formed(post.subcommands@[i])
    } by {
        let a = pre.subcommands@[i];
        let b = post.subcommands@[i];
        lemma_adopted_well_formed(a, b, ancestry);
    }
}

/// Whether `post` is `pre` with `ancestry` put in front of the parent names of
/// the command and of every command below it.
pub open spec fn adopted(pre: Command, post: Command, ancestry: Seq<Seq<char>>) -> bool
    decreases pre,
{
    &&& post.docs.name == pre.docs.name
    &&& post.docs.version == pre.docs.version
    &&& post.docs.description == pre.docs.description
    &&& post.docs.parents.deep_view() == ancestry + pre.docs.parents.deep_view()
    &&& post.symbols == pre.symbols
    &&& post.handler == pre.handler
    &&& post.script_for == pre.script_for
    &&& post.subcommands@.len() == pre.subcommands@.len()
    &&& forall|i: int|
        0 <= i < pre.subcommands@.len() ==> adopted(
            #[trigger] pre.subcommands@[i],
            post.subcommands@[i],
            ancestry,
        )
}

/// A copy of `words`.
pub fn copy_words(words: &Vec<String>) -> (r: Vec<String>)
    ensures
        r.deep_view() == words.deep_view(),
{
    let mut out: Vec<String> = Vec::new();
    let mut i: usize = 0;
    while i < words.len()
        invariant
            i <= words.len(),
            out@.len() == i,
            forall|j: int| 0 <= j < i ==> out@[j]@ == words@[j]@,
        decreases words.len() - i,
    {
        out.push(words[i].clone());
        i = i + 1;
    }
    out
}

impl<'a> Command<'a> {
    /// Puts `ancestry` in front of the parent names of this command and of
    /// every command below it.
    pub fn adopt(&mut self, ancestry: &Vec<String>)
        ensures
            adopted(*old(self), *final(self), ancestry.deep_view()),
        decreases *old(self),
    {
        let mut parents = copy_words(ancestry);
        let ghost front = parents.deep_view();
        let mut k: usize = 0;
        while k < self.docs.parents.len()
            invariant
                k <= self.docs.parents.len(),
                *self == *old(self),
                parents.deep_view() == front + self.docs.parents.deep_view().take(k as int),
            decreases self.docs.parents.len() - k,
        {
            let ghost before = parents.deep_view();
            parents.push(self.docs.parents[k].clone());
            assert(parents.deep_view() =~= before.push(self.docs.parents@[k as int]@));
            k = k + 1;
        }
        self.docs.parents = parents;
        let mut i: usize = 0;
        while i < self.subcommands.len()
            invariant
                i <= self.subcommands.len(),
                self.docs.name == old(self).docs.name,
                self.docs.version == old(self).docs.version,
                self.docs.description == old(self).docs.description,
                self.docs.parents.deep_view() == ancestry.deep_view() + old(
                    self,
                ).docs.parents.deep_view(),
                self.symbols == old(self).symbols,
                self.handler == old(self).handler,
                self.script_for == old(self).script_for,
                self.subcommands@.len() == old(self).subcommands@.len(),
                forall|j: int|
                    0 <= j < i ==> adopted(
                        #[trigger] old(self).subcommands@[j],
                        self.subcommands@[j],
                        ancestry.deep_view(),
                    ),
                forall|j: int|
                    i <= j < self.subcommands@.len() ==> self.subcommands@[j] == old(
                        self,
                    ).subcommands@[j],
            decreases self.subcommands.len() - i,
        {
            self.subcommands[i].adopt(ancestry);
            i = i + 1;
        }
    }

    /// Adds a subcommand after those already declared. The subcommand, and
    /// every command below it, learns the path that leads to it.
    pub fn subcommand(self, sub: Command<'a>) -> (r: Self)
        ensures
            r.subcommands@.len() == self.subcommands@.len() + 1,
            r.subcommands@.drop_last() == self.subcommands@,
            adopted(
                sub,
                r.subcommands@.last(),
                self.docs.parents.deep_view().push(self.docs.name@),
            ),
            r.docs == self.docs,
            r.symbols == self.symbols,
            r.handler == self.handler,
            r.script_for == self.script_for,
            well_formed(self) && well_formed(sub) && sub.docs.parents@.len() == 0
                ==> well_formed(r),
    {
        let mut cmd = self;
        let mut sub = sub;
        let mut ancestry = copy_words(&cmd.docs.parents);
        ancestry.push(cmd.docs.name.clone());
        assert(ancestry.deep_view() =~= self.docs.parents.deep_view().push(self.docs.name@));
        let ghost fresh = sub;
        sub.adopt(&ancestry);
        cmd.subcommands.push(sub);
        proof {
            if well_formed(self) && well_formed(fresh) && fresh.docs.parents@.len() == 0 {
                lemma_adopted_well_formed(fresh, sub, ancestry.deep_view());
            }
        }
        cmd
    }

    /// Adds the subcommand `completions`, which takes the name of a shell and
    /// hands out the script that registers completions for this program.
    pub fn with_completions(self) -> (r: Self)
        ensures
            r.subcommands@.len() == self.subcommands@.len() + 1,
            r.subcommands@.drop_last() == self.subcommands@,
            r.docs == self.docs,
            r.symbols == self.symbols,
            r.handler == self.handler,
            r.script_for == self.script_for,
            r.subcommands@.last().docs.name@ == "completions"@,
            crate::input::text_of(r.subcommands@.last().docs.description) == Some(
                "generate completions for a given shell"@,
            ),
            r.subcommands@.last().docs.parents.deep_view() == self.docs.parents.deep_view().push(
                self.docs.name@,
            ),
            crate::input::text_of(r.subcommands@.last().script_for) == Some(self.docs.name@),
            r.subcommands@.last().subcommands@.len() == 0,
            r.subcommands@.last().handler is None,
            well_formed(self) ==> well_formed(r),
            r.subcommands@.last().slots() == seq![
                Slot {
                    name: "shell"@,
                    description: None,
                    kind: crate::input::InputType::Arg,
                    bool_flag: false,
                    domain: crate::value::Domain::Choice(seq!["bash"@, "zsh"@, "fish"@]),
                    value: None,
                    default_value: None,
                    has_completor: true,
                },
            ],
    {
        let shell = Arg::name("shell", ValueKind::Choice(shell_words())).completor(
            WordList { words: shell_words() },
        );
        let mut sub = Command::name("completions").description(
            "generate completions for a given shell",
        ).input(shell);
        sub.script_for = Some(self.docs.name.clone());
        self.subcommand(sub)
    }
}

/// The names of the shells, in the order in which they are offered.
pub fn shell_words() -> (r: Vec<String>)
    ensures
        r.deep_view() == seq!["bash"@, "zsh"@, "fish"@],
{
    let mut words: Vec<String> = Vec::new();
    words.push(String::from_str("bash"));
    words.push(String::from_str("zsh"));
    words.push(String::from_str("fish"));
    words
}

} // verus!
