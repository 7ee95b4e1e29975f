//! The scripts that register completions with a shell.

use vstd::prelude::*;
use crate::command::CompletionMode;

verus! {

/// The registration script for `shell`, written for the program `name`.
pub open spec fn script_text(shell: CompletionMode, name: Seq<char>) -> Seq<char> {
    match shell {
        CompletionMode::Bash => "\n_"@ + name + "_complete_()\n{\n    _COMP_OUTPUTSTR=\"$( "@ + name
            + " complete bash ${COMP_CWORD} \"${COMP_WORDS[*]}\" )\"\n    if test $? -ne 0; then\n        return 1\n    fi\n    COMPREPLY=($( echo -n \"$_COMP_OUTPUTSTR\" ))\n}\ncomplete -o nospace -F _"@
            + name + "_complete_ "@ + name + " -E\n                        "@,
        CompletionMode::Fish => "complete -c "@ + name
            + " -f --condition \"not __fish_seen_subcommand_from file-command non-file-command\" -a '("@
            + name + " complete fish 0 (commandline -cp))'"@,
        CompletionMode::Zsh => "\n#compdef "@ + name + "\nfunction _"@ + name
            + " {\n    comp_ouput=$( "@ + name
            + " complete zsh \"$(($CURRENT - 1))\" \"${words[*]}\" )\n    eval ${comp_output}\n}\n"@,
    }
}

impl CompletionMode {
    /// The script that registers completions for the program `name` with this shell.
    pub fn script(&self, name: &str) -> (r: String)
        ensures
            r@ == script_text(*self, name@),
    {
        let mut out = String::new();
        match self {
            CompletionMode::Bash => {
                out.append("\n_");
                out.append(name);
                out.append("_complete_()\n{\n    _COMP_OUTPUTSTR=\"$( ");
                out.append(name);
                out.append(
                    " complete bash ${COMP_CWORD} \"${COMP_WORDS[*]}\" )\"\n    if test $? -ne 0; then\n        return 1\n    fi\n    COMPREPLY=($( echo -n \"$_COMP_OUTPUTSTR\" ))\n}\ncomplete -o nospace -F _",
                );
                out.append(name);
                out.append("_complete_ ");
                out.append(name);
                out.append(" -E\n                        ");
            },
            CompletionMode::Fish => {
                out.append("complete -c ");
                out.append(name);
                out.append(
                    " -f --condition \"not __fish_seen_subcommand_from file-command non-file-command\" -a '(",
                );
                out.append(name);
                out.append(" complete fish 0 (commandline -cp))'");
            },
            CompletionMode::Zsh => {
                out.append("\n#compdef ");
                out.append(name);
                out.append("\nfunction _");
                out.append(name);
                out.append(" {\n    comp_ouput=$( ");
                out.append(name);
                out.append(
                    " complete zsh \"$(($CURRENT - 1))\" \"${words[*]}\" )\n    eval ${comp_output}\n}\n",
                );
            },
        }
        out
    }
}

} // verus!
