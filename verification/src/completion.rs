//! Shell completion output: which script the flags ask for, and the repair of
//! the case labels in the generated bash script.

use vstd::prelude::*;
use crate::text::{chars_of, string_from_chars, replace_str, replace_all};

verus! {

broadcast use vstd::string::group_string_axioms;

/// What the completion subcommand prints.
#[derive(Debug, Clone, Copy, PartialEq, Eq, Structural)]
pub enum CompletionOutput {
    /// The bash script, with its case labels repaired.
    Bash,
    /// The zsh script.
    Zsh,
    /// The fish script.
    Fish,
    /// The PowerShell script.
    PowerShell,
    /// A usage note naming the flags.
    Usage,
}

/// The first shell asked for, in the order `--bash`, `--zsh`, `--fish`,
/// `--powershell`, selects the script; with none, the usage note is printed.
pub fn completion_output(bash: bool, zsh: bool, fish: bool, powershell: bool) -> (r: CompletionOutput)
    ensures
        r == (if bash {
            CompletionOutput::Bash
        } else if zsh {
            CompletionOutput::Zsh
        } else if fish {
            CompletionOutput::Fish
        } else if powershell {
            CompletionOutput::PowerShell
        } else {
            CompletionOutput::Usage
        }),
{
    if bash {
        CompletionOutput::Bash
    } else if zsh {
        CompletionOutput::Zsh
    } else if fish {
        CompletionOutput::Fish
    } else if powershell {
        CompletionOutput::PowerShell
    } else {
        CompletionOutput::Usage
    }
}

/// The label prefix that the bash generator writes in the case statement.
pub open spec fn mismatched_label() -> Seq<char> {
    "opencode__subcmd__container__subcmd__"@
}

/// The label prefix that the generator's loop sets, which the labels must match.
pub open spec fn matching_label() -> Seq<char> {
    "opencode__container__subcmd__"@
}

/// Repairs the generated bash script: every occurrence of the mismatched case
/// label prefix becomes the prefix that the script's loop sets.
pub fn fix_bash_completion(script: &str) -> (r: String)
    ensures
        r@ == replace_all(script@, mismatched_label(), matching_label()),
{
    let s = chars_of(script);
    let pat = chars_of("opencode__subcmd__container__subcmd__");
    let rep = chars_of("opencode__container__subcmd__");
    proof {
        reveal_strlit("opencode__subcmd__container__subcmd__");
    }
    let out = replace_str(&s, &pat, &rep);
    string_from_chars(&out)
}

} // verus!
