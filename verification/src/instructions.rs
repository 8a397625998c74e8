//! The activation banner placed above every emitted completion script.

use vstd::prelude::*;

use crate::shell::ShellKind;

verus! {

/// The banner's fixed opening: a comment naming the program and announcing
/// the activation command.
pub open spec fn instructions_header(bin: Seq<char>) -> Seq<char> {
    "# Shell completion for "@ + bin
        + "\n#\n# To enable completions, add this to your shell config:\n#\n#   "@
}

/// The shell-specific activation command, commented out, closing the banner.
pub open spec fn activation_hint(shell: ShellKind, bin: Seq<char>) -> Seq<char> {
    match shell {
        ShellKind::Bash => "source <("@ + bin + " completions bash)\n\n"@,
        ShellKind::Zsh => bin + " completions zsh > ~/.zsh/completions/_"@ + bin
            + "\n#   Ensure fpath includes ~/.zsh/completions\n\n"@,
        ShellKind::Fish => bin + " completions fish | source\n\n"@,
        ShellKind::PowerShell => bin + " completions powershell | Out-String | Invoke-Expression\n\n"@,
        ShellKind::Elvish => bin + " completions elvish | eval\n\n"@,
        ShellKind::Other(name) => bin + " completions "@ + name@ + "\n\n"@,
    }
}

/// The whole banner for one shell kind and program name.
pub open spec fn instructions_spec(shell: ShellKind, bin: Seq<char>) -> Seq<char> {
    instructions_header(bin) + activation_hint(shell, bin)
}

/// Render the banner explaining how to activate the completion script.
/// Total over the shell kinds: an unrecognized shell gets the generic
/// activation command.
pub fn render_instructions(shell: &ShellKind, bin_name: &str) -> (r: String)
    ensures
        r@ == instructions_spec(*shell, bin_name@),
{
    let mut r: String = ("# Shell completion for ").to_owned();
    r.append(bin_name);
    r.append("\n#\n# To enable completions, add this to your shell config:\n#\n#   ");
    proof {
        assert(r@ =~= instructions_header(bin_name@));
    }
    match shell {
        ShellKind::Bash => {
            r.append("source <(");
            r.append(bin_name);
            r.append(" completions bash)\n\n");
            proof {
                assert(r@ =~= instructions_spec(*shell, bin_name@));
            }
        },
        ShellKind::Zsh => {
            r.append(bin_name);
            r.append(" completions zsh > ~/.zsh/completions/_");
            r.append(bin_name);
            r.append("\n#   Ensure fpath includes ~/.zsh/completions\n\n");
            proof {
                assert(r@ =~= instructions_spec(*shell, bin_name@));
            }
        },
        ShellKind::Fish => {
            r.append(bin_name);
            r.append(" completions fish | source\n\n");
            proof {
                assert(r@ =~= instructions_spec(*shell, bin_name@));
            }
        },
        ShellKind::PowerShell => {
            r.append(bin_name);
            r.append(" completions powershell | Out-String | Invoke-Expression\n\n");
            proof {
                assert(r@ =~= instructions_spec(*shell, bin_name@));
            }
        },
        ShellKind::Elvish => {
            r.append(bin_name);
            r.append(" completions elvish | eval\n\n");
            proof {
                assert(r@ =~= instructions_spec(*shell, bin_name@));
            }
        },
        ShellKind::Other(name) => {
            r.append(bin_name);
            r.append(" completions ");
            r.append(name.as_str());
            r.append("\n\n");
            proof {
                assert(r@ =~= instructions_spec(*shell, bin_name@));
            }
        },
    }
    r
}

/// The banner is never empty, whatever the shell kind and program name.
pub proof fn lemma_instructions_nonempty(shell: ShellKind, bin: Seq<char>)
    ensures
        instructions_spec(shell, bin).len() > 0,
{
    reveal_strlit("# Shell completion for ");
}

} // verus!
