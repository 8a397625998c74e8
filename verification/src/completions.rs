//! The completion orchestrator.
//!
//! `generate` obtains the raw script for one shell from the external
//! generator, renders the instruction banner, dispatches the matching
//! augmentation pass, and hands back banner and augmented script as one
//! text. Writing that text to the output stream is the caller's step.

use vstd::prelude::*;

use crate::augment::augment_bash;
use crate::augment::augment_fish;
use crate::augment::augment_zsh;
use crate::augment::augmented_spec;
use crate::augment::bash_error_matches;
use crate::augment::lemma_augmented_nonempty;
use crate::instructions::instructions_spec;
use crate::instructions::lemma_instructions_nonempty;
use crate::instructions::render_instructions;
use crate::patch::PatchError;
use crate::shell::ShellKind;

verus! {

/// `clap::Command`, the external command-grammar type. Opaque here: it only
/// rides through to the external script generator.
#[verifier::external_type_specification]
#[verifier::external_body]
pub struct ExCommand(clap::Command);

/// Relies on `clap::Command::get_name`: returns the name the command was
/// defined with, copied into an owned string here.
#[verifier::external_body]
fn command_name(cmd: &clap::Command) -> (r: String) {
    cmd.get_name().to_owned()
}

/// Relies on `clap_complete::generate`: writes the static completion script
/// for one shell into a byte buffer. `None` when that output is not text;
/// the generator promises nothing about the script's shape, so neither does
/// this wrapper.
#[verifier::external_body]
fn static_script(shell: &ShellKind, cmd: &mut clap::Command, bin_name: &str) -> (r: Option<
    String,
>)
    requires
        shell.has_generator(),
{
    let target = match shell {
        ShellKind::Bash => clap_complete::Shell::Bash,
        ShellKind::Zsh => clap_complete::Shell::Zsh,
        ShellKind::Fish => clap_complete::Shell::Fish,
        ShellKind::PowerShell => clap_complete::Shell::PowerShell,
        ShellKind::Elvish => clap_complete::Shell::Elvish,
        ShellKind::Other(_) => return None,
    };
    let mut buffer: Vec<u8> = Vec::new();
    clap_complete::generate(target, cmd, bin_name.to_owned(), &mut buffer);
    String::from_utf8(buffer).ok()
}

/// Why `generate` failed: the external generator's output was not text, or
/// a Bash block patch found no anchor. Both are fatal mismatches with the
/// generator's promised output shape.
#[derive(Debug)]
pub enum GenerateError {
    NonTextOutput,
    Patch(PatchError),
}

/// Build the full output for one shell from the program name and the raw
/// generated script: the instruction banner, then the augmented script.
pub fn compose(shell: &ShellKind, bin_name: &str, script: String) -> (r: Result<
    String,
    PatchError,
>)
    ensures
        match r {
            Ok(out) => augmented_spec(*shell, script@) matches Some(a) && out@
                == instructions_spec(*shell, bin_name@) + a,
            Err(e) => {
                &&& *shell is Bash
                &&& augmented_spec(*shell, script@) is None
                &&& bash_error_matches(script@, e)
            },
        },
{
    let banner = render_instructions(shell, bin_name);
    let mut script = script;
    match shell {
        ShellKind::Bash => {
            match augment_bash(&mut script) {
                Ok(_) => {},
                Err(e) => {
                    return Err(e);
                },
            }
        },
        ShellKind::Zsh => augment_zsh(&mut script),
        ShellKind::Fish => augment_fish(&mut script),
        ShellKind::PowerShell => {},
        ShellKind::Elvish => {},
        ShellKind::Other(_) => {},
    }
    Ok(banner.concat(script.as_str()))
}

/// One well-formed emission: the banner for some program name, followed by
/// a successful augmentation of some raw script.
pub open spec fn generated_output(
    shell: ShellKind,
    out: Seq<char>,
    name: Seq<char>,
    raw: Seq<char>,
) -> bool {
    augmented_spec(shell, raw) matches Some(a) && out == instructions_spec(shell, name) + a
}

/// `out` is a well-formed emission for `shell`, for some program name and
/// raw script.
pub open spec fn is_generated_output(shell: ShellKind, out: Seq<char>) -> bool {
    exists|name: Seq<char>, raw: Seq<char>| #[trigger] generated_output(shell, out, name, raw)
}

/// `p` reports a Bash block patch that fails on some raw script.
pub open spec fn is_bash_patch_failure(p: PatchError) -> bool {
    exists|raw: Seq<char>| augmented_spec(ShellKind::Bash, raw) is None
        && #[trigger] bash_error_matches(raw, p)
}

/// Generate the augmented completion script for `shell` and the program the
/// grammar declares. The grammar — and with it the generator's raw script
/// and the program name — is opaque here, so the contract pins the output's
/// shape; `compose` carries the exact relation between a raw script and the
/// emitted text.
pub fn generate(cmd: &mut clap::Command, shell: &ShellKind) -> (r: Result<String, GenerateError>)
    requires
        shell.has_generator(),
    ensures
        r matches Ok(out) ==> is_generated_output(*shell, out@),
        r matches Err(GenerateError::Patch(p)) ==> *shell is Bash && is_bash_patch_failure(p),
{
    let name = command_name(cmd);
    let raw = match static_script(shell, cmd, name.as_str()) {
        Some(s) => s,
        None => {
            return Err(GenerateError::NonTextOutput);
        },
    };
    let ghost raw_view = raw@;
    match compose(shell, name.as_str(), raw) {
        Ok(out) => {
            proof {
                assert(is_generated_output(*shell, out@)) by {
                    assert(generated_output(*shell, out@, name@, raw_view));
                }
            }
            Ok(out)
        },
        Err(p) => {
            proof {
                assert(is_bash_patch_failure(p)) by {
                    assert(augmented_spec(*shell, raw_view) is None && bash_error_matches(
                        raw_view,
                        p,
                    ));
                }
            }
            Err(GenerateError::Patch(p))
        },
    }
}

/// Every emission opens with a non-empty banner, and its script part is
/// non-empty whenever augmentation succeeded on a non-empty raw script:
/// generation never degenerates to an empty output.
pub proof fn lemma_output_parts_nonempty(shell: ShellKind, name: Seq<char>, raw: Seq<char>)
    requires
        augmented_spec(shell, raw) is Some,
        raw.len() > 0,
    ensures
        instructions_spec(shell, name).len() > 0,
        augmented_spec(shell, raw)->0.len() > 0,
{
    lemma_instructions_nonempty(shell, name);
    lemma_augmented_nonempty(shell, raw);
}

} // verus!
