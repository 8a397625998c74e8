//! Shell-specific augmentation passes.
//!
//! Each pass takes the raw generated script for one shell and rewires its
//! profile completion so that candidates come from running the host
//! program's `list` subcommand at completion time. Bash gets two whole case
//! blocks replaced and helper functions appended; Zsh gets two marker
//! strings rewritten (each silently skipped when absent) and helpers
//! appended; Fish only gets helpers and registrations appended.

use vstd::prelude::*;

use crate::patch::PatchError;
use crate::patch::block_error_matches;
use crate::patch::find_at;
use crate::patch::lemma_find_at_found;
use crate::patch::lemma_replace_first_regions;
use crate::patch::replace_block_spec;
use crate::patch::replace_case_block;
use crate::patch::replace_first;
use crate::patch::replace_first_spec;
use crate::shell::ShellKind;

verus! {

/// Label of the root command's completion case block.
pub open spec fn bash_root_label() -> Seq<char> {
    "prompter"@
}

/// Label of the `run` subcommand's completion case block.
pub open spec fn bash_run_label() -> Seq<char> {
    "prompter__run"@
}

/// The dynamic root-command block: static flags and subcommands, plus any
/// profile names the listing helper returns when the current word is not a
/// flag.
pub open spec fn bash_root_replacement() -> Seq<char> {
    r#"        prompter)
            opts="-s -p -P -c -h -V --separator --pre-prompt --post-prompt --config --help --version version license init list validate run completions doctor update help"
            if [[ ${cur} == -* ]]; then
                COMPREPLY=( $(compgen -W "${opts}" -- "${cur}") )
                return 0
            fi
            case "${prev}" in
                --config|-c)
                    COMPREPLY=( $(compgen -f -- "${cur}") )
                    return 0
                    ;;
                --separator|-s|--pre-prompt|-p|--post-prompt|-P)
                    return 0
                    ;;
            esac
            local profiles="$(__prompter_bash_list_profiles)"
            if [[ -n ${profiles} ]]; then
                COMPREPLY=( $(compgen -W "${opts} ${profiles}" -- "${cur}") )
            else
                COMPREPLY=( $(compgen -W "${opts}" -- "${cur}") )
            fi
            return 0
            ;;"#@
}

fn bash_root_replacement_text() -> (r: &'static str)
    ensures
        r@ == bash_root_replacement(),
{
    r#"        prompter)
            opts="-s -p -P -c -h -V --separator --pre-prompt --post-prompt --config --help --version version license init list validate run completions doctor update help"
            if [[ ${cur} == -* ]]; then
                COMPREPLY=( $(compgen -W "${opts}" -- "${cur}") )
                return 0
            fi
            case "${prev}" in
                --config|-c)
                    COMPREPLY=( $(compgen -f -- "${cur}") )
                    return 0
                    ;;
                --separator|-s|--pre-prompt|-p|--post-prompt|-P)
                    return 0
                    ;;
            esac
            local profiles="$(__prompter_bash_list_profiles)"
            if [[ -n ${profiles} ]]; then
                COMPREPLY=( $(compgen -W "${opts} ${profiles}" -- "${cur}") )
            else
                COMPREPLY=( $(compgen -W "${opts}" -- "${cur}") )
            fi
            return 0
            ;;"#
}

/// The dynamic `run` block: its own flag set, and only profile names as
/// candidates when the current word is not a flag.
pub open spec fn bash_run_replacement() -> Seq<char> {
    r#"        prompter__run)
            opts="-s -p -P -c -h --separator --pre-prompt --post-prompt --config --help"
            if [[ ${cur} == -* ]]; then
                COMPREPLY=( $(compgen -W "${opts}" -- "${cur}") )
                return 0
            fi
            case "${prev}" in
                --config|-c)
                    COMPREPLY=( $(compgen -f -- "${cur}") )
                    return 0
                    ;;
                --separator|-s|--pre-prompt|-p|--post-prompt|-P)
                    return 0
                    ;;
            esac
            local profiles="$(__prompter_bash_list_profiles)"
            if [[ -n ${profiles} ]]; then
                COMPREPLY=( $(compgen -W "${profiles}" -- "${cur}") )
            fi
            return 0
            ;;"#@
}

fn bash_run_replacement_text() -> (r: &'static str)
    ensures
        r@ == bash_run_replacement(),
{
    r#"        prompter__run)
            opts="-s -p -P -c -h --separator --pre-prompt --post-prompt --config --help"
            if [[ ${cur} == -* ]]; then
                COMPREPLY=( $(compgen -W "${opts}" -- "${cur}") )
                return 0
            fi
            case "${prev}" in
                --config|-c)
                    COMPREPLY=( $(compgen -f -- "${cur}") )
                    return 0
                    ;;
                --separator|-s|--pre-prompt|-p|--post-prompt|-P)
                    return 0
                    ;;
            esac
            local profiles="$(__prompter_bash_list_profiles)"
            if [[ -n ${profiles} ]]; then
                COMPREPLY=( $(compgen -W "${profiles}" -- "${cur}") )
            fi
            return 0
            ;;"#
}

/// The helper functions appended to every augmented Bash script, minus the
/// blank line that introduces them.
pub open spec fn bash_helpers_body() -> Seq<char> {
    r#"# Dynamic profile helpers appended by prompter.
__prompter_bash_config_value() {
    local idx=1
    local total=${#COMP_WORDS[@]}
    while [[ ${idx} -lt ${total} ]]; do
        case "${COMP_WORDS[idx]}" in
            --config|-c)
                if [[ $((idx + 1)) -lt ${total} ]]; then
                    echo "${COMP_WORDS[idx+1]}"
                fi
                return
                ;;
        esac
        ((idx++))
    done
}

__prompter_bash_list_profiles() {
    local cfg="$(__prompter_bash_config_value)"
    if [[ -n "${cfg}" ]]; then
        prompter list --config "${cfg}" 2>/dev/null
    else
        prompter list 2>/dev/null
    fi
}
"#@
}

fn bash_helpers_body_text() -> (r: &'static str)
    ensures
        r@ == bash_helpers_body(),
{
    r#"# Dynamic profile helpers appended by prompter.
__prompter_bash_config_value() {
    local idx=1
    local total=${#COMP_WORDS[@]}
    while [[ ${idx} -lt ${total} ]]; do
        case "${COMP_WORDS[idx]}" in
            --config|-c)
                if [[ $((idx + 1)) -lt ${total} ]]; then
                    echo "${COMP_WORDS[idx+1]}"
                fi
                return
                ;;
        esac
        ((idx++))
    done
}

__prompter_bash_list_profiles() {
    local cfg="$(__prompter_bash_config_value)"
    if [[ -n "${cfg}" ]]; then
        prompter list --config "${cfg}" 2>/dev/null
    else
        prompter list 2>/dev/null
    fi
}
"#
}

/// The full Bash helper block: a blank line, then the helper functions.
pub open spec fn bash_helpers() -> Seq<char> {
    "\n"@ + bash_helpers_body()
}

/// The script after the whole Bash augmentation: both case blocks replaced,
/// then the helper block appended; `None` when either block patch fails.
pub open spec fn bash_augmented(s: Seq<char>) -> Option<Seq<char>> {
    match replace_block_spec(s, bash_root_label(), bash_root_replacement()) {
        None => None,
        Some(t) => match replace_block_spec(t, bash_run_label(), bash_run_replacement()) {
            None => None,
            Some(u) => Some(u + bash_helpers()),
        },
    }
}

/// `e` names the first of the two Bash block patches that failed on `s`.
pub open spec fn bash_error_matches(s: Seq<char>, e: PatchError) -> bool {
    match replace_block_spec(s, bash_root_label(), bash_root_replacement()) {
        None => block_error_matches(s, bash_root_label(), e),
        Some(t) => block_error_matches(t, bash_run_label(), e),
    }
}

/// Rewire a raw Bash completion script for dynamic profile completion.
/// A missing anchor is a fatal mismatch with the generator's output shape:
/// the error reports which block could not be patched.
pub fn augment_bash(script: &mut String) -> (r: Result<(), PatchError>)
    ensures
        match r {
            Ok(_) => bash_augmented(old(script)@) matches Some(a) && final(script)@ == a,
            Err(e) => {
                &&& bash_augmented(old(script)@) is None
                &&& bash_error_matches(old(script)@, e)
                &&& match replace_block_spec(
                    old(script)@,
                    bash_root_label(),
                    bash_root_replacement(),
                ) {
                    None => final(script)@ == old(script)@,
                    Some(t) => final(script)@ == t,
                }
            },
        },
{
    match replace_case_block(script, "prompter", bash_root_replacement_text()) {
        Ok(_) => {},
        Err(e) => {
            return Err(e);
        },
    }
    match replace_case_block(script, "prompter__run", bash_run_replacement_text()) {
        Ok(_) => {},
        Err(e) => {
            return Err(e);
        },
    }
    let ghost patched = script@;
    script.append("\n");
    script.append(bash_helpers_body_text());
    proof {
        assert(script@ =~= patched + bash_helpers());
    }
    Ok(())
}

/// Marker of the root shorthand profile argument in a raw Zsh script.
pub open spec fn zsh_root_marker() -> Seq<char> {
    "::profile -- Profile to render (shorthand for 'run `<profile>`'):_default"@
}

/// Its rewrite: completion through the dynamic profile function.
pub open spec fn zsh_root_rewrite() -> Seq<char> {
    "::profile -- Profile to render (shorthand for 'run `<profile>`'):_prompter_dynamic_profiles"@
}

/// Marker of the `run` subcommand's variadic profile arguments.
pub open spec fn zsh_run_marker() -> Seq<char> {
    "*::profiles -- Profile name(s) to render:_default"@
}

/// Its rewrite: completion through the dynamic profile function.
pub open spec fn zsh_run_rewrite() -> Seq<char> {
    "*::profiles -- Profile name(s) to render:_prompter_dynamic_profiles"@
}

/// The helper functions appended to every augmented Zsh script, minus the
/// blank line that introduces them.
pub open spec fn zsh_helpers_body() -> Seq<char> {
    r#"_prompter_config_value() {
    local idx=1
    local count=$#words
    while (( idx <= count )); do
        case ${words[idx]} in
            --config|-c)
                (( idx++ ))
                if (( idx <= count )); then
                    echo ${words[idx]}
                fi
                return
                ;;
        esac
        (( idx++ ))
    done
}

_prompter_dynamic_profiles() {
    local cfg=$(_prompter_config_value)
    local -a profiles
    if [[ -n ${cfg} ]]; then
        profiles=(${(f)"$(prompter list --config ${cfg:q} 2>/dev/null)"})
    else
        profiles=(${(f)"$(prompter list 2>/dev/null)"})
    fi
    if (( ${#profiles} )); then
        compadd -a profiles
        return 0
    fi
    return 1
}
"#@
}

fn zsh_helpers_body_text() -> (r: &'static str)
    ensures
        r@ == zsh_helpers_body(),
{
    r#"_prompter_config_value() {
    local idx=1
    local count=$#words
    while (( idx <= count )); do
        case ${words[idx]} in
            --config|-c)
                (( idx++ ))
                if (( idx <= count )); then
                    echo ${words[idx]}
                fi
                return
                ;;
        esac
        (( idx++ ))
    done
}

_prompter_dynamic_profiles() {
    local cfg=$(_prompter_config_value)
    local -a profiles
    if [[ -n ${cfg} ]]; then
        profiles=(${(f)"$(prompter list --config ${cfg:q} 2>/dev/null)"})
    else
        profiles=(${(f)"$(prompter list 2>/dev/null)"})
    fi
    if (( ${#profiles} )); then
        compadd -a profiles
        return 0
    fi
    return 1
}
"#
}

/// The full Zsh helper block: a blank line, then the helper functions.
pub open spec fn zsh_helpers() -> Seq<char> {
    "\n"@ + zsh_helpers_body()
}

/// The script after the whole Zsh augmentation: each marker's first
/// occurrence rewritten where present, then the helper block appended.
pub open spec fn zsh_augmented(s: Seq<char>) -> Seq<char> {
    replace_first_spec(
        replace_first_spec(s, zsh_root_marker(), zsh_root_rewrite()),
        zsh_run_marker(),
        zsh_run_rewrite(),
    ) + zsh_helpers()
}

/// Rewire a raw Zsh completion script for dynamic profile completion.
/// A marker that is absent is skipped silently: the generator may omit the
/// shorthand form, and that must not abort script generation.
pub fn augment_zsh(script: &mut String)
    ensures
        final(script)@ == zsh_augmented(old(script)@),
{
    replace_first(
        script,
        "::profile -- Profile to render (shorthand for 'run `<profile>`'):_default",
        "::profile -- Profile to render (shorthand for 'run `<profile>`'):_prompter_dynamic_profiles",
    );
    replace_first(
        script,
        "*::profiles -- Profile name(s) to render:_default",
        "*::profiles -- Profile name(s) to render:_prompter_dynamic_profiles",
    );
    let ghost rewritten = script@;
    script.append("\n");
    script.append(zsh_helpers_body_text());
    proof {
        assert(script@ =~= rewritten + zsh_helpers());
    }
}

/// The helper functions and `complete` registrations appended to every Fish
/// script, minus the blank line that introduces them.
pub open spec fn fish_helpers_body() -> Seq<char> {
    r#"function __fish_prompter__config_arg
	set -l tokens (commandline -opc)
	set -e tokens[1]
	for idx in (seq (count $tokens))
		switch $tokens[$idx]
			case '--config'
				set -l next (math $idx + 1)
				if test $next -le (count $tokens)
					echo $tokens[$next]
				end
				return
			case '-c'
				set -l next (math $idx + 1)
				if test $next -le (count $tokens)
					echo $tokens[$next]
				end
				return
		end
	end
end

function __fish_prompter__profiles
	set -l cfg (__fish_prompter__config_arg)
	if test -n "$cfg"
		prompter list --config "$cfg" 2>/dev/null
	else
		prompter list 2>/dev/null
	end
end

complete -c prompter -n "__fish_prompter_needs_command" -f -a "(__fish_prompter__profiles)" -d 'Profile'
complete -c prompter -n "__fish_prompter_using_subcommand run" -f -a "(__fish_prompter__profiles)" -d 'Profile'
"#@
}

fn fish_helpers_body_text() -> (r: &'static str)
    ensures
        r@ == fish_helpers_body(),
{
    r#"function __fish_prompter__config_arg
	set -l tokens (commandline -opc)
	set -e tokens[1]
	for idx in (seq (count $tokens))
		switch $tokens[$idx]
			case '--config'
				set -l next (math $idx + 1)
				if test $next -le (count $tokens)
					echo $tokens[$next]
				end
				return
			case '-c'
				set -l next (math $idx + 1)
				if test $next -le (count $tokens)
					echo $tokens[$next]
				end
				return
		end
	end
end

function __fish_prompter__profiles
	set -l cfg (__fish_prompter__config_arg)
	if test -n "$cfg"
		prompter list --config "$cfg" 2>/dev/null
	else
		prompter list 2>/dev/null
	end
end

complete -c prompter -n "__fish_prompter_needs_command" -f -a "(__fish_prompter__profiles)" -d 'Profile'
complete -c prompter -n "__fish_prompter_using_subcommand run" -f -a "(__fish_prompter__profiles)" -d 'Profile'
"#
}

/// The full Fish helper block: a blank line, then the helper functions and
/// the two `complete` registrations.
pub open spec fn fish_helpers() -> Seq<char> {
    "\n"@ + fish_helpers_body()
}

/// Rewire a raw Fish completion script for dynamic profile completion.
/// Fish needs no in-place patching: the two appended registrations take
/// over profile completion.
pub fn augment_fish(script: &mut String)
    ensures
        final(script)@ == old(script)@ + fish_helpers(),
{
    script.append("\n");
    script.append(fish_helpers_body_text());
    proof {
        assert(script@ =~= old(script)@ + fish_helpers());
    }
}

/// What augmentation makes of a raw script, by shell kind: Bash may fail on
/// a missing anchor; the other kinds always succeed, and kinds without an
/// augmenter pass the script through unchanged.
pub open spec fn augmented_spec(shell: ShellKind, s: Seq<char>) -> Option<Seq<char>> {
    match shell {
        ShellKind::Bash => bash_augmented(s),
        ShellKind::Zsh => Some(zsh_augmented(s)),
        ShellKind::Fish => Some(s + fish_helpers()),
        ShellKind::PowerShell => Some(s),
        ShellKind::Elvish => Some(s),
        ShellKind::Other(_) => Some(s),
    }
}

/// Augmentation succeeds on every raw script for every shell kind but Bash;
/// only the Bash pass can fail, and only on a script without its anchors.
pub proof fn lemma_augmentation_total_except_bash(shell: ShellKind, s: Seq<char>)
    requires
        !(shell is Bash),
    ensures
        augmented_spec(shell, s) is Some,
{
}

/// A successful augmentation of a non-empty raw script is non-empty, for
/// every shell kind.
pub proof fn lemma_augmented_nonempty(shell: ShellKind, s: Seq<char>)
    requires
        augmented_spec(shell, s) is Some,
        s.len() > 0,
    ensures
        augmented_spec(shell, s)->0.len() > 0,
{
    reveal_strlit("\n");
}

/// A successfully augmented Bash script ends with the helper block — the
/// text that defines the dynamic profile-listing helper.
pub proof fn lemma_bash_augmented_ends_with_helpers(s: Seq<char>)
    requires
        bash_augmented(s) is Some,
    ensures
        bash_helpers().len() <= bash_augmented(s)->0.len(),
        bash_augmented(s)->0.subrange(
            bash_augmented(s)->0.len() - bash_helpers().len(),
            bash_augmented(s)->0.len() as int,
        ) == bash_helpers(),
{
    let a = bash_augmented(s)->0;
    assert(a.subrange(a.len() - bash_helpers().len(), a.len() as int) =~= bash_helpers());
}

/// An augmented Fish script ends with the helper block — the profile
/// helpers and the two `complete` registrations.
pub proof fn lemma_fish_augmented_ends_with_helpers(s: Seq<char>)
    ensures
        (s + fish_helpers()).subrange(s.len() as int, (s + fish_helpers()).len() as int)
            == fish_helpers(),
{
    assert((s + fish_helpers()).subrange(s.len() as int, (s + fish_helpers()).len() as int)
        =~= fish_helpers());
}

/// When the run-subcommand variadic marker stands in the script after the
/// root rewrite — in particular, whenever the raw script holds it and the
/// root marker is absent — the corresponding region of the augmented Zsh
/// script holds the dynamic rewrite, not the default one.
pub proof fn lemma_zsh_run_marker_rewritten(s: Seq<char>, j: int)
    requires
        find_at(
            replace_first_spec(s, zsh_root_marker(), zsh_root_rewrite()),
            zsh_run_marker(),
            0,
        ) == Some(j),
    ensures
        zsh_augmented(s).subrange(j, j + zsh_run_rewrite().len()) == zsh_run_rewrite(),
{
    let t = replace_first_spec(s, zsh_root_marker(), zsh_root_rewrite());
    let u = replace_first_spec(t, zsh_run_marker(), zsh_run_rewrite());
    lemma_find_at_found(t, zsh_run_marker(), 0, j);
    lemma_replace_first_regions(t, zsh_run_marker(), zsh_run_rewrite(), j);
    assert(zsh_augmented(s).subrange(j, j + zsh_run_rewrite().len()) =~= u.subrange(
        j,
        j + zsh_run_rewrite().len(),
    ));
}

/// When the raw script holds the root shorthand marker, the corresponding
/// region of the augmented Zsh script holds the dynamic rewrite, not the
/// default one. The run rewrite that follows cannot disturb that region
/// unless the run marker's first occurrence begins inside or before it;
/// that degenerate overlap is excluded here.
pub proof fn lemma_zsh_root_marker_rewritten(s: Seq<char>, i: int)
    requires
        find_at(s, zsh_root_marker(), 0) == Some(i),
        match find_at(
            replace_first_spec(s, zsh_root_marker(), zsh_root_rewrite()),
            zsh_run_marker(),
            0,
        ) {
            None => true,
            Some(j) => j >= i + zsh_root_rewrite().len(),
        },
    ensures
        zsh_augmented(s).subrange(i, i + zsh_root_rewrite().len()) == zsh_root_rewrite(),
{
    let t = replace_first_spec(s, zsh_root_marker(), zsh_root_rewrite());
    let u = replace_first_spec(t, zsh_run_marker(), zsh_run_rewrite());
    lemma_find_at_found(s, zsh_root_marker(), 0, i);
    lemma_replace_first_regions(s, zsh_root_marker(), zsh_root_rewrite(), i);
    match find_at(t, zsh_run_marker(), 0) {
        None => {
            assert(u == t);
        },
        Some(j) => {
            lemma_find_at_found(t, zsh_run_marker(), 0, j);
            lemma_replace_first_regions(t, zsh_run_marker(), zsh_run_rewrite(), j);
            let l = zsh_root_rewrite().len() as int;
            assert(u.subrange(i, i + l) =~= u.subrange(0, j).subrange(i, i + l));
            assert(t.subrange(0, j).subrange(i, i + l) =~= t.subrange(i, i + l));
            assert(u.subrange(0, j) == t.subrange(0, j));
        },
    }
    assert(zsh_augmented(s).subrange(i, i + zsh_root_rewrite().len()) =~= u.subrange(
        i,
        i + zsh_root_rewrite().len(),
    ));
}

} // verus!
