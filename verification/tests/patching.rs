//! Unit tests of the anchor patcher, the marker rewrite, and the
//! instruction banner, on synthetic scripts.

use prompter_completions::ShellKind;
use prompter_completions::augment::augment_zsh;
use prompter_completions::completions::compose;
use prompter_completions::instructions::render_instructions;
use prompter_completions::patch::PatchError;
use prompter_completions::patch::replace_case_block;
use prompter_completions::patch::replace_first;

#[test]
fn replace_case_block_swaps_anchor_through_terminator() {
    let mut script = String::from(
        "    case x in\n        foo)\n            body\n            ;;\n        bar)\n            other\n            ;;\n    esac\n",
    );
    replace_case_block(&mut script, "foo", "REPL").unwrap();
    assert_eq!(
        script,
        "    case x in\nREPL        bar)\n            other\n            ;;\n    esac\n"
    );
}

#[test]
fn replace_case_block_reports_missing_anchor() {
    let original = "    case x in\n        bar)\n            other\n            ;;\n    esac\n";
    let mut script = String::from(original);
    match replace_case_block(&mut script, "foo", "REPL") {
        Err(PatchError::MissingAnchor(label)) => assert_eq!(label, "foo"),
        other => panic!("unexpected result: {:?}", other),
    }
    assert_eq!(script, original, "a failed patch leaves the script untouched");
}

#[test]
fn replace_case_block_reports_missing_terminator() {
    let original = "    case x in\n        foo)\n            body\n    esac\n";
    let mut script = String::from(original);
    match replace_case_block(&mut script, "foo", "REPL") {
        Err(PatchError::MissingTerminator(label)) => assert_eq!(label, "foo"),
        other => panic!("unexpected result: {:?}", other),
    }
    assert_eq!(script, original);
}

#[test]
fn replace_first_rewrites_only_the_first_occurrence() {
    let mut script = String::from("a_default b_default");
    let found = replace_first(&mut script, "_default", "_dynamic");
    assert!(found);
    assert_eq!(script, "a_dynamic b_default");
}

#[test]
fn replace_first_skips_an_absent_marker() {
    let mut script = String::from("nothing to see");
    let found = replace_first(&mut script, "_default", "_dynamic");
    assert!(!found);
    assert_eq!(script, "nothing to see");
}

#[test]
fn zsh_augmentation_rewrites_both_markers_when_present() {
    let mut script = String::from(
        "_arguments \\\n'::profile -- Profile to render (shorthand for 'run `<profile>`'):_default' \\\n'*::profiles -- Profile name(s) to render:_default' \\\n",
    );
    augment_zsh(&mut script);
    assert!(script.contains(
        "'::profile -- Profile to render (shorthand for 'run `<profile>`'):_prompter_dynamic_profiles'"
    ));
    assert!(script.contains(
        "'*::profiles -- Profile name(s) to render:_prompter_dynamic_profiles'"
    ));
    assert!(!script.contains(":_default"));
    assert!(script.contains("_prompter_config_value()"));
}

#[test]
fn bash_instructions_give_the_source_command() {
    let banner = render_instructions(&ShellKind::Bash, "prompter");
    assert_eq!(
        banner,
        "# Shell completion for prompter\n#\n# To enable completions, add this to your shell config:\n#\n#   source <(prompter completions bash)\n\n"
    );
}

#[test]
fn unknown_shell_instructions_fall_back_to_the_generic_command() {
    let banner = render_instructions(&ShellKind::Other(String::from("nushell")), "prompter");
    assert_eq!(
        banner,
        "# Shell completion for prompter\n#\n# To enable completions, add this to your shell config:\n#\n#   prompter completions nushell\n\n"
    );
}

#[test]
fn powershell_instructions_coerce_to_string_before_evaluation() {
    let banner = render_instructions(&ShellKind::PowerShell, "prompter");
    assert_eq!(
        banner,
        "# Shell completion for prompter\n#\n# To enable completions, add this to your shell config:\n#\n#   prompter completions powershell | Out-String | Invoke-Expression\n\n"
    );
}

#[test]
fn compose_prefixes_the_banner_and_appends_helpers_for_zsh() {
    let raw = String::from("#compdef prompter\nbody\n");
    let out = compose(&ShellKind::Zsh, "prompter", raw).unwrap();
    assert!(out.starts_with("# Shell completion for prompter\n"));
    assert!(out.contains("#compdef prompter\nbody\n"));
    assert!(out.ends_with("return 1\n}\n"));
    assert!(out.contains("_prompter_dynamic_profiles()"));
}

#[test]
fn compose_passes_elvish_scripts_through_unchanged() {
    let raw = String::from("edit:completion:arg-completer[prompter] = { }\n");
    let out = compose(&ShellKind::Elvish, "prompter", raw.clone()).unwrap();
    let banner = render_instructions(&ShellKind::Elvish, "prompter");
    assert_eq!(out, format!("{}{}", banner, raw));
}
