//! Tests of the completion augmentation passes against real generated
//! scripts.

use prompter_completions::ShellKind;
use prompter_completions::augment::augment_bash;
use prompter_completions::augment::augment_fish;
use prompter_completions::augment::augment_zsh;
use prompter_completions::completions::GenerateError;
use prompter_completions::completions::generate;
use prompter_completions::patch::PatchError;

/// The prompter command grammar, as far as completion generation sees it.
fn cli_command() -> clap::Command {
    let separator = clap::Arg::new("separator")
        .short('s')
        .long("separator")
        .value_name("SEPARATOR")
        .help("Separator inserted between profile bodies");
    let pre_prompt = clap::Arg::new("pre-prompt")
        .short('p')
        .long("pre-prompt")
        .value_name("PRE_PROMPT")
        .help("Text placed before the rendered profiles");
    let post_prompt = clap::Arg::new("post-prompt")
        .short('P')
        .long("post-prompt")
        .value_name("POST_PROMPT")
        .help("Text placed after the rendered profiles");
    let config = clap::Arg::new("config")
        .short('c')
        .long("config")
        .value_name("CONFIG")
        .help("Path to the configuration file");
    let json = clap::Arg::new("json")
        .long("json")
        .action(clap::ArgAction::SetTrue)
        .help("Emit JSON output");

    clap::Command::new("prompter")
        .version("1.0.0")
        .about("Compose reusable text profiles")
        .arg(
            clap::Arg::new("profile")
                .value_name("PROFILE")
                .help("Profile to render (shorthand for 'run `<profile>`')"),
        )
        .arg(separator.clone())
        .arg(pre_prompt.clone())
        .arg(post_prompt.clone())
        .arg(config.clone())
        .subcommand(clap::Command::new("version").about("Print version information").arg(json.clone()))
        .subcommand(clap::Command::new("license").about("Print license information"))
        .subcommand(clap::Command::new("init").about("Create default configuration and library"))
        .subcommand(
            clap::Command::new("list")
                .about("List available profiles")
                .arg(config.clone())
                .arg(json.clone()),
        )
        .subcommand(
            clap::Command::new("validate")
                .about("Validate the configured profiles")
                .arg(config.clone())
                .arg(json.clone()),
        )
        .subcommand(
            clap::Command::new("run")
                .about("Render the named profiles")
                .arg(
                    clap::Arg::new("profiles")
                        .value_name("PROFILES")
                        .num_args(1..)
                        .help("Profile name(s) to render"),
                )
                .arg(separator)
                .arg(pre_prompt)
                .arg(post_prompt)
                .arg(config.clone()),
        )
        .subcommand(
            clap::Command::new("completions")
                .about("Generate shell completions")
                .arg(
                    clap::Arg::new("shell")
                        .value_name("SHELL")
                        .required(true)
                        .value_parser(["bash", "zsh", "fish", "powershell", "elvish"]),
                ),
        )
        .subcommand(
            clap::Command::new("doctor")
                .about("Check health and configuration")
                .arg(json),
        )
        .subcommand(clap::Command::new("update").about("Update to the latest version"))
}

fn raw_script(shell: clap_complete::Shell) -> String {
    let mut cmd = cli_command();
    let bin_name = cmd.get_name().to_string();
    let mut buf: Vec<u8> = Vec::new();
    clap_complete::generate(shell, &mut cmd, bin_name, &mut buf);
    String::from_utf8(buf).expect("clap_complete output must be utf-8")
}

#[test]
fn bash_augmentation_injects_dynamic_helpers() {
    let mut script = raw_script(clap_complete::Shell::Bash);
    augment_bash(&mut script).unwrap();
    assert!(script.contains("__prompter_bash_list_profiles"));
    assert!(script.contains("prompter list --config"));
    assert!(
        !script.contains("[PROFILE]"),
        "static placeholder should be removed in favor of dynamic completion"
    );
}

#[test]
fn zsh_augmentation_redirects_profile_completion() {
    let mut script = raw_script(clap_complete::Shell::Zsh);
    augment_zsh(&mut script);

    // Verify the dynamic profile completion function is present
    assert!(script.contains("_prompter_dynamic_profiles"));
    // Verify it's being used for both shorthand and run subcommand
    assert!(script.contains(":_prompter_dynamic_profiles"));
    // With a list of profile names, the run command should use variadic completion
    assert!(
        script.contains("*::profiles -- Profile name(s) to render:_prompter_dynamic_profiles")
    );
}

#[test]
fn fish_augmentation_appends_profile_commands() {
    let mut script = raw_script(clap_complete::Shell::Fish);
    augment_fish(&mut script);
    assert!(script.contains("__fish_prompter__profiles"));
    assert!(script.contains("prompter list --config"));
}

#[test]
fn generate_succeeds_for_every_supported_shell() {
    let shells = [
        ShellKind::Bash,
        ShellKind::Zsh,
        ShellKind::Fish,
        ShellKind::PowerShell,
        ShellKind::Elvish,
    ];
    for shell in shells {
        let mut cmd = cli_command();
        let out = generate(&mut cmd, &shell).unwrap();
        assert!(out.starts_with("# Shell completion for prompter\n"));
        let banner_end = out.find("\n\n").expect("the banner ends with a blank line");
        assert!(out.len() > banner_end + 2, "the script part must be non-empty");
    }
}

#[test]
fn bash_end_to_end_root_block_offers_static_and_dynamic() {
    let mut cmd = cli_command();
    let out = generate(&mut cmd, &ShellKind::Bash).unwrap();
    // The full static flag and subcommand list stays on offer ...
    assert!(out.contains(
        "opts=\"-s -p -P -c -h -V --separator --pre-prompt --post-prompt --config --help --version version license init list validate run completions doctor update help\""
    ));
    // ... and the dynamic profile names are appended to it when present.
    assert!(out.contains("local profiles=\"$(__prompter_bash_list_profiles)\""));
    assert!(out.contains("COMPREPLY=( $(compgen -W \"${opts} ${profiles}\" -- \"${cur}\") )"));
}

#[test]
fn fish_end_to_end_has_exactly_two_profile_registrations() {
    let mut cmd = cli_command();
    let out = generate(&mut cmd, &ShellKind::Fish).unwrap();
    let hits = out.matches("-a \"(__fish_prompter__profiles)\"").count();
    assert_eq!(hits, 2);
    assert!(out.contains(
        "complete -c prompter -n \"__fish_prompter_needs_command\" -f -a \"(__fish_prompter__profiles)\" -d 'Profile'"
    ));
    assert!(out.contains(
        "complete -c prompter -n \"__fish_prompter_using_subcommand run\" -f -a \"(__fish_prompter__profiles)\" -d 'Profile'"
    ));
}

#[test]
fn bash_generation_fails_on_mismatched_grammar() {
    let mut cmd = clap::Command::new("elsewhere").subcommand(clap::Command::new("run"));
    let err = match generate(&mut cmd, &ShellKind::Bash) {
        Err(e) => e,
        Ok(_) => panic!("a script without the prompter block must be rejected"),
    };
    match err {
        GenerateError::Patch(PatchError::MissingAnchor(label)) => assert_eq!(label, "prompter"),
        other => panic!("unexpected error: {:?}", other),
    }
}
