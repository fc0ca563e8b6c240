use hcli::startup::has_hcap_profile;
use hcli::startup::{
    banner_color, catalog_refresh_wanted, ui_enabled, welcome_banner, needs_hcap_startup, path_steps, profile_to_add, startup_step, LaunchArgs, PathStep,
    ProviderChoice, StartupAction, StartupEvent, StartupState,
};

/// The launch arguments for a command line, for the flags these tests use.
fn parse(argv: &[&str]) -> LaunchArgs {
    let mut args = LaunchArgs {
        command: None,
        ssh: None,
        onboarding_sim: false,
        update_sim: false,
        provider: ProviderChoice::Auto,
        provider_profile: None,
        model: None,
    };
    let mut rest = argv[1..].iter();
    while let Some(arg) = rest.next() {
        match *arg {
            "--model" => args.model = rest.next().map(|s| s.to_string()),
            "--provider" => {
                args.provider = ProviderChoice::Named(rest.next().unwrap().to_string())
            }
            "--provider-profile" => args.provider_profile = rest.next().map(|s| s.to_string()),
            "--ssh" => args.ssh = rest.next().map(|s| s.to_string()),
            "--onboarding-sim" => args.onboarding_sim = true,
            "--update-sim" => args.update_sim = true,
            command => {
                args.command = Some(command.to_string());
                break;
            }
        }
    }
    args
}

#[test]
fn startup_only_intercepts_default_local_launches() {
    for argv in [vec!["jcode"], vec!["jcode", "--model", "custom-model"]] {
        assert!(needs_hcap_startup(&parse(&argv)));
    }
    for argv in [
        vec!["jcode", "--provider", "openai"],
        vec!["jcode", "--provider-profile", "my-api"],
        vec!["jcode", "--ssh", "example.com"],
        vec!["jcode", "--onboarding-sim"],
        vec!["jcode", "--update-sim"],
        vec!["jcode", "run", "hello"],
        vec!["jcode", "serve"],
    ] {
        assert!(!needs_hcap_startup(&parse(&argv)));
    }
}

fn launch(stored_key: Option<&str>, terminal: bool) -> StartupEvent {
    StartupEvent::Launch {
        intercepted: true,
        stored_key: stored_key.map(|k| k.to_string()),
        stdin_is_terminal: terminal,
        stderr_is_terminal: terminal,
    }
}

#[test]
fn environment_key_is_used_without_prompt_or_saving() {
    let (state, action) = startup_step(StartupState::Idle, launch(Some("test-env-key"), true));
    assert_eq!(action, StartupAction::Proceed { greet: true });
    assert_eq!(state, StartupState::Configuring { key: "test-env-key".to_string() });
    let (state, action) = startup_step(state, StartupEvent::ProfileReady);
    assert_eq!(state, StartupState::Done);
    assert_eq!(action, StartupAction::Activate { key: "test-env-key".to_string() });
    assert_eq!(hcli::startup::hcap_profile_name(), "hcap");
}

#[test]
fn typed_key_is_saved_once_and_empty_input_asks_again() {
    let (state, action) = startup_step(StartupState::Idle, launch(None, true));
    assert_eq!(action, StartupAction::AskKey { first: true });
    let (state, action) = startup_step(state, StartupEvent::KeyEntered(String::new()));
    assert_eq!(action, StartupAction::AskKey { first: false });
    assert_eq!(state, StartupState::AwaitingKey);
    let (state, action) = startup_step(state, StartupEvent::KeyEntered("test-hcap-key".into()));
    assert_eq!(action, StartupAction::SaveKey { key: "test-hcap-key".into() });
    let (state, action) = startup_step(state, StartupEvent::KeySaved);
    assert_eq!(action, StartupAction::ConfirmSaved);
    let (state, action) = startup_step(state, StartupEvent::ProfileReady);
    assert_eq!(action, StartupAction::Activate { key: "test-hcap-key".into() });
    assert_eq!(state, StartupState::Done);
}

#[test]
fn noninteractive_launch_without_key_fails_with_instructions() {
    let (state, action) = startup_step(StartupState::Idle, launch(None, false));
    assert_eq!(state, StartupState::Failed);
    assert_eq!(action, StartupAction::Fail);
    assert_eq!(
        hcli::startup::no_terminal_message_text(),
        "Set HCAP_API_KEY or launch HCLI in a terminal to enter your hcap.ai API key."
    );
    let other = StartupEvent::Launch {
        intercepted: false,
        stored_key: None,
        stdin_is_terminal: false,
        stderr_is_terminal: false,
    };
    assert_eq!(startup_step(StartupState::Idle, other), (StartupState::Done, StartupAction::Nothing));
}

#[test]
fn fork_paths_respect_overrides() {
    assert_eq!(
        path_steps(false, false, false),
        vec![
            PathStep::EnableUi,
            PathStep::HomeUnderUserHome { name: ".hcli".into() },
            PathStep::RuntimeSubdirectory { name: "hcli".into() },
            PathStep::SocketInRuntime { name: "hcli.sock".into() },
        ]
    );
    assert_eq!(path_steps(true, true, true), vec![PathStep::EnableUi]);
    assert_eq!(
        path_steps(true, false, true),
        vec![PathStep::EnableUi, PathStep::RuntimeSubdirectory { name: "hcli".into() }]
    );
}

#[test]
fn profile_setup_uses_separate_key_storage_and_keeps_existing_profile() {
    assert!(profile_to_add(true).is_none());
    let p = profile_to_add(false).unwrap();
    assert_eq!(p.name, "hcap");
    assert_eq!(p.base_url, "https://hcap.ai/v1");
    assert_eq!(p.model, "gpt-6-astra");
    assert_eq!(p.api_key_env.as_deref(), Some("HCAP_API_KEY"));
    assert_eq!(p.env_file.as_deref(), Some("hcap.env"));
    assert!(p.api_key.is_none());
    assert!(p.model_catalog && p.set_default && !p.overwrite);
}

#[test]
fn banner_and_ui_flags() {
    assert!(ui_enabled(Some("1".into())));
    assert!(!ui_enabled(Some("true".into())));
    assert!(!ui_enabled(None));
    assert!(banner_color(false, Some("xterm-256color".into())));
    assert!(!banner_color(false, Some("dumb".into())));
    assert!(!banner_color(true, Some("xterm".into())));
    assert!(!banner_color(false, None));
    let plain = welcome_banner(false, false);
    assert_eq!(plain[0], "\n  HCLI  /  hcap.ai");
    assert_eq!(plain[1], format!("  {}", "─".repeat(30)));
    assert_eq!(plain[2], "  Opening your workspace...\n");
    assert_eq!(plain.len(), 3);
    let full = welcome_banner(true, true);
    assert_eq!(full.len(), 5);
    assert_eq!(full[0], "\n  \x1b[36m\x1b[1mHCLI\x1b[0m  \x1b[2m/  hcap.ai\x1b[0m");
    assert_eq!(full[4], "  \x1b[2mInput is hidden · Ctrl+C to cancel\x1b[0m\n");
    assert!(catalog_refresh_wanted(Some(true)));
    assert!(!catalog_refresh_wanted(Some(false)));
    assert!(!catalog_refresh_wanted(None));
}

#[test]
fn configured_profiles_are_found_by_name() {
    assert!(has_hcap_profile(&vec!["openai".to_string(), "hcap".to_string()]));
    assert!(!has_hcap_profile(&vec!["openai".to_string(), "HCAP".to_string(), "hcap ".to_string()]));
    assert!(!has_hcap_profile(&Vec::new()));
}

/// The banner text with its colour codes taken out.
fn shown(line: &str) -> String {
    let mut out = String::new();
    let mut in_code = false;
    for c in line.chars() {
        if in_code {
            in_code = c != 'm';
        } else if c == '\x1b' {
            in_code = true;
        } else {
            out.push(c);
        }
    }
    out
}

#[test]
fn banner_colour_adds_only_escape_codes() {
    for needs_key in [false, true] {
        let plain = welcome_banner(false, needs_key);
        let coloured = welcome_banner(true, needs_key);
        assert_eq!(plain.len(), coloured.len());
        assert!(plain.iter().all(|l| !l.contains('\x1b')));
        assert!(coloured.iter().any(|l| l.contains('\x1b')));
        for (p, c) in plain.iter().zip(coloured.iter()) {
            assert_eq!(&shown(c), p);
        }
    }
}

#[test]
fn setup_steps_settle_after_one_run() {
    assert_eq!(path_steps(true, true, true), vec![PathStep::EnableUi]);
    let added = profile_to_add(has_hcap_profile(&vec!["openai".to_string()])).unwrap();
    let names = vec!["openai".to_string(), added.name.clone()];
    assert!(has_hcap_profile(&names));
    assert!(profile_to_add(has_hcap_profile(&names)).is_none());
}
