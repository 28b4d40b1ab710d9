use depool_elect::cli::{
    arg_path, arg_value, expand_home, parse_u8, str_equals, Cli, CliError, Command,
};

fn args(list: &[&str]) -> Vec<String> {
    list.iter().map(|s| s.to_string()).collect()
}

fn home() -> Option<String> {
    Some("/home/val".to_string())
}

#[test]
fn once_uses_default_config_under_home() {
    let cli = Cli::parse(&args(&["depool-elect", "once"]), &home()).unwrap();
    assert_eq!(cli.config_path, "/home/val/.tycho/depool-elect-config.json");
    assert_eq!(cli.command, Command::Once);
}

#[test]
fn default_config_stays_unexpanded_without_home() {
    let cli = Cli::parse(&args(&["depool-elect", "status"]), &None).unwrap();
    assert_eq!(cli.config_path, "~/.tycho/depool-elect-config.json");
    assert_eq!(cli.command, Command::Status);
}

#[test]
fn init_new_defaults() {
    let cli = Cli::parse(&args(&["depool-elect", "init-new"]), &home()).unwrap();
    assert_eq!(
        cli.command,
        Command::InitNew {
            force: false,
            node_keys_path: None,
            min_stake: "100".to_string(),
            validator_assurance: "10000".to_string(),
            target_stake: None,
            participant_reward_fraction: 95,
        }
    );
}

#[test]
fn init_new_takes_options_given_after_the_command() {
    let cli = Cli::parse(
        &args(&[
            "depool-elect",
            "init-new",
            "--force",
            "--node-keys",
            "~/keys.json",
            "--min-stake",
            "50",
            "--validator-assurance",
            "20000",
            "--target-stake",
            "700000",
            "--participant-reward-fraction",
            "90",
            "--config",
            "/etc/cfg.json",
        ]),
        &home(),
    )
    .unwrap();
    assert_eq!(cli.config_path, "/etc/cfg.json");
    assert_eq!(
        cli.command,
        Command::InitNew {
            force: true,
            node_keys_path: Some("/home/val/keys.json".to_string()),
            min_stake: "50".to_string(),
            validator_assurance: "20000".to_string(),
            target_stake: Some("700000".to_string()),
            participant_reward_fraction: 90,
        }
    );
}

#[test]
fn last_value_and_last_command_win() {
    let cli = Cli::parse(
        &args(&[
            "depool-elect",
            "--config",
            "a.json",
            "status",
            "--config",
            "b.json",
            "once",
        ]),
        &home(),
    )
    .unwrap();
    assert_eq!(cli.config_path, "b.json");
    assert_eq!(cli.command, Command::Once);
}

#[test]
fn option_value_may_look_like_a_command() {
    let cli = Cli::parse(&args(&["depool-elect", "--config", "loop", "migrate-config"]), &home())
        .unwrap();
    assert_eq!(cli.config_path, "loop");
    assert_eq!(cli.command, Command::MigrateConfig);
}

#[test]
fn missing_option_value_is_refused() {
    assert_eq!(
        Cli::parse(&args(&["depool-elect", "once", "--config"]), &home()),
        Err(CliError::MissingValue("--config".to_string()))
    );
    assert_eq!(
        Cli::parse(&args(&["depool-elect", "init-new", "--target-stake"]), &home()),
        Err(CliError::MissingValue("--target-stake".to_string()))
    );
}

#[test]
fn reward_fraction_must_be_a_u8() {
    assert_eq!(
        Cli::parse(
            &args(&["depool-elect", "--participant-reward-fraction", "256", "init-new"]),
            &home()
        ),
        Err(CliError::InvalidRewardFraction)
    );
    assert_eq!(
        Cli::parse(
            &args(&["depool-elect", "--participant-reward-fraction", "x", "init-new"]),
            &home()
        ),
        Err(CliError::InvalidRewardFraction)
    );
    let cli = Cli::parse(
        &args(&["depool-elect", "--participant-reward-fraction", "+7", "init-new"]),
        &home(),
    )
    .unwrap();
    match cli.command {
        Command::InitNew { participant_reward_fraction, .. } => {
            assert_eq!(participant_reward_fraction, 7)
        }
        other => panic!("unexpected command {other:?}"),
    }
}

#[test]
fn unknown_argument_is_refused() {
    assert_eq!(
        Cli::parse(&args(&["depool-elect", "once", "--verbose"]), &home()),
        Err(CliError::UnknownArgument("--verbose".to_string()))
    );
}

#[test]
fn missing_command_is_refused() {
    assert_eq!(Cli::parse(&args(&["depool-elect"]), &home()), Err(CliError::MissingCommand));
    assert_eq!(
        Cli::parse(&args(&["depool-elect", "--force"]), &home()),
        Err(CliError::MissingCommand)
    );
}

#[test]
fn help_stops_reading() {
    let cli = Cli::parse(&args(&["depool-elect", "-h", "--bogus"]), &home()).unwrap();
    assert_eq!(cli.command, Command::Help);
    let cli = Cli::parse(&args(&["depool-elect", "--config", "x.json", "help"]), &home()).unwrap();
    assert_eq!(cli, Cli { config_path: "x.json".to_string(), command: Command::Help });
    assert_eq!(
        Cli::parse(&args(&["depool-elect", "--bogus", "--help"]), &home()),
        Err(CliError::UnknownArgument("--bogus".to_string()))
    );
}

#[test]
fn home_expansion_joins_like_pathbuf() {
    let h = Some("/home/val".to_string());
    assert_eq!(expand_home("~/a/b", &h), "/home/val/a/b");
    assert_eq!(expand_home("~/", &h), "/home/val/");
    assert_eq!(expand_home("~//etc/x", &h), "/etc/x");
    assert_eq!(expand_home("~/a", &Some("/root/".to_string())), "/root/a");
    assert_eq!(expand_home("~/a", &Some(String::new())), "a");
    assert_eq!(expand_home("~a", &h), "~a");
    assert_eq!(expand_home("/abs", &h), "/abs");
    assert_eq!(expand_home("~/a", &None), "~/a");
    for (path, base) in [("~/a/b", "/home/val"), ("~/", "/h"), ("~//x", "/h"), ("~/q", "/r/")] {
        let expected = std::path::PathBuf::from(base).join(&path[2..]);
        assert_eq!(expand_home(path, &Some(base.to_string())), expected.to_str().unwrap());
    }
}

#[test]
fn arg_helpers() {
    let a = args(&["prog", "--config", "~/c.json"]);
    assert_eq!(arg_value(&a, 2, "--config"), Ok("~/c.json".to_string()));
    assert_eq!(arg_value(&a, 3, "--config"), Err(CliError::MissingValue("--config".to_string())));
    assert_eq!(arg_path(&a, 2, "--config", &home()), Ok("/home/val/c.json".to_string()));
    assert_eq!(
        arg_path(&a, 5, "--node-keys", &home()),
        Err(CliError::MissingValue("--node-keys".to_string()))
    );
}

#[test]
fn u8_reading_agrees_with_std() {
    for s in ["0", "95", "255", "256", "+1", "-1", "", "+", "1a", "007", " 5", "99999999999"] {
        assert_eq!(parse_u8(s), s.parse::<u8>().ok(), "input {s:?}");
    }
}

#[test]
fn text_equality() {
    assert!(str_equals("once", "once"));
    assert!(!str_equals("once", "onc"));
    assert!(!str_equals("once", "Once"));
}
