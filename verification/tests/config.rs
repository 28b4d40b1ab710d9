use depool_elect::config::{
    check_init_request, init_funding, migrate_config, new_app_config, node_key_source,
    saturating_mul, target_depool_stake, wallet_reserve, AppConfig, AppConfigFile, DepoolTerms,
    InitError, InitFunding, KeyError, KeyFile, LegacyAppConfig, LegacyKeyFiles, NodeKeySource,
};
use depool_elect::tokens::TokenError;

fn key(n: &str) -> KeyFile {
    KeyFile { public: format!("pub-{n}"), secret: format!("sec-{n}") }
}

fn config() -> AppConfig {
    new_app_config(
        key("node"),
        key("wallet"),
        key("depool"),
        "0:abc".to_string(),
        "100".to_string(),
        "10000".to_string(),
        None,
        95,
    )
}

fn legacy() -> LegacyAppConfig {
    LegacyAppConfig {
        endpoint: "https://e".to_string(),
        node_keys_path: "/k/node.json".to_string(),
        validator_wallet_path: "/k/wallet.json".to_string(),
        depool_keys_path: "/k/depool.json".to_string(),
        depool_address: "0:def".to_string(),
        min_stake: "10".to_string(),
        validator_assurance: "20".to_string(),
        target_stake: Some("30".to_string()),
        participant_reward_fraction: 50,
        stake_factor: 7,
        participate_value: "2".to_string(),
        ticktock_value: "3".to_string(),
        wallet_reserve: "4".to_string(),
        retry: 9,
    }
}

#[test]
fn new_config_has_program_defaults() {
    let c = config();
    assert_eq!(c.endpoint, "https://rpc-testnet.tychoprotocol.com");
    assert_eq!(c.stake_factor, 3 * 65_536);
    assert_eq!(c.participate_value, "1");
    assert_eq!(c.ticktock_value, "1");
    assert_eq!(c.wallet_reserve, "10");
    assert_eq!(c.retry, 5);
    assert_eq!(c.min_stake, "100");
    assert_eq!(c.validator_assurance, "10000");
}

#[test]
fn legacy_config_keeps_its_settings() {
    let keys = LegacyKeyFiles {
        node_keys: key("n"),
        validator_wallet: key("w"),
        depool_keys: key("d"),
    };
    let c = legacy().into_current(keys.clone());
    assert_eq!(c.endpoint, "https://e");
    assert_eq!(c.node_keys, key("n"));
    assert_eq!(c.validator_wallet, key("w"));
    assert_eq!(c.depool_keys, key("d"));
    assert_eq!(c.depool_address, "0:def");
    assert_eq!(c.target_stake, Some("30".to_string()));
    assert_eq!(c.participant_reward_fraction, 50);
    assert_eq!(c.stake_factor, 7);
    assert_eq!(c.retry, 9);
    assert_eq!(migrate_config(AppConfigFile::Legacy(legacy()), Some(keys)), c);
}

#[test]
fn current_config_migrates_unchanged() {
    assert_eq!(migrate_config(AppConfigFile::Current(config()), None), config());
}

#[test]
fn key_file_checks_derived_public_key() {
    assert_eq!(key("a").check_public("pub-a"), Ok(()));
    assert_eq!(key("a").check_public("pub-b"), Err(KeyError::PublicKeyMismatch));
}

#[test]
fn wallet_reserve_is_parsed() {
    assert_eq!(wallet_reserve(&config()), Ok(10_000_000_000));
    let mut c = config();
    c.wallet_reserve = "x".to_string();
    assert_eq!(wallet_reserve(&c), Err(TokenError::InvalidAmount));
}

#[test]
fn target_stake_is_the_largest_requirement() {
    let c = config();
    // From the configuration: max(10000, 100) tokens.
    assert_eq!(target_depool_stake(&c, None, 5), Ok(10_000_000_000_000));
    // The network minimum wins when larger.
    assert_eq!(target_depool_stake(&c, None, 20_000_000_000_000), Ok(20_000_000_000_000));
    // A deployed DePool's terms replace the configured ones.
    let terms = DepoolTerms { validator_assurance: 7, min_stake: 9 };
    assert_eq!(target_depool_stake(&c, Some(terms), 1), Ok(9));
    let mut t = config();
    t.target_stake = Some("50000".to_string());
    assert_eq!(target_depool_stake(&t, Some(terms), 1), Ok(50_000_000_000_000));
    t.target_stake = Some("lots".to_string());
    assert_eq!(target_depool_stake(&t, Some(terms), 1), Err(TokenError::InvalidAmount));
    // Terms that do not parse count as zero.
    let mut u = config();
    u.validator_assurance = "?".to_string();
    u.min_stake = "?".to_string();
    assert_eq!(target_depool_stake(&u, None, 3), Ok(3));
}

#[test]
fn init_request_checks() {
    assert_eq!(check_init_request(true, false, 95), Err(InitError::ConfigExists));
    assert_eq!(check_init_request(true, true, 95), Ok(()));
    assert_eq!(check_init_request(false, false, 0), Err(InitError::RewardFractionOutOfRange));
    assert_eq!(check_init_request(false, false, 100), Err(InitError::RewardFractionOutOfRange));
    assert_eq!(check_init_request(false, false, 99), Ok(()));
    assert_eq!(check_init_request(false, false, 1), Ok(()));
}

#[test]
fn node_keys_come_from_given_default_or_fresh() {
    assert_eq!(
        node_key_source(Some("/k.json".to_string()), true),
        NodeKeySource::Given("/k.json".to_string())
    );
    assert_eq!(node_key_source(None, true), NodeKeySource::Default);
    assert_eq!(node_key_source(None, false), NodeKeySource::Generate);
}

#[test]
fn init_funding_sums_two_rounds_and_costs() {
    let c = config();
    let f = init_funding(&c, 0, 21_000_000_000).unwrap();
    // 2 * 10000 + 21 (deploy) + 30 (DePool) + 1 + 1 + 10 + 5 tokens.
    assert_eq!(
        f,
        InitFunding {
            target_stake: 10_000_000_000_000,
            suggested_topup: 20_068_000_000_000,
        }
    );
    let huge = init_funding(&c, u128::MAX / 2 + 1, 0).unwrap();
    assert_eq!(huge.suggested_topup, u128::MAX);
    let mut bad = config();
    bad.ticktock_value = "".to_string();
    assert_eq!(init_funding(&bad, 0, 0), Err(TokenError::Empty));
}

#[test]
fn saturating_multiplication() {
    assert_eq!(saturating_mul(3, 4), 12);
    assert_eq!(saturating_mul(u128::MAX, 2), u128::MAX);
}
