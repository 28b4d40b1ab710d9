//! The program's configuration: its current form, the older form that
//! pointed at separate key files, and the amounts derived from it.
use vstd::prelude::*;
use crate::tokens::{parse_tokens_to_nano, spec_parse_tokens, TokenError, ONE};

verus! {

/// The JSON-RPC endpoint that new configurations use.
pub const DEFAULT_ENDPOINT: &'static str = "https://rpc-testnet.tychoprotocol.com";

/// Largest stake factor (3.0 in 16.16 fixed point) offered to the elector.
pub const DEFAULT_STAKE_FACTOR: u32 = 3 * 65_536;

/// Tokens attached to a `participateInElections` message.
pub const DEFAULT_PARTICIPATE_VALUE: &'static str = "1";

/// Tokens attached to a ticktock message.
pub const DEFAULT_TICKTOCK_VALUE: &'static str = "1";

/// Tokens that always stay on the validator wallet.
pub const DEFAULT_WALLET_RESERVE: &'static str = "10";

/// How often a sent transaction is retried.
pub const DEFAULT_RETRY: usize = 5;

/// The DePool's own balance below which it is topped up.
pub const DEPOOL_MIN_BALANCE: u128 = 20 * ONE;

/// The DePool's own balance that a top-up restores.
pub const DEPOOL_TARGET_BALANCE: u128 = 30 * ONE;

/// A proxy balance below which the proxy is topped up.
pub const PROXY_MIN_BALANCE: u128 = 3 * ONE;

/// The proxy balance that a top-up restores.
pub const PROXY_TARGET_BALANCE: u128 = 5 * ONE;

/// Gas sent along with an ordinary stake.
pub const ADD_STAKE_GAS: u128 = 500_000_000;

/// A key pair as hex text.
#[derive(Debug, Clone, PartialEq, Eq)]
pub struct KeyFile {
    pub public: String,
    pub secret: String,
}

/// The configuration file, with the keys held in it.
#[derive(Debug, Clone, PartialEq, Eq)]
pub struct AppConfig {
    pub endpoint: String,
    pub node_keys: KeyFile,
    pub validator_wallet: KeyFile,
    pub depool_keys: KeyFile,
    pub depool_address: String,
    pub min_stake: String,
    pub validator_assurance: String,
    pub target_stake: Option<String>,
    pub participant_reward_fraction: u8,
    pub stake_factor: u32,
    pub participate_value: String,
    pub ticktock_value: String,
    pub wallet_reserve: String,
    pub retry: usize,
}

/// The older configuration file, which named separate key files.
#[derive(Debug, Clone, PartialEq, Eq)]
pub struct LegacyAppConfig {
    pub endpoint: String,
    pub node_keys_path: String,
    pub validator_wallet_path: String,
    pub depool_keys_path: String,
    pub depool_address: String,
    pub min_stake: String,
    pub validator_assurance: String,
    pub target_stake: Option<String>,
    pub participant_reward_fraction: u8,
    pub stake_factor: u32,
    pub participate_value: String,
    pub ticktock_value: String,
    pub wallet_reserve: String,
    pub retry: usize,
}

/// A configuration file in either form.
#[derive(Debug, Clone, PartialEq, Eq)]
pub enum AppConfigFile {
    Current(AppConfig),
    Legacy(LegacyAppConfig),
}

/// The three key files that an older configuration names, as read from
/// disk: the node keys, the validator wallet keys, the DePool keys.
#[derive(Debug, Clone, PartialEq, Eq)]
pub struct LegacyKeyFiles {
    pub node_keys: KeyFile,
    pub validator_wallet: KeyFile,
    pub depool_keys: KeyFile,
}

/// The stake terms that a deployed DePool reports.
#[derive(Debug, Clone, Copy, PartialEq, Eq, Structural)]
pub struct DepoolTerms {
    pub validator_assurance: u64,
    pub min_stake: u64,
}

/// Why a key file is refused.
#[derive(Debug, Clone, Copy, PartialEq, Eq, Structural)]
pub enum KeyError {
    /// The public key that the secret yields is not the one in the file.
    PublicKeyMismatch,
}

/// Why `init-new` refuses to start.
#[derive(Debug, Clone, Copy, PartialEq, Eq, Structural)]
pub enum InitError {
    /// The configuration exists and `--force` was not given.
    ConfigExists,
    /// The participant reward fraction is not in 1..=99.
    RewardFractionOutOfRange,
}

/// Where `init-new` takes the node keys from.
#[derive(Debug, Clone, PartialEq, Eq)]
pub enum NodeKeySource {
    /// The file given with `--node-keys`.
    Given(String),
    /// `node_keys.json` beside the configuration.
    Default,
    /// Fresh keys.
    Generate,
}

/// The current form of an older configuration, with the keys read from
/// the files that it names; every other setting is kept.
pub open spec fn legacy_to_current(l: LegacyAppConfig, keys: LegacyKeyFiles) -> AppConfig {
    AppConfig {
        endpoint: l.endpoint,
        node_keys: keys.node_keys,
        validator_wallet: keys.validator_wallet,
        depool_keys: keys.depool_keys,
        depool_address: l.depool_address,
        min_stake: l.min_stake,
        validator_assurance: l.validator_assurance,
        target_stake: l.target_stake,
        participant_reward_fraction: l.participant_reward_fraction,
        stake_factor: l.stake_factor,
        participate_value: l.participate_value,
        ticktock_value: l.ticktock_value,
        wallet_reserve: l.wallet_reserve,
        retry: l.retry,
    }
}

impl LegacyAppConfig {
    /// The current form of this configuration, with the keys read from the
    /// files that it names.
    pub fn into_current(self, keys: LegacyKeyFiles) -> (r: AppConfig)
        ensures
            r == legacy_to_current(self, keys),
    {
        AppConfig {
            endpoint: self.endpoint,
            node_keys: keys.node_keys,
            validator_wallet: keys.validator_wallet,
            depool_keys: keys.depool_keys,
            depool_address: self.depool_address,
            min_stake: self.min_stake,
            validator_assurance: self.validator_assurance,
            target_stake: self.target_stake,
            participant_reward_fraction: self.participant_reward_fraction,
            stake_factor: self.stake_factor,
            participate_value: self.participate_value,
            ticktock_value: self.ticktock_value,
            wallet_reserve: self.wallet_reserve,
            retry: self.retry,
        }
    }
}

/// The configuration in its current form: a current file as it is, an
/// older one with the keys that it names.
pub fn migrate_config(file: AppConfigFile, legacy_keys: Option<LegacyKeyFiles>) -> (r: AppConfig)
    requires
        file is Legacy ==> legacy_keys is Some,
    ensures
        file matches AppConfigFile::Current(c) ==> r == c,
        file matches AppConfigFile::Legacy(l) ==> r == legacy_to_current(l, legacy_keys->0),
{
    match file {
        AppConfigFile::Current(c) => c,
        AppConfigFile::Legacy(l) => l.into_current(legacy_keys.unwrap()),
    }
}

impl KeyFile {
    /// Accepts the key file when the public key derived from its secret is
    /// the public key that it records.
    pub fn check_public(&self, derived_public: &str) -> (r: Result<(), KeyError>)
        ensures
            r is Ok <==> derived_public@ == self.public@,
    {
        if crate::cli::str_equals(derived_public, self.public.as_str()) {
            Ok(())
        } else {
            Err(KeyError::PublicKeyMismatch)
        }
    }
}

/// The balance, in nano units, that always stays on the validator wallet.
pub fn wallet_reserve(config: &AppConfig) -> (r: Result<u128, TokenError>)
    ensures
        r == spec_parse_tokens(config.wallet_reserve@),
{
    parse_tokens_to_nano(config.wallet_reserve.as_str())
}

pub open spec fn max_u128(a: u128, b: u128) -> u128 {
    if a >= b {
        a
    } else {
        b
    }
}

/// An amount that parses, else zero.
pub open spec fn parsed_or_zero(s: Seq<char>) -> u128 {
    match spec_parse_tokens(s) {
        Ok(v) => v,
        Err(_) => 0,
    }
}

/// The stake that the DePool requires of the validator: the larger of its
/// validator assurance and its minimum stake, from the DePool where it is
/// deployed, else from the configuration (a term that does not parse
/// counts as zero).
pub open spec fn spec_depool_required(config: AppConfig, depool: Option<DepoolTerms>) -> u128 {
    match depool {
        Some(d) => max_u128(d.validator_assurance as u128, d.min_stake as u128),
        None => max_u128(
            parsed_or_zero(config.validator_assurance@),
            parsed_or_zero(config.min_stake@),
        ),
    }
}

/// The validator stake to keep in the pooling round: the largest of the
/// configured target, the DePool's requirement and the network minimum.
pub open spec fn spec_target_depool_stake(
    config: AppConfig,
    depool: Option<DepoolTerms>,
    network_min: u128,
) -> Result<u128, TokenError> {
    let configured = match config.target_stake {
        Some(v) => spec_parse_tokens(v@),
        None => Ok(0u128),
    };
    match configured {
        Err(e) => Err(e),
        Ok(c) => Ok(
            max_u128(max_u128(c, spec_depool_required(config, depool)), network_min),
        ),
    }
}

fn parse_or_zero(s: &String) -> (r: u128)
    ensures
        r == parsed_or_zero(s@),
{
    match parse_tokens_to_nano(s.as_str()) {
        Ok(v) => v,
        Err(_) => 0,
    }
}

fn max_of(a: u128, b: u128) -> (r: u128)
    ensures
        r == max_u128(a, b),
{
    if a >= b {
        a
    } else {
        b
    }
}

/// The validator stake to keep in the pooling round.
pub fn target_depool_stake(config: &AppConfig, depool: Option<DepoolTerms>, network_min: u128) -> (r:
    Result<u128, TokenError>)
    ensures
        r == spec_target_depool_stake(*config, depool, network_min),
        r matches Ok(t) ==> t >= network_min && t >= spec_depool_required(*config, depool),
{
    let configured = match &config.target_stake {
        Some(v) => parse_tokens_to_nano(v.as_str())?,
        None => 0,
    };
    let depool_required = match depool {
        Some(d) => max_of(d.validator_assurance as u128, d.min_stake as u128),
        None => max_of(
            parse_or_zero(&config.validator_assurance),
            parse_or_zero(&config.min_stake),
        ),
    };
    Ok(max_of(max_of(configured, depool_required), network_min))
}

/// `a * b`, or `u128::MAX` where that does not fit.
pub open spec fn saturating_mul_spec(a: u128, b: u128) -> u128 {
    if a * b > u128::MAX {
        u128::MAX
    } else {
        (a * b) as u128
    }
}

pub fn saturating_mul(a: u128, b: u128) -> (r: u128)
    ensures
        r == saturating_mul_spec(a, b),
{
    match a.checked_mul(b) {
        Some(v) => v,
        None => u128::MAX,
    }
}

/// Refuses `init-new` where the configuration exists and may not be
/// overwritten, or the reward fraction is out of range.
pub fn check_init_request(config_exists: bool, force: bool, participant_reward_fraction: u8) -> (r:
    Result<(), InitError>)
    ensures
        config_exists && !force ==> r == Err::<(), InitError>(InitError::ConfigExists),
        !(config_exists && !force) && (participant_reward_fraction == 0
            || participant_reward_fraction >= 100) ==> r == Err::<(), InitError>(
            InitError::RewardFractionOutOfRange,
        ),
        r is Ok <==> !(config_exists && !force) && 1 <= participant_reward_fraction <= 99,
{
    if config_exists && !force {
        return Err(InitError::ConfigExists);
    }
    if participant_reward_fraction == 0 || participant_reward_fraction >= 100 {
        return Err(InitError::RewardFractionOutOfRange);
    }
    Ok(())
}

/// Where the node keys come from: the given file, else the default file
/// where it exists, else fresh keys.
pub fn node_key_source(given: Option<String>, default_exists: bool) -> (r: NodeKeySource)
    ensures
        given matches Some(p) ==> r == NodeKeySource::Given(p),
        given is None && default_exists ==> r == NodeKeySource::Default,
        given is None && !default_exists ==> r == NodeKeySource::Generate,
{
    match given {
        Some(p) => NodeKeySource::Given(p),
        None => if default_exists {
            NodeKeySource::Default
        } else {
            NodeKeySource::Generate
        },
    }
}

/// A fresh configuration with the program's defaults.
pub fn new_app_config(
    node_keys: KeyFile,
    validator_wallet: KeyFile,
    depool_keys: KeyFile,
    depool_address: String,
    min_stake: String,
    validator_assurance: String,
    target_stake: Option<String>,
    participant_reward_fraction: u8,
) -> (r: AppConfig)
    ensures
        r.endpoint@ == DEFAULT_ENDPOINT@,
        r.node_keys == node_keys,
        r.validator_wallet == validator_wallet,
        r.depool_keys == depool_keys,
        r.depool_address == depool_address,
        r.min_stake == min_stake,
        r.validator_assurance == validator_assurance,
        r.target_stake == target_stake,
        r.participant_reward_fraction == participant_reward_fraction,
        r.stake_factor == DEFAULT_STAKE_FACTOR,
        r.participate_value@ == DEFAULT_PARTICIPATE_VALUE@,
        r.ticktock_value@ == DEFAULT_TICKTOCK_VALUE@,
        r.wallet_reserve@ == DEFAULT_WALLET_RESERVE@,
        r.retry == DEFAULT_RETRY,
{
    AppConfig {
        endpoint: String::from_str(DEFAULT_ENDPOINT),
        node_keys,
        validator_wallet,
        depool_keys,
        depool_address,
        min_stake,
        validator_assurance,
        target_stake,
        participant_reward_fraction,
        stake_factor: DEFAULT_STAKE_FACTOR,
        participate_value: String::from_str(DEFAULT_PARTICIPATE_VALUE),
        ticktock_value: String::from_str(DEFAULT_TICKTOCK_VALUE),
        wallet_reserve: String::from_str(DEFAULT_WALLET_RESERVE),
        retry: DEFAULT_RETRY,
    }
}

/// What `init-new` reports: the stake to keep in the DePool and the
/// suggested first top-up of the validator wallet.
#[derive(Debug, Clone, Copy, PartialEq, Eq, Structural)]
pub struct InitFunding {
    pub target_stake: u128,
    pub suggested_topup: u128,
}

/// The suggested top-up: two rounds of stake, the deploy balance, the
/// DePool's working balance, one participation, one ticktock, the wallet
/// reserve and five tokens more, added without overflow.
pub open spec fn spec_suggested_topup(
    target: u128,
    min_balance_for_deploy: u128,
    participate: u128,
    ticktock: u128,
    reserve: u128,
) -> u128 {
    saturating_mul_spec(target, 2).saturating_add(min_balance_for_deploy).saturating_add(
        DEPOOL_TARGET_BALANCE,
    ).saturating_add(participate).saturating_add(ticktock).saturating_add(reserve).saturating_add(
        (5 * ONE) as u128,
    )
}

/// The stake target and suggested top-up for a fresh configuration.
pub fn init_funding(config: &AppConfig, network_min: u128, min_balance_for_deploy: u128) -> (r:
    Result<InitFunding, TokenError>)
    ensures
        ({
            let t = spec_target_depool_stake(*config, None, network_min);
            let p = spec_parse_tokens(config.participate_value@);
            let k = spec_parse_tokens(config.ticktock_value@);
            let w = spec_parse_tokens(config.wallet_reserve@);
            if t is Err {
                r == Err::<InitFunding, TokenError>(t->Err_0)
            } else if p is Err {
                r == Err::<InitFunding, TokenError>(p->Err_0)
            } else if k is Err {
                r == Err::<InitFunding, TokenError>(k->Err_0)
            } else if w is Err {
                r == Err::<InitFunding, TokenError>(w->Err_0)
            } else {
                r == Ok::<InitFunding, TokenError>(
                    InitFunding {
                        target_stake: t->Ok_0,
                        suggested_topup: spec_suggested_topup(
                            t->Ok_0,
                            min_balance_for_deploy,
                            p->Ok_0,
                            k->Ok_0,
                            w->Ok_0,
                        ),
                    },
                )
            }
        }),
{
    let target = target_depool_stake(config, None, network_min)?;
    let participate = parse_tokens_to_nano(config.participate_value.as_str())?;
    let ticktock = parse_tokens_to_nano(config.ticktock_value.as_str())?;
    let reserve = wallet_reserve(config)?;
    let topup = saturating_mul(target, 2).saturating_add(min_balance_for_deploy).saturating_add(
        DEPOOL_TARGET_BALANCE,
    ).saturating_add(participate).saturating_add(ticktock).saturating_add(reserve).saturating_add(
        5 * ONE,
    );
    Ok(InitFunding { target_stake: target, suggested_topup: topup })
}

} // verus!
