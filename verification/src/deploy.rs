//! Deploying the DePool: fund its account up to the deploy minimum from
//! the validator wallet, then deploy it with the configured stake terms.
//!
//! Each function takes what was just observed and says what to do next;
//! the caller performs that and reports back to the function that the
//! action names.
use vstd::prelude::*;
use crate::config::{wallet_reserve, AppConfig};
use crate::tokens::{parse_tokens_to_nano, spec_parse_tokens, TokenError};
use crate::wallet::{TopupNotice, TopupReason};

verus! {

/// The next step towards a deployed DePool.
#[derive(Debug, Clone, Copy, PartialEq, Eq, Structural)]
pub enum DeployAction {
    /// The DePool is active: done, ready.
    Ready,
    /// Read the wallet balance, then `deploy_on_wallet`.
    CheckWallet { topup: u128, required: u128 },
    /// Send `value` to the DePool, refresh it, then `deploy_after_funding`.
    SendFunding { value: u128 },
    /// Deploy the DePool with these terms and refresh it: done, ready.
    Deploy { min_stake: u128, validator_assurance: u128 },
    /// Print the notice: done, not ready.
    Stop(TopupNotice),
    /// A configured amount does not parse.
    Fail(TokenError),
}

/// Deploy with the configured minimum stake and validator assurance.
pub open spec fn spec_deploy_terms(config: AppConfig) -> DeployAction {
    match spec_parse_tokens(config.min_stake@) {
        Err(e) => DeployAction::Fail(e),
        Ok(m) => match spec_parse_tokens(config.validator_assurance@) {
            Err(e) => DeployAction::Fail(e),
            Ok(a) => DeployAction::Deploy { min_stake: m, validator_assurance: a },
        },
    }
}

/// On the first look at the DePool: an active DePool is ready; an account
/// below the deploy minimum is funded first, if the wallet can pay the
/// difference and keep its reserve; otherwise the DePool is deployed.
pub open spec fn spec_deploy_on_depool(
    active: bool,
    account_balance: u128,
    config: AppConfig,
    min_balance_for_deploy: u128,
) -> DeployAction {
    if active {
        DeployAction::Ready
    } else if account_balance < min_balance_for_deploy {
        let topup = (min_balance_for_deploy - account_balance) as u128;
        match spec_parse_tokens(config.wallet_reserve@) {
            Err(e) => DeployAction::Fail(e),
            Ok(reserve) => DeployAction::CheckWallet {
                topup,
                required: topup.saturating_add(reserve),
            },
        }
    } else {
        spec_deploy_terms(config)
    }
}

/// After reading the wallet: fund the DePool when the wallet covers the
/// requirement, else ask for a top-up.
pub open spec fn spec_deploy_on_wallet(topup: u128, required: u128, balance: u128) -> DeployAction {
    if balance >= required {
        DeployAction::SendFunding { value: topup }
    } else {
        DeployAction::Stop(TopupNotice { required, reason: TopupReason::DeployFunding })
    }
}

/// After funding: deploy when the account reached the deploy minimum,
/// else ask for what is still missing.
pub open spec fn spec_deploy_after_funding(
    account_balance: u128,
    config: AppConfig,
    min_balance_for_deploy: u128,
) -> DeployAction {
    if account_balance < min_balance_for_deploy {
        DeployAction::Stop(
            TopupNotice {
                required: (min_balance_for_deploy - account_balance) as u128,
                reason: TopupReason::DeployBalance,
            },
        )
    } else {
        spec_deploy_terms(config)
    }
}

fn deploy_terms(config: &AppConfig) -> (r: DeployAction)
    ensures
        r == spec_deploy_terms(*config),
{
    let min_stake = match parse_tokens_to_nano(config.min_stake.as_str()) {
        Ok(v) => v,
        Err(e) => {
            return DeployAction::Fail(e);
        },
    };
    match parse_tokens_to_nano(config.validator_assurance.as_str()) {
        Ok(a) => DeployAction::Deploy { min_stake, validator_assurance: a },
        Err(e) => DeployAction::Fail(e),
    }
}

/// The first step, from whether the DePool is active and its account balance.
pub fn deploy_on_depool(
    active: bool,
    account_balance: u128,
    config: &AppConfig,
    min_balance_for_deploy: u128,
) -> (r: DeployAction)
    ensures
        r == spec_deploy_on_depool(active, account_balance, *config, min_balance_for_deploy),
{
    if active {
        return DeployAction::Ready;
    }
    if account_balance < min_balance_for_deploy {
        let topup = min_balance_for_deploy.saturating_sub(account_balance);
        match wallet_reserve(config) {
            Err(e) => DeployAction::Fail(e),
            Ok(reserve) => DeployAction::CheckWallet {
                topup,
                required: topup.saturating_add(reserve),
            },
        }
    } else {
        deploy_terms(config)
    }
}

/// The step after reading the wallet balance.
pub fn deploy_on_wallet(topup: u128, required: u128, balance: u128) -> (r: DeployAction)
    ensures
        r == spec_deploy_on_wallet(topup, required, balance),
{
    if balance >= required {
        DeployAction::SendFunding { value: topup }
    } else {
        DeployAction::Stop(TopupNotice { required, reason: TopupReason::DeployFunding })
    }
}

/// The step after funding, from the refreshed account balance.
pub fn deploy_after_funding(
    account_balance: u128,
    config: &AppConfig,
    min_balance_for_deploy: u128,
) -> (r: DeployAction)
    ensures
        r == spec_deploy_after_funding(account_balance, *config, min_balance_for_deploy),
{
    if account_balance < min_balance_for_deploy {
        DeployAction::Stop(
            TopupNotice {
                required: min_balance_for_deploy.saturating_sub(account_balance),
                reason: TopupReason::DeployBalance,
            },
        )
    } else {
        deploy_terms(config)
    }
}

} // verus!
