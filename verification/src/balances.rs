//! Keeping the DePool and its proxies funded from the validator wallet.
//!
//! Each function takes what was just observed and says what to do next;
//! the caller performs that and reports back to the function that the
//! action names.
use vstd::prelude::*;
use crate::config::{
    wallet_reserve, AppConfig, DEPOOL_MIN_BALANCE, DEPOOL_TARGET_BALANCE, PROXY_MIN_BALANCE,
    PROXY_TARGET_BALANCE,
};
use crate::tokens::{spec_parse_tokens, TokenError};
use crate::wallet::{TopupNotice, TopupReason};

verus! {

/// What a top-up goes to.
#[derive(Debug, Clone, Copy, PartialEq, Eq, Structural)]
pub enum FundTarget {
    Depool,
    /// The proxy at this position in the DePool's list.
    Proxy(usize),
}

/// The next step towards funded balances.
#[derive(Debug, Clone, Copy, PartialEq, Eq, Structural)]
pub enum BalanceAction {
    /// Read the wallet balance, then `balances_on_wallet`.
    CheckWallet { target: FundTarget, value: u128, required: u128 },
    /// Send `value` to the DePool's own balance, refresh the DePool, then
    /// `balances_next_proxy(0, ..)` with its proxies.
    ReceiveFunds { value: u128 },
    /// Read the balance of this proxy, then `balances_on_proxy`.
    CheckProxy { index: usize },
    /// The proxy holds enough: log it, then `balances_next_proxy(index + 1, ..)`.
    ProxyReady { index: usize, balance: u128 },
    /// Send `value` to this proxy, then `balances_next_proxy(index + 1, ..)`.
    SendToProxy { index: usize, value: u128 },
    /// Everything is funded: done, funded.
    Done,
    /// Print the notice: done, not funded.
    Stop(TopupNotice),
    /// The wallet reserve does not parse.
    Fail(TokenError),
}

/// Check the proxy at `index`, or finish after the last one.
pub open spec fn spec_balances_next_proxy(index: usize, proxy_count: usize) -> BalanceAction {
    if index < proxy_count {
        BalanceAction::CheckProxy { index }
    } else {
        BalanceAction::Done
    }
}

/// A wallet check for a top-up of `value`: the wallet must also keep its
/// reserve.
pub open spec fn spec_check_wallet_for(
    target: FundTarget,
    value: u128,
    config: AppConfig,
) -> BalanceAction {
    match spec_parse_tokens(config.wallet_reserve@) {
        Err(e) => BalanceAction::Fail(e),
        Ok(reserve) => BalanceAction::CheckWallet {
            target,
            value,
            required: value.saturating_add(reserve),
        },
    }
}

/// The smallest own balance for which the top-up amount is computed
/// without overflow.
pub open spec fn own_balance_in_range(own_balance: i128) -> bool {
    own_balance >= DEPOOL_TARGET_BALANCE as i128 - i128::MAX
}

/// Whether the top-up of this own balance can be computed (see
/// `balances_on_depool`).
pub fn own_balance_ok(own_balance: i128) -> (b: bool)
    ensures
        b == own_balance_in_range(own_balance),
{
    own_balance >= DEPOOL_TARGET_BALANCE as i128 - i128::MAX
}

/// On the refreshed DePool: an own balance below the minimum is topped up
/// to the target; otherwise the proxies are checked.
pub open spec fn spec_balances_on_depool(
    own_balance: i128,
    proxy_count: usize,
    config: AppConfig,
) -> BalanceAction {
    if own_balance < DEPOOL_MIN_BALANCE as i128 {
        spec_check_wallet_for(
            FundTarget::Depool,
            (DEPOOL_TARGET_BALANCE as int - own_balance) as u128,
            config,
        )
    } else {
        spec_balances_next_proxy(0, proxy_count)
    }
}

/// On a proxy balance: a balance below the minimum is topped up to the
/// target; otherwise the proxy is ready.
pub open spec fn spec_balances_on_proxy(index: usize, balance: u128, config: AppConfig) -> BalanceAction {
    if balance >= PROXY_MIN_BALANCE {
        BalanceAction::ProxyReady { index, balance }
    } else {
        spec_check_wallet_for(
            FundTarget::Proxy(index),
            (PROXY_TARGET_BALANCE - balance) as u128,
            config,
        )
    }
}

/// After reading the wallet: send the top-up when the wallet covers the
/// requirement, else ask for a top-up of the wallet.
pub open spec fn spec_balances_on_wallet(
    target: FundTarget,
    value: u128,
    required: u128,
    balance: u128,
) -> BalanceAction {
    if balance >= required {
        match target {
            FundTarget::Depool => BalanceAction::ReceiveFunds { value },
            FundTarget::Proxy(index) => BalanceAction::SendToProxy { index, value },
        }
    } else {
        BalanceAction::Stop(
            TopupNotice {
                required,
                reason: match target {
                    FundTarget::Depool => TopupReason::DepoolBalance,
                    FundTarget::Proxy(_) => TopupReason::ProxyBalance,
                },
            },
        )
    }
}

fn check_wallet_for(target: FundTarget, value: u128, config: &AppConfig) -> (r: BalanceAction)
    ensures
        r == spec_check_wallet_for(target, value, *config),
{
    match wallet_reserve(config) {
        Err(e) => BalanceAction::Fail(e),
        Ok(reserve) => BalanceAction::CheckWallet {
            target,
            value,
            required: value.saturating_add(reserve),
        },
    }
}

/// The step after the proxy at `index - 1`, or the first proxy step.
pub fn balances_next_proxy(index: usize, proxy_count: usize) -> (r: BalanceAction)
    ensures
        r == spec_balances_next_proxy(index, proxy_count),
{
    if index < proxy_count {
        BalanceAction::CheckProxy { index }
    } else {
        BalanceAction::Done
    }
}

/// The first step, from the DePool's own balance and its number of proxies.
pub fn balances_on_depool(own_balance: i128, proxy_count: usize, config: &AppConfig) -> (r:
    BalanceAction)
    requires
        own_balance_in_range(own_balance),
    ensures
        r == spec_balances_on_depool(own_balance, proxy_count, *config),
        r matches BalanceAction::CheckWallet { value, .. } ==> own_balance + value
            == DEPOOL_TARGET_BALANCE,
{
    if own_balance < DEPOOL_MIN_BALANCE as i128 {
        let missing = DEPOOL_TARGET_BALANCE as i128 - own_balance;
        check_wallet_for(FundTarget::Depool, missing as u128, config)
    } else {
        balances_next_proxy(0, proxy_count)
    }
}

/// The step after reading the balance of the proxy at `index`.
pub fn balances_on_proxy(index: usize, balance: u128, config: &AppConfig) -> (r: BalanceAction)
    ensures
        r == spec_balances_on_proxy(index, balance, *config),
        r matches BalanceAction::CheckWallet { value, .. } ==> balance + value
            == PROXY_TARGET_BALANCE,
{
    if balance >= PROXY_MIN_BALANCE {
        BalanceAction::ProxyReady { index, balance }
    } else {
        check_wallet_for(
            FundTarget::Proxy(index),
            PROXY_TARGET_BALANCE.saturating_sub(balance),
            config,
        )
    }
}

/// The step after reading the wallet balance.
pub fn balances_on_wallet(target: FundTarget, value: u128, required: u128, balance: u128) -> (r:
    BalanceAction)
    ensures
        r == spec_balances_on_wallet(target, value, required, balance),
{
    if balance >= required {
        match target {
            FundTarget::Depool => BalanceAction::ReceiveFunds { value },
            FundTarget::Proxy(index) => BalanceAction::SendToProxy { index, value },
        }
    } else {
        let reason = match target {
            FundTarget::Depool => TopupReason::DepoolBalance,
            FundTarget::Proxy(_) => TopupReason::ProxyBalance,
        };
        BalanceAction::Stop(TopupNotice { required, reason })
    }
}

} // verus!
