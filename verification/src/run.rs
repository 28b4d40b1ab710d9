//! One pass of the helper: deploy, fund, stake the assurance, and, while an
//! election is open, bring the DePool's target round to it and take part.
//!
//! Each function takes the outcome of the previous phase and says which
//! phase comes next.
use vstd::prelude::*;
use crate::config::{spec_target_depool_stake, target_depool_stake, AppConfig, DepoolTerms};
use crate::depool::{ReadyRound, ROUND_STEP_WAITING_VALIDATOR_REQUEST};
use crate::tokens::TokenError;

verus! {

/// Why a pass ends early without an error.
#[derive(Debug, Clone, Copy, PartialEq, Eq, Structural)]
pub enum StopReason {
    /// The DePool could not be deployed yet.
    NotDeployed,
    /// The DePool or a proxy could not be funded yet.
    NotFunded,
    /// The assurance is not in the pooling round yet.
    AssuranceNotReady,
    /// No election is open; the DePool is funded and the stake is ready.
    ElectionsClosed,
    /// The DePool's target round did not reach the election.
    NoTargetRound,
    /// The target round is not waiting for the validator's request.
    RoundNotWaiting(ReadyRound),
}

/// Why a pass fails.
#[derive(Debug, Clone, Copy, PartialEq, Eq, Structural)]
pub enum RunError {
    /// The DePool serves another validator wallet than the configured one.
    ValidatorWalletMismatch,
    /// The configured target stake does not parse.
    Token(TokenError),
}

/// The next phase of a pass.
#[derive(Debug, Clone, Copy, PartialEq, Eq, Structural)]
pub enum RunAction {
    /// Keep the DePool and proxies funded, then `run_after_balances`.
    MaintainBalances,
    /// Refresh the DePool and compare its validator wallet with the
    /// configured one, then `run_on_validator_wallet`.
    CheckValidatorWallet,
    /// Read the network's minimum validator stake, then `run_on_network_min`.
    FetchNetworkMin,
    /// Keep `required` staked in the pooling round, then `run_after_assurance`.
    EnsureAssurance { required: u128 },
    /// Read the elector's open election, then `run_on_election`.
    CheckElection { required: u128 },
    /// Bring the target round to the election, then `run_on_advanced`.
    Advance { election_id: u32, required: u128 },
    /// Take part in the election for the round, then `run_after_participate`.
    Participate { election_id: u32, round_id: u64, required: u128 },
    /// Stake the assurance again for the next round: the pass is done.
    RestoreAssurance { required: u128 },
    /// The pass ends here.
    Stop(StopReason),
    /// The pass fails.
    Fail(RunError),
}

pub open spec fn spec_run_after_deploy(deployed: bool) -> RunAction {
    if deployed {
        RunAction::MaintainBalances
    } else {
        RunAction::Stop(StopReason::NotDeployed)
    }
}

pub open spec fn spec_run_after_balances(funded: bool) -> RunAction {
    if funded {
        RunAction::CheckValidatorWallet
    } else {
        RunAction::Stop(StopReason::NotFunded)
    }
}

/// `wallet_matches` is `None` when the DePool names no validator wallet,
/// else whether it names the configured one.
pub open spec fn spec_run_on_validator_wallet(wallet_matches: Option<bool>) -> RunAction {
    if wallet_matches == Some(false) {
        RunAction::Fail(RunError::ValidatorWalletMismatch)
    } else {
        RunAction::FetchNetworkMin
    }
}

/// The required stake is the target for the deployed DePool's terms.
pub open spec fn spec_run_on_network_min(
    config: AppConfig,
    terms: DepoolTerms,
    network_min: u128,
) -> RunAction {
    match spec_target_depool_stake(config, Some(terms), network_min) {
        Err(e) => RunAction::Fail(RunError::Token(e)),
        Ok(required) => RunAction::EnsureAssurance { required },
    }
}

pub open spec fn spec_run_after_assurance(ready: bool, required: u128) -> RunAction {
    if ready {
        RunAction::CheckElection { required }
    } else {
        RunAction::Stop(StopReason::AssuranceNotReady)
    }
}

/// Only an open election leads on to the DePool's rounds.
pub open spec fn spec_run_on_election(current_election: Option<u32>, required: u128) -> RunAction {
    match current_election {
        None => RunAction::Stop(StopReason::ElectionsClosed),
        Some(election_id) => RunAction::Advance { election_id, required },
    }
}

/// Only a target round that waits for the validator's request leads on to
/// taking part.
pub open spec fn spec_run_on_advanced(
    ready: Option<ReadyRound>,
    election_id: u32,
    required: u128,
) -> RunAction {
    match ready {
        None => RunAction::Stop(StopReason::NoTargetRound),
        Some(r) => if r.step != ROUND_STEP_WAITING_VALIDATOR_REQUEST {
            RunAction::Stop(StopReason::RoundNotWaiting(r))
        } else {
            RunAction::Participate { election_id, round_id: r.id, required }
        },
    }
}

/// After the deploy phase.
pub fn run_after_deploy(deployed: bool) -> (r: RunAction)
    ensures
        r == spec_run_after_deploy(deployed),
{
    if deployed {
        RunAction::MaintainBalances
    } else {
        RunAction::Stop(StopReason::NotDeployed)
    }
}

/// After the funding phase.
pub fn run_after_balances(funded: bool) -> (r: RunAction)
    ensures
        r == spec_run_after_balances(funded),
{
    if funded {
        RunAction::CheckValidatorWallet
    } else {
        RunAction::Stop(StopReason::NotFunded)
    }
}

/// After comparing the DePool's validator wallet with the configured one.
pub fn run_on_validator_wallet(wallet_matches: Option<bool>) -> (r: RunAction)
    ensures
        r == spec_run_on_validator_wallet(wallet_matches),
{
    if wallet_matches == Some(false) {
        RunAction::Fail(RunError::ValidatorWalletMismatch)
    } else {
        RunAction::FetchNetworkMin
    }
}

/// After reading the network's minimum stake.
pub fn run_on_network_min(config: &AppConfig, terms: DepoolTerms, network_min: u128) -> (r:
    RunAction)
    ensures
        r == spec_run_on_network_min(*config, terms, network_min),
{
    match target_depool_stake(config, Some(terms), network_min) {
        Err(e) => RunAction::Fail(RunError::Token(e)),
        Ok(required) => RunAction::EnsureAssurance { required },
    }
}

/// After the assurance phase.
pub fn run_after_assurance(ready: bool, required: u128) -> (r: RunAction)
    ensures
        r == spec_run_after_assurance(ready, required),
{
    if ready {
        RunAction::CheckElection { required }
    } else {
        RunAction::Stop(StopReason::AssuranceNotReady)
    }
}

/// After reading the elector's open election.
pub fn run_on_election(current_election: Option<u32>, required: u128) -> (r: RunAction)
    ensures
        r == spec_run_on_election(current_election, required),
{
    match current_election {
        None => RunAction::Stop(StopReason::ElectionsClosed),
        Some(election_id) => RunAction::Advance { election_id, required },
    }
}

/// After advancing the DePool.
pub fn run_on_advanced(ready: Option<ReadyRound>, election_id: u32, required: u128) -> (r:
    RunAction)
    ensures
        r == spec_run_on_advanced(ready, election_id, required),
{
    match ready {
        None => RunAction::Stop(StopReason::NoTargetRound),
        Some(r) => if r.step != ROUND_STEP_WAITING_VALIDATOR_REQUEST {
            RunAction::Stop(StopReason::RoundNotWaiting(r))
        } else {
            RunAction::Participate { election_id, round_id: r.id, required }
        },
    }
}

/// After taking part: stake the assurance for the next round.
pub fn run_after_participate(required: u128) -> (r: RunAction)
    ensures
        r == (RunAction::RestoreAssurance { required }),
{
    RunAction::RestoreAssurance { required }
}

} // verus!
