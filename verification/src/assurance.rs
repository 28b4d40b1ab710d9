//! Keeping the validator's assurance staked in the DePool's pooling round,
//! and waiting until the added stake shows up.
//!
//! Each function takes what was just observed and says what to do next;
//! the caller performs that and reports back to the function that the
//! action names.
use vstd::prelude::*;
use crate::config::{wallet_reserve, AppConfig, ADD_STAKE_GAS};
use crate::depool::{
    opt_participant, participant_round_stake, pooling_round, spec_participant_round_stake,
    spec_pooling_round, Participant, Round,
};
use crate::tokens::{spec_parse_tokens, TokenError};
use crate::wallet::{TopupNotice, TopupReason};

verus! {

/// How many times the stake is looked for before giving up.
pub const CONFIRMATION_ATTEMPTS: usize = 20;

/// The next step towards the assurance in the pooling round.
#[derive(Debug, Clone, Copy, PartialEq, Eq, Structural)]
pub enum AssuranceAction {
    /// There is no pooling round: done, not ready.
    NoPoolingRound,
    /// Read the participant entry of the validator wallet, then
    /// `assurance_on_participant` for this round.
    FetchParticipant { round_id: u64 },
    /// The stake is in place: done, ready.
    Ready { round_id: u64, current: u128 },
    /// Read the wallet balance, then `assurance_on_wallet`.
    CheckWallet { round_id: u64, current: u128, stake: u128, required: u128 },
    /// Add `stake` as ordinary stake, then confirm it (`confirm_stake_*`):
    /// done, ready.
    AddStake { round_id: u64, current: u128, stake: u128 },
    /// Print the notice: done, not ready.
    Stop(TopupNotice),
    /// The wallet reserve does not parse.
    Fail(TokenError),
}

/// Look at the first pooling round, if there is one.
pub open spec fn spec_assurance_on_rounds(rounds: Seq<Round>) -> AssuranceAction {
    match spec_pooling_round(rounds) {
        None => AssuranceAction::NoPoolingRound,
        Some(r) => AssuranceAction::FetchParticipant { round_id: r.id },
    }
}

/// The stake to add to reach `required_stake` from `current`: what is
/// missing, but never less than the DePool's minimum stake.
pub open spec fn stake_to_add(current: u128, required_stake: u128, depool_min_stake: u64) -> u128 {
    let missing = required_stake.saturating_sub(current);
    if missing >= depool_min_stake as u128 {
        missing
    } else {
        depool_min_stake as u128
    }
}

/// On the participant entry: ready when its stake in the pooling round
/// reaches the requirement; otherwise check that the wallet can pay the
/// missing stake, the gas and its reserve.
pub open spec fn spec_assurance_on_participant(
    round_id: u64,
    participant: Option<Participant>,
    required_stake: u128,
    depool_min_stake: u64,
    config: AppConfig,
) -> AssuranceAction {
    let current = spec_participant_round_stake(participant, round_id);
    if current >= required_stake {
        AssuranceAction::Ready { round_id, current }
    } else {
        let stake = stake_to_add(current, required_stake, depool_min_stake);
        match spec_parse_tokens(config.wallet_reserve@) {
            Err(e) => AssuranceAction::Fail(e),
            Ok(reserve) => AssuranceAction::CheckWallet {
                round_id,
                current,
                stake,
                required: stake.saturating_add(ADD_STAKE_GAS).saturating_add(reserve),
            },
        }
    }
}

/// After reading the wallet: add the stake when the wallet covers the
/// requirement, else ask for a top-up.
pub open spec fn spec_assurance_on_wallet(
    round_id: u64,
    current: u128,
    stake: u128,
    required: u128,
    balance: u128,
) -> AssuranceAction {
    if balance >= required {
        AssuranceAction::AddStake { round_id, current, stake }
    } else {
        AssuranceAction::Stop(TopupNotice { required, reason: TopupReason::ValidatorAssurance })
    }
}

/// The first step, from the DePool's rounds.
pub fn assurance_on_rounds(rounds: &Vec<Round>) -> (r: AssuranceAction)
    ensures
        r == spec_assurance_on_rounds(rounds@),
{
    match pooling_round(rounds) {
        None => AssuranceAction::NoPoolingRound,
        Some(r) => AssuranceAction::FetchParticipant { round_id: r.id },
    }
}

/// The step after reading the participant entry.
pub fn assurance_on_participant(
    round_id: u64,
    participant: Option<&Participant>,
    required_stake: u128,
    depool_min_stake: u64,
    config: &AppConfig,
) -> (r: AssuranceAction)
    ensures
        r == spec_assurance_on_participant(
            round_id,
            opt_participant(participant),
            required_stake,
            depool_min_stake,
            *config,
        ),
        r matches AssuranceAction::CheckWallet { stake, current, .. } ==> current + stake
            >= required_stake && stake >= depool_min_stake,
{
    let current = participant_round_stake(participant, round_id);
    if current >= required_stake {
        return AssuranceAction::Ready { round_id, current };
    }
    let missing = required_stake.saturating_sub(current);
    let stake = if missing >= depool_min_stake as u128 {
        missing
    } else {
        depool_min_stake as u128
    };
    match wallet_reserve(config) {
        Err(e) => AssuranceAction::Fail(e),
        Ok(reserve) => AssuranceAction::CheckWallet {
            round_id,
            current,
            stake,
            required: stake.saturating_add(ADD_STAKE_GAS).saturating_add(reserve),
        },
    }
}

/// The step after reading the wallet balance.
pub fn assurance_on_wallet(
    round_id: u64,
    current: u128,
    stake: u128,
    required: u128,
    balance: u128,
) -> (r: AssuranceAction)
    ensures
        r == spec_assurance_on_wallet(round_id, current, stake, required, balance),
{
    if balance >= required {
        AssuranceAction::AddStake { round_id, current, stake }
    } else {
        AssuranceAction::Stop(TopupNotice { required, reason: TopupReason::ValidatorAssurance })
    }
}

/// The next step in waiting for the pooling stake to reach a threshold.
#[derive(Debug, Clone, Copy, PartialEq, Eq, Structural)]
pub enum ConfirmAction {
    /// Read the participant entry, then `confirm_stake_on_participant`.
    FetchParticipant { attempt: usize, round_id: u64 },
    /// The stake reached the threshold: done.
    Reached { stake: u128 },
    /// Wait, refresh the DePool, then `confirm_stake_on_rounds` with
    /// `next_attempt`.
    Retry { next_attempt: usize, stake: u128 },
    /// The last attempt saw too little stake: give up with an error.
    GiveUp { stake: u128 },
}

/// Whether the stake seen at `attempt` is enough, else whether to look
/// again.
pub open spec fn spec_confirm_decide(attempt: usize, stake: u128, threshold: u128) -> ConfirmAction {
    if stake >= threshold {
        ConfirmAction::Reached { stake }
    } else if attempt >= CONFIRMATION_ATTEMPTS {
        ConfirmAction::GiveUp { stake }
    } else {
        ConfirmAction::Retry { next_attempt: (attempt + 1) as usize, stake }
    }
}

/// On the refreshed rounds: without a pooling round the stake counts as 0.
pub open spec fn spec_confirm_stake_on_rounds(
    attempt: usize,
    rounds: Seq<Round>,
    threshold: u128,
) -> ConfirmAction {
    match spec_pooling_round(rounds) {
        None => spec_confirm_decide(attempt, 0, threshold),
        Some(r) => ConfirmAction::FetchParticipant { attempt, round_id: r.id },
    }
}

pub open spec fn spec_confirm_stake_on_participant(
    attempt: usize,
    round_id: u64,
    participant: Option<Participant>,
    threshold: u128,
) -> ConfirmAction {
    spec_confirm_decide(attempt, spec_participant_round_stake(participant, round_id), threshold)
}

fn confirm_decide(attempt: usize, stake: u128, threshold: u128) -> (r: ConfirmAction)
    requires
        1 <= attempt <= CONFIRMATION_ATTEMPTS,
    ensures
        r == spec_confirm_decide(attempt, stake, threshold),
{
    if stake >= threshold {
        ConfirmAction::Reached { stake }
    } else if attempt >= CONFIRMATION_ATTEMPTS {
        ConfirmAction::GiveUp { stake }
    } else {
        ConfirmAction::Retry { next_attempt: attempt + 1, stake }
    }
}

/// A look at the rounds during confirmation; `attempt` counts from 1.
pub fn confirm_stake_on_rounds(attempt: usize, rounds: &Vec<Round>, threshold: u128) -> (r:
    ConfirmAction)
    requires
        1 <= attempt <= CONFIRMATION_ATTEMPTS,
    ensures
        r == spec_confirm_stake_on_rounds(attempt, rounds@, threshold),
{
    match pooling_round(rounds) {
        None => confirm_decide(attempt, 0, threshold),
        Some(r) => ConfirmAction::FetchParticipant { attempt, round_id: r.id },
    }
}

/// The step after reading the participant entry during confirmation.
pub fn confirm_stake_on_participant(
    attempt: usize,
    round_id: u64,
    participant: Option<&Participant>,
    threshold: u128,
) -> (r: ConfirmAction)
    requires
        1 <= attempt <= CONFIRMATION_ATTEMPTS,
    ensures
        r == spec_confirm_stake_on_participant(
            attempt,
            round_id,
            opt_participant(participant),
            threshold,
        ),
{
    let stake = participant_round_stake(participant, round_id);
    confirm_decide(attempt, stake, threshold)
}

} // verus!
