//! Taking part in an open election: ticktock the DePool until its target
//! round is the one for this election, then send `participateInElections`
//! through the proxy of that round and wait for the elector to list the
//! validator.
//!
//! Each function takes what was just observed and says what to do next;
//! the caller performs that and reports back to the function that the
//! action names.
use vstd::prelude::*;
use crate::assurance::CONFIRMATION_ATTEMPTS;
use crate::config::{wallet_reserve, AppConfig};
use crate::depool::{
    opt_participant, participant_round_stake, ready_round, ready_round_of,
    spec_participant_round_stake, Participant, ReadyRound, Round, COMPLETION_REASON_FAKE_ROUND,
};
use crate::tokens::{parse_tokens_to_nano, spec_parse_tokens, TokenError};
use crate::wallet::{TopupNotice, TopupReason};

verus! {

/// How many times the DePool is looked at, with a ticktock between looks.
pub const UPDATE_ATTEMPTS: usize = 4;

/// Seconds to wait after a ticktock.
pub const TICKTOCK_INTERVAL_SECS: u64 = 60;

/// Seconds between two looks for the stake or the registration.
pub const CONFIRMATION_INTERVAL_SECS: u64 = 3;

/// Why advancing the DePool fails.
#[derive(Debug, Clone, Copy, PartialEq, Eq, Structural)]
pub enum AdvanceError {
    /// The DePool reports fewer than three rounds (this many).
    RoundsMismatch(usize),
    /// The ticktock value or the wallet reserve does not parse.
    Token(TokenError),
}

/// The next step towards a DePool whose target round is the open election's.
#[derive(Debug, Clone, Copy, PartialEq, Eq, Structural)]
pub enum AdvanceAction {
    Fail(AdvanceError),
    /// Read the participant entry of the validator wallet (for the log),
    /// then `advance_decide`.
    FetchParticipant,
    /// The target round is the election's: done, with this round.
    Ready(ReadyRound),
    /// After a ticktock the target round turned out made up: done, none.
    FakeRound,
    /// The last look did not find the election's round: done, none.
    Exhausted,
    /// Read the wallet balance, then `advance_on_wallet`.
    CheckWallet { value: u128, required: u128 },
    /// Send a ticktock with `value`, wait, then look again with the next
    /// attempt.
    SendTicktock { value: u128 },
    /// Print the notice: done, none.
    Stop(TopupNotice),
}

/// On the refreshed DePool: it must report at least three rounds (the
/// previous, the target and the pooling round).
pub open spec fn spec_advance_on_rounds(rounds: Seq<Round>) -> AdvanceAction {
    if rounds.len() < 3 {
        AdvanceAction::Fail(AdvanceError::RoundsMismatch(rounds.len() as usize))
    } else {
        AdvanceAction::FetchParticipant
    }
}

/// The decision of one attempt: the target round (the second) is taken when
/// it is the election's; after a ticktock a made-up target ends the try,
/// and so does the last attempt; otherwise a ticktock is sent, if the
/// wallet can pay it and keep its reserve.
pub open spec fn spec_advance_decide(
    attempt: usize,
    sent_ticktock: bool,
    rounds: Seq<Round>,
    election_id: u32,
    config: AppConfig,
) -> AdvanceAction {
    let target = rounds[1];
    if target.supposed_elected_at == election_id {
        AdvanceAction::Ready(ready_round_of(target))
    } else if sent_ticktock && target.completion_reason == COMPLETION_REASON_FAKE_ROUND {
        AdvanceAction::FakeRound
    } else if attempt >= UPDATE_ATTEMPTS {
        AdvanceAction::Exhausted
    } else {
        match spec_parse_tokens(config.ticktock_value@) {
            Err(e) => AdvanceAction::Fail(AdvanceError::Token(e)),
            Ok(value) => match spec_parse_tokens(config.wallet_reserve@) {
                Err(e) => AdvanceAction::Fail(AdvanceError::Token(e)),
                Ok(reserve) => AdvanceAction::CheckWallet {
                    value,
                    required: value.saturating_add(reserve),
                },
            },
        }
    }
}

/// After reading the wallet: send the ticktock when the wallet covers the
/// requirement, else ask for a top-up.
pub open spec fn spec_advance_on_wallet(value: u128, required: u128, balance: u128) -> AdvanceAction {
    if balance >= required {
        AdvanceAction::SendTicktock { value }
    } else {
        AdvanceAction::Stop(TopupNotice { required, reason: TopupReason::Ticktock })
    }
}

/// The validator's stake in the pooling round and the previous round, as
/// the log reports it.
pub open spec fn spec_advance_pooling_stake(rounds: Seq<Round>, participant: Option<Participant>) -> int {
    spec_participant_round_stake(participant, rounds[2].id) + spec_participant_round_stake(
        participant,
        rounds[0].id,
    )
}

/// The first step of each attempt, from the refreshed rounds.
pub fn advance_on_rounds(rounds: &Vec<Round>) -> (r: AdvanceAction)
    ensures
        r == spec_advance_on_rounds(rounds@),
{
    if rounds.len() < 3 {
        AdvanceAction::Fail(AdvanceError::RoundsMismatch(rounds.len()))
    } else {
        AdvanceAction::FetchParticipant
    }
}

/// The stake that the log reports for an attempt.
pub fn advance_pooling_stake(rounds: &Vec<Round>, participant: Option<&Participant>) -> (r: u128)
    requires
        rounds.len() >= 3,
    ensures
        r == spec_advance_pooling_stake(rounds@, opt_participant(participant)),
{
    let pooling = participant_round_stake(participant, rounds[2].id);
    let previous = participant_round_stake(participant, rounds[0].id);
    proof {
        lemma_round_stake_below_u64(participant, rounds@[2].id);
        lemma_round_stake_below_u64(participant, rounds@[0].id);
    }
    pooling + previous
}

proof fn lemma_round_stake_below_u64(participant: Option<&Participant>, round_id: u64)
    ensures
        spec_participant_round_stake(opt_participant(participant), round_id) <= u64::MAX,
{
    match participant {
        Some(p) => lemma_round_stake_in_below_u64(p.rounds@, round_id),
        None => {},
    }
}

proof fn lemma_round_stake_in_below_u64(rounds: Seq<crate::depool::ParticipantRound>, round_id: u64)
    ensures
        crate::depool::round_stake_in(rounds, round_id) <= u64::MAX,
    decreases rounds.len(),
{
    if rounds.len() > 0 && rounds[0].round_id != round_id {
        lemma_round_stake_in_below_u64(rounds.drop_first(), round_id);
    }
}

/// The decision of attempt `attempt` (from 1), after `sent_ticktock` says
/// whether an earlier attempt sent a ticktock.
pub fn advance_decide(
    attempt: usize,
    sent_ticktock: bool,
    rounds: &Vec<Round>,
    election_id: u32,
    config: &AppConfig,
) -> (r: AdvanceAction)
    requires
        1 <= attempt <= UPDATE_ATTEMPTS,
        rounds.len() >= 3,
    ensures
        r == spec_advance_decide(attempt, sent_ticktock, rounds@, election_id, *config),
{
    let target = &rounds[1];
    if target.supposed_elected_at == election_id {
        return AdvanceAction::Ready(ready_round(target));
    }
    if sent_ticktock && target.completion_reason == COMPLETION_REASON_FAKE_ROUND {
        return AdvanceAction::FakeRound;
    }
    if attempt >= UPDATE_ATTEMPTS {
        return AdvanceAction::Exhausted;
    }
    let value = match parse_tokens_to_nano(config.ticktock_value.as_str()) {
        Ok(v) => v,
        Err(e) => {
            return AdvanceAction::Fail(AdvanceError::Token(e));
        },
    };
    match wallet_reserve(config) {
        Err(e) => AdvanceAction::Fail(AdvanceError::Token(e)),
        Ok(reserve) => AdvanceAction::CheckWallet { value, required: value.saturating_add(reserve) },
    }
}

/// The step after reading the wallet balance.
pub fn advance_on_wallet(value: u128, required: u128, balance: u128) -> (r: AdvanceAction)
    ensures
        r == spec_advance_on_wallet(value, required, balance),
{
    if balance >= required {
        AdvanceAction::SendTicktock { value }
    } else {
        AdvanceAction::Stop(TopupNotice { required, reason: TopupReason::Ticktock })
    }
}

/// Why taking part fails.
#[derive(Debug, Clone, Copy, PartialEq, Eq, Structural)]
pub enum ParticipateError {
    /// The DePool has no proxies.
    NoProxies,
    /// The elector reports no open election.
    NoCurrentElection,
    /// The wallet cannot pay the participation; the notice says how much
    /// it needs.
    WalletTooLow(TopupNotice),
    /// The elector did not list the validator in time.
    NotRegistered,
    /// The participation value or the wallet reserve does not parse.
    Token(TokenError),
}

/// The next step in taking part.
#[derive(Debug, Clone, Copy, PartialEq, Eq, Structural)]
pub enum ParticipateAction {
    Fail(ParticipateError),
    /// The elector already lists the validator key: done.
    AlreadyRegistered,
    /// Build and sign the election request, then `participate_after_sign`.
    Sign,
    /// Read the wallet balance, then `participate_on_wallet`.
    CheckWallet { value: u128, required: u128 },
    /// Send `participateInElections` with `value`, then confirm
    /// (`participate_confirm`) from attempt 1.
    Send { value: u128 },
    /// The elector lists the validator: done.
    Confirmed,
    /// Wait, read the elector again, then `participate_confirm` with
    /// `next_attempt`.
    Retry { next_attempt: usize },
}

/// The proxy of a round: proxies take turns by round id.
pub open spec fn spec_proxy_index(proxy_count: usize, round_id: u64) -> Result<usize, ParticipateError> {
    if proxy_count == 0 {
        Err(ParticipateError::NoProxies)
    } else {
        Ok(((round_id as usize) % proxy_count) as usize)
    }
}

/// On the elector's data (`None`: no open election; `Some(listed)`:
/// whether the validator key is listed).
pub open spec fn spec_participate_on_election(listed: Option<bool>) -> ParticipateAction {
    match listed {
        None => ParticipateAction::Fail(ParticipateError::NoCurrentElection),
        Some(true) => ParticipateAction::AlreadyRegistered,
        Some(false) => ParticipateAction::Sign,
    }
}

/// After signing: check that the wallet can pay the participation value
/// and keep its reserve.
pub open spec fn spec_participate_after_sign(config: AppConfig) -> ParticipateAction {
    match spec_parse_tokens(config.participate_value@) {
        Err(e) => ParticipateAction::Fail(ParticipateError::Token(e)),
        Ok(value) => match spec_parse_tokens(config.wallet_reserve@) {
            Err(e) => ParticipateAction::Fail(ParticipateError::Token(e)),
            Ok(reserve) => ParticipateAction::CheckWallet {
                value,
                required: value.saturating_add(reserve),
            },
        },
    }
}

/// After reading the wallet: send when it covers the requirement, else fail
/// with a top-up notice.
pub open spec fn spec_participate_on_wallet(value: u128, required: u128, balance: u128) -> ParticipateAction {
    if balance >= required {
        ParticipateAction::Send { value }
    } else {
        ParticipateAction::Fail(
            ParticipateError::WalletTooLow(
                TopupNotice { required, reason: TopupReason::Participate },
            ),
        )
    }
}

/// Confirmation attempt `attempt` (from 1) on the elector's data.
pub open spec fn spec_participate_confirm(attempt: usize, listed: Option<bool>) -> ParticipateAction {
    if listed == Some(true) {
        ParticipateAction::Confirmed
    } else if attempt >= CONFIRMATION_ATTEMPTS {
        ParticipateAction::Fail(ParticipateError::NotRegistered)
    } else {
        ParticipateAction::Retry { next_attempt: (attempt + 1) as usize }
    }
}

/// The position of the proxy that carries the request for `round_id`.
pub fn proxy_index(proxy_count: usize, round_id: u64) -> (r: Result<usize, ParticipateError>)
    ensures
        r == spec_proxy_index(proxy_count, round_id),
        r matches Ok(i) ==> i < proxy_count,
{
    if proxy_count == 0 {
        Err(ParticipateError::NoProxies)
    } else {
        Ok((round_id as usize) % proxy_count)
    }
}

/// The step after reading the elector's data.
pub fn participate_on_election(listed: Option<bool>) -> (r: ParticipateAction)
    ensures
        r == spec_participate_on_election(listed),
{
    match listed {
        None => ParticipateAction::Fail(ParticipateError::NoCurrentElection),
        Some(true) => ParticipateAction::AlreadyRegistered,
        Some(false) => ParticipateAction::Sign,
    }
}

/// The step after the request is signed.
pub fn participate_after_sign(config: &AppConfig) -> (r: ParticipateAction)
    ensures
        r == spec_participate_after_sign(*config),
{
    let value = match parse_tokens_to_nano(config.participate_value.as_str()) {
        Ok(v) => v,
        Err(e) => {
            return ParticipateAction::Fail(ParticipateError::Token(e));
        },
    };
    match wallet_reserve(config) {
        Err(e) => ParticipateAction::Fail(ParticipateError::Token(e)),
        Ok(reserve) => ParticipateAction::CheckWallet {
            value,
            required: value.saturating_add(reserve),
        },
    }
}

/// The step after reading the wallet balance.
pub fn participate_on_wallet(value: u128, required: u128, balance: u128) -> (r: ParticipateAction)
    ensures
        r == spec_participate_on_wallet(value, required, balance),
{
    if balance >= required {
        ParticipateAction::Send { value }
    } else {
        ParticipateAction::Fail(
            ParticipateError::WalletTooLow(
                TopupNotice { required, reason: TopupReason::Participate },
            ),
        )
    }
}

/// A confirmation attempt, counted from 1.
pub fn participate_confirm(attempt: usize, listed: Option<bool>) -> (r: ParticipateAction)
    requires
        1 <= attempt <= CONFIRMATION_ATTEMPTS,
    ensures
        r == spec_participate_confirm(attempt, listed),
{
    if listed == Some(true) {
        ParticipateAction::Confirmed
    } else if attempt >= CONFIRMATION_ATTEMPTS {
        ParticipateAction::Fail(ParticipateError::NotRegistered)
    } else {
        ParticipateAction::Retry { next_attempt: attempt + 1 }
    }
}

} // verus!
