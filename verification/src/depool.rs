//! What the DePool reports: its rounds and a participant's stakes, and how
//! they are written in the log.
use vstd::prelude::*;
use crate::digits::{decimal, push_decimal};
use crate::text::{push_str, string_from_chars};

verus! {

/// The round step in which the DePool accepts stakes.
pub const ROUND_STEP_POOLING: u8 = 1;

/// The round step in which the DePool waits for the validator's request.
pub const ROUND_STEP_WAITING_VALIDATOR_REQUEST: u8 = 2;

/// The completion reason of a round that the DePool made up.
pub const COMPLETION_REASON_FAKE_ROUND: u8 = 2;

/// A DePool round.
#[derive(Debug, Clone, Copy, PartialEq, Eq, Structural)]
pub struct Round {
    pub id: u64,
    pub step: u8,
    pub supposed_elected_at: u32,
    pub stake: u64,
    pub validator_stake: u64,
    pub completion_reason: u8,
}

/// A participant's stake in one round.
#[derive(Debug, Clone, Copy, PartialEq, Eq, Structural)]
pub struct ParticipantRound {
    pub round_id: u64,
    pub total: u64,
    pub ordinary: u64,
}

/// A participant's stakes.
#[derive(Debug, Clone, PartialEq, Eq)]
pub struct Participant {
    pub total_round_stake: u64,
    pub rounds: Vec<ParticipantRound>,
}

/// The round that the DePool will send to the coming election.
#[derive(Debug, Clone, Copy, PartialEq, Eq, Structural)]
pub struct ReadyRound {
    pub id: u64,
    pub step: u8,
    pub supposed_elected_at: u32,
    pub stake: u64,
    pub validator_stake: u64,
}

pub open spec fn ready_round_of(r: Round) -> ReadyRound {
    ReadyRound {
        id: r.id,
        step: r.step,
        supposed_elected_at: r.supposed_elected_at,
        stake: r.stake,
        validator_stake: r.validator_stake,
    }
}

/// The part of a round that the election steps look at.
pub fn ready_round(r: &Round) -> (rr: ReadyRound)
    ensures
        rr == ready_round_of(*r),
{
    ReadyRound {
        id: r.id,
        step: r.step,
        supposed_elected_at: r.supposed_elected_at,
        stake: r.stake,
        validator_stake: r.validator_stake,
    }
}

/// The participant's total stake in the first entry for `round_id`, or 0.
pub open spec fn round_stake_in(rounds: Seq<ParticipantRound>, round_id: u64) -> u128
    decreases rounds.len(),
{
    if rounds.len() == 0 {
        0
    } else if rounds[0].round_id == round_id {
        rounds[0].total as u128
    } else {
        round_stake_in(rounds.drop_first(), round_id)
    }
}

/// A participant's stake in a round; 0 for no participant.
pub open spec fn spec_participant_round_stake(participant: Option<Participant>, round_id: u64) -> u128 {
    match participant {
        Some(p) => round_stake_in(p.rounds@, round_id),
        None => 0,
    }
}

pub open spec fn opt_participant(p: Option<&Participant>) -> Option<Participant> {
    match p {
        Some(q) => Some(*q),
        None => None,
    }
}

/// The participant's total stake in the round `round_id`.
pub fn participant_round_stake(participant: Option<&Participant>, round_id: u64) -> (r: u128)
    ensures
        r == spec_participant_round_stake(opt_participant(participant), round_id),
{
    match participant {
        None => 0,
        Some(p) => {
            let n = p.rounds.len();
            let mut i: usize = 0;
            proof {
                assert(p.rounds@.skip(0) =~= p.rounds@);
            }
            while i < n
                invariant
                    participant == Some(p),
                    n == p.rounds@.len(),
                    i <= n,
                    round_stake_in(p.rounds@, round_id) == round_stake_in(
                        p.rounds@.skip(i as int),
                        round_id,
                    ),
                decreases n - i,
            {
                proof {
                    assert(p.rounds@.skip(i as int).drop_first() =~= p.rounds@.skip(i + 1));
                }
                if p.rounds[i].round_id == round_id {
                    proof {
                        let t = p.rounds@.skip(i as int);
                        assert(t[0] == p.rounds@[i as int]);
                        assert(t.len() > 0);
                        assert(round_stake_in(t, round_id) == t[0].total as u128);
                    }
                    return p.rounds[i].total as u128;
                }
                i = i + 1;
            }
            0
        },
    }
}

/// The position of the first round with the given step, if any.
pub open spec fn first_with_step(rounds: Seq<Round>, step: u8) -> Option<int>
    decreases rounds.len(),
{
    if rounds.len() == 0 {
        None
    } else if rounds[0].step == step {
        Some(0)
    } else {
        match first_with_step(rounds.drop_first(), step) {
            Some(i) => Some(i + 1),
            None => None,
        }
    }
}

/// The first round in the pooling step, if any.
pub open spec fn spec_pooling_round(rounds: Seq<Round>) -> Option<Round> {
    match first_with_step(rounds, ROUND_STEP_POOLING) {
        Some(i) => Some(rounds[i]),
        None => None,
    }
}

pub proof fn lemma_first_with_step(rounds: Seq<Round>, step: u8)
    ensures
        first_with_step(rounds, step) matches Some(i) ==> 0 <= i < rounds.len() && rounds[i].step
            == step && forall|j: int| 0 <= j < i ==> rounds[j].step != step,
        first_with_step(rounds, step) is None ==> forall|j: int|
            0 <= j < rounds.len() ==> rounds[j].step != step,
    decreases rounds.len(),
{
    if rounds.len() > 0 && rounds[0].step != step {
        lemma_first_with_step(rounds.drop_first(), step);
        assert forall|j: int| 1 <= j < rounds.len() implies rounds[j] == rounds.drop_first()[j
            - 1] by {}
    }
}

/// The first round in the pooling step.
pub fn pooling_round(rounds: &Vec<Round>) -> (r: Option<Round>)
    ensures
        r == spec_pooling_round(rounds@),
{
    let n = rounds.len();
    let mut i: usize = 0;
    while i < n
        invariant
            n == rounds@.len(),
            i <= n,
            forall|j: int| 0 <= j < i ==> rounds@[j].step != ROUND_STEP_POOLING,
        decreases n - i,
    {
        if rounds[i].step == ROUND_STEP_POOLING {
            proof {
                lemma_first_with_step(rounds@, ROUND_STEP_POOLING);
                match first_with_step(rounds@, ROUND_STEP_POOLING) {
                    Some(k) => {
                        assert(k == i);
                    },
                    None => {},
                }
            }
            return Some(rounds[i]);
        }
        i = i + 1;
    }
    proof {
        lemma_first_with_step(rounds@, ROUND_STEP_POOLING);
    }
    None
}

/// How a round is written in the log.
pub open spec fn spec_format_round(r: Round) -> Seq<char> {
    "{id="@ + decimal(r.id as nat) + ", supposed_elected_at="@ + decimal(
        r.supposed_elected_at as nat,
    ) + ", step="@ + decimal(r.step as nat) + ", stake="@ + decimal(r.stake as nat)
        + ", validator_stake="@ + decimal(r.validator_stake as nat) + ", completion_reason="@
        + decimal(r.completion_reason as nat) + "}"@
}

/// How a ready round is written in the log.
pub open spec fn spec_format_ready_round(r: ReadyRound) -> Seq<char> {
    "{id="@ + decimal(r.id as nat) + ", supposed_elected_at="@ + decimal(
        r.supposed_elected_at as nat,
    ) + ", step="@ + decimal(r.step as nat) + ", stake="@ + decimal(r.stake as nat)
        + ", validator_stake="@ + decimal(r.validator_stake as nat) + "}"@
}

/// Writes a DePool round for the log.
pub fn format_round(r: &Round) -> (s: String)
    ensures
        s@ == spec_format_round(*r),
{
    let mut out: Vec<char> = Vec::new();
    push_str(&mut out, "{id=");
    push_decimal(r.id as u128, &mut out);
    push_str(&mut out, ", supposed_elected_at=");
    push_decimal(r.supposed_elected_at as u128, &mut out);
    push_str(&mut out, ", step=");
    push_decimal(r.step as u128, &mut out);
    push_str(&mut out, ", stake=");
    push_decimal(r.stake as u128, &mut out);
    push_str(&mut out, ", validator_stake=");
    push_decimal(r.validator_stake as u128, &mut out);
    push_str(&mut out, ", completion_reason=");
    push_decimal(r.completion_reason as u128, &mut out);
    push_str(&mut out, "}");
    proof {
        assert(out@ =~= spec_format_round(*r));
    }
    string_from_chars(&out)
}

/// Writes a ready round for the log.
pub fn format_ready_round(r: &ReadyRound) -> (s: String)
    ensures
        s@ == spec_format_ready_round(*r),
{
    let mut out: Vec<char> = Vec::new();
    push_str(&mut out, "{id=");
    push_decimal(r.id as u128, &mut out);
    push_str(&mut out, ", supposed_elected_at=");
    push_decimal(r.supposed_elected_at as u128, &mut out);
    push_str(&mut out, ", step=");
    push_decimal(r.step as u128, &mut out);
    push_str(&mut out, ", stake=");
    push_decimal(r.stake as u128, &mut out);
    push_str(&mut out, ", validator_stake=");
    push_decimal(r.validator_stake as u128, &mut out);
    push_str(&mut out, "}");
    proof {
        assert(out@ =~= spec_format_ready_round(*r));
    }
    string_from_chars(&out)
}

/// Texts joined with `sep` between them.
pub open spec fn join_with(items: Seq<Seq<char>>, sep: Seq<char>) -> Seq<char>
    decreases items.len(),
{
    if items.len() == 0 {
        Seq::empty()
    } else if items.len() == 1 {
        items[0]
    } else {
        join_with(items.drop_last(), sep) + sep + items.last()
    }
}

/// A list of addresses for the log: `none` for an empty list, else the
/// addresses separated by commas.
pub open spec fn spec_format_addresses(addresses: Seq<Seq<char>>) -> Seq<char> {
    if addresses.len() == 0 {
        "none"@
    } else {
        join_with(addresses, ","@)
    }
}

/// Writes a list of addresses for the log.
pub fn format_addresses(addresses: &Vec<String>) -> (s: String)
    ensures
        s@ == spec_format_addresses(addresses@.map_values(|a: String| a@)),
{
    let ghost items = addresses@.map_values(|a: String| a@);
    let mut out: Vec<char> = Vec::new();
    if addresses.len() == 0 {
        push_str(&mut out, "none");
        return string_from_chars(&out);
    }
    let n = addresses.len();
    let mut i: usize = 0;
    while i < n
        invariant
            n == addresses.len(),
            items == addresses@.map_values(|a: String| a@),
            n > 0,
            i <= n,
            i > 0 ==> out@ == join_with(items.take(i as int), ","@),
            i == 0 ==> out@ == Seq::<char>::empty(),
        decreases n - i,
    {
        proof {
            assert(items.take(i + 1).drop_last() =~= items.take(i as int));
            assert(items[i as int] == addresses@[i as int]@);
        }
        if i > 0 {
            push_str(&mut out, ",");
        }
        push_str(&mut out, addresses[i].as_str());
        proof {
            if i == 0 {
                assert(out@ =~= join_with(items.take(1), ","@));
            }
        }
        i = i + 1;
    }
    proof {
        assert(items.take(n as int) =~= items);
    }
    string_from_chars(&out)
}

} // verus!
