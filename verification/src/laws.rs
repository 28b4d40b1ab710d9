//! Properties that span several steps of the helper.
use vstd::prelude::*;
use crate::assurance::{
    spec_assurance_on_participant, spec_assurance_on_wallet, spec_confirm_decide, AssuranceAction,
    ConfirmAction, CONFIRMATION_ATTEMPTS,
};
use crate::balances::{
    spec_balances_on_depool, spec_balances_on_proxy, spec_balances_on_wallet, BalanceAction,
    FundTarget,
};
use crate::config::{
    legacy_to_current, spec_depool_required, spec_target_depool_stake, AppConfig, DepoolTerms, LegacyAppConfig, LegacyKeyFiles, ADD_STAKE_GAS,
    DEPOOL_MIN_BALANCE, DEPOOL_TARGET_BALANCE, PROXY_TARGET_BALANCE,
};
use crate::deploy::{spec_deploy_after_funding, spec_deploy_on_depool, spec_deploy_on_wallet, DeployAction};
use crate::depool::{
    lemma_first_with_step, round_stake_in, spec_pooling_round, Participant, ParticipantRound,
    Round, ROUND_STEP_POOLING, ROUND_STEP_WAITING_VALIDATOR_REQUEST,
};
use crate::election::{
    spec_advance_decide, spec_advance_on_wallet, spec_participate_after_sign,
    spec_participate_confirm, spec_participate_on_wallet, AdvanceAction, ParticipateAction,
    ParticipateError, UPDATE_ATTEMPTS,
};
use crate::run::{spec_run_on_advanced, spec_run_on_election, RunAction, StopReason};
use crate::cli::{
    initial_scan_state, lemma_command_words_distinct, lemma_scan_push, scan, spec_parse_cli,
    CliSpec, CommandSpec,
};
use crate::tokens::spec_parse_tokens;

verus! {

/// The wallet reserve of a configuration whose reserve parses.
pub open spec fn reserve_of(config: AppConfig) -> u128 {
    spec_parse_tokens(config.wallet_reserve@)->Ok_0
}

/// The DePool's rounds are only advanced for an open election, and only
/// for that election: without an open election the pass stops.
pub proof fn rounds_advance_only_for_open_election(current_election: Option<u32>, required: u128)
    ensures
        spec_run_on_election(current_election, required) matches RunAction::Advance {
            election_id,
            required: r,
        } ==> current_election == Some(election_id) && r == required,
        current_election is None ==> spec_run_on_election(current_election, required) == RunAction::Stop(
            StopReason::ElectionsClosed,
        ),
{
}

/// A ticktock is only considered while the target round is not yet the
/// election's and attempts remain, so one advance sends fewer ticktocks
/// than it makes attempts.
pub proof fn ticktock_only_before_target_round(
    attempt: usize,
    sent_ticktock: bool,
    rounds: Seq<Round>,
    election_id: u32,
    config: AppConfig,
    balance: u128,
)
    requires
        rounds.len() >= 3,
    ensures
        spec_advance_decide(attempt, sent_ticktock, rounds, election_id, config) matches AdvanceAction::CheckWallet {
            value,
            required,
        } ==> {
            &&& attempt < UPDATE_ATTEMPTS
            &&& rounds[1].supposed_elected_at != election_id
            &&& value == spec_parse_tokens(config.ticktock_value@)->Ok_0
            &&& (spec_advance_on_wallet(value, required, balance) matches AdvanceAction::SendTicktock {
                value: v,
            } ==> v == value && balance >= value.saturating_add(reserve_of(config)))
        },
{
}

/// `participateInElections` is only sent for the open election, through a
/// target round that the advance found to be the election's round and that
/// waits for the validator's request.
pub proof fn participation_only_in_ready_round(
    attempt: usize,
    sent_ticktock: bool,
    rounds: Seq<Round>,
    election_id: u32,
    config: AppConfig,
    required: u128,
)
    requires
        rounds.len() >= 3,
    ensures
        spec_advance_decide(attempt, sent_ticktock, rounds, election_id, config) matches AdvanceAction::Ready(
            r,
        ) ==> {
            &&& r.supposed_elected_at == election_id
            &&& r.id == rounds[1].id
            &&& (spec_run_on_advanced(Some(r), election_id, required) matches RunAction::Participate {
                election_id: e,
                round_id,
                ..
            } ==> e == election_id && round_id == r.id && r.step
                == ROUND_STEP_WAITING_VALIDATOR_REQUEST)
        },
        forall|r: crate::depool::ReadyRound, e: u32|
            #![trigger spec_run_on_advanced(Some(r), e, required)]
            r.step != ROUND_STEP_WAITING_VALIDATOR_REQUEST ==> !(spec_run_on_advanced(
                Some(r),
                e,
                required,
            ) is Participate),
{
}

/// The DePool account is only funded for its deployment when the wallet
/// holds the funding and its reserve, and the funding brings the account
/// exactly to the deploy minimum; the DePool is only deployed once its
/// account holds that minimum.
pub proof fn deploy_funding_keeps_reserve(
    active: bool,
    account_balance: u128,
    config: AppConfig,
    min_balance_for_deploy: u128,
    wallet_balance: u128,
    funded_balance: u128,
)
    ensures
        spec_deploy_on_depool(active, account_balance, config, min_balance_for_deploy) matches DeployAction::CheckWallet {
            topup,
            required,
        } ==> (spec_deploy_on_wallet(topup, required, wallet_balance) matches DeployAction::SendFunding {
            value,
        } ==> account_balance + value == min_balance_for_deploy && wallet_balance
            >= value.saturating_add(reserve_of(config))),
        spec_deploy_on_depool(active, account_balance, config, min_balance_for_deploy) is Deploy
            ==> !active && account_balance >= min_balance_for_deploy,
        spec_deploy_after_funding(funded_balance, config, min_balance_for_deploy) is Deploy
            ==> funded_balance >= min_balance_for_deploy,
{
}

/// A top-up of the DePool or a proxy is only sent when the wallet holds it
/// and its reserve, and it brings the balance exactly to the target.
pub proof fn balance_topups_restore_targets(
    own_balance: i128,
    proxy_count: usize,
    index: usize,
    proxy_balance: u128,
    config: AppConfig,
    wallet_balance: u128,
)
    ensures
        spec_balances_on_depool(own_balance, proxy_count, config) matches BalanceAction::CheckWallet {
            target,
            value,
            required,
        } ==> {
            &&& target == FundTarget::Depool
            &&& own_balance + value == DEPOOL_TARGET_BALANCE
            &&& (spec_balances_on_wallet(target, value, required, wallet_balance) matches BalanceAction::ReceiveFunds {
                value: v,
            } ==> v == value && wallet_balance >= value.saturating_add(reserve_of(config)))
        },
        spec_balances_on_proxy(index, proxy_balance, config) matches BalanceAction::CheckWallet {
            target,
            value,
            required,
        } ==> {
            &&& target == FundTarget::Proxy(index)
            &&& proxy_balance + value == PROXY_TARGET_BALANCE
            &&& (spec_balances_on_wallet(target, value, required, wallet_balance) matches BalanceAction::SendToProxy {
                index: i,
                value: v,
            } ==> i == index && v == value && wallet_balance >= value.saturating_add(
                reserve_of(config),
            ))
        },
{
}

/// Stake is only added when the wallet holds it, the gas and the reserve;
/// what is added brings the pooling stake to the requirement and is never
/// below the DePool's minimum stake.
pub proof fn added_stake_reaches_requirement(
    round_id: u64,
    participant: Option<Participant>,
    required_stake: u128,
    depool_min_stake: u64,
    config: AppConfig,
    wallet_balance: u128,
)
    ensures
        spec_assurance_on_participant(
            round_id,
            participant,
            required_stake,
            depool_min_stake,
            config,
        ) matches AssuranceAction::CheckWallet { round_id: rid, current, stake, required } ==> {
            &&& current < required_stake
            &&& current + stake >= required_stake
            &&& stake >= depool_min_stake
            &&& (spec_assurance_on_wallet(rid, current, stake, required, wallet_balance) matches AssuranceAction::AddStake {
                stake: s,
                ..
            } ==> s == stake && wallet_balance >= stake.saturating_add(ADD_STAKE_GAS).saturating_add(
                reserve_of(config),
            ))
        },
{
}

/// The participation is only sent when the wallet holds its value and the
/// reserve; otherwise taking part fails.
pub proof fn participation_keeps_reserve(config: AppConfig, wallet_balance: u128)
    ensures
        spec_participate_after_sign(config) matches ParticipateAction::CheckWallet { value, required } ==> {
            &&& value == spec_parse_tokens(config.participate_value@)->Ok_0
            &&& spec_participate_on_wallet(value, required, wallet_balance) is Send
                <==> wallet_balance >= value.saturating_add(reserve_of(config))
            &&& !(spec_participate_on_wallet(value, required, wallet_balance) is Send)
                ==> spec_participate_on_wallet(value, required, wallet_balance) is Fail
        },
{
}

/// Waiting for the stake or for the registration looks at most
/// `CONFIRMATION_ATTEMPTS` times: each retry moves to the next attempt, and
/// giving up happens only at the last one.
pub proof fn confirmations_are_bounded(attempt: usize, stake: u128, threshold: u128, listed: Option<bool>)
    requires
        1 <= attempt <= CONFIRMATION_ATTEMPTS,
    ensures
        spec_confirm_decide(attempt, stake, threshold) matches ConfirmAction::Retry {
            next_attempt,
            ..
        } ==> next_attempt == attempt + 1 && next_attempt <= CONFIRMATION_ATTEMPTS && stake
            < threshold,
        spec_confirm_decide(attempt, stake, threshold) is GiveUp ==> attempt
            == CONFIRMATION_ATTEMPTS && stake < threshold,
        spec_participate_confirm(attempt, listed) matches ParticipateAction::Retry { next_attempt } ==> next_attempt == attempt + 1
            && next_attempt <= CONFIRMATION_ATTEMPTS,
        spec_participate_confirm(attempt, listed) == ParticipateAction::Fail(
            ParticipateError::NotRegistered,
        ) ==> attempt == CONFIRMATION_ATTEMPTS && listed != Some(true),
{
}

/// After arguments that read without error, a final command word selects
/// its own command, with the settings read so far: `loop` runs the loop,
/// `once` one pass, `status` the status, `migrate-config` the migration and
/// `init-new` the initialisation.
pub proof fn last_command_word_selects_command(args: Seq<Seq<char>>, home: Option<Seq<char>>)
    requires
        args.len() >= 1,
        scan(args, home, 1, initial_scan_state(home)) is Done,
    ensures
        ({
            let st = scan(args, home, 1, initial_scan_state(home))->Done_0;
            &&& spec_parse_cli(args.push("loop"@), home) == Ok::<CliSpec, crate::cli::CliFault>(
                CliSpec { config_path: st.config_path, command: CommandSpec::Loop },
            )
            &&& spec_parse_cli(args.push("once"@), home) == Ok::<CliSpec, crate::cli::CliFault>(
                CliSpec { config_path: st.config_path, command: CommandSpec::Once },
            )
            &&& spec_parse_cli(args.push("status"@), home) == Ok::<CliSpec, crate::cli::CliFault>(
                CliSpec { config_path: st.config_path, command: CommandSpec::Status },
            )
            &&& spec_parse_cli(args.push("migrate-config"@), home) == Ok::<
                CliSpec,
                crate::cli::CliFault,
            >(CliSpec { config_path: st.config_path, command: CommandSpec::MigrateConfig })
            &&& spec_parse_cli(args.push("init-new"@), home) == Ok::<CliSpec, crate::cli::CliFault>(
                CliSpec {
                    config_path: st.config_path,
                    command: CommandSpec::InitNew {
                        force: st.force,
                        node_keys_path: st.node_keys_path,
                        min_stake: st.min_stake,
                        validator_assurance: st.validator_assurance,
                        target_stake: st.target_stake,
                        participant_reward_fraction: st.fraction,
                    },
                },
            )
        }),
{
    let init = initial_scan_state(home);
    lemma_command_words_distinct();
    let st = scan(args, home, 1, init)->Done_0;
    let n = args.len();
    {
        let b = args.push("loop"@);
        lemma_scan_push(args, home, 1, init, "loop"@);
        assert(b[n as int] == "loop"@);
        let st2 = crate::cli::ScanState { command: Some(crate::cli::CommandKind::Loop), ..st };
        assert(scan(b, home, n + 1, st2) == crate::cli::ScanOutcome::Done(st2));
        assert(scan(b, home, n, st) == scan(b, home, n + 1, st2));
    }
    {
        let b = args.push("once"@);
        lemma_scan_push(args, home, 1, init, "once"@);
        assert(b[n as int] == "once"@);
        let st2 = crate::cli::ScanState { command: Some(crate::cli::CommandKind::Once), ..st };
        assert(scan(b, home, n + 1, st2) == crate::cli::ScanOutcome::Done(st2));
        assert(scan(b, home, n, st) == scan(b, home, n + 1, st2));
    }
    {
        let b = args.push("status"@);
        lemma_scan_push(args, home, 1, init, "status"@);
        assert(b[n as int] == "status"@);
        let st2 = crate::cli::ScanState { command: Some(crate::cli::CommandKind::Status), ..st };
        assert(scan(b, home, n + 1, st2) == crate::cli::ScanOutcome::Done(st2));
        assert(scan(b, home, n, st) == scan(b, home, n + 1, st2));
    }
    {
        let b = args.push("migrate-config"@);
        lemma_scan_push(args, home, 1, init, "migrate-config"@);
        assert(b[n as int] == "migrate-config"@);
        let st2 = crate::cli::ScanState { command: Some(crate::cli::CommandKind::MigrateConfig), ..st };
        assert(scan(b, home, n + 1, st2) == crate::cli::ScanOutcome::Done(st2));
        assert(scan(b, home, n, st) == scan(b, home, n + 1, st2));
    }
    {
        let b = args.push("init-new"@);
        lemma_scan_push(args, home, 1, init, "init-new"@);
        assert(b[n as int] == "init-new"@);
        let st2 = crate::cli::ScanState { command: Some(crate::cli::CommandKind::InitNew), ..st };
        assert(scan(b, home, n + 1, st2) == crate::cli::ScanOutcome::Done(st2));
        assert(scan(b, home, n, st) == scan(b, home, n + 1, st2));
    }
}

/// Migrating an older configuration keeps each of its settings in the field
/// of the same name and takes the keys from the files that it names.
pub proof fn migration_keeps_every_setting(l: LegacyAppConfig, keys: LegacyKeyFiles)
    ensures
        ({
            let c = legacy_to_current(l, keys);
            &&& c.endpoint == l.endpoint
            &&& c.depool_address == l.depool_address
            &&& c.min_stake == l.min_stake
            &&& c.validator_assurance == l.validator_assurance
            &&& c.target_stake == l.target_stake
            &&& c.participant_reward_fraction == l.participant_reward_fraction
            &&& c.stake_factor == l.stake_factor
            &&& c.participate_value == l.participate_value
            &&& c.ticktock_value == l.ticktock_value
            &&& c.wallet_reserve == l.wallet_reserve
            &&& c.retry == l.retry
            &&& c.node_keys == keys.node_keys
            &&& c.validator_wallet == keys.validator_wallet
            &&& c.depool_keys == keys.depool_keys
        }),
{
}

/// The stake added to the pooling round is what is missing, raised to the
/// DePool's minimum stake where less is missing: never below that minimum,
/// enough to reach the requirement, and no more than the larger of the two.
pub proof fn added_stake_is_missing_part_or_minimum(
    round_id: u64,
    participant: Option<Participant>,
    required_stake: u128,
    depool_min_stake: u64,
    config: AppConfig,
)
    ensures
        spec_assurance_on_participant(
            round_id,
            participant,
            required_stake,
            depool_min_stake,
            config,
        ) matches AssuranceAction::CheckWallet { round_id: rid, current, stake, .. } ==> {
            &&& rid == round_id
            &&& current < required_stake
            &&& stake >= depool_min_stake
            &&& current + stake >= required_stake
            &&& (stake == depool_min_stake || current + stake == required_stake)
            &&& (required_stake - current >= depool_min_stake ==> current + stake == required_stake)
            &&& (required_stake - current < depool_min_stake ==> stake == depool_min_stake)
        },
{
}

/// With its own balance at the minimum or above, the DePool is not topped
/// up and the proxies are checked from the first one; the step ends at once
/// only when there are no proxies.
pub proof fn funded_depool_goes_on_to_proxies(own_balance: i128, proxy_count: usize, config: AppConfig)
    requires
        own_balance >= DEPOOL_MIN_BALANCE as i128,
    ensures
        proxy_count > 0 ==> spec_balances_on_depool(own_balance, proxy_count, config)
            == (BalanceAction::CheckProxy { index: 0 }),
        proxy_count == 0 ==> spec_balances_on_depool(own_balance, proxy_count, config)
            == BalanceAction::Done,
{
}

/// A round that the advance hands on is the DePool's target round as it
/// reports it: every field, its step included, is that round's.
pub proof fn ready_round_is_target_round(
    attempt: usize,
    sent_ticktock: bool,
    rounds: Seq<Round>,
    election_id: u32,
    config: AppConfig,
)
    requires
        rounds.len() >= 3,
    ensures
        spec_advance_decide(attempt, sent_ticktock, rounds, election_id, config) matches AdvanceAction::Ready(
            r,
        ) ==> {
            &&& r.id == rounds[1].id
            &&& r.step == rounds[1].step
            &&& r.supposed_elected_at == rounds[1].supposed_elected_at
            &&& r.stake == rounds[1].stake
            &&& r.validator_stake == rounds[1].validator_stake
            &&& r.supposed_elected_at == election_id
        },
        rounds[1].supposed_elected_at == election_id ==> (spec_advance_decide(
            attempt,
            sent_ticktock,
            rounds,
            election_id,
            config,
        ) is Ready),
{
}

/// The DePool is deployed with the configured minimum stake as its minimum
/// stake and the configured validator assurance as its assurance.
pub proof fn deploy_uses_configured_terms(
    active: bool,
    account_balance: u128,
    config: AppConfig,
    min_balance_for_deploy: u128,
)
    ensures
        spec_deploy_on_depool(active, account_balance, config, min_balance_for_deploy) matches DeployAction::Deploy {
            min_stake,
            validator_assurance,
        } ==> spec_parse_tokens(config.min_stake@) == Ok::<u128, crate::tokens::TokenError>(min_stake)
            && spec_parse_tokens(config.validator_assurance@) == Ok::<
            u128,
            crate::tokens::TokenError,
        >(validator_assurance),
        spec_deploy_after_funding(account_balance, config, min_balance_for_deploy) matches DeployAction::Deploy {
            min_stake,
            validator_assurance,
        } ==> spec_parse_tokens(config.min_stake@) == Ok::<u128, crate::tokens::TokenError>(min_stake)
            && spec_parse_tokens(config.validator_assurance@) == Ok::<
            u128,
            crate::tokens::TokenError,
        >(validator_assurance),
{
}

/// The stake target is the largest of the configured target (zero where
/// none is set), the DePool's requirement and the network minimum: at least
/// each of them and equal to one of them.
pub proof fn target_stake_is_largest_requirement(
    config: AppConfig,
    depool: Option<DepoolTerms>,
    network_min: u128,
)
    ensures
        spec_target_depool_stake(config, depool, network_min) matches Ok(t) ==> {
            let configured: u128 = match config.target_stake {
                Some(v) => spec_parse_tokens(v@)->Ok_0,
                None => 0,
            };
            let required = spec_depool_required(config, depool);
            &&& t >= configured
            &&& t >= required
            &&& t >= network_min
            &&& (t == configured || t == required || t == network_min)
        },
        depool matches Some(d) ==> spec_depool_required(config, depool) >= d.validator_assurance
            && spec_depool_required(config, depool) >= d.min_stake
            && (spec_depool_required(config, depool) == d.validator_assurance
            || spec_depool_required(config, depool) == d.min_stake),
{
}

/// A participant's stake in a round is the total of its first entry for that
/// round, or zero where it has none.
pub proof fn round_stake_is_first_entry(rounds: Seq<ParticipantRound>, round_id: u64, k: int)
    requires
        0 <= k < rounds.len(),
        rounds[k].round_id == round_id,
        forall|j: int| 0 <= j < k ==> rounds[j].round_id != round_id,
    ensures
        round_stake_in(rounds, round_id) == rounds[k].total as u128,
    decreases k,
{
    if k > 0 {
        round_stake_is_first_entry(rounds.drop_first(), round_id, k - 1);
    }
}

/// Without an entry for the round, the stake in it is zero.
pub proof fn round_stake_without_entry(rounds: Seq<ParticipantRound>, round_id: u64)
    requires
        forall|j: int| 0 <= j < rounds.len() ==> rounds[j].round_id != round_id,
    ensures
        round_stake_in(rounds, round_id) == 0,
    decreases rounds.len(),
{
    if rounds.len() > 0 {
        round_stake_without_entry(rounds.drop_first(), round_id);
    }
}

/// The pooling round is the first round in the pooling step, and there is
/// none exactly when no round is in that step.
pub proof fn pooling_round_is_first_pooling(rounds: Seq<Round>)
    ensures
        spec_pooling_round(rounds) matches Some(r) ==> exists|k: int|
            0 <= k < rounds.len() && rounds[k] == r && r.step == ROUND_STEP_POOLING && forall|j: int|
                0 <= j < k ==> rounds[j].step != ROUND_STEP_POOLING,
        spec_pooling_round(rounds) is None <==> forall|j: int|
            0 <= j < rounds.len() ==> rounds[j].step != ROUND_STEP_POOLING,
{
    lemma_first_with_step(rounds, ROUND_STEP_POOLING);
    match crate::depool::first_with_step(rounds, ROUND_STEP_POOLING) {
        Some(k) => {
            assert(rounds[k].step == ROUND_STEP_POOLING);
        },
        None => {},
    }
}

} // verus!
