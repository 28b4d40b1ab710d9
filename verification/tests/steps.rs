use depool_elect::assurance::{
    assurance_on_participant, assurance_on_rounds, assurance_on_wallet, confirm_stake_on_participant,
    confirm_stake_on_rounds, AssuranceAction, ConfirmAction,
};
use depool_elect::balances::{
    balances_next_proxy, balances_on_depool, balances_on_proxy, balances_on_wallet, BalanceAction,
    FundTarget,
};
use depool_elect::clock::{now_millis, saturating_millis};
use depool_elect::config::{new_app_config, AppConfig, DepoolTerms, KeyFile};
use depool_elect::deploy::{deploy_after_funding, deploy_on_depool, deploy_on_wallet, DeployAction};
use depool_elect::depool::{
    format_addresses, format_ready_round, format_round, participant_round_stake, pooling_round,
    ready_round, Participant, ParticipantRound, ReadyRound, Round,
};
use depool_elect::election::{
    advance_decide, advance_on_rounds, advance_on_wallet, advance_pooling_stake,
    participate_after_sign, participate_confirm, participate_on_election, participate_on_wallet,
    proxy_index, AdvanceAction, AdvanceError, ParticipateAction, ParticipateError,
};
use depool_elect::run::{
    run_after_assurance, run_after_balances, run_after_deploy, run_after_participate,
    run_on_advanced, run_on_election, run_on_network_min, run_on_validator_wallet, RunAction,
    RunError, StopReason,
};
use depool_elect::tokens::TokenError;
use depool_elect::wallet::{format_topup, TopupNotice, TopupReason};

const ONE: u128 = 1_000_000_000;
const RESERVE: u128 = 10 * ONE;

fn key() -> KeyFile {
    KeyFile { public: "p".to_string(), secret: "s".to_string() }
}

fn config() -> AppConfig {
    new_app_config(
        key(),
        key(),
        key(),
        "0:1".to_string(),
        "100".to_string(),
        "10000".to_string(),
        None,
        95,
    )
}

fn round(id: u64, step: u8, elected: u32, reason: u8) -> Round {
    Round { id, step, supposed_elected_at: elected, stake: 11, validator_stake: 12, completion_reason: reason }
}

fn participant(entries: &[(u64, u64)]) -> Participant {
    Participant {
        total_round_stake: 0,
        rounds: entries
            .iter()
            .map(|&(round_id, total)| ParticipantRound { round_id, total, ordinary: total })
            .collect(),
    }
}

#[test]
fn round_texts() {
    let r = Round { id: 7, step: 2, supposed_elected_at: 1700, stake: 5, validator_stake: 3, completion_reason: 0 };
    assert_eq!(
        format_round(&r),
        "{id=7, supposed_elected_at=1700, step=2, stake=5, validator_stake=3, completion_reason=0}"
    );
    assert_eq!(
        format_ready_round(&ready_round(&r)),
        "{id=7, supposed_elected_at=1700, step=2, stake=5, validator_stake=3}"
    );
    let rr = ReadyRound { id: u64::MAX, step: 255, supposed_elected_at: 0, stake: 10, validator_stake: 100 };
    assert_eq!(
        format_ready_round(&rr),
        format!("{{id={}, supposed_elected_at=0, step=255, stake=10, validator_stake=100}}", u64::MAX)
    );
}

#[test]
fn address_lists() {
    assert_eq!(format_addresses(&vec![]), "none");
    assert_eq!(format_addresses(&vec!["0:a".to_string()]), "0:a");
    assert_eq!(
        format_addresses(&vec!["0:a".to_string(), "0:b".to_string(), "-1:c".to_string()]),
        "0:a,0:b,-1:c"
    );
}

#[test]
fn topup_notice_text() {
    let n = TopupNotice { required: 15, reason: TopupReason::ProxyBalance };
    assert_eq!(
        format_topup("0:w", n, 4),
        "TOPUP validator_wallet=0:w with_at_least=11 reason=proxy balance current_balance=4"
    );
    let n = TopupNotice { required: 3, reason: TopupReason::ValidatorAssurance };
    assert_eq!(
        format_topup("0:w", n, 9),
        "TOPUP validator_wallet=0:w with_at_least=0 reason=validator assurance stake current_balance=9"
    );
}

#[test]
fn participant_stakes() {
    let p = participant(&[(1, 10), (2, 20), (2, 99)]);
    assert_eq!(participant_round_stake(Some(&p), 2), 20);
    assert_eq!(participant_round_stake(Some(&p), 3), 0);
    assert_eq!(participant_round_stake(None, 1), 0);
    let rounds = vec![round(1, 3, 0, 0), round(2, 1, 0, 0), round(3, 1, 0, 0)];
    assert_eq!(pooling_round(&rounds), Some(round(2, 1, 0, 0)));
    assert_eq!(pooling_round(&vec![round(1, 3, 0, 0)]), None);
    assert_eq!(advance_pooling_stake(&rounds, Some(&participant(&[(1, 5), (3, 7)]))), 12);
}

#[test]
fn deploy_steps() {
    let c = config();
    let min = 21 * ONE;
    assert_eq!(deploy_on_depool(true, 0, &c, min), DeployAction::Ready);
    assert_eq!(
        deploy_on_depool(false, ONE, &c, min),
        DeployAction::CheckWallet { topup: 20 * ONE, required: 20 * ONE + RESERVE }
    );
    assert_eq!(
        deploy_on_depool(false, min, &c, min),
        DeployAction::Deploy { min_stake: 100 * ONE, validator_assurance: 10_000 * ONE }
    );
    assert_eq!(deploy_on_wallet(5, 15, 15), DeployAction::SendFunding { value: 5 });
    assert_eq!(
        deploy_on_wallet(5, 15, 14),
        DeployAction::Stop(TopupNotice { required: 15, reason: TopupReason::DeployFunding })
    );
    assert_eq!(
        deploy_after_funding(min - 1, &c, min),
        DeployAction::Stop(TopupNotice { required: 1, reason: TopupReason::DeployBalance })
    );
    let mut bad = config();
    bad.min_stake = "x".to_string();
    assert_eq!(deploy_after_funding(min, &bad, min), DeployAction::Fail(TokenError::InvalidAmount));
    bad.wallet_reserve = "".to_string();
    assert_eq!(deploy_on_depool(false, 0, &bad, min), DeployAction::Fail(TokenError::Empty));
}

#[test]
fn balance_steps() {
    let c = config();
    assert_eq!(
        balances_on_depool(5 * ONE as i128, 2, &c),
        BalanceAction::CheckWallet { target: FundTarget::Depool, value: 25 * ONE, required: 35 * ONE }
    );
    assert_eq!(
        balances_on_depool(-(ONE as i128), 2, &c),
        BalanceAction::CheckWallet { target: FundTarget::Depool, value: 31 * ONE, required: 41 * ONE }
    );
    assert_eq!(balances_on_depool(20 * ONE as i128, 2, &c), BalanceAction::CheckProxy { index: 0 });
    assert_eq!(balances_on_depool(20 * ONE as i128, 0, &c), BalanceAction::Done);
    assert_eq!(
        balances_on_proxy(1, 3 * ONE, &c),
        BalanceAction::ProxyReady { index: 1, balance: 3 * ONE }
    );
    assert_eq!(
        balances_on_proxy(1, ONE, &c),
        BalanceAction::CheckWallet { target: FundTarget::Proxy(1), value: 4 * ONE, required: 14 * ONE }
    );
    assert_eq!(
        balances_on_wallet(FundTarget::Depool, 7, 17, 17),
        BalanceAction::ReceiveFunds { value: 7 }
    );
    assert_eq!(
        balances_on_wallet(FundTarget::Proxy(1), 7, 17, 20),
        BalanceAction::SendToProxy { index: 1, value: 7 }
    );
    assert_eq!(
        balances_on_wallet(FundTarget::Proxy(1), 7, 17, 16),
        BalanceAction::Stop(TopupNotice { required: 17, reason: TopupReason::ProxyBalance })
    );
    assert_eq!(
        balances_on_wallet(FundTarget::Depool, 7, 17, 0),
        BalanceAction::Stop(TopupNotice { required: 17, reason: TopupReason::DepoolBalance })
    );
    assert_eq!(balances_next_proxy(2, 2), BalanceAction::Done);
    assert_eq!(balances_next_proxy(1, 2), BalanceAction::CheckProxy { index: 1 });
}

#[test]
fn assurance_steps() {
    let c = config();
    let rounds = vec![round(1, 3, 0, 0), round(2, 1, 0, 0)];
    assert_eq!(assurance_on_rounds(&rounds), AssuranceAction::FetchParticipant { round_id: 2 });
    assert_eq!(assurance_on_rounds(&vec![round(1, 3, 0, 0)]), AssuranceAction::NoPoolingRound);
    let p = participant(&[(2, 40)]);
    assert_eq!(
        assurance_on_participant(2, Some(&p), 40, 100, &c),
        AssuranceAction::Ready { round_id: 2, current: 40 }
    );
    // Missing 60 but the DePool's minimum stake is 100.
    assert_eq!(
        assurance_on_participant(2, Some(&p), 100, 100, &c),
        AssuranceAction::CheckWallet {
            round_id: 2,
            current: 40,
            stake: 100,
            required: 100 + 500_000_000 + RESERVE,
        }
    );
    assert_eq!(
        assurance_on_participant(2, None, 1_000, 100, &c),
        AssuranceAction::CheckWallet {
            round_id: 2,
            current: 0,
            stake: 1_000,
            required: 1_000 + 500_000_000 + RESERVE,
        }
    );
    assert_eq!(
        assurance_on_wallet(2, 0, 5, 9, 9),
        AssuranceAction::AddStake { round_id: 2, current: 0, stake: 5 }
    );
    assert_eq!(
        assurance_on_wallet(2, 0, 5, 9, 8),
        AssuranceAction::Stop(TopupNotice { required: 9, reason: TopupReason::ValidatorAssurance })
    );
}

#[test]
fn stake_confirmation_steps() {
    let rounds = vec![round(4, 1, 0, 0)];
    assert_eq!(
        confirm_stake_on_rounds(1, &rounds, 10),
        ConfirmAction::FetchParticipant { attempt: 1, round_id: 4 }
    );
    assert_eq!(
        confirm_stake_on_rounds(3, &vec![], 10),
        ConfirmAction::Retry { next_attempt: 4, stake: 0 }
    );
    assert_eq!(confirm_stake_on_rounds(3, &vec![], 0), ConfirmAction::Reached { stake: 0 });
    let p = participant(&[(4, 10)]);
    assert_eq!(confirm_stake_on_participant(2, 4, Some(&p), 10), ConfirmAction::Reached { stake: 10 });
    assert_eq!(confirm_stake_on_participant(20, 4, Some(&p), 11), ConfirmAction::GiveUp { stake: 10 });
    assert_eq!(
        confirm_stake_on_participant(19, 4, Some(&p), 11),
        ConfirmAction::Retry { next_attempt: 20, stake: 10 }
    );
}

#[test]
fn advance_steps() {
    let c = config();
    assert_eq!(
        advance_on_rounds(&vec![round(1, 0, 0, 0), round(2, 0, 0, 0)]),
        AdvanceAction::Fail(AdvanceError::RoundsMismatch(2))
    );
    let rounds = vec![round(1, 4, 0, 0), round(2, 2, 1700, 0), round(3, 1, 0, 0)];
    assert_eq!(advance_on_rounds(&rounds), AdvanceAction::FetchParticipant);
    assert_eq!(
        advance_decide(1, false, &rounds, 1700, &c),
        AdvanceAction::Ready(ReadyRound { id: 2, step: 2, supposed_elected_at: 1700, stake: 11, validator_stake: 12 })
    );
    assert_eq!(
        advance_decide(1, false, &rounds, 1800, &c),
        AdvanceAction::CheckWallet { value: ONE, required: ONE + RESERVE }
    );
    assert_eq!(advance_decide(4, false, &rounds, 1800, &c), AdvanceAction::Exhausted);
    let fake = vec![round(1, 4, 0, 0), round(2, 2, 1600, 2), round(3, 1, 0, 0)];
    assert_eq!(advance_decide(2, true, &fake, 1800, &c), AdvanceAction::FakeRound);
    assert_eq!(
        advance_decide(2, false, &fake, 1800, &c),
        AdvanceAction::CheckWallet { value: ONE, required: ONE + RESERVE }
    );
    let mut bad = config();
    bad.ticktock_value = "1.0000000001".to_string();
    assert_eq!(
        advance_decide(1, false, &rounds, 1800, &bad),
        AdvanceAction::Fail(AdvanceError::Token(TokenError::TooManyDecimals))
    );
    assert_eq!(advance_on_wallet(1, 3, 3), AdvanceAction::SendTicktock { value: 1 });
    assert_eq!(
        advance_on_wallet(1, 3, 2),
        AdvanceAction::Stop(TopupNotice { required: 3, reason: TopupReason::Ticktock })
    );
}

#[test]
fn participate_steps() {
    let c = config();
    assert_eq!(proxy_index(0, 5), Err(ParticipateError::NoProxies));
    assert_eq!(proxy_index(2, 5), Ok(1));
    assert_eq!(proxy_index(2, 6), Ok(0));
    assert_eq!(
        participate_on_election(None),
        ParticipateAction::Fail(ParticipateError::NoCurrentElection)
    );
    assert_eq!(participate_on_election(Some(true)), ParticipateAction::AlreadyRegistered);
    assert_eq!(participate_on_election(Some(false)), ParticipateAction::Sign);
    assert_eq!(
        participate_after_sign(&c),
        ParticipateAction::CheckWallet { value: ONE, required: ONE + RESERVE }
    );
    assert_eq!(participate_on_wallet(1, 2, 2), ParticipateAction::Send { value: 1 });
    assert_eq!(
        participate_on_wallet(1, 2, 1),
        ParticipateAction::Fail(ParticipateError::WalletTooLow(TopupNotice {
            required: 2,
            reason: TopupReason::Participate
        }))
    );
    assert_eq!(participate_confirm(1, Some(true)), ParticipateAction::Confirmed);
    assert_eq!(participate_confirm(1, None), ParticipateAction::Retry { next_attempt: 2 });
    assert_eq!(participate_confirm(19, Some(false)), ParticipateAction::Retry { next_attempt: 20 });
    assert_eq!(
        participate_confirm(20, Some(false)),
        ParticipateAction::Fail(ParticipateError::NotRegistered)
    );
}

#[test]
fn run_phases() {
    let c = config();
    assert_eq!(run_after_deploy(false), RunAction::Stop(StopReason::NotDeployed));
    assert_eq!(run_after_deploy(true), RunAction::MaintainBalances);
    assert_eq!(run_after_balances(false), RunAction::Stop(StopReason::NotFunded));
    assert_eq!(run_after_balances(true), RunAction::CheckValidatorWallet);
    assert_eq!(run_on_validator_wallet(Some(false)), RunAction::Fail(RunError::ValidatorWalletMismatch));
    assert_eq!(run_on_validator_wallet(Some(true)), RunAction::FetchNetworkMin);
    assert_eq!(run_on_validator_wallet(None), RunAction::FetchNetworkMin);
    let terms = DepoolTerms { validator_assurance: 10_000 * ONE as u64, min_stake: 100 * ONE as u64 };
    assert_eq!(
        run_on_network_min(&c, terms, 5),
        RunAction::EnsureAssurance { required: 10_000 * ONE }
    );
    assert_eq!(run_after_assurance(false, 1), RunAction::Stop(StopReason::AssuranceNotReady));
    assert_eq!(run_after_assurance(true, 1), RunAction::CheckElection { required: 1 });
    assert_eq!(run_on_election(None, 1), RunAction::Stop(StopReason::ElectionsClosed));
    assert_eq!(run_on_election(Some(1700), 1), RunAction::Advance { election_id: 1700, required: 1 });
    assert_eq!(run_on_advanced(None, 1700, 1), RunAction::Stop(StopReason::NoTargetRound));
    let waiting = ReadyRound { id: 9, step: 2, supposed_elected_at: 1700, stake: 0, validator_stake: 0 };
    assert_eq!(
        run_on_advanced(Some(waiting), 1700, 1),
        RunAction::Participate { election_id: 1700, round_id: 9, required: 1 }
    );
    let pooling = ReadyRound { step: 1, ..waiting };
    assert_eq!(
        run_on_advanced(Some(pooling), 1700, 1),
        RunAction::Stop(StopReason::RoundNotWaiting(pooling))
    );
    assert_eq!(run_after_participate(3), RunAction::RestoreAssurance { required: 3 });
}

#[test]
fn clock_reads_after_2020() {
    let now = now_millis().unwrap();
    assert!(now > 1_577_836_800_000, "now {now}");
    assert_eq!(saturating_millis(5), 5);
    assert_eq!(saturating_millis(u128::MAX), u64::MAX);
}
