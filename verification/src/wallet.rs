//! The validator wallet: whether it can pay for a step, and the top-up
//! notice that is printed when it cannot.
use vstd::prelude::*;
use crate::digits::{decimal, push_decimal};
use crate::text::{push_str, string_from_chars};

verus! {

/// What a wallet top-up is needed for.
#[derive(Debug, Clone, Copy, PartialEq, Eq, Structural)]
pub enum TopupReason {
    DeployFunding,
    DeployBalance,
    DepoolBalance,
    ProxyBalance,
    ValidatorAssurance,
    Ticktock,
    Participate,
}

/// A request to top up the validator wallet: the balance that the step
/// needs, and what for.
#[derive(Debug, Clone, Copy, PartialEq, Eq, Structural)]
pub struct TopupNotice {
    pub required: u128,
    pub reason: TopupReason,
}

pub open spec fn reason_text(r: TopupReason) -> Seq<char> {
    match r {
        TopupReason::DeployFunding => "depool deploy funding"@,
        TopupReason::DeployBalance => "depool deploy balance"@,
        TopupReason::DepoolBalance => "depool balance"@,
        TopupReason::ProxyBalance => "proxy balance"@,
        TopupReason::ValidatorAssurance => "validator assurance stake"@,
        TopupReason::Ticktock => "ticktock"@,
        TopupReason::Participate => "participate"@,
    }
}

/// The log line that asks for a top-up: what the wallet lacks (never
/// below zero), the reason and the current balance.
pub open spec fn spec_format_topup(wallet: Seq<char>, notice: TopupNotice, balance: u128) -> Seq<
    char,
> {
    "TOPUP validator_wallet="@ + wallet + " with_at_least="@ + decimal(
        notice.required.saturating_sub(balance) as nat,
    ) + " reason="@ + reason_text(notice.reason) + " current_balance="@ + decimal(balance as nat)
}

fn push_reason(out: &mut Vec<char>, r: TopupReason)
    ensures
        final(out)@ == old(out)@ + reason_text(r),
{
    match r {
        TopupReason::DeployFunding => push_str(out, "depool deploy funding"),
        TopupReason::DeployBalance => push_str(out, "depool deploy balance"),
        TopupReason::DepoolBalance => push_str(out, "depool balance"),
        TopupReason::ProxyBalance => push_str(out, "proxy balance"),
        TopupReason::ValidatorAssurance => push_str(out, "validator assurance stake"),
        TopupReason::Ticktock => push_str(out, "ticktock"),
        TopupReason::Participate => push_str(out, "participate"),
    }
}

/// Writes the top-up request for the log.
pub fn format_topup(wallet: &str, notice: TopupNotice, balance: u128) -> (s: String)
    ensures
        s@ == spec_format_topup(wallet@, notice, balance),
{
    let mut out: Vec<char> = Vec::new();
    push_str(&mut out, "TOPUP validator_wallet=");
    push_str(&mut out, wallet);
    push_str(&mut out, " with_at_least=");
    push_decimal(notice.required.saturating_sub(balance), &mut out);
    push_str(&mut out, " reason=");
    push_reason(&mut out, notice.reason);
    push_str(&mut out, " current_balance=");
    push_decimal(balance, &mut out);
    proof {
        assert(out@ =~= spec_format_topup(wallet@, notice, balance));
    }
    string_from_chars(&out)
}

} // verus!
