use vstd::prelude::*;
use crate::error::StreamError;
use crate::fees::FeePolicy;
use crate::fees::fee_of;
use crate::fees::lemma_fee_split_bounded;
use crate::fees::partner_fee_of;
use crate::fees::spec_fee;
use crate::fees::spec_partner_fee;
use crate::schedule::lemma_unlocked_bounds;
use crate::schedule::spec_available;
use crate::schedule::spec_unlocked;
use crate::schedule::unlocked;
use crate::schedule::withdrawable;
use crate::state::CreateParams;
use crate::state::StreamAccount;
use crate::state::StreamRecord;

verus! {

/// A recipient address `create` accepts: a real address distinct from the
/// sender, so no stream pays its own funder.
pub open spec fn valid_recipient(p: CreateParams) -> bool {
    p.recipient != 0 && p.recipient != p.sender
}

/// A schedule `create` accepts: something is deposited, the stream does not
/// start in the past, the cliff does not precede the start, the cliff
/// tranche fits in the deposit, the period is non-zero, and the release
/// rate is non-zero unless the cliff tranche already covers the whole
/// deposit.
pub open spec fn valid_schedule(p: CreateParams, now: u64) -> bool {
    &&& p.net_amount_deposited > 0
    &&& p.period >= 1
    &&& p.start_time >= now
    &&& p.cliff >= p.start_time
    &&& p.cliff_amount <= p.net_amount_deposited
    &&& (p.amount_per_period >= 1 || p.cliff_amount == p.net_amount_deposited)
}

/// The record a successful `create` writes: the parameters as given, with
/// nothing withdrawn and the withdrawal clock started at the creation time.
pub open spec fn spec_created_record(p: CreateParams, now: u64) -> StreamRecord {
    StreamRecord {
        sender: p.sender,
        recipient: p.recipient,
        mint: p.mint,
        escrow: p.escrow,
        partner: p.partner,
        start_time: p.start_time,
        net_amount_deposited: p.net_amount_deposited,
        period: p.period,
        amount_per_period: p.amount_per_period,
        cliff: p.cliff,
        cliff_amount: p.cliff_amount,
        cancelable_by_sender: p.cancelable_by_sender,
        cancelable_by_recipient: p.cancelable_by_recipient,
        automatic_withdrawal: p.automatic_withdrawal,
        transferable_by_sender: p.transferable_by_sender,
        transferable_by_recipient: p.transferable_by_recipient,
        can_topup: p.can_topup,
        stream_name: p.stream_name,
        withdraw_frequency: p.withdraw_frequency,
        withdrawn_amount: 0,
        last_withdrawn_at: now,
        closed: false,
    }
}

/// What the sender owes at creation: the escrowed principal plus both fee
/// shares, charged on the deposit.
pub open spec fn spec_create_debit(p: CreateParams, fees: FeePolicy) -> int {
    p.net_amount_deposited + spec_fee(p.net_amount_deposited, fees.treasury_bps)
        + spec_partner_fee(p.partner, p.net_amount_deposited, fees.partner_bps)
}

/// The transfers a successful `create` asks the ledger to perform, and the
/// fresh stream account they fund.
#[derive(Clone, Copy, Debug, PartialEq, Eq)]
pub struct CreateOutcome {
    pub account: StreamAccount,
    /// Total debited from the sender: principal plus fees.
    pub debit_sender: u64,
    /// Principal moved into the escrow account.
    pub to_escrow: u64,
    /// Creation fee share for the platform treasury.
    pub to_treasury: u64,
    /// Creation fee share for the partner; zero without one.
    pub to_partner: u64,
}

/// Open a stream: validate the recipient, the schedule and the sender's
/// balance, compute the creation fee split, and return the initialized
/// stream account together with the transfers that fund it. Nothing is
/// committed on error.
pub fn create(p: &CreateParams, fees: &FeePolicy, now: u64, sender_balance: u64) -> (result: Result<
    CreateOutcome,
    StreamError,
>)
    requires
        fees.wf(),
    ensures
        match result {
            Ok(out) => {
                &&& valid_recipient(*p)
                &&& valid_schedule(*p, now)
                &&& spec_create_debit(*p, *fees) <= sender_balance
                &&& out.account.record == spec_created_record(*p, now)
                &&& out.account.escrow_balance == p.net_amount_deposited
                &&& out.account.refunded_to_sender == 0
                &&& out.account.wf()
                &&& out.to_escrow == p.net_amount_deposited
                &&& out.to_treasury == spec_fee(p.net_amount_deposited, fees.treasury_bps)
                &&& out.to_partner == spec_partner_fee(
                    p.partner,
                    p.net_amount_deposited,
                    fees.partner_bps,
                )
                &&& out.debit_sender == spec_create_debit(*p, *fees)
            },
            Err(e) => {
                ||| (e == StreamError::InvalidRecipient && !valid_recipient(*p))
                ||| (e == StreamError::InvalidSchedule && valid_recipient(*p) && !valid_schedule(
                    *p,
                    now,
                ))
                ||| (e == StreamError::InsufficientFunds && valid_recipient(*p) && valid_schedule(
                    *p,
                    now,
                ) && spec_create_debit(*p, *fees) > sender_balance)
            },
        },
{
    if p.recipient == 0 || p.recipient == p.sender {
        return Err(StreamError::InvalidRecipient);
    }
    let schedule_ok = p.net_amount_deposited > 0 && p.period >= 1 && p.start_time >= now
        && p.cliff >= p.start_time && p.cliff_amount <= p.net_amount_deposited
        && (p.amount_per_period >= 1 || p.cliff_amount == p.net_amount_deposited);
    if !schedule_ok {
        return Err(StreamError::InvalidSchedule);
    }
    let treasury_fee = fee_of(p.net_amount_deposited, fees.treasury_bps);
    let partner_fee = partner_fee_of(&p.partner, p.net_amount_deposited, fees.partner_bps);
    let debit_wide: u128 = p.net_amount_deposited as u128 + treasury_fee as u128
        + partner_fee as u128;
    if debit_wide > sender_balance as u128 {
        return Err(StreamError::InsufficientFunds);
    }
    let debit_sender: u64 = p.net_amount_deposited + treasury_fee + partner_fee;
    let record = StreamRecord {
        sender: p.sender,
        recipient: p.recipient,
        mint: p.mint,
        escrow: p.escrow,
        partner: p.partner,
        start_time: p.start_time,
        net_amount_deposited: p.net_amount_deposited,
        period: p.period,
        amount_per_period: p.amount_per_period,
        cliff: p.cliff,
        cliff_amount: p.cliff_amount,
        cancelable_by_sender: p.cancelable_by_sender,
        cancelable_by_recipient: p.cancelable_by_recipient,
        automatic_withdrawal: p.automatic_withdrawal,
        transferable_by_sender: p.transferable_by_sender,
        transferable_by_recipient: p.transferable_by_recipient,
        can_topup: p.can_topup,
        stream_name: p.stream_name,
        withdraw_frequency: p.withdraw_frequency,
        withdrawn_amount: 0,
        last_withdrawn_at: now,
        closed: false,
    };
    Ok(
        CreateOutcome {
            account: StreamAccount {
                record,
                escrow_balance: p.net_amount_deposited,
                refunded_to_sender: 0,
            },
            debit_sender,
            to_escrow: p.net_amount_deposited,
            to_treasury: treasury_fee,
            to_partner: partner_fee,
        },
    )
}

/// Who may withdraw: the recipient always; once `withdraw_frequency` has
/// elapsed since the last withdrawal on a stream with automatic
/// withdrawal, anyone may crank the maximum available (a zero request) to
/// the recipient.
pub open spec fn withdraw_authorized(r: StreamRecord, authority: u64, requested: u64, now: u64) -> bool {
    ||| authority == r.recipient
    ||| (r.automatic_withdrawal && requested == 0 && now >= r.last_withdrawn_at
        + r.withdraw_frequency)
}

/// The amount a withdrawal pays: everything available for a zero request,
/// otherwise the request capped at what is available.
pub open spec fn spec_payout(r: StreamRecord, requested: u64, now: u64) -> int {
    if requested == 0 || requested >= spec_available(r, now) {
        spec_available(r, now)
    } else {
        requested as int
    }
}

/// The transfers a successful `withdraw` asks the ledger to perform: the
/// payout leaves escrow, split between the recipient and the fee takers.
#[derive(Clone, Copy, Debug, PartialEq, Eq)]
pub struct WithdrawOutcome {
    /// Total debited from escrow and counted as withdrawn.
    pub payout: u64,
    /// The payout net of fees, credited to the recipient.
    pub to_recipient: u64,
    /// Withdrawal fee share for the platform treasury.
    pub to_treasury: u64,
    /// Withdrawal fee share for the partner; zero without one.
    pub to_partner: u64,
}

/// Release vested value to the recipient. A zero `requested` means the
/// maximum available, and pays zero silently when nothing is due; an
/// explicit positive request that nothing can satisfy is an error. On
/// success the stream records the payout and closes once the whole deposit
/// is withdrawn. Nothing changes on error.
pub fn withdraw(
    account: &mut StreamAccount,
    fees: &FeePolicy,
    authority: u64,
    requested: u64,
    now: u64,
) -> (result: Result<WithdrawOutcome, StreamError>)
    requires
        old(account).wf(),
        fees.wf(),
    ensures
        final(account).wf(),
        match result {
            Ok(out) => {
                let r = old(account).record;
                &&& !r.closed
                &&& withdraw_authorized(r, authority, requested, now)
                &&& !(requested > 0 && spec_available(r, now) == 0)
                &&& out.payout == spec_payout(r, requested, now)
                &&& out.to_treasury == spec_fee(out.payout, fees.treasury_bps)
                &&& out.to_partner == spec_partner_fee(r.partner, out.payout, fees.partner_bps)
                &&& out.to_recipient + out.to_treasury + out.to_partner == out.payout
                &&& final(account).record == (StreamRecord {
                    withdrawn_amount: (r.withdrawn_amount + out.payout) as u64,
                    last_withdrawn_at: now,
                    closed: r.withdrawn_amount + out.payout == r.net_amount_deposited,
                    ..r
                })
                &&& final(account).escrow_balance == old(account).escrow_balance - out.payout
                &&& final(account).refunded_to_sender == old(account).refunded_to_sender
            },
            Err(e) => {
                let r = old(account).record;
                &&& *final(account) == *old(account)
                &&& {
                    ||| (e == StreamError::StreamClosed && r.closed)
                    ||| (e == StreamError::Unauthorized && !r.closed && !withdraw_authorized(
                        r,
                        authority,
                        requested,
                        now,
                    ))
                    ||| (e == StreamError::NothingToWithdraw && !r.closed && withdraw_authorized(
                        r,
                        authority,
                        requested,
                        now,
                    ) && requested > 0 && spec_available(r, now) == 0)
                }
            },
        },
{
    if account.record.closed {
        return Err(StreamError::StreamClosed);
    }
    let crank_due = now as u128 >= account.record.last_withdrawn_at as u128
        + account.record.withdraw_frequency as u128;
    let authorized = authority == account.record.recipient
        || (account.record.automatic_withdrawal && requested == 0 && crank_due);
    if !authorized {
        return Err(StreamError::Unauthorized);
    }
    let available = withdrawable(&account.record, now);
    if requested > 0 && available == 0 {
        return Err(StreamError::NothingToWithdraw);
    }
    let payout = if requested == 0 || requested >= available {
        available
    } else {
        requested
    };
    proof {
        lemma_unlocked_bounds(old(account).record, now);
        lemma_fee_split_bounded(payout, fees.treasury_bps, fees.partner_bps);
    }
    let to_treasury = fee_of(payout, fees.treasury_bps);
    let to_partner = partner_fee_of(&account.record.partner, payout, fees.partner_bps);
    let to_recipient = payout - to_treasury - to_partner;
    account.record.withdrawn_amount = account.record.withdrawn_amount + payout;
    account.record.last_withdrawn_at = now;
    if account.record.withdrawn_amount == account.record.net_amount_deposited {
        account.record.closed = true;
    }
    account.escrow_balance = account.escrow_balance - payout;
    Ok(WithdrawOutcome { payout, to_recipient, to_treasury, to_partner })
}

/// A withdrawal never outruns the schedule: on a stream whose withdrawn
/// amount lies within what is unlocked at `t1` (true of a fresh stream and
/// preserved here), any payout at `t1` leaves the withdrawn amount within
/// what is unlocked at every `t2 >= t1`. The ledger clock never runs
/// backwards, so a later `cancel` always finds the escrow solvent.
pub proof fn lemma_withdraw_keeps_cancel_solvent(r: StreamRecord, requested: u64, t1: u64, t2: u64)
    requires
        r.wf(),
        r.withdrawn_amount <= spec_unlocked(r, t1),
        t1 <= t2,
    ensures
        ({
            let paid = StreamRecord {
                withdrawn_amount: (r.withdrawn_amount + spec_payout(r, requested, t1)) as u64,
                last_withdrawn_at: t1,
                ..r
            };
            paid.withdrawn_amount <= spec_unlocked(paid, t2)
        }),
{
    crate::schedule::lemma_unlocked_bounds(r, t1);
    crate::schedule::lemma_unlocked_monotonic(r, t1, t2);
}

/// Who may cancel: the sender or the recipient, each only with the
/// matching capability flag.
pub open spec fn cancel_authorized(r: StreamRecord, authority: u64) -> bool {
    ||| (authority == r.sender && r.cancelable_by_sender)
    ||| (authority == r.recipient && r.cancelable_by_recipient)
}

/// The transfers a successful `cancel` asks the ledger to perform; they
/// drain the escrow account exactly.
#[derive(Clone, Copy, Debug, PartialEq, Eq)]
pub struct CancelOutcome {
    /// Vested but not yet withdrawn value, paid out to the recipient.
    pub to_recipient: u64,
    /// Unvested principal, refunded to the sender.
    pub to_sender: u64,
}

/// Cancel a stream: pay the recipient what has vested but was not yet
/// withdrawn, refund the sender the rest, and close the stream. The two
/// transfers partition the escrow balance, so cancellation neither creates
/// nor destroys value. A record whose withdrawn amount exceeds what has
/// vested by `now` cannot be drained consistently (the ledger clock never
/// runs backwards, so the operations never produce one) and is rejected.
/// Nothing changes on error.
pub fn cancel(account: &mut StreamAccount, authority: u64, now: u64) -> (result: Result<
    CancelOutcome,
    StreamError,
>)
    requires
        old(account).wf(),
    ensures
        final(account).wf(),
        match result {
            Ok(out) => {
                let r = old(account).record;
                let vested = spec_unlocked(r, now);
                &&& !r.closed
                &&& cancel_authorized(r, authority)
                &&& r.withdrawn_amount <= vested
                &&& out.to_recipient == vested - r.withdrawn_amount
                &&& out.to_sender == r.net_amount_deposited - vested
                &&& out.to_recipient + out.to_sender == r.net_amount_deposited - r.withdrawn_amount
                &&& out.to_recipient + out.to_sender == old(account).escrow_balance
                &&& final(account).record == (StreamRecord {
                    withdrawn_amount: vested as u64,
                    closed: true,
                    ..r
                })
                &&& final(account).escrow_balance == 0
                &&& final(account).refunded_to_sender == out.to_sender
            },
            Err(e) => {
                let r = old(account).record;
                &&& *final(account) == *old(account)
                &&& {
                    ||| (e == StreamError::StreamClosed && r.closed)
                    ||| (e == StreamError::Unauthorized && !r.closed && !cancel_authorized(
                        r,
                        authority,
                    ))
                    ||| (e == StreamError::InsufficientFunds && !r.closed && cancel_authorized(
                        r,
                        authority,
                    ) && spec_unlocked(r, now) < r.withdrawn_amount)
                }
            },
        },
{
    if account.record.closed {
        return Err(StreamError::StreamClosed);
    }
    let authorized = (authority == account.record.sender && account.record.cancelable_by_sender)
        || (authority == account.record.recipient && account.record.cancelable_by_recipient);
    if !authorized {
        return Err(StreamError::Unauthorized);
    }
    proof {
        lemma_unlocked_bounds(old(account).record, now);
    }
    let vested = unlocked(&account.record, now);
    if vested < account.record.withdrawn_amount {
        return Err(StreamError::InsufficientFunds);
    }
    let to_recipient = vested - account.record.withdrawn_amount;
    let to_sender = account.record.net_amount_deposited - vested;
    account.record.withdrawn_amount = vested;
    account.record.closed = true;
    account.escrow_balance = account.escrow_balance - to_recipient - to_sender;
    account.refunded_to_sender = account.refunded_to_sender + to_sender;
    Ok(CancelOutcome { to_recipient, to_sender })
}

/// Who may reassign the recipient: the current recipient or the sender,
/// each only with the matching capability flag.
pub open spec fn transfer_authorized(r: StreamRecord, authority: u64) -> bool {
    ||| (authority == r.recipient && r.transferable_by_recipient)
    ||| (authority == r.sender && r.transferable_by_sender)
}

/// Reassign the stream to a new recipient. No value moves and the
/// schedule's progress carries over unchanged: only the recipient address
/// is rewritten. Nothing changes on error.
pub fn transfer_recipient(account: &mut StreamAccount, authority: u64, new_recipient: u64) -> (result:
    Result<(), StreamError>)
    requires
        old(account).wf(),
    ensures
        final(account).wf(),
        match result {
            Ok(_) => {
                let r = old(account).record;
                &&& !r.closed
                &&& new_recipient != 0
                &&& new_recipient != r.sender
                &&& transfer_authorized(r, authority)
                &&& final(account).record == (StreamRecord { recipient: new_recipient, ..r })
                &&& final(account).escrow_balance == old(account).escrow_balance
                &&& final(account).refunded_to_sender == old(account).refunded_to_sender
            },
            Err(e) => {
                let r = old(account).record;
                &&& *final(account) == *old(account)
                &&& {
                    ||| (e == StreamError::StreamClosed && r.closed)
                    ||| (e == StreamError::InvalidRecipient && !r.closed && (new_recipient == 0
                        || new_recipient == r.sender))
                    ||| (e == StreamError::Unauthorized && !r.closed && new_recipient != 0
                        && new_recipient != r.sender && !transfer_authorized(r, authority))
                }
            },
        },
{
    if account.record.closed {
        return Err(StreamError::StreamClosed);
    }
    if new_recipient == 0 || new_recipient == account.record.sender {
        return Err(StreamError::InvalidRecipient);
    }
    let authorized = (authority == account.record.recipient
        && account.record.transferable_by_recipient) || (authority == account.record.sender
        && account.record.transferable_by_sender);
    if !authorized {
        return Err(StreamError::Unauthorized);
    }
    account.record.recipient = new_recipient;
    Ok(())
}

/// A top-up amount the stream can absorb: non-zero, within what the
/// deposit counter can still hold, and only on a stream whose release rate
/// is non-zero (a rate of zero would leave the added value locked
/// forever).
pub open spec fn valid_topup(r: StreamRecord, amount: u64) -> bool {
    &&& amount > 0
    &&& r.net_amount_deposited + amount <= u64::MAX
    &&& r.amount_per_period >= 1
}

/// Add principal to a live stream. The release rate, start, cliff and
/// period are untouched: the top-up only raises the clamp ceiling, so the
/// stream runs longer at the same rate. Nothing changes on error.
pub fn topup(account: &mut StreamAccount, authority: u64, amount: u64, sender_balance: u64) -> (result:
    Result<(), StreamError>)
    requires
        old(account).wf(),
    ensures
        final(account).wf(),
        match result {
            Ok(_) => {
                let r = old(account).record;
                &&& !r.closed
                &&& authority == r.sender
                &&& r.can_topup
                &&& valid_topup(r, amount)
                &&& amount <= sender_balance
                &&& final(account).record == (StreamRecord {
                    net_amount_deposited: (r.net_amount_deposited + amount) as u64,
                    ..r
                })
                &&& final(account).escrow_balance == old(account).escrow_balance + amount
                &&& final(account).refunded_to_sender == old(account).refunded_to_sender
            },
            Err(e) => {
                let r = old(account).record;
                &&& *final(account) == *old(account)
                &&& {
                    ||| (e == StreamError::StreamClosed && r.closed)
                    ||| (e == StreamError::Unauthorized && !r.closed && !(authority == r.sender
                        && r.can_topup))
                    ||| (e == StreamError::InvalidSchedule && !r.closed && authority == r.sender
                        && r.can_topup && !valid_topup(r, amount))
                    ||| (e == StreamError::InsufficientFunds && !r.closed && authority == r.sender
                        && r.can_topup && valid_topup(r, amount) && amount > sender_balance)
                }
            },
        },
{
    if account.record.closed {
        return Err(StreamError::StreamClosed);
    }
    if !(authority == account.record.sender && account.record.can_topup) {
        return Err(StreamError::Unauthorized);
    }
    let fits = account.record.net_amount_deposited as u128 + amount as u128 <= u64::MAX as u128;
    if !(amount > 0 && fits && account.record.amount_per_period >= 1) {
        return Err(StreamError::InvalidSchedule);
    }
    if amount > sender_balance {
        return Err(StreamError::InsufficientFunds);
    }
    account.record.net_amount_deposited = account.record.net_amount_deposited + amount;
    account.escrow_balance = account.escrow_balance + amount;
    Ok(())
}

} // verus!
