use vstd::prelude::*;

verus! {

/// The schedule, identity and capability arguments handed to `create`.
///
/// Addresses are plain identifiers; `0` is the zero address and never names
/// a real account. `partner` is the optional address that shares in fees.
#[derive(Clone, Copy, Debug, PartialEq, Eq)]
pub struct CreateParams {
    pub sender: u64,
    pub recipient: u64,
    pub mint: u64,
    pub escrow: u64,
    pub partner: Option<u64>,
    /// No value unlocks before this timestamp (seconds).
    pub start_time: u64,
    /// Total value escrowed, net of any creation fee.
    pub net_amount_deposited: u64,
    /// Seconds per release tick after the cliff; zero is rejected.
    pub period: u64,
    /// Value unlocked per elapsed period.
    pub amount_per_period: u64,
    /// Timestamp gating all release, including the cliff tranche itself.
    pub cliff: u64,
    /// Value unlocked at the cliff timestamp.
    pub cliff_amount: u64,
    pub cancelable_by_sender: bool,
    pub cancelable_by_recipient: bool,
    pub automatic_withdrawal: bool,
    pub transferable_by_sender: bool,
    pub transferable_by_recipient: bool,
    pub can_topup: bool,
    /// Human-readable label, fixed size.
    pub stream_name: [u8; 64],
    /// Minimum seconds between automatic withdrawals on the recipient's
    /// behalf.
    pub withdraw_frequency: u64,
}

/// The durable state of one escrow agreement: the creation parameters plus
/// the mutable accounting fields. Created once, mutated only by the five
/// operations, terminal once `closed` is set.
#[derive(Clone, Copy, Debug, PartialEq, Eq)]
pub struct StreamRecord {
    pub sender: u64,
    pub recipient: u64,
    pub mint: u64,
    pub escrow: u64,
    pub partner: Option<u64>,
    pub start_time: u64,
    pub net_amount_deposited: u64,
    pub period: u64,
    pub amount_per_period: u64,
    pub cliff: u64,
    pub cliff_amount: u64,
    pub cancelable_by_sender: bool,
    pub cancelable_by_recipient: bool,
    pub automatic_withdrawal: bool,
    pub transferable_by_sender: bool,
    pub transferable_by_recipient: bool,
    pub can_topup: bool,
    pub stream_name: [u8; 64],
    pub withdraw_frequency: u64,
    /// Cumulative value released to the recipient.
    pub withdrawn_amount: u64,
    /// Timestamp of the most recent withdrawal (the creation time until
    /// the first one).
    pub last_withdrawn_at: u64,
    pub closed: bool,
}

impl StreamRecord {
    /// Well-formedness: what creation establishes and every operation
    /// preserves.
    pub open spec fn wf(self) -> bool {
        &&& self.period >= 1
        &&& self.start_time <= self.cliff
        &&& self.cliff_amount <= self.net_amount_deposited
        &&& self.withdrawn_amount <= self.net_amount_deposited
        &&& self.recipient != self.sender
        &&& self.recipient != 0
        &&& (self.amount_per_period >= 1 || self.cliff_amount == self.net_amount_deposited)
    }

    /// Runtime check of `wf`, for callers outside verified code.
    pub fn is_well_formed(&self) -> (ok: bool)
        ensures
            ok == self.wf(),
    {
        self.period >= 1 && self.start_time <= self.cliff
            && self.cliff_amount <= self.net_amount_deposited
            && self.withdrawn_amount <= self.net_amount_deposited
            && self.recipient != self.sender && self.recipient != 0
            && (self.amount_per_period >= 1
                || self.cliff_amount == self.net_amount_deposited)
    }
}

/// One stream together with the escrow account backing it and the running
/// total refunded to the sender on cancellation.
///
/// `wf` carries the conservation law: the escrow balance, the value already
/// withdrawn and the value refunded always sum to the net deposit, so
/// no operation creates or destroys value.
#[derive(Clone, Copy, Debug, PartialEq, Eq)]
pub struct StreamAccount {
    pub record: StreamRecord,
    /// Balance of the escrow account holding this stream's undistributed
    /// value.
    pub escrow_balance: u64,
    /// Cumulative unvested value returned to the sender by `cancel`.
    pub refunded_to_sender: u64,
}

impl StreamAccount {
    /// Well-formedness: the record is well formed, value is conserved, an
    /// open stream has refunded nothing, and a closed stream's escrow is
    /// empty.
    pub open spec fn wf(self) -> bool {
        &&& self.record.wf()
        &&& self.escrow_balance + self.record.withdrawn_amount + self.refunded_to_sender
            == self.record.net_amount_deposited
        &&& (!self.record.closed ==> self.refunded_to_sender == 0)
        &&& (self.record.closed ==> self.escrow_balance == 0)
    }

    /// Runtime check of `wf`, for callers outside verified code.
    pub fn is_well_formed(&self) -> (ok: bool)
        ensures
            ok == self.wf(),
    {
        if !self.record.is_well_formed() {
            return false;
        }
        let owed: u128 = self.escrow_balance as u128 + self.record.withdrawn_amount as u128
            + self.refunded_to_sender as u128;
        owed == self.record.net_amount_deposited as u128
            && (self.record.closed || self.refunded_to_sender == 0)
            && (!self.record.closed || self.escrow_balance == 0)
    }
}

} // verus!
