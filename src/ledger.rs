//! A campaign kept together with its per-donor ledger.

use vstd::prelude::*;

use crate::campaign::{
    after_donation, after_refund, check_donation, check_refund, donation_entry, donation_outcome,
    proccess_donation_record, proccess_refund, refund_outcome,
};
use crate::error::ErrorCode;
use crate::state::{keys_equal, Crowdfund, DonationMade, DonationRecord, RefundMade, Transfer};

verus! {

/// The sum of the pledged amounts of `entries`.
pub open spec fn total(entries: Seq<DonationRecord>) -> nat
    decreases entries.len(),
{
    if entries.len() == 0 {
        0
    } else {
        total(entries.drop_last()) + entries.last().amount as nat
    }
}

/// Whether `donor` holds one of `entries`.
pub open spec fn holds_entry(entries: Seq<DonationRecord>, donor: [u8; 32]) -> bool {
    exists|i: int| 0 <= i < entries.len() && entries[i].donor == donor
}

proof fn lemma_total_update(entries: Seq<DonationRecord>, i: int, r: DonationRecord)
    requires
        0 <= i < entries.len(),
        r.amount == entries[i].amount,
    ensures
        total(entries.update(i, r)) == total(entries),
    decreases entries.len(),
{
    let u = entries.update(i, r);
    if i < entries.len() - 1 {
        assert(u.drop_last() =~= entries.drop_last().update(i, r));
        lemma_total_update(entries.drop_last(), i, r);
    } else {
        assert(u.drop_last() =~= entries.drop_last());
    }
}

/// A campaign together with its ledger: one entry per donor, appended as
/// donations are committed.
pub struct CampaignLedger {
    pub campaign: Crowdfund,
    pub entries: Vec<DonationRecord>,
}

impl CampaignLedger {
    /// The ledger agrees with the campaign: the pledges add up to the raised
    /// total, every entry belongs to this campaign and no donor has two.
    pub open spec fn wf(&self) -> bool {
        &&& self.campaign.wf()
        &&& total(self.entries@) == self.campaign.raised_amount
        &&& forall|i: int|
            0 <= i < self.entries@.len() ==> {
                &&& (#[trigger] self.entries@[i]).campaign == self.campaign.escrow_account
                &&& self.entries@[i].amount > 0
            }
        &&& forall|i: int, j: int|
            0 <= i < j < self.entries@.len() ==> (#[trigger] self.entries@[i]).donor
                != (#[trigger] self.entries@[j]).donor
    }

    /// The empty ledger of a campaign that has raised nothing yet.
    pub fn new(campaign: Crowdfund) -> (r: CampaignLedger)
        requires
            campaign.wf(),
            campaign.raised_amount == 0,
        ensures
            r.wf(),
            r.campaign == campaign,
            r.entries@ == Seq::<DonationRecord>::empty(),
    {
        CampaignLedger { campaign, entries: Vec::new() }
    }

    /// The position of `donor`'s entry, if the donor holds one.
    pub fn find_entry(&self, donor: &[u8; 32]) -> (r: Option<usize>)
        ensures
            r is Some ==> r->Some_0 < self.entries@.len() && self.entries@[r->Some_0 as int].donor
                == *donor,
            r is None ==> !holds_entry(self.entries@, *donor),
    {
        let mut i: usize = 0;
        while i < self.entries.len()
            invariant
                0 <= i <= self.entries@.len(),
                forall|j: int| 0 <= j < i ==> self.entries@[j].donor != *donor,
            decreases self.entries@.len() - i,
        {
            if keys_equal(&self.entries[i].donor, donor) {
                return Some(i);
            }
            i = i + 1;
        }
        None
    }

    /// Decides on a donation of `amount` by `donor` at time `now`, the ledger
    /// telling whether the donor has pledged already.
    pub fn check_donation(&self, donor: [u8; 32], amount: u64, now: i64) -> (r: Result<
        Transfer,
        ErrorCode,
    >)
        ensures
            r == donation_outcome(
                self.campaign,
                donor,
                holds_entry(self.entries@, donor),
                amount,
                now,
            ),
    {
        let found = self.find_entry(&donor);
        check_donation(&self.campaign, donor, found.is_some(), amount, now)
    }

    /// Takes a donation of `amount` by `donor` at time `now`, the ledger
    /// telling whether the donor has pledged already. When it is accepted the
    /// pledge is counted, the donor's entry is appended, and the result holds
    /// the transfer that escrows the pledge and the notice of the donation. A
    /// rejected donation leaves the ledger as it was.
    pub fn record_donation(&mut self, donor: [u8; 32], amount: u64, now: i64) -> (r: Result<
        (Transfer, DonationMade),
        ErrorCode,
    >)
        requires
            old(self).wf(),
        ensures
            final(self).wf(),
            ({
                let outcome = donation_outcome(
                    old(self).campaign,
                    donor,
                    holds_entry(old(self).entries@, donor),
                    amount,
                    now,
                );
                &&& outcome is Err ==> r == Err::<(Transfer, DonationMade), ErrorCode>(
                    outcome->Err_0,
                ) && *final(self) == *old(self)
                &&& outcome is Ok ==> {
                    &&& r is Ok
                    &&& r->Ok_0.0 == outcome->Ok_0
                    &&& r->Ok_0.1 == (DonationMade { donor, amount })
                    &&& final(self).campaign == after_donation(old(self).campaign, amount)
                    &&& final(self).entries@ == old(self).entries@.push(
                        donation_entry(old(self).campaign, donor, amount),
                    )
                }
            }),
    {
        let ghost before = self.entries@;
        let found = self.find_entry(&donor);
        let (record, transfer, notice) = match proccess_donation_record(
            &mut self.campaign,
            donor,
            found.is_some(),
            amount,
            now,
        ) {
            Ok(done) => done,
            Err(e) => return Err(e),
        };
        self.entries.push(record);
        assert(self.entries@.drop_last() =~= before);
        assert forall|i: int, j: int| 0 <= i < j < self.entries@.len() implies (
        #[trigger] self.entries@[i]).donor != (#[trigger] self.entries@[j]).donor by {
            if j == self.entries@.len() - 1 {
                assert(before[i].donor != donor);
            }
        }
        Ok((transfer, notice))
    }

    /// Decides on a refund of the entry at `index` asked for by `caller`.
    pub fn check_refund(&self, index: usize, caller: [u8; 32]) -> (r: Result<Transfer, ErrorCode>)
        requires
            index < self.entries@.len(),
        ensures
            r == refund_outcome(self.campaign, self.entries@[index as int], caller),
    {
        check_refund(&self.campaign, &self.entries[index], caller)
    }

    /// Takes a refund of the entry at `index` asked for by `caller`. When it
    /// is allowed the entry is marked refunded and the result holds the
    /// transfer of the pledge back to its donor and the notice of the refund;
    /// the raised total, which records what was pledged, stays. A refused
    /// refund leaves the ledger as it was.
    pub fn record_refund(&mut self, index: usize, caller: [u8; 32]) -> (r: Result<
        (Transfer, RefundMade),
        ErrorCode,
    >)
        requires
            old(self).wf(),
            index < old(self).entries@.len(),
        ensures
            final(self).wf(),
            ({
                let entry = old(self).entries@[index as int];
                let outcome = refund_outcome(old(self).campaign, entry, caller);
                &&& outcome is Err ==> r == Err::<(Transfer, RefundMade), ErrorCode>(
                    outcome->Err_0,
                ) && *final(self) == *old(self)
                &&& outcome is Ok ==> {
                    &&& r is Ok
                    &&& r->Ok_0.0 == outcome->Ok_0
                    &&& r->Ok_0.1 == (RefundMade {
                        refunder: old(self).campaign.owner,
                        payee: entry.donor,
                        amount: entry.amount,
                    })
                    &&& final(self).campaign == old(self).campaign
                    &&& final(self).entries@ == old(self).entries@.update(
                        index as int,
                        after_refund(entry),
                    )
                }
            }),
    {
        let mut record = self.entries[index];
        let done = match proccess_refund(&self.campaign, &mut record, caller) {
            Ok(done) => done,
            Err(e) => return Err(e),
        };
        proof {
            lemma_total_update(self.entries@, index as int, record);
        }
        self.entries.set(index, record);
        Ok(done)
    }
}

} // verus!
