//! The campaign lifecycle: what each operation decides and how it changes
//! the records, and the laws that tie the operations together.

use vstd::prelude::*;

use crate::error::ErrorCode;
use crate::merkle::{
    compute_root, fold_proof, lemma_proof_round_trip, leaf_at, leaf_hash, leaf_of, path_valid,
    proof_for, proof_view, tree_root, RewardTree,
};
use crate::state::{
    all_zero, keys_equal, CampaignState, Crowdfund, DonationMade, DonationRecord, RefundMade,
    name_byte_len, name_len, Transfer, WithdrawMade, MAX_NAME_LEN,
};

verus! {

/// What creating a campaign with these inputs fails with, if it fails.
pub open spec fn create_error(
    name: Seq<char>,
    target_amount: u64,
    start_time: i64,
    end_time: i64,
) -> Option<ErrorCode> {
    if target_amount == 0 {
        Some(ErrorCode::InvalidTargetAmount)
    } else if start_time >= end_time {
        Some(ErrorCode::InvalidTimeRange)
    } else if name_len(name) > MAX_NAME_LEN {
        Some(ErrorCode::NameTooLong)
    } else {
        None
    }
}

/// The decision on a donation of `amount` by `donor` at time `now`; on success,
/// the transfer that escrows the pledge.
pub open spec fn donation_outcome(
    c: Crowdfund,
    donor: [u8; 32],
    already_donated: bool,
    amount: u64,
    now: i64,
) -> Result<Transfer, ErrorCode> {
    if amount == 0 {
        Err(ErrorCode::InvalidDonationAmount)
    } else if now < c.start_time {
        Err(ErrorCode::NotStarted)
    } else if now > c.end_time || !(c.state is Active) {
        Err(ErrorCode::CampaignExpired)
    } else if already_donated {
        Err(ErrorCode::AlreadyDonated)
    } else if c.raised_amount + amount > u64::MAX {
        Err(ErrorCode::Overflow)
    } else {
        Ok(Transfer { from: donor, to: c.escrow_account, amount })
    }
}

/// The state a campaign is in once `raised` has been counted.
pub open spec fn state_for(raised: u64, target: u64) -> CampaignState {
    if raised >= target {
        CampaignState::Success
    } else {
        CampaignState::Active
    }
}

/// The campaign after a donation of `amount` was committed.
pub open spec fn after_donation(c: Crowdfund, amount: u64) -> Crowdfund {
    Crowdfund {
        raised_amount: (c.raised_amount + amount) as u64,
        state: state_for((c.raised_amount + amount) as u64, c.target_amount),
        ..c
    }
}

/// The ledger entry a committed donation creates.
pub open spec fn donation_entry(c: Crowdfund, donor: [u8; 32], amount: u64) -> DonationRecord {
    DonationRecord { campaign: c.escrow_account, donor, amount, is_refunded: false }
}

/// The state `finalize` leaves a campaign in at time `now`.
pub open spec fn finalize_state(c: Crowdfund, now: i64) -> CampaignState {
    if c.state.is_terminal() {
        c.state
    } else if c.raised_amount >= c.target_amount {
        CampaignState::Success
    } else if now > c.end_time {
        CampaignState::Fail
    } else {
        CampaignState::Active
    }
}

/// The campaign after `finalize` at time `now`.
pub open spec fn after_finalize(c: Crowdfund, now: i64) -> Crowdfund {
    Crowdfund { state: finalize_state(c, now), ..c }
}

/// The decision on a withdrawal asked for by `caller` at time `now`; on
/// success, the transfer of the raised total to the owner.
pub open spec fn withdrawal_outcome(c: Crowdfund, caller: [u8; 32], now: i64) -> Result<
    Transfer,
    ErrorCode,
> {
    if caller != c.owner {
        Err(ErrorCode::Unauthorized)
    } else if now < c.start_time {
        Err(ErrorCode::NotStarted)
    } else if !(c.state is Success) || c.is_withdrawals {
        Err(ErrorCode::WithdrawalNotAllowed)
    } else if c.raised_amount < c.target_amount {
        Err(ErrorCode::NotReaching)
    } else {
        Ok(Transfer { from: c.escrow_account, to: c.owner, amount: c.raised_amount })
    }
}

/// The campaign after its withdrawal was committed.
pub open spec fn after_withdrawal(c: Crowdfund) -> Crowdfund {
    Crowdfund { is_withdrawals: true, ..c }
}

/// The decision on a refund of `record` asked for by `caller`; on success, the
/// transfer of the pledge back to its donor.
pub open spec fn refund_outcome(c: Crowdfund, record: DonationRecord, caller: [u8; 32]) -> Result<
    Transfer,
    ErrorCode,
> {
    if caller != record.donor {
        Err(ErrorCode::Unauthorized)
    } else if record.campaign != c.escrow_account {
        Err(ErrorCode::CampaignMismatch)
    } else if !(c.state is Fail) {
        Err(ErrorCode::RefundNotAllowed)
    } else if record.is_refunded {
        Err(ErrorCode::AlreadyRefunded)
    } else {
        Ok(Transfer { from: c.escrow_account, to: record.donor, amount: record.amount })
    }
}

/// The ledger entry after its refund was committed.
pub open spec fn after_refund(record: DonationRecord) -> DonationRecord {
    DonationRecord { is_refunded: true, ..record }
}

/// What storing a reward root asked for by `caller` fails with, if it fails.
pub open spec fn set_root_error(c: Crowdfund, caller: [u8; 32]) -> Option<ErrorCode> {
    if caller != c.owner {
        Some(ErrorCode::Unauthorized)
    } else if !(c.state is Success) {
        Some(ErrorCode::CampaignNotSuccessful)
    } else if c.root_is_set() {
        Some(ErrorCode::RewardRootAlreadySet)
    } else {
        None
    }
}

/// The verdict on a reward claim for `record` by `caller`, whose proof leads
/// to `computed_root`.
pub open spec fn claim_outcome(
    c: Crowdfund,
    record: DonationRecord,
    caller: [u8; 32],
    computed_root: Seq<u8>,
) -> Result<(), ErrorCode> {
    if caller != record.donor {
        Err(ErrorCode::Unauthorized)
    } else if record.campaign != c.escrow_account {
        Err(ErrorCode::CampaignMismatch)
    } else if !(c.state is Success) {
        Err(ErrorCode::CampaignNotSuccessful)
    } else if !c.root_is_set() {
        Err(ErrorCode::RewardRootNotSet)
    } else if computed_root != c.merkle_root@ {
        Err(ErrorCode::InvalidMerkleProof)
    } else {
        Ok(())
    }
}

/// Creates a campaign of `owner`, whose pledges are escrowed in
/// `escrow_account`.
pub fn proccess_crowdfund(
    owner: [u8; 32],
    escrow_account: [u8; 32],
    name: String,
    target_amount: u64,
    start_time: i64,
    end_time: i64,
) -> (r: Result<Crowdfund, ErrorCode>)
    ensures
        create_error(name@, target_amount, start_time, end_time) is Some ==> r == Err::<
            Crowdfund,
            ErrorCode,
        >(create_error(name@, target_amount, start_time, end_time)->Some_0),
        create_error(name@, target_amount, start_time, end_time) is None ==> r is Ok,
        r is Ok ==> {
            let c = r->Ok_0;
            &&& c.wf()
            &&& c.owner == owner
            &&& c.escrow_account == escrow_account
            &&& c.name == name
            &&& c.start_time == start_time
            &&& c.end_time == end_time
            &&& c.target_amount == target_amount
            &&& c.raised_amount == 0
            &&& c.state == CampaignState::Active
            &&& !c.is_withdrawals
            &&& all_zero(c.merkle_root@)
        },
{
    if target_amount == 0 {
        return Err(ErrorCode::InvalidTargetAmount);
    }
    if start_time >= end_time {
        return Err(ErrorCode::InvalidTimeRange);
    }
    if name_byte_len(&name) > MAX_NAME_LEN {
        return Err(ErrorCode::NameTooLong);
    }
    let merkle_root: [u8; 32] = [0u8; 32];
    assert(all_zero(merkle_root@));
    Ok(
        Crowdfund {
            owner,
            escrow_account,
            name,
            start_time,
            end_time,
            target_amount,
            raised_amount: 0,
            state: CampaignState::Active,
            is_withdrawals: false,
            merkle_root,
        },
    )
}

/// Decides on a donation of `amount` by `donor` at time `now`.
/// `already_donated` tells whether the donor holds a ledger entry for this
/// campaign: each donor pledges once. On success the result is the transfer
/// that escrows the pledge.
pub fn check_donation(
    c: &Crowdfund,
    donor: [u8; 32],
    already_donated: bool,
    amount: u64,
    now: i64,
) -> (r: Result<Transfer, ErrorCode>)
    ensures
        r == donation_outcome(*c, donor, already_donated, amount, now),
{
    if amount == 0 {
        return Err(ErrorCode::InvalidDonationAmount);
    }
    if now < c.start_time {
        return Err(ErrorCode::NotStarted);
    }
    if now > c.end_time {
        return Err(ErrorCode::CampaignExpired);
    }
    match c.state {
        CampaignState::Active => {},
        _ => return Err(ErrorCode::CampaignExpired),
    }
    if already_donated {
        return Err(ErrorCode::AlreadyDonated);
    }
    if c.raised_amount.checked_add(amount).is_none() {
        return Err(ErrorCode::Overflow);
    }
    Ok(Transfer { from: donor, to: c.escrow_account, amount })
}

/// Takes a donation of `amount` by `donor` at time `now`; `already_donated`
/// tells whether the donor holds a ledger entry for this campaign. When the
/// donation is accepted the pledge is counted, the campaign succeeds as soon
/// as the target is reached, and the result holds the donor's new ledger
/// entry, the transfer that escrows the pledge and the notice of the
/// donation. The host carries out the transfer and keeps the new state only
/// if it succeeds. A rejected donation leaves the campaign as it was.
pub fn proccess_donation_record(
    c: &mut Crowdfund,
    donor: [u8; 32],
    already_donated: bool,
    amount: u64,
    now: i64,
) -> (r: Result<(DonationRecord, Transfer, DonationMade), ErrorCode>)
    requires
        old(c).wf(),
    ensures
        final(c).wf(),
        donation_outcome(*old(c), donor, already_donated, amount, now) is Err ==> {
            &&& r == Err::<(DonationRecord, Transfer, DonationMade), ErrorCode>(
                donation_outcome(*old(c), donor, already_donated, amount, now)->Err_0,
            )
            &&& *final(c) == *old(c)
        },
        donation_outcome(*old(c), donor, already_donated, amount, now) is Ok ==> {
            &&& r is Ok
            &&& r->Ok_0.0 == donation_entry(*old(c), donor, amount)
            &&& r->Ok_0.1 == donation_outcome(*old(c), donor, already_donated, amount, now)->Ok_0
            &&& r->Ok_0.2 == (DonationMade { donor, amount })
            &&& *final(c) == after_donation(*old(c), amount)
        },
{
    let transfer = match check_donation(c, donor, already_donated, amount, now) {
        Ok(t) => t,
        Err(e) => return Err(e),
    };
    c.raised_amount = c.raised_amount + amount;
    if c.raised_amount >= c.target_amount {
        c.state = CampaignState::Success;
    }
    let record = DonationRecord {
        campaign: c.escrow_account,
        donor,
        amount,
        is_refunded: false,
    };
    Ok((record, transfer, DonationMade { donor, amount }))
}

/// Resolves a campaign at time `now`: it succeeds once the target is reached,
/// and fails once the window has closed short of it. A campaign in a terminal
/// state is left as it is, so the call can be repeated safely.
pub fn proccess_finalize(c: &mut Crowdfund, now: i64)
    requires
        old(c).wf(),
    ensures
        *final(c) == after_finalize(*old(c), now),
        final(c).wf(),
{
    match c.state {
        CampaignState::Active => {},
        _ => return,
    }
    if c.raised_amount >= c.target_amount {
        c.state = CampaignState::Success;
    } else if now > c.end_time {
        c.state = CampaignState::Fail;
    }
}

/// Decides on a withdrawal asked for by `caller` at time `now`. On success the
/// result is the transfer of the raised total to the owner.
pub fn check_withdrawal(c: &Crowdfund, caller: [u8; 32], now: i64) -> (r: Result<
    Transfer,
    ErrorCode,
>)
    ensures
        r == withdrawal_outcome(*c, caller, now),
{
    if !keys_equal(&caller, &c.owner) {
        return Err(ErrorCode::Unauthorized);
    }
    if now < c.start_time {
        return Err(ErrorCode::NotStarted);
    }
    match c.state {
        CampaignState::Success => {},
        _ => return Err(ErrorCode::WithdrawalNotAllowed),
    }
    if c.is_withdrawals {
        return Err(ErrorCode::WithdrawalNotAllowed);
    }
    if c.raised_amount < c.target_amount {
        return Err(ErrorCode::NotReaching);
    }
    Ok(Transfer { from: c.escrow_account, to: c.owner, amount: c.raised_amount })
}

/// Takes a withdrawal asked for by `caller` at time `now`. When it is
/// allowed the campaign is marked withdrawn and the result holds the transfer
/// of the raised total to the owner and the notice of the withdrawal; the host
/// carries out the transfer and keeps the new state only if it succeeds. A
/// refused withdrawal leaves the campaign as it was.
pub fn process_donation_withdrawal(c: &mut Crowdfund, caller: [u8; 32], now: i64) -> (r: Result<
    (Transfer, WithdrawMade),
    ErrorCode,
>)
    requires
        old(c).wf(),
    ensures
        final(c).wf(),
        withdrawal_outcome(*old(c), caller, now) is Err ==> {
            &&& r == Err::<(Transfer, WithdrawMade), ErrorCode>(
                withdrawal_outcome(*old(c), caller, now)->Err_0,
            )
            &&& *final(c) == *old(c)
        },
        withdrawal_outcome(*old(c), caller, now) is Ok ==> {
            &&& r is Ok
            &&& r->Ok_0.0 == withdrawal_outcome(*old(c), caller, now)->Ok_0
            &&& r->Ok_0.1 == (WithdrawMade {
                withdrawer: old(c).owner,
                amount: old(c).raised_amount,
            })
            &&& *final(c) == after_withdrawal(*old(c))
        },
{
    let transfer = match check_withdrawal(c, caller, now) {
        Ok(t) => t,
        Err(e) => return Err(e),
    };
    c.is_withdrawals = true;
    Ok((transfer, WithdrawMade { withdrawer: c.owner, amount: c.raised_amount }))
}

/// Decides on a refund of `record` asked for by `caller`. On success the
/// result is the transfer of the pledge back to its donor.
pub fn check_refund(c: &Crowdfund, record: &DonationRecord, caller: [u8; 32]) -> (r: Result<
    Transfer,
    ErrorCode,
>)
    ensures
        r == refund_outcome(*c, *record, caller),
{
    if !keys_equal(&caller, &record.donor) {
        return Err(ErrorCode::Unauthorized);
    }
    if !keys_equal(&record.campaign, &c.escrow_account) {
        return Err(ErrorCode::CampaignMismatch);
    }
    match c.state {
        CampaignState::Fail => {},
        _ => return Err(ErrorCode::RefundNotAllowed),
    }
    if record.is_refunded {
        return Err(ErrorCode::AlreadyRefunded);
    }
    Ok(Transfer { from: c.escrow_account, to: record.donor, amount: record.amount })
}

/// Takes a refund of `record` asked for by `caller`. When it is allowed the
/// entry is marked refunded and the result holds the transfer of the pledge
/// back to its donor and the notice of the refund; the host carries out the
/// transfer and keeps the new entry only if it succeeds. A refused refund
/// leaves the entry as it was.
pub fn proccess_refund(c: &Crowdfund, record: &mut DonationRecord, caller: [u8; 32]) -> (r: Result<
    (Transfer, RefundMade),
    ErrorCode,
>)
    ensures
        refund_outcome(*c, *old(record), caller) is Err ==> {
            &&& r == Err::<(Transfer, RefundMade), ErrorCode>(
                refund_outcome(*c, *old(record), caller)->Err_0,
            )
            &&& *final(record) == *old(record)
        },
        refund_outcome(*c, *old(record), caller) is Ok ==> {
            &&& r is Ok
            &&& r->Ok_0.0 == refund_outcome(*c, *old(record), caller)->Ok_0
            &&& r->Ok_0.1 == (RefundMade {
                refunder: c.owner,
                payee: old(record).donor,
                amount: old(record).amount,
            })
            &&& *final(record) == after_refund(*old(record))
        },
{
    let transfer = match check_refund(c, record, caller) {
        Ok(t) => t,
        Err(e) => return Err(e),
    };
    record.is_refunded = true;
    Ok((transfer, RefundMade { refunder: c.owner, payee: record.donor, amount: record.amount }))
}

/// Stores the reward root of a successful campaign, once. A root of all zero
/// bytes stands for no root, so storing it leaves the root unset.
pub fn proccess_merkle_root(c: &mut Crowdfund, caller: [u8; 32], merkle_root: [u8; 32]) -> (r:
    Result<(), ErrorCode>)
    requires
        old(c).wf(),
    ensures
        set_root_error(*old(c), caller) is Some ==> r == Err::<(), ErrorCode>(
            set_root_error(*old(c), caller)->Some_0,
        ) && *final(c) == *old(c),
        set_root_error(*old(c), caller) is None ==> r is Ok && *final(c) == (Crowdfund {
            merkle_root,
            ..*old(c)
        }),
        final(c).wf(),
{
    if !keys_equal(&caller, &c.owner) {
        return Err(ErrorCode::Unauthorized);
    }
    match c.state {
        CampaignState::Success => {},
        _ => return Err(ErrorCode::CampaignNotSuccessful),
    }
    if c.has_merkle_root() {
        return Err(ErrorCode::RewardRootAlreadySet);
    }
    c.merkle_root = merkle_root;
    Ok(())
}

/// Judges a reward claim for `record` by `caller` whose inclusion proof leads
/// to `computed_root`.
pub fn check_reward_claim(
    c: &Crowdfund,
    record: &DonationRecord,
    caller: [u8; 32],
    computed_root: &[u8; 32],
) -> (r: Result<(), ErrorCode>)
    ensures
        r == claim_outcome(*c, *record, caller, computed_root@),
{
    if !keys_equal(&caller, &record.donor) {
        return Err(ErrorCode::Unauthorized);
    }
    if !keys_equal(&record.campaign, &c.escrow_account) {
        return Err(ErrorCode::CampaignMismatch);
    }
    match c.state {
        CampaignState::Success => {},
        _ => return Err(ErrorCode::CampaignNotSuccessful),
    }
    if !c.has_merkle_root() {
        return Err(ErrorCode::RewardRootNotSet);
    }
    if !keys_equal(computed_root, &c.merkle_root) {
        return Err(ErrorCode::InvalidMerkleProof);
    }
    Ok(())
}

/// Verifies a reward claim: the leaf of the donor and the pledged amount,
/// folded with the siblings of `proof`, must give the campaign's reward root.
pub fn proccess_reward_claim(
    c: &Crowdfund,
    record: &DonationRecord,
    caller: [u8; 32],
    proof: &Vec<[u8; 32]>,
) -> (r: Result<(), ErrorCode>)
    ensures
        r == claim_outcome(
            *c,
            *record,
            caller,
            fold_proof(leaf_of(record.donor@, record.amount), proof_view(proof@)),
        ),
{
    let leaf = leaf_hash(&record.donor, record.amount);
    let root = compute_root(&leaf, proof);
    check_reward_claim(c, record, caller, &root)
}

/// An accepted donation adds exactly its amount to the raised total and keeps
/// the campaign well formed; a donation that would overflow the total is
/// rejected with `Overflow` rather than wrapped.
pub proof fn lemma_donation_adds_exactly(c: Crowdfund, donor: [u8; 32], amount: u64, now: i64)
    requires
        c.wf(),
    ensures
        donation_outcome(c, donor, false, amount, now) is Ok ==> {
            &&& after_donation(c, amount).raised_amount == c.raised_amount + amount
            &&& after_donation(c, amount).wf()
            &&& donation_entry(c, donor, amount).amount == amount
        },
        c.raised_amount + amount > u64::MAX ==> donation_outcome(c, donor, false, amount, now) is Err,
        amount > 0 && c.start_time <= now <= c.end_time && c.state is Active && c.raised_amount
            + amount > u64::MAX ==> donation_outcome(c, donor, false, amount, now) == Err::<
            Transfer,
            ErrorCode,
        >(ErrorCode::Overflow),
{
}

/// Once a campaign is in a terminal state every donation fails, and neither
/// finalizing nor withdrawing moves it out of that state.
pub proof fn lemma_terminal_state_is_final(
    c: Crowdfund,
    donor: [u8; 32],
    already_donated: bool,
    amount: u64,
    now: i64,
)
    requires
        c.wf(),
        c.state.is_terminal(),
    ensures
        donation_outcome(c, donor, already_donated, amount, now) is Err,
        after_finalize(c, now).state == c.state,
        after_withdrawal(c).state == c.state,
{
}

/// A campaign whose raised total has been withdrawn refuses every further
/// withdrawal by its owner, once the window has opened, with
/// `WithdrawalNotAllowed`.
pub proof fn lemma_withdrawn_campaign_refuses_withdrawal(c: Crowdfund, now: i64)
    requires
        c.is_withdrawals,
        now >= c.start_time,
    ensures
        withdrawal_outcome(c, c.owner, now) == Err::<Transfer, ErrorCode>(
            ErrorCode::WithdrawalNotAllowed,
        ),
{
}

/// After a withdrawal has been committed, asking for it again fails with
/// `WithdrawalNotAllowed`, so the raised total is transferred at most once.
pub proof fn lemma_withdrawal_happens_once(c: Crowdfund, caller: [u8; 32], now: i64, later: i64)
    requires
        withdrawal_outcome(c, caller, now) is Ok,
        later >= c.start_time,
    ensures
        withdrawal_outcome(after_withdrawal(c), caller, later) == Err::<Transfer, ErrorCode>(
            ErrorCode::WithdrawalNotAllowed,
        ),
{
}

/// A refunded entry of a failed campaign refuses every further refund to its
/// donor with `AlreadyRefunded`.
pub proof fn lemma_refunded_entry_refuses_refund(c: Crowdfund, record: DonationRecord)
    requires
        c.state is Fail,
        record.campaign == c.escrow_account,
        record.is_refunded,
    ensures
        refund_outcome(c, record, record.donor) == Err::<Transfer, ErrorCode>(
            ErrorCode::AlreadyRefunded,
        ),
{
}

/// After a refund of an entry has been committed, asking for it again fails
/// with `AlreadyRefunded`, so the pledge is transferred back at most once.
pub proof fn lemma_refund_happens_once(c: Crowdfund, record: DonationRecord, caller: [u8; 32])
    requires
        refund_outcome(c, record, caller) is Ok,
    ensures
        refund_outcome(c, after_refund(record), caller) == Err::<Transfer, ErrorCode>(
            ErrorCode::AlreadyRefunded,
        ),
{
}

/// The campaign after `finalize` was called once at each time of `nows`, in
/// order.
pub open spec fn finalize_each(c: Crowdfund, nows: Seq<i64>) -> Crowdfund
    decreases nows.len(),
{
    if nows.len() == 0 {
        c
    } else {
        finalize_each(after_finalize(c, nows[0]), nows.drop_first())
    }
}

/// Finalizing twice at the same time is finalizing once; and once finalizing
/// has resolved a campaign, any number of further calls, at any times, leave
/// it exactly as the first call did.
pub proof fn lemma_finalize_idempotent(c: Crowdfund, now: i64, nows: Seq<i64>)
    ensures
        after_finalize(after_finalize(c, now), now) == after_finalize(c, now),
        after_finalize(c, now).state.is_terminal() ==> finalize_each(after_finalize(c, now), nows)
            == after_finalize(c, now),
    decreases nows.len(),
{
    if nows.len() > 0 {
        lemma_finalize_idempotent(c, now, nows.drop_first());
        let once = after_finalize(c, now);
        if once.state.is_terminal() {
            assert(after_finalize(once, nows[0]) == once);
        }
    }
}

/// A claim for a donation that sits at a leaf of the reward tree the campaign
/// committed to is accepted with that leaf's inclusion proof.
pub proof fn lemma_reward_claim_round_trip(
    c: Crowdfund,
    record: DonationRecord,
    t: RewardTree,
    path: Seq<bool>,
)
    requires
        path_valid(t, path),
        leaf_at(t, path) == (record.donor, record.amount),
        record.campaign == c.escrow_account,
        c.state is Success,
        c.root_is_set(),
        c.merkle_root@ == tree_root(t),
    ensures
        claim_outcome(
            c,
            record,
            record.donor,
            fold_proof(leaf_of(record.donor@, record.amount), proof_for(t, path)),
        ) == Ok::<(), ErrorCode>(()),
{
    lemma_proof_round_trip(t, path);
}

/// Once a non-zero reward root has been stored, storing another one fails
/// with `RewardRootAlreadySet`.
pub proof fn lemma_reward_root_set_once(c: Crowdfund, caller: [u8; 32], root: [u8; 32])
    requires
        set_root_error(c, caller) is None,
        !all_zero(root@),
    ensures
        set_root_error(Crowdfund { merkle_root: root, ..c }, caller) == Some(
            ErrorCode::RewardRootAlreadySet,
        ),
{
}

/// On a successful campaign with a reward root, a claim by the entry's donor
/// is accepted exactly when its proof leads to the stored root: a proof or a
/// root that leads elsewhere is refused with `InvalidMerkleProof`.
pub proof fn lemma_reward_claim_needs_stored_root(
    c: Crowdfund,
    record: DonationRecord,
    computed_root: Seq<u8>,
)
    requires
        c.state is Success,
        c.root_is_set(),
        record.campaign == c.escrow_account,
    ensures
        computed_root == c.merkle_root@ ==> claim_outcome(c, record, record.donor, computed_root)
            == Ok::<(), ErrorCode>(()),
        computed_root != c.merkle_root@ ==> claim_outcome(c, record, record.donor, computed_root)
            == Err::<(), ErrorCode>(ErrorCode::InvalidMerkleProof),
{
}

} // verus!
