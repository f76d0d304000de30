use crowd_fund::campaign::{
    check_donation, check_refund, check_withdrawal, proccess_crowdfund, proccess_donation_record,
    proccess_finalize, proccess_merkle_root, proccess_refund, process_donation_withdrawal,
};
use crowd_fund::error::ErrorCode;
use crowd_fund::state::{CampaignState, Crowdfund, DonationMade, DonationRecord, Transfer};

const OWNER: [u8; 32] = [1u8; 32];
const ESCROW: [u8; 32] = [2u8; 32];
const DONOR: [u8; 32] = [3u8; 32];
const OTHER: [u8; 32] = [4u8; 32];

fn new_campaign(target: u64) -> Crowdfund {
    proccess_crowdfund(OWNER, ESCROW, String::from("garden"), target, 100, 200).unwrap()
}

fn donate(c: &mut Crowdfund, donor: [u8; 32], amount: u64, now: i64) -> DonationRecord {
    let (record, t, notice) = proccess_donation_record(c, donor, false, amount, now).unwrap();
    assert_eq!(t, Transfer { from: donor, to: ESCROW, amount });
    assert_eq!(notice, DonationMade { donor, amount });
    record
}

#[test]
fn create_sets_initial_record() {
    let c = new_campaign(100);
    assert_eq!(c.owner, OWNER);
    assert_eq!(c.escrow_account, ESCROW);
    assert_eq!(c.name, "garden");
    assert_eq!(c.start_time, 100);
    assert_eq!(c.end_time, 200);
    assert_eq!(c.target_amount, 100);
    assert_eq!(c.raised_amount, 0);
    assert_eq!(c.state, CampaignState::Active);
    assert!(!c.is_withdrawals);
    assert_eq!(c.merkle_root, [0u8; 32]);
    assert!(!c.has_merkle_root());
}

#[test]
fn create_rejects_zero_target() {
    let r = proccess_crowdfund(OWNER, ESCROW, String::from("x"), 0, 100, 200);
    assert_eq!(r, Err(ErrorCode::InvalidTargetAmount));
}

#[test]
fn create_rejects_start_not_before_end() {
    let r = proccess_crowdfund(OWNER, ESCROW, String::from("x"), 100, 200, 200);
    assert_eq!(r, Err(ErrorCode::InvalidTimeRange));
    let r = proccess_crowdfund(OWNER, ESCROW, String::from("x"), 100, 300, 200);
    assert_eq!(r, Err(ErrorCode::InvalidTimeRange));
}

#[test]
fn create_name_length_bound() {
    let fifty = "n".repeat(50);
    assert!(proccess_crowdfund(OWNER, ESCROW, fifty, 1, 0, 1).is_ok());
    let fifty_one = "n".repeat(51);
    let r = proccess_crowdfund(OWNER, ESCROW, fifty_one, 1, 0, 1);
    assert_eq!(r, Err(ErrorCode::NameTooLong));
}

#[test]
fn state_codes_round_trip() {
    for s in [CampaignState::Active, CampaignState::Success, CampaignState::Fail] {
        assert_eq!(CampaignState::from_u8(s.to_u8()), Some(s));
    }
    assert_eq!(CampaignState::from_u8(1), Some(CampaignState::Success));
    assert_eq!(CampaignState::from_u8(3), None);
}

#[test]
fn donation_adds_amount_exactly() {
    let mut c = new_campaign(100);
    let record = donate(&mut c, DONOR, 30, 150);
    assert_eq!(c.raised_amount, 30);
    assert_eq!(c.state, CampaignState::Active);
    assert_eq!(
        record,
        DonationRecord { campaign: ESCROW, donor: DONOR, amount: 30, is_refunded: false }
    );
    donate(&mut c, OTHER, 45, 160);
    assert_eq!(c.raised_amount, 75);
}

#[test]
fn donation_zero_amount_rejected() {
    let mut c = new_campaign(100);
    let before = c.clone();
    assert_eq!(check_donation(&c, DONOR, false, 0, 150), Err(ErrorCode::InvalidDonationAmount));
    assert_eq!(
        proccess_donation_record(&mut c, DONOR, false, 0, 150),
        Err(ErrorCode::InvalidDonationAmount)
    );
    assert_eq!(c, before);
}

#[test]
fn rejected_donations_leave_campaign_unchanged() {
    let mut c = new_campaign(100);
    donate(&mut c, OTHER, 10, 150);
    let before = c.clone();
    let cases = [
        (false, 5, 99, ErrorCode::NotStarted),
        (false, 5, 201, ErrorCode::CampaignExpired),
        (true, 5, 150, ErrorCode::AlreadyDonated),
        (false, u64::MAX, 150, ErrorCode::Overflow),
    ];
    for (already, amount, now, err) in cases {
        assert_eq!(proccess_donation_record(&mut c, DONOR, already, amount, now), Err(err));
        assert_eq!(c, before);
    }
    donate(&mut c, DONOR, 90, 150);
    assert_eq!(c.state, CampaignState::Success);
    let done = c.clone();
    let third = [5u8; 32];
    assert_eq!(
        proccess_donation_record(&mut c, third, false, 1, 150),
        Err(ErrorCode::CampaignExpired)
    );
    assert_eq!(c, done);
}

#[test]
fn refused_withdrawals_leave_campaign_unchanged() {
    let mut c = new_campaign(100);
    donate(&mut c, DONOR, 40, 150);
    let before = c.clone();
    assert_eq!(process_donation_withdrawal(&mut c, OWNER, 150), Err(ErrorCode::WithdrawalNotAllowed));
    assert_eq!(process_donation_withdrawal(&mut c, OWNER, 50), Err(ErrorCode::NotStarted));
    assert_eq!(process_donation_withdrawal(&mut c, OTHER, 150), Err(ErrorCode::Unauthorized));
    assert_eq!(c, before);
}

#[test]
fn refused_refunds_leave_entry_unchanged() {
    let mut c = new_campaign(100);
    let record = donate(&mut c, DONOR, 10, 150);
    let mut entry = record;
    assert_eq!(proccess_refund(&c, &mut entry, DONOR), Err(ErrorCode::RefundNotAllowed));
    proccess_finalize(&mut c, 300);
    assert_eq!(proccess_refund(&c, &mut entry, OTHER), Err(ErrorCode::Unauthorized));
    let mut foreign = record;
    foreign.campaign = OTHER;
    let foreign_before = foreign;
    assert_eq!(proccess_refund(&c, &mut foreign, DONOR), Err(ErrorCode::CampaignMismatch));
    assert_eq!(foreign, foreign_before);
    assert_eq!(entry, record);
}

#[test]
fn donation_outside_window_rejected() {
    let c = new_campaign(100);
    assert_eq!(check_donation(&c, DONOR, false, 5, 99), Err(ErrorCode::NotStarted));
    assert_eq!(check_donation(&c, DONOR, false, 5, 201), Err(ErrorCode::CampaignExpired));
    assert!(check_donation(&c, DONOR, false, 5, 100).is_ok());
    assert!(check_donation(&c, DONOR, false, 5, 200).is_ok());
}

#[test]
fn donation_once_per_donor() {
    let c = new_campaign(100);
    assert_eq!(check_donation(&c, DONOR, true, 5, 150), Err(ErrorCode::AlreadyDonated));
}

#[test]
fn donation_overflow_rejected() {
    let mut c = proccess_crowdfund(OWNER, ESCROW, String::from("big"), u64::MAX, 0, 10).unwrap();
    donate(&mut c, DONOR, u64::MAX - 1, 5);
    assert_eq!(check_donation(&c, OTHER, false, 2, 5), Err(ErrorCode::Overflow));
    assert_eq!(c.raised_amount, u64::MAX - 1);
    donate(&mut c, OTHER, 1, 5);
    assert_eq!(c.raised_amount, u64::MAX);
    assert_eq!(c.state, CampaignState::Success);
}

#[test]
fn terminal_campaign_rejects_donations() {
    let mut c = new_campaign(100);
    donate(&mut c, DONOR, 100, 150);
    assert_eq!(check_donation(&c, OTHER, false, 1, 150), Err(ErrorCode::CampaignExpired));
    let mut f = new_campaign(100);
    proccess_finalize(&mut f, 201);
    assert_eq!(f.state, CampaignState::Fail);
    assert_eq!(check_donation(&f, OTHER, false, 1, 150), Err(ErrorCode::CampaignExpired));
}

#[test]
fn full_target_succeeds_and_owner_withdraws() {
    let mut c = new_campaign(100);
    let record = donate(&mut c, DONOR, 100, 150);
    assert_eq!(c.state, CampaignState::Success);
    let (t, notice) = process_donation_withdrawal(&mut c, OWNER, 150).unwrap();
    assert_eq!(t, Transfer { from: ESCROW, to: OWNER, amount: 100 });
    assert_eq!(notice.withdrawer, OWNER);
    assert_eq!(notice.amount, 100);
    assert!(c.is_withdrawals);
    let mut entry = record;
    assert_eq!(proccess_refund(&c, &mut entry, DONOR), Err(ErrorCode::RefundNotAllowed));
    assert_eq!(entry, record);
    assert!(!entry.is_refunded);
}

#[test]
fn short_campaign_fails_and_refunds_once() {
    let mut c = new_campaign(100);
    let mut record = donate(&mut c, DONOR, 40, 150);
    proccess_finalize(&mut c, 201);
    assert_eq!(c.state, CampaignState::Fail);
    let (t, notice) = proccess_refund(&c, &mut record, DONOR).unwrap();
    assert_eq!(t, Transfer { from: ESCROW, to: DONOR, amount: 40 });
    assert_eq!(notice.refunder, OWNER);
    assert_eq!(notice.payee, DONOR);
    assert_eq!(notice.amount, 40);
    assert!(record.is_refunded);
    let refunded = record;
    assert_eq!(proccess_refund(&c, &mut record, DONOR), Err(ErrorCode::AlreadyRefunded));
    assert_eq!(record, refunded);
    let before = c.clone();
    assert_eq!(process_donation_withdrawal(&mut c, OWNER, 250), Err(ErrorCode::WithdrawalNotAllowed));
    assert_eq!(c, before);
}

#[test]
fn withdraw_twice_fails() {
    let mut c = new_campaign(50);
    donate(&mut c, DONOR, 60, 120);
    assert!(process_donation_withdrawal(&mut c, OWNER, 120).is_ok());
    let once = c.clone();
    assert_eq!(process_donation_withdrawal(&mut c, OWNER, 130), Err(ErrorCode::WithdrawalNotAllowed));
    assert_eq!(c, once);
    assert_eq!(check_withdrawal(&c, OWNER, 120), Err(ErrorCode::WithdrawalNotAllowed));
}

#[test]
fn withdraw_checks() {
    let mut c = new_campaign(50);
    assert_eq!(check_withdrawal(&c, OWNER, 150), Err(ErrorCode::WithdrawalNotAllowed));
    donate(&mut c, DONOR, 50, 120);
    assert_eq!(check_withdrawal(&c, OTHER, 150), Err(ErrorCode::Unauthorized));
    assert_eq!(check_withdrawal(&c, OWNER, 50), Err(ErrorCode::NotStarted));
    let mut odd = c.clone();
    odd.raised_amount = 10;
    assert_eq!(check_withdrawal(&odd, OWNER, 150), Err(ErrorCode::NotReaching));
}

#[test]
fn refund_checks() {
    let mut c = new_campaign(100);
    let record = donate(&mut c, DONOR, 10, 150);
    assert_eq!(check_refund(&c, &record, DONOR), Err(ErrorCode::RefundNotAllowed));
    proccess_finalize(&mut c, 300);
    assert_eq!(check_refund(&c, &record, OTHER), Err(ErrorCode::Unauthorized));
    let mut foreign = record;
    foreign.campaign = OTHER;
    assert_eq!(check_refund(&c, &foreign, DONOR), Err(ErrorCode::CampaignMismatch));
}

#[test]
fn finalize_rules() {
    let mut early = new_campaign(100);
    proccess_finalize(&mut early, 150);
    assert_eq!(early.state, CampaignState::Active);
    let mut reached = new_campaign(100);
    donate(&mut reached, DONOR, 100, 150);
    proccess_finalize(&mut reached, 150);
    assert_eq!(reached.state, CampaignState::Success);
    let mut late = new_campaign(100);
    proccess_finalize(&mut late, 200);
    assert_eq!(late.state, CampaignState::Active);
    proccess_finalize(&mut late, 201);
    assert_eq!(late.state, CampaignState::Fail);
}

#[test]
fn finalize_is_idempotent() {
    let mut c = new_campaign(100);
    donate(&mut c, DONOR, 40, 150);
    proccess_finalize(&mut c, 201);
    let once = c.clone();
    for now in [201, 500, 150, 0] {
        proccess_finalize(&mut c, now);
        assert_eq!(c, once);
    }
    assert_eq!(c.state, CampaignState::Fail);
}

#[test]
fn reward_root_set_once_after_success() {
    let mut c = new_campaign(10);
    assert_eq!(proccess_merkle_root(&mut c, OWNER, [9u8; 32]), Err(ErrorCode::CampaignNotSuccessful));
    donate(&mut c, DONOR, 10, 150);
    assert_eq!(proccess_merkle_root(&mut c, OTHER, [9u8; 32]), Err(ErrorCode::Unauthorized));
    assert_eq!(proccess_merkle_root(&mut c, OWNER, [9u8; 32]), Ok(()));
    assert_eq!(c.merkle_root, [9u8; 32]);
    assert!(c.has_merkle_root());
    assert_eq!(proccess_merkle_root(&mut c, OWNER, [8u8; 32]), Err(ErrorCode::RewardRootAlreadySet));
    assert_eq!(c.merkle_root, [9u8; 32]);
}

#[test]
fn well_formed_detects_broken_records() {
    let mut c = new_campaign(100);
    assert!(c.well_formed());
    donate(&mut c, DONOR, 100, 150);
    assert!(c.well_formed());
    let mut bad = c.clone();
    bad.state = CampaignState::Active;
    assert!(!bad.well_formed());
    let mut bad = c.clone();
    bad.end_time = bad.start_time;
    assert!(!bad.well_formed());
    let mut bad = new_campaign(100);
    bad.is_withdrawals = true;
    assert!(!bad.well_formed());
    let mut bad = new_campaign(100);
    bad.merkle_root[3] = 1;
    assert!(!bad.well_formed());
    let mut bad = new_campaign(100);
    bad.name = "n".repeat(51);
    assert!(!bad.well_formed());
}

#[test]
fn withdraw_before_start_is_not_started() {
    let c = new_campaign(100);
    assert_eq!(check_withdrawal(&c, OWNER, 99), Err(ErrorCode::NotStarted));
    assert_eq!(check_withdrawal(&c, OTHER, 99), Err(ErrorCode::Unauthorized));
    let mut done = new_campaign(10);
    donate(&mut done, DONOR, 10, 150);
    process_donation_withdrawal(&mut done, OWNER, 150).unwrap();
    assert_eq!(check_withdrawal(&done, OWNER, 99), Err(ErrorCode::NotStarted));
    assert_eq!(check_withdrawal(&done, OWNER, 100), Err(ErrorCode::WithdrawalNotAllowed));
}

#[test]
fn name_bound_counts_utf8_bytes() {
    let fifty_bytes = "\u{e9}".repeat(25);
    assert_eq!(fifty_bytes.chars().count(), 25);
    assert!(proccess_crowdfund(OWNER, ESCROW, fifty_bytes, 1, 0, 1).is_ok());
    let fifty_two_bytes = "\u{e9}".repeat(26);
    let r = proccess_crowdfund(OWNER, ESCROW, fifty_two_bytes.clone(), 1, 0, 1);
    assert_eq!(r, Err(ErrorCode::NameTooLong));
    let mut bad = new_campaign(100);
    bad.name = fifty_two_bytes;
    assert!(!bad.well_formed());
}
