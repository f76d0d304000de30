use crowd_fund::campaign::{
    check_reward_claim, proccess_crowdfund, proccess_donation_record, proccess_merkle_root,
    proccess_reward_claim,
};
use crowd_fund::error::ErrorCode;
use crowd_fund::merkle::{amount_le_bytes, bytes_le, combine, compute_root, leaf_hash};
use crowd_fund::state::{Crowdfund, DonationRecord};

const OWNER: [u8; 32] = [1u8; 32];
const ESCROW: [u8; 32] = [2u8; 32];

fn hex(b: &[u8]) -> String {
    b.iter().map(|x| format!("{:02x}", x)).collect()
}

fn funded() -> (Crowdfund, Vec<DonationRecord>) {
    let mut c = proccess_crowdfund(OWNER, ESCROW, String::from("books"), 100, 0, 1000).unwrap();
    let mut records = Vec::new();
    for (i, amount) in [10u64, 20, 30, 40].iter().enumerate() {
        let donor = [10 + i as u8; 32];
        let (r, _, _) = proccess_donation_record(&mut c, donor, false, *amount, 10).unwrap();
        records.push(r);
    }
    (c, records)
}

#[test]
fn amount_bytes_little_endian() {
    assert_eq!(amount_le_bytes(0x0102030405060708), vec![8, 7, 6, 5, 4, 3, 2, 1]);
    assert_eq!(amount_le_bytes(40), vec![40, 0, 0, 0, 0, 0, 0, 0]);
}

#[test]
fn leaf_is_sha256_of_donor_and_amount() {
    let leaf = leaf_hash(&[7u8; 32], 40);
    assert_eq!(hex(&leaf), "4b2f73c1d092182798a6e769a9be24df978e48c9ff4c0400655682e5157a5039");
}

#[test]
fn combine_puts_smaller_first() {
    let a = [1u8; 32];
    let b = [2u8; 32];
    let expected = "f818afd37a6dc3bc92fb44731011277006db4efa6e9023cd7468c02335d22a4d";
    assert_eq!(hex(&combine(&a, &b)), expected);
    assert_eq!(hex(&combine(&b, &a)), expected);
}

#[test]
fn byte_order_is_lexicographic() {
    let mut a = [5u8; 32];
    let b = [5u8; 32];
    assert!(bytes_le(&a, &b));
    a[31] = 6;
    assert!(!bytes_le(&a, &b));
    assert!(bytes_le(&b, &a));
    a[0] = 4;
    assert!(bytes_le(&a, &b));
}

#[test]
fn empty_proof_gives_the_leaf() {
    let leaf = [3u8; 32];
    assert_eq!(compute_root(&leaf, &Vec::new()), leaf);
}

#[test]
fn proof_round_trip_and_tampering() {
    let (mut c, records) = funded();
    let leaves: Vec<[u8; 32]> = records.iter().map(|r| leaf_hash(&r.donor, r.amount)).collect();
    let n01 = combine(&leaves[0], &leaves[1]);
    let n23 = combine(&leaves[2], &leaves[3]);
    let root = combine(&n01, &n23);
    assert_eq!(proccess_merkle_root(&mut c, OWNER, root), Ok(()));

    let proofs = [
        vec![leaves[1], n23],
        vec![leaves[0], n23],
        vec![leaves[3], n01],
        vec![leaves[2], n01],
    ];
    for (r, proof) in records.iter().zip(proofs.iter()) {
        assert_eq!(proccess_reward_claim(&c, r, r.donor, proof), Ok(()));
    }

    for i in 0..2 {
        for byte in [0usize, 17, 31] {
            let mut bad = proofs[2].clone();
            bad[i][byte] ^= 1;
            assert_eq!(
                proccess_reward_claim(&c, &records[2], records[2].donor, &bad),
                Err(ErrorCode::InvalidMerkleProof)
            );
        }
    }
    let mut other_root = c.clone();
    other_root.merkle_root[5] ^= 0x80;
    assert_eq!(
        proccess_reward_claim(&other_root, &records[0], records[0].donor, &proofs[0]),
        Err(ErrorCode::InvalidMerkleProof)
    );
    let mut inflated = records[0];
    inflated.amount = 11;
    assert_eq!(
        proccess_reward_claim(&c, &inflated, inflated.donor, &proofs[0]),
        Err(ErrorCode::InvalidMerkleProof)
    );
}

#[test]
fn claim_preconditions() {
    let (mut c, records) = funded();
    let r = records[0];
    assert_eq!(proccess_reward_claim(&c, &r, r.donor, &vec![]), Err(ErrorCode::RewardRootNotSet));
    assert_eq!(proccess_reward_claim(&c, &r, OWNER, &vec![]), Err(ErrorCode::Unauthorized));
    let mut foreign = r;
    foreign.campaign = [9u8; 32];
    assert_eq!(
        proccess_reward_claim(&c, &foreign, r.donor, &vec![]),
        Err(ErrorCode::CampaignMismatch)
    );
    let mut pending =
        proccess_crowdfund(OWNER, ESCROW, String::from("later"), 100, 0, 1000).unwrap();
    let (early, _, _) = proccess_donation_record(&mut pending, [10u8; 32], false, 10, 10).unwrap();
    assert_eq!(
        proccess_reward_claim(&pending, &early, early.donor, &vec![]),
        Err(ErrorCode::CampaignNotSuccessful)
    );
    let leaf = leaf_hash(&r.donor, r.amount);
    assert_eq!(proccess_merkle_root(&mut c, OWNER, leaf), Ok(()));
    assert_eq!(check_reward_claim(&c, &r, r.donor, &leaf), Ok(()));
    assert_eq!(proccess_reward_claim(&c, &r, r.donor, &vec![]), Ok(()));
    assert_eq!(check_reward_claim(&c, &r, r.donor, &[0u8; 32]), Err(ErrorCode::InvalidMerkleProof));
}
