//! Campaign and ledger-entry records, and the values the operations hand back.

use vstd::prelude::*;

verus! {

/// Longest campaign name, in bytes of its UTF-8 encoding.
pub const MAX_NAME_LEN: usize = 50;

/// The length of a name in bytes of its UTF-8 encoding.
pub open spec fn name_len(name: Seq<char>) -> nat {
    vstd::utf8::encode_utf8(name).len()
}

/// The length of a name in bytes of its UTF-8 encoding.
pub fn name_byte_len(name: &String) -> (r: usize)
    ensures
        r == name_len(name@),
{
    name.as_str().as_bytes().len()
}

/// Lifecycle of a campaign: it starts `Active` and ends in exactly one of the
/// two terminal states.
#[derive(Clone, Copy, Debug, PartialEq, Eq, Structural)]
pub enum CampaignState {
    Active,
    Success,
    Fail,
}

impl CampaignState {
    /// The state stored under the code `value`, if it is one.
    pub open spec fn spec_from_u8(value: u8) -> Option<CampaignState> {
        if value == 0 {
            Some(CampaignState::Active)
        } else if value == 1 {
            Some(CampaignState::Success)
        } else if value == 2 {
            Some(CampaignState::Fail)
        } else {
            None
        }
    }

    /// The code under which a state is stored.
    pub open spec fn spec_to_u8(self) -> u8 {
        match self {
            CampaignState::Active => 0,
            CampaignState::Success => 1,
            CampaignState::Fail => 2,
        }
    }

    pub open spec fn is_terminal(self) -> bool {
        !(self is Active)
    }

    /// Decodes a stored state code.
    pub fn from_u8(value: u8) -> (r: Option<CampaignState>)
        ensures
            r == CampaignState::spec_from_u8(value),
    {
        match value {
            0 => Some(CampaignState::Active),
            1 => Some(CampaignState::Success),
            2 => Some(CampaignState::Fail),
            _ => None,
        }
    }

    /// Encodes a state as its stored code.
    pub fn to_u8(&self) -> (r: u8)
        ensures
            r == self.spec_to_u8(),
    {
        match self {
            CampaignState::Active => 0,
            CampaignState::Success => 1,
            CampaignState::Fail => 2,
        }
    }
}

/// Compares two 32-byte identities.
pub fn keys_equal(a: &[u8; 32], b: &[u8; 32]) -> (r: bool)
    ensures
        r == (*a == *b),
        r == (a@ == b@),
{
    let mut i: usize = 0;
    while i < 32
        invariant
            0 <= i <= 32,
            forall|j: int| 0 <= j < i ==> a@[j] == b@[j],
        decreases 32 - i,
    {
        if a[i] != b[i] {
            return false;
        }
        i = i + 1;
    }
    assert(*a =~= *b);
    assert(a@ =~= b@);
    true
}

/// True when every byte of `s` is zero.
pub open spec fn all_zero(s: Seq<u8>) -> bool {
    forall|i: int| 0 <= i < s.len() ==> s[i] == 0
}

/// The aggregate record of one campaign.
#[derive(Clone, Debug, PartialEq, Eq)]
pub struct Crowdfund {
    pub owner: [u8; 32],
    pub escrow_account: [u8; 32],
    pub name: String,
    pub start_time: i64,
    pub end_time: i64,
    pub target_amount: u64,
    pub raised_amount: u64,
    pub state: CampaignState,
    pub is_withdrawals: bool,
    pub merkle_root: [u8; 32],
}

impl Crowdfund {
    /// The reward root counts as set once it holds a non-zero byte.
    pub open spec fn root_is_set(&self) -> bool {
        !all_zero(self.merkle_root@)
    }

    /// The invariant of every campaign record.
    pub open spec fn wf(&self) -> bool {
        &&& self.start_time < self.end_time
        &&& self.target_amount > 0
        &&& name_len(self.name@) <= MAX_NAME_LEN
        &&& (self.state is Success) <==> self.raised_amount >= self.target_amount
        &&& self.is_withdrawals ==> self.state is Success
        &&& self.root_is_set() ==> self.state is Success
    }

    /// Whether a record read back from storage meets the invariant.
    pub fn well_formed(&self) -> (r: bool)
        ensures
            r == self.wf(),
    {
        let root_set = self.has_merkle_root();
        let success = match self.state {
            CampaignState::Success => true,
            _ => false,
        };
        self.start_time < self.end_time && self.target_amount > 0 && name_byte_len(&self.name)
            <= MAX_NAME_LEN && success == (self.raised_amount >= self.target_amount) && (
        !self.is_withdrawals || success) && (!root_set || success)
    }

    pub fn get_state(&self) -> (r: CampaignState)
        ensures
            r == self.state,
    {
        self.state
    }

    /// Whether a reward root has been stored.
    pub fn has_merkle_root(&self) -> (r: bool)
        ensures
            r == self.root_is_set(),
    {
        let mut i: usize = 0;
        while i < 32
            invariant
                0 <= i <= 32,
                forall|j: int| 0 <= j < i ==> self.merkle_root@[j] == 0,
            decreases 32 - i,
        {
            if self.merkle_root[i] != 0 {
                return true;
            }
            i = i + 1;
        }
        false
    }
}

/// One donor's pledge to one campaign.
#[derive(Clone, Copy, Debug, PartialEq, Eq)]
pub struct DonationRecord {
    /// The custody record of the campaign the pledge went to.
    pub campaign: [u8; 32],
    pub donor: [u8; 32],
    pub amount: u64,
    pub is_refunded: bool,
}

/// A movement of `amount` from one custody record to another, which the host
/// carries out between the check of an operation and its commit.
#[derive(Clone, Copy, Debug, PartialEq, Eq)]
pub struct Transfer {
    pub from: [u8; 32],
    pub to: [u8; 32],
    pub amount: u64,
}

/// Notice that a donation was committed.
#[derive(Clone, Copy, Debug, PartialEq, Eq)]
pub struct DonationMade {
    pub donor: [u8; 32],
    pub amount: u64,
}

/// Notice that the raised total went to the owner.
#[derive(Clone, Copy, Debug, PartialEq, Eq)]
pub struct WithdrawMade {
    pub withdrawer: [u8; 32],
    pub amount: u64,
}

/// Notice that a pledge went back to its donor.
#[derive(Clone, Copy, Debug, PartialEq, Eq)]
pub struct RefundMade {
    pub refunder: [u8; 32],
    pub payee: [u8; 32],
    pub amount: u64,
}

} // verus!
