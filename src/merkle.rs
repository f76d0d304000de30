//! Reward leaves, the canonical pair hash and inclusion-proof folding.

use vstd::prelude::*;

verus! {

/// SHA-256 digest of a byte string.
pub uninterp spec fn sha256_of(data: Seq<u8>) -> Seq<u8>;

/// Relies on solana_program::hash::hash (reached through anchor_lang): the
/// SHA-256 digest of `data`, which depends on the bytes alone.
#[verifier::external_body]
fn sha256(data: &[u8]) -> (r: [u8; 32])
    ensures
        r@ == sha256_of(data@),
{
    anchor_lang::solana_program::hash::hash(data).to_bytes()
}

/// `n` bytes of `x`, least significant first.
pub open spec fn le_bytes(x: nat, n: nat) -> Seq<u8>
    decreases n,
{
    if n == 0 {
        Seq::empty()
    } else {
        seq![(x % 256) as u8] + le_bytes(x / 256, (n - 1) as nat)
    }
}

proof fn lemma_le_bytes_len(x: nat, n: nat)
    ensures
        le_bytes(x, n).len() == n,
    decreases n,
{
    if n > 0 {
        lemma_le_bytes_len(x / 256, (n - 1) as nat);
    }
}

/// The bytes a reward leaf is hashed from: the donor's identity followed by
/// the amount as eight little-endian bytes.
pub open spec fn leaf_bytes(donor: Seq<u8>, amount: u64) -> Seq<u8> {
    donor + le_bytes(amount as nat, 8)
}

/// The reward leaf of a donor and an amount.
pub open spec fn leaf_of(donor: Seq<u8>, amount: u64) -> Seq<u8> {
    sha256_of(leaf_bytes(donor, amount))
}

/// Byte-lexicographic `a <= b`, looking from position `i` on.
pub open spec fn lex_le_from(a: Seq<u8>, b: Seq<u8>, i: nat) -> bool
    decreases a.len() - i,
{
    if i >= a.len() {
        true
    } else if i >= b.len() {
        false
    } else if a[i as int] < b[i as int] {
        true
    } else if a[i as int] > b[i as int] {
        false
    } else {
        lex_le_from(a, b, i + 1)
    }
}

/// Byte-lexicographic `a <= b`.
pub open spec fn lex_le(a: Seq<u8>, b: Seq<u8>) -> bool {
    lex_le_from(a, b, 0)
}

/// The parent of two nodes: the smaller one (byte-lexicographically) first.
pub open spec fn hash_pair(a: Seq<u8>, b: Seq<u8>) -> Seq<u8> {
    if lex_le(a, b) {
        sha256_of(a + b)
    } else {
        sha256_of(b + a)
    }
}

/// The root reached from `leaf` by folding in the siblings of `proof`, the
/// first sibling being the leaf's own.
pub open spec fn fold_proof(leaf: Seq<u8>, proof: Seq<Seq<u8>>) -> Seq<u8>
    decreases proof.len(),
{
    if proof.len() == 0 {
        leaf
    } else {
        hash_pair(fold_proof(leaf, proof.drop_last()), proof.last())
    }
}

/// The siblings of a proof, as byte strings.
pub open spec fn proof_view(proof: Seq<[u8; 32]>) -> Seq<Seq<u8>> {
    proof.map_values(|s: [u8; 32]| s@)
}

/// Whether `a` comes no later than `b` in byte-lexicographic order.
pub fn bytes_le(a: &[u8; 32], b: &[u8; 32]) -> (r: bool)
    ensures
        r == lex_le(a@, b@),
{
    let mut i: usize = 0;
    while i < 32
        invariant
            0 <= i <= 32,
            a@.len() == 32,
            b@.len() == 32,
            lex_le(a@, b@) == lex_le_from(a@, b@, i as nat),
        decreases 32 - i,
    {
        if a[i] < b[i] {
            return true;
        }
        if a[i] > b[i] {
            return false;
        }
        i = i + 1;
    }
    true
}

/// The eight little-endian bytes of `x`.
pub fn amount_le_bytes(x: u64) -> (r: Vec<u8>)
    ensures
        r@ == le_bytes(x as nat, 8),
{
    let mut out: Vec<u8> = Vec::new();
    let mut rest: u64 = x;
    let mut i: usize = 0;
    while i < 8
        invariant
            0 <= i <= 8,
            out@ + le_bytes(rest as nat, (8 - i) as nat) == le_bytes(x as nat, 8),
        decreases 8 - i,
    {
        let ghost before = out@;
        out.push((rest % 256) as u8);
        assert(le_bytes(rest as nat, (8 - i) as nat) == seq![(rest % 256) as u8] + le_bytes(
            (rest / 256) as nat,
            (8 - i - 1) as nat,
        ));
        assert(before + le_bytes(rest as nat, (8 - i) as nat) =~= out@ + le_bytes(
            (rest / 256) as nat,
            (8 - i - 1) as nat,
        ));
        rest = rest / 256;
        i = i + 1;
    }
    assert(le_bytes(rest as nat, 0) =~= Seq::<u8>::empty());
    assert(out@ =~= out@ + Seq::<u8>::empty());
    out
}

fn append_key(out: &mut Vec<u8>, k: &[u8; 32])
    ensures
        final(out)@ == old(out)@ + k@,
{
    let mut i: usize = 0;
    while i < 32
        invariant
            0 <= i <= 32,
            k@.len() == 32,
            out@ == old(out)@ + k@.subrange(0, i as int),
        decreases 32 - i,
    {
        out.push(k[i]);
        assert(k@.subrange(0, i + 1) =~= k@.subrange(0, i as int).push(k@[i as int]));
        i = i + 1;
    }
    assert(k@.subrange(0, 32) =~= k@);
}

/// The reward leaf of a donor and an amount.
pub fn leaf_hash(donor: &[u8; 32], amount: u64) -> (r: [u8; 32])
    ensures
        r@ == leaf_of(donor@, amount),
{
    let mut bytes: Vec<u8> = Vec::new();
    append_key(&mut bytes, donor);
    let tail = amount_le_bytes(amount);
    proof {
        lemma_le_bytes_len(amount as nat, 8);
    }
    let mut i: usize = 0;
    while i < 8
        invariant
            0 <= i <= 8,
            tail@.len() == 8,
            tail@ == le_bytes(amount as nat, 8),
            bytes@ == donor@ + tail@.subrange(0, i as int),
        decreases 8 - i,
    {
        bytes.push(tail[i]);
        assert(tail@.subrange(0, i + 1) =~= tail@.subrange(0, i as int).push(tail@[i as int]));
        i = i + 1;
    }
    assert(tail@.subrange(0, 8) =~= tail@);
    sha256(bytes.as_slice())
}

/// The parent of two nodes, hashed with the smaller one first.
pub fn combine(a: &[u8; 32], b: &[u8; 32]) -> (r: [u8; 32])
    ensures
        r@ == hash_pair(a@, b@),
{
    let mut bytes: Vec<u8> = Vec::new();
    if bytes_le(a, b) {
        append_key(&mut bytes, a);
        append_key(&mut bytes, b);
    } else {
        append_key(&mut bytes, b);
        append_key(&mut bytes, a);
    }
    assert(bytes@ =~= Seq::<u8>::empty() + (if lex_le(a@, b@) { a@ + b@ } else { b@ + a@ }));
    sha256(bytes.as_slice())
}

/// The root that `proof` leads to from `leaf`.
pub fn compute_root(leaf: &[u8; 32], proof: &Vec<[u8; 32]>) -> (r: [u8; 32])
    ensures
        r@ == fold_proof(leaf@, proof_view(proof@)),
{
    let mut acc: [u8; 32] = *leaf;
    let mut i: usize = 0;
    while i < proof.len()
        invariant
            0 <= i <= proof@.len(),
            acc@ == fold_proof(leaf@, proof_view(proof@).take(i as int)),
        decreases proof@.len() - i,
    {
        let sibling = proof[i];
        let ghost p = proof_view(proof@);
        assert(p.take(i + 1).drop_last() =~= p.take(i as int));
        acc = combine(&acc, &sibling);
        i = i + 1;
    }
    assert(proof_view(proof@).take(proof@.len() as int) =~= proof_view(proof@));
    acc
}


proof fn lemma_lex_order(a: Seq<u8>, b: Seq<u8>, i: nat)
    requires
        i <= a.len(),
        i <= b.len(),
    ensures
        lex_le_from(a, b, i) || lex_le_from(b, a, i),
        lex_le_from(a, b, i) && lex_le_from(b, a, i) ==> a.len() == b.len() && forall|j: int|
            i <= j < a.len() ==> a[j] == b[j],
    decreases a.len() - i,
{
    if i < a.len() && i < b.len() && a[i as int] == b[i as int] {
        lemma_lex_order(a, b, i + 1);
        if lex_le_from(a, b, i) && lex_le_from(b, a, i) {
            assert forall|j: int| i <= j < a.len() implies a[j] == b[j] by {
                if j > i {
                }
            }
        }
    }
}

/// The parent of two nodes does not depend on the order they are given in.
pub proof fn lemma_hash_pair_symmetric(a: Seq<u8>, b: Seq<u8>)
    ensures
        hash_pair(a, b) == hash_pair(b, a),
{
    lemma_lex_order(a, b, 0);
    if lex_le(a, b) && lex_le(b, a) {
        assert(a =~= b);
    }
}

/// A reward tree over (donor, amount) leaves.
pub enum RewardTree {
    Leaf { donor: [u8; 32], amount: u64 },
    Node { left: Box<RewardTree>, right: Box<RewardTree> },
}

/// The root that commits to a reward tree.
pub open spec fn tree_root(t: RewardTree) -> Seq<u8>
    decreases t,
{
    match t {
        RewardTree::Leaf { donor, amount } => leaf_of(donor@, amount),
        RewardTree::Node { left, right } => hash_pair(tree_root(*left), tree_root(*right)),
    }
}

/// `path` leads from the root of `t` to a leaf; `false` goes left, `true` right.
pub open spec fn path_valid(t: RewardTree, path: Seq<bool>) -> bool
    decreases t,
{
    match t {
        RewardTree::Leaf { .. } => path.len() == 0,
        RewardTree::Node { left, right } => path.len() > 0 && if path[0] {
            path_valid(*right, path.drop_first())
        } else {
            path_valid(*left, path.drop_first())
        },
    }
}

/// The leaf that `path` leads to.
pub open spec fn leaf_at(t: RewardTree, path: Seq<bool>) -> ([u8; 32], u64)
    decreases t,
{
    match t {
        RewardTree::Leaf { donor, amount } => (donor, amount),
        RewardTree::Node { left, right } => if path.len() > 0 && path[0] {
            leaf_at(*right, path.drop_first())
        } else {
            leaf_at(*left, path.drop_first())
        },
    }
}

/// The inclusion proof of the leaf that `path` leads to: its siblings from the
/// leaf up to the root.
pub open spec fn proof_for(t: RewardTree, path: Seq<bool>) -> Seq<Seq<u8>>
    decreases t,
{
    match t {
        RewardTree::Leaf { .. } => Seq::empty(),
        RewardTree::Node { left, right } => if path.len() > 0 && path[0] {
            proof_for(*right, path.drop_first()).push(tree_root(*left))
        } else {
            proof_for(*left, path.drop_first()).push(tree_root(*right))
        },
    }
}

/// Folding the inclusion proof of any leaf of a reward tree into that leaf
/// gives the tree's root.
pub proof fn lemma_proof_round_trip(t: RewardTree, path: Seq<bool>)
    requires
        path_valid(t, path),
    ensures
        fold_proof(leaf_of(leaf_at(t, path).0@, leaf_at(t, path).1), proof_for(t, path))
            == tree_root(t),
    decreases t,
{
    match t {
        RewardTree::Leaf { .. } => {},
        RewardTree::Node { left, right } => {
            let rest = path.drop_first();
            let leaf = leaf_of(leaf_at(t, path).0@, leaf_at(t, path).1);
            if path[0] {
                lemma_proof_round_trip(*right, rest);
                let p = proof_for(*right, rest).push(tree_root(*left));
                assert(p.drop_last() =~= proof_for(*right, rest));
                lemma_hash_pair_symmetric(tree_root(*right), tree_root(*left));
            } else {
                lemma_proof_round_trip(*left, rest);
                let p = proof_for(*left, rest).push(tree_root(*right));
                assert(p.drop_last() =~= proof_for(*left, rest));
            }
        },
    }
}

} // verus!
