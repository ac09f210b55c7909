use vstd::prelude::*;
use sha2::Digest;
use crate::bytes::append_bytes;

verus! {

/// The SHA-256 digest of a byte sequence. The algorithm itself lives in an
/// outside crate; this crate only relies on the digest being a function of
/// the input bytes, 32 bytes long.
pub uninterp spec fn sha256_of(bytes: Seq<u8>) -> Seq<u8>;

/// Relies on sha2::Sha256 through digest::Digest::digest: the SHA-256
/// digest of the input, 32 bytes, depending on the input bytes alone.
#[verifier::external_body]
fn sha256(input: &Vec<u8>) -> (r: Vec<u8>)
    ensures
        r@ == sha256_of(input@),
        r@.len() == 32,
{
    sha2::Sha256::digest(input.as_slice()).to_vec()
}

/// The index at which a Merkle tree over `n` items splits: the largest
/// power of two strictly below `n`, for `n` of at least two.
pub open spec fn split_point(n: int) -> int
    decreases n,
{
    if n <= 2 {
        1
    } else {
        2 * split_point((n + 1) / 2)
    }
}

/// For `n` of at least two the split point is a proper, positive cut.
pub proof fn lemma_split_point_bounds(n: int)
    requires
        n >= 2,
    ensures
        1 <= split_point(n) < n,
    decreases n,
{
    if n > 2 {
        lemma_split_point_bounds((n + 1) / 2);
    }
}

/// The root of the Merkle tree over the item sequence: leaves are hashed
/// behind a zero byte, inner nodes behind a one byte, and the tree splits
/// at the largest power of two below the item count.
pub open spec fn merkle_root_spec(items: Seq<Seq<u8>>) -> Seq<u8>
    decreases items.len(),
    via merkle_root_spec_decreases
{
    if items.len() == 0 {
        sha256_of(Seq::empty())
    } else if items.len() == 1 {
        sha256_of(seq![0u8] + items[0])
    } else {
        let k = split_point(items.len() as int);
        sha256_of(
            seq![1u8] + merkle_root_spec(items.subrange(0, k)) + merkle_root_spec(
                items.subrange(k, items.len() as int),
            ),
        )
    }
}

#[via_fn]
proof fn merkle_root_spec_decreases(items: Seq<Seq<u8>>) {
    if items.len() >= 2 {
        lemma_split_point_bounds(items.len() as int);
    }
}

fn split_point_exec(n: usize) -> (k: usize)
    requires
        2 <= n,
    ensures
        k as int == split_point(n as int),
        1 <= k < n,
    decreases n,
{
    proof {
        lemma_split_point_bounds(n as int);
    }
    if n <= 2 {
        1
    } else {
        let m = n / 2 + n % 2;
        proof {
            assert(m as int == (n as int + 1) / 2);
            lemma_split_point_bounds(m as int);
        }
        2 * split_point_exec(m)
    }
}

fn merkle_root_range(items: &Vec<Vec<u8>>, lo: usize, hi: usize) -> (r: Vec<u8>)
    requires
        lo <= hi,
        hi <= items@.len(),
    ensures
        r@ == merkle_root_spec(items.deep_view().subrange(lo as int, hi as int)),
        r@.len() == 32,
    decreases hi - lo,
{
    let ghost sub = items.deep_view().subrange(lo as int, hi as int);
    let n = hi - lo;
    if n == 0 {
        let empty: Vec<u8> = Vec::new();
        let r = sha256(&empty);
        proof {
            assert(sub =~= Seq::<Seq<u8>>::empty());
            assert(empty@ =~= Seq::<u8>::empty());
        }
        r
    } else if n == 1 {
        let mut buf: Vec<u8> = Vec::new();
        buf.push(0u8);
        append_bytes(&mut buf, &items[lo]);
        let r = sha256(&buf);
        proof {
            assert(items.deep_view()[lo as int] =~= items@[lo as int]@);
            assert(buf@ =~= seq![0u8] + sub[0]);
        }
        r
    } else {
        let k = split_point_exec(n);
        let left = merkle_root_range(items, lo, lo + k);
        let right = merkle_root_range(items, lo + k, hi);
        let mut buf: Vec<u8> = Vec::new();
        buf.push(1u8);
        append_bytes(&mut buf, &left);
        append_bytes(&mut buf, &right);
        let r = sha256(&buf);
        proof {
            assert(sub.subrange(0, k as int) =~= items.deep_view().subrange(
                lo as int,
                lo as int + k as int,
            ));
            assert(sub.subrange(k as int, sub.len() as int) =~= items.deep_view().subrange(
                lo as int + k as int,
                hi as int,
            ));
            assert(buf@ =~= seq![1u8] + left@ + right@);
        }
        r
    }
}

/// The Merkle/SHA-256 root over the given byte vectors.
pub fn merkle_root(items: &Vec<Vec<u8>>) -> (r: Vec<u8>)
    ensures
        r@ == merkle_root_spec(items.deep_view()),
        r@.len() == 32,
{
    let r = merkle_root_range(items, 0, items.len());
    proof {
        assert(items.deep_view().subrange(0, items.deep_view().len() as int)
            =~= items.deep_view());
    }
    r
}

} // verus!
