use vstd::prelude::*;
use crate::bytes::append_bytes;

verus! {

/// The base-128 varint encoding of `n`: seven value bits per byte, least
/// significant group first, the high bit marking continuation.
pub open spec fn varint(n: nat) -> Seq<u8>
    decreases n,
{
    if n < 128 {
        seq![n as u8]
    } else {
        seq![(128 + (n % 128)) as u8] + varint(n / 128)
    }
}

/// The key that opens a field in a message: field number and wire type
/// packed into one varint.
pub open spec fn field_key(field: nat, wire: nat) -> Seq<u8> {
    varint(field * 8 + wire)
}

/// The length-delimited encoding of a byte string: its length as a varint,
/// then the bytes.
pub open spec fn len_prefixed(b: Seq<u8>) -> Seq<u8> {
    varint(b.len()) + b
}

/// Appends the varint encoding of `n`.
pub fn encode_varint(dst: &mut Vec<u8>, n: u64)
    ensures
        final(dst)@ == old(dst)@ + varint(n as nat),
    decreases n,
{
    if n < 128 {
        dst.push(n as u8);
        proof {
            assert(old(dst)@ + varint(n as nat) =~= old(dst)@.push(n as u8));
        }
    } else {
        let b: u8 = 128 + (n % 128) as u8;
        dst.push(b);
        encode_varint(dst, n / 128);
        proof {
            assert((n / 128) as nat == (n as nat) / 128);
            assert(b == (128 + (n as nat) % 128) as u8);
            assert(dst@ =~= old(dst)@ + varint(n as nat));
        }
    }
}

/// Appends the length-delimited encoding of `src`.
pub fn encode_len_prefixed(dst: &mut Vec<u8>, src: &Vec<u8>)
    ensures
        final(dst)@ == old(dst)@ + len_prefixed(src@),
{
    encode_varint(dst, src.len() as u64);
    append_bytes(dst, src);
    proof {
        assert(dst@ =~= old(dst)@ + len_prefixed(src@));
    }
}

} // verus!
