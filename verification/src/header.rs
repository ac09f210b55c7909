use vstd::prelude::*;
use crate::bytes::{append_bytes, clone_bytes};
use crate::encoding::{encode_len_prefixed, encode_varint, field_key, len_prefixed, varint};
use crate::hashing::{merkle_root, merkle_root_spec};

verus! {

/// Protocol version under which a header was produced.
#[derive(Clone, Copy, PartialEq, Eq, Debug, Structural)]
pub struct Consensus {
    pub block: u64,
    pub app: u64,
}

/// A point in time: seconds since the epoch and a nanosecond remainder.
#[derive(Clone, Copy, PartialEq, Eq, Debug, Structural)]
pub struct Timestamp {
    pub seconds: u64,
    pub nanos: u32,
}

/// Identifier of a block: its header hash and the hash and count of the
/// parts it was gossiped in.
#[derive(PartialEq, Eq, Debug)]
pub struct BlockId {
    pub hash: Vec<u8>,
    pub part_set_total: u32,
    pub part_set_hash: Vec<u8>,
}

/// The values a block identifier holds.
pub struct BlockIdView {
    pub hash: Seq<u8>,
    pub part_set_total: u32,
    pub part_set_hash: Seq<u8>,
}

impl View for BlockId {
    type V = BlockIdView;

    open spec fn view(&self) -> BlockIdView {
        BlockIdView {
            hash: self.hash@,
            part_set_total: self.part_set_total,
            part_set_hash: self.part_set_hash@,
        }
    }
}

impl Clone for BlockId {
    fn clone(&self) -> (r: Self)
        ensures
            r@ == self@,
    {
        BlockId {
            hash: clone_bytes(&self.hash),
            part_set_total: self.part_set_total,
            part_set_hash: clone_bytes(&self.part_set_hash),
        }
    }
}

/// A block header, modeled over plain values: identifiers and hashes are
/// byte vectors, the chain identifier its UTF-8 bytes.
#[derive(PartialEq, Eq, Debug)]
pub struct Header {
    pub version: Consensus,
    pub chain_id: Vec<u8>,
    pub height: u64,
    pub time: Timestamp,
    pub last_block_id: Option<BlockId>,
    pub last_commit_hash: Vec<u8>,
    pub data_hash: Vec<u8>,
    pub validators_hash: Vec<u8>,
    pub next_validators_hash: Vec<u8>,
    pub consensus_hash: Vec<u8>,
    pub app_hash: Vec<u8>,
    pub last_results_hash: Vec<u8>,
    pub evidence_hash: Vec<u8>,
    pub proposer_address: Vec<u8>,
}

/// The values a header holds.
pub struct HeaderView {
    pub version: Consensus,
    pub chain_id: Seq<u8>,
    pub height: u64,
    pub time: Timestamp,
    pub last_block_id: Option<BlockIdView>,
    pub last_commit_hash: Seq<u8>,
    pub data_hash: Seq<u8>,
    pub validators_hash: Seq<u8>,
    pub next_validators_hash: Seq<u8>,
    pub consensus_hash: Seq<u8>,
    pub app_hash: Seq<u8>,
    pub last_results_hash: Seq<u8>,
    pub evidence_hash: Seq<u8>,
    pub proposer_address: Seq<u8>,
}

pub open spec fn opt_block_id_view(b: Option<BlockId>) -> Option<BlockIdView> {
    match b {
        Some(x) => Some(x@),
        None => None,
    }
}

impl View for Header {
    type V = HeaderView;

    open spec fn view(&self) -> HeaderView {
        HeaderView {
            version: self.version,
            chain_id: self.chain_id@,
            height: self.height,
            time: self.time,
            last_block_id: opt_block_id_view(self.last_block_id),
            last_commit_hash: self.last_commit_hash@,
            data_hash: self.data_hash@,
            validators_hash: self.validators_hash@,
            next_validators_hash: self.next_validators_hash@,
            consensus_hash: self.consensus_hash@,
            app_hash: self.app_hash@,
            last_results_hash: self.last_results_hash@,
            evidence_hash: self.evidence_hash@,
            proposer_address: self.proposer_address@,
        }
    }
}

impl Clone for Header {
    fn clone(&self) -> (r: Self)
        ensures
            r@ == self@,
    {
        Header {
            version: self.version,
            chain_id: clone_bytes(&self.chain_id),
            height: self.height,
            time: self.time,
            last_block_id: match &self.last_block_id {
                Some(b) => Some(b.clone()),
                None => None,
            },
            last_commit_hash: clone_bytes(&self.last_commit_hash),
            data_hash: clone_bytes(&self.data_hash),
            validators_hash: clone_bytes(&self.validators_hash),
            next_validators_hash: clone_bytes(&self.next_validators_hash),
            consensus_hash: clone_bytes(&self.consensus_hash),
            app_hash: clone_bytes(&self.app_hash),
            last_results_hash: clone_bytes(&self.last_results_hash),
            evidence_hash: clone_bytes(&self.evidence_hash),
            proposer_address: clone_bytes(&self.proposer_address),
        }
    }
}

/// The encoding of a version message: block at field one, app at field
/// two, zeroes omitted.
pub open spec fn consensus_bytes(v: Consensus) -> Seq<u8> {
    (if v.block != 0 {
        field_key(1, 0) + varint(v.block as nat)
    } else {
        Seq::empty()
    }) + (if v.app != 0 {
        field_key(2, 0) + varint(v.app as nat)
    } else {
        Seq::empty()
    })
}

/// The encoding of a timestamp message: seconds at field one, nanoseconds
/// at field two, zeroes omitted.
pub open spec fn timestamp_bytes(t: Timestamp) -> Seq<u8> {
    (if t.seconds != 0 {
        field_key(1, 0) + varint(t.seconds as nat)
    } else {
        Seq::empty()
    }) + (if t.nanos != 0 {
        field_key(2, 0) + varint(t.nanos as nat)
    } else {
        Seq::empty()
    })
}

/// The wrapper-message encoding of a byte-string field: the bytes behind
/// a field-one key; an empty string encodes as the empty message.
pub open spec fn wrapped_bytes(b: Seq<u8>) -> Seq<u8> {
    if b.len() == 0 {
        Seq::empty()
    } else {
        field_key(1, 2) + len_prefixed(b)
    }
}

/// The wrapper-message encoding of an integer field: the varint behind a
/// field-one key; zero encodes as the empty message.
pub open spec fn wrapped_varint(n: nat) -> Seq<u8> {
    if n == 0 {
        Seq::empty()
    } else {
        field_key(1, 0) + varint(n)
    }
}

/// The encoding of a part-set header message: total at field one, hash at
/// field two, empty values omitted.
pub open spec fn part_set_header_bytes(total: u32, hash: Seq<u8>) -> Seq<u8> {
    (if total != 0 {
        field_key(1, 0) + varint(total as nat)
    } else {
        Seq::empty()
    }) + (if hash.len() != 0 {
        field_key(2, 2) + len_prefixed(hash)
    } else {
        Seq::empty()
    })
}

/// The encoding of a block identifier message: hash at field one, skipped
/// when empty, and the part-set header message at field two, carried
/// always, as an embedded message field is.
pub open spec fn block_id_bytes(b: BlockIdView) -> Seq<u8> {
    (if b.hash.len() != 0 {
        field_key(1, 2) + len_prefixed(b.hash)
    } else {
        Seq::empty()
    }) + field_key(2, 2) + len_prefixed(part_set_header_bytes(b.part_set_total, b.part_set_hash))
}

/// The all-zero block identifier, which stands in for an absent one.
pub open spec fn nil_block_id_view() -> BlockIdView {
    BlockIdView { hash: Seq::empty(), part_set_total: 0, part_set_hash: Seq::empty() }
}

/// The encoding of an optional block identifier: an absent one encodes as
/// the all-zero identifier does.
pub open spec fn opt_block_id_bytes(b: Option<BlockIdView>) -> Seq<u8> {
    match b {
        Some(x) => block_id_bytes(x),
        None => block_id_bytes(nil_block_id_view()),
    }
}

/// The canonical pre-image of a header: one byte vector per field, in the
/// fixed canonical order, each the protobuf encoding of the field's own
/// message. The version, time and block-identifier fields encode as their
/// messages; every scalar field encodes as its wrapper message, the value
/// behind a field-one key, with a default value encoding as empty.
pub open spec fn header_preimage(h: HeaderView) -> Seq<Seq<u8>> {
    seq![
        consensus_bytes(h.version),
        wrapped_bytes(h.chain_id),
        wrapped_varint(h.height as nat),
        timestamp_bytes(h.time),
        opt_block_id_bytes(h.last_block_id),
        wrapped_bytes(h.last_commit_hash),
        wrapped_bytes(h.data_hash),
        wrapped_bytes(h.validators_hash),
        wrapped_bytes(h.next_validators_hash),
        wrapped_bytes(h.consensus_hash),
        wrapped_bytes(h.app_hash),
        wrapped_bytes(h.last_results_hash),
        wrapped_bytes(h.evidence_hash),
        wrapped_bytes(h.proposer_address),
    ]
}

/// The header hash: the Merkle/SHA-256 root over the canonical pre-image.
pub open spec fn header_hash_spec(h: HeaderView) -> Seq<u8> {
    merkle_root_spec(header_preimage(h))
}

fn encode_key_and_varint(dst: &mut Vec<u8>, key: u8, n: u64)
    requires
        key < 128,
    ensures
        final(dst)@ == old(dst)@ + field_key((key / 8) as nat, (key % 8) as nat) + varint(
            n as nat,
        ),
{
    dst.push(key);
    encode_varint(dst, n);
    proof {
        assert(field_key((key / 8) as nat, (key % 8) as nat) =~= seq![key]);
        assert(dst@ =~= old(dst)@ + field_key((key / 8) as nat, (key % 8) as nat) + varint(
            n as nat,
        ));
    }
}

fn encode_key_and_bytes(dst: &mut Vec<u8>, key: u8, src: &Vec<u8>)
    requires
        key < 128,
    ensures
        final(dst)@ == old(dst)@ + field_key((key / 8) as nat, (key % 8) as nat) + len_prefixed(
            src@,
        ),
{
    dst.push(key);
    encode_len_prefixed(dst, src);
    proof {
        assert(field_key((key / 8) as nat, (key % 8) as nat) =~= seq![key]);
        assert(dst@ =~= old(dst)@ + field_key((key / 8) as nat, (key % 8) as nat) + len_prefixed(
            src@,
        ));
    }
}

fn encode_wrapped_bytes(dst: &mut Vec<u8>, src: &Vec<u8>)
    ensures
        final(dst)@ == old(dst)@ + wrapped_bytes(src@),
{
    if src.len() != 0 {
        encode_key_and_bytes(dst, 10, src);
    }
    proof {
        assert(dst@ =~= old(dst)@ + wrapped_bytes(src@));
    }
}

fn encode_wrapped_varint(dst: &mut Vec<u8>, n: u64)
    ensures
        final(dst)@ == old(dst)@ + wrapped_varint(n as nat),
{
    if n != 0 {
        encode_key_and_varint(dst, 8, n);
    }
    proof {
        assert(dst@ =~= old(dst)@ + wrapped_varint(n as nat));
    }
}

fn encode_consensus(dst: &mut Vec<u8>, v: &Consensus)
    ensures
        final(dst)@ == old(dst)@ + consensus_bytes(*v),
{
    if v.block != 0 {
        encode_key_and_varint(dst, 8, v.block);
    }
    if v.app != 0 {
        encode_key_and_varint(dst, 16, v.app);
    }
    proof {
        assert(dst@ =~= old(dst)@ + consensus_bytes(*v));
    }
}

fn encode_timestamp(dst: &mut Vec<u8>, t: &Timestamp)
    ensures
        final(dst)@ == old(dst)@ + timestamp_bytes(*t),
{
    if t.seconds != 0 {
        encode_key_and_varint(dst, 8, t.seconds);
    }
    if t.nanos != 0 {
        encode_key_and_varint(dst, 16, t.nanos as u64);
    }
    proof {
        assert(dst@ =~= old(dst)@ + timestamp_bytes(*t));
    }
}

fn encode_part_set_header(dst: &mut Vec<u8>, total: u32, hash: &Vec<u8>)
    ensures
        final(dst)@ == old(dst)@ + part_set_header_bytes(total, hash@),
{
    if total != 0 {
        encode_key_and_varint(dst, 8, total as u64);
    }
    if hash.len() != 0 {
        encode_key_and_bytes(dst, 18, hash);
    }
    proof {
        assert(dst@ =~= old(dst)@ + part_set_header_bytes(total, hash@));
    }
}

fn encode_block_id(dst: &mut Vec<u8>, b: &BlockId)
    ensures
        final(dst)@ == old(dst)@ + block_id_bytes(b@),
{
    if b.hash.len() != 0 {
        encode_key_and_bytes(dst, 10, &b.hash);
    }
    let mut psh: Vec<u8> = Vec::new();
    encode_part_set_header(&mut psh, b.part_set_total, &b.part_set_hash);
    proof {
        assert(psh@ =~= part_set_header_bytes(b.part_set_total, b.part_set_hash@));
    }
    encode_key_and_bytes(dst, 18, &psh);
    proof {
        assert(dst@ =~= old(dst)@ + block_id_bytes(b@));
    }
}

impl Header {
    /// The ordered byte vectors, one per field, whose Merkle root is the
    /// header hash.
    pub fn serialize_to_preimage(&self) -> (r: Vec<Vec<u8>>)
        ensures
            r.deep_view() == header_preimage(self@),
    {
        let mut f_version: Vec<u8> = Vec::new();
        encode_consensus(&mut f_version, &self.version);
        let mut f_chain_id: Vec<u8> = Vec::new();
        encode_wrapped_bytes(&mut f_chain_id, &self.chain_id);
        let mut f_height: Vec<u8> = Vec::new();
        encode_wrapped_varint(&mut f_height, self.height);
        let mut f_time: Vec<u8> = Vec::new();
        encode_timestamp(&mut f_time, &self.time);
        let mut f_last_block_id: Vec<u8> = Vec::new();
        match &self.last_block_id {
            Some(b) => encode_block_id(&mut f_last_block_id, b),
            None => {
                f_last_block_id.push(18);
                f_last_block_id.push(0);
                proof {
                    assert(part_set_header_bytes(0, Seq::<u8>::empty())
                        =~= Seq::<u8>::empty());
                    assert(field_key(2, 2) =~= seq![18u8]);
                    assert(len_prefixed(Seq::<u8>::empty()) =~= seq![0u8]);
                    assert(f_last_block_id@ =~= block_id_bytes(nil_block_id_view()));
                }
            },
        }
        let mut f_last_commit_hash: Vec<u8> = Vec::new();
        encode_wrapped_bytes(&mut f_last_commit_hash, &self.last_commit_hash);
        let mut f_data_hash: Vec<u8> = Vec::new();
        encode_wrapped_bytes(&mut f_data_hash, &self.data_hash);
        let mut f_validators_hash: Vec<u8> = Vec::new();
        encode_wrapped_bytes(&mut f_validators_hash, &self.validators_hash);
        let mut f_next_validators_hash: Vec<u8> = Vec::new();
        encode_wrapped_bytes(&mut f_next_validators_hash, &self.next_validators_hash);
        let mut f_consensus_hash: Vec<u8> = Vec::new();
        encode_wrapped_bytes(&mut f_consensus_hash, &self.consensus_hash);
        let mut f_app_hash: Vec<u8> = Vec::new();
        encode_wrapped_bytes(&mut f_app_hash, &self.app_hash);
        let mut f_last_results_hash: Vec<u8> = Vec::new();
        encode_wrapped_bytes(&mut f_last_results_hash, &self.last_results_hash);
        let mut f_evidence_hash: Vec<u8> = Vec::new();
        encode_wrapped_bytes(&mut f_evidence_hash, &self.evidence_hash);
        let mut f_proposer_address: Vec<u8> = Vec::new();
        encode_wrapped_bytes(&mut f_proposer_address, &self.proposer_address);

        let mut r: Vec<Vec<u8>> = Vec::new();
        r.push(f_version);
        r.push(f_chain_id);
        r.push(f_height);
        r.push(f_time);
        r.push(f_last_block_id);
        r.push(f_last_commit_hash);
        r.push(f_data_hash);
        r.push(f_validators_hash);
        r.push(f_next_validators_hash);
        r.push(f_consensus_hash);
        r.push(f_app_hash);
        r.push(f_last_results_hash);
        r.push(f_evidence_hash);
        r.push(f_proposer_address);
        proof {
            let p = header_preimage(self@);
            assert(r.deep_view().len() == 14);
            assert(r.deep_view()[0] =~= p[0]);
            assert(r.deep_view()[1] =~= p[1]);
            assert(r.deep_view()[2] =~= p[2]);
            assert(r.deep_view()[3] =~= p[3]);
            assert(r.deep_view()[4] =~= p[4]);
            assert(r.deep_view()[5] =~= p[5]);
            assert(r.deep_view()[6] =~= p[6]);
            assert(r.deep_view()[7] =~= p[7]);
            assert(r.deep_view()[8] =~= p[8]);
            assert(r.deep_view()[9] =~= p[9]);
            assert(r.deep_view()[10] =~= p[10]);
            assert(r.deep_view()[11] =~= p[11]);
            assert(r.deep_view()[12] =~= p[12]);
            assert(r.deep_view()[13] =~= p[13]);
            assert(r.deep_view() =~= p);
        }
        r
    }

    /// The header hash: Merkle-tree SHA-256 over the canonical pre-image,
    /// 32 bytes.
    pub fn hash(&self) -> (r: Vec<u8>)
        ensures
            r@ == header_hash_spec(self@),
            r@.len() == 32,
    {
        let preimage = self.serialize_to_preimage();
        merkle_root(&preimage)
    }
}

/// The header hash is a function of the header's field values alone:
/// logically equal headers, those whose fields hold the same values, hash
/// equally, however they were produced.
pub proof fn lemma_header_hash_deterministic(h1: Header, h2: Header)
    requires
        h1@ == h2@,
    ensures
        header_hash_spec(h1@) == header_hash_spec(h2@),
{
}

} // verus!
