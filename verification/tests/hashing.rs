use sha2::{Digest, Sha256};
use tendermint_core::encoding::encode_varint;
use tendermint_core::hashing::merkle_root;
use tendermint_core::header::{BlockId, Consensus, Header, Timestamp};

fn sample_header() -> Header {
    Header {
        version: Consensus { block: 11, app: 0 },
        chain_id: b"test-chain".to_vec(),
        height: 100,
        time: Timestamp { seconds: 1_600_000_000, nanos: 5 },
        last_block_id: Some(BlockId {
            hash: vec![0xAA; 32],
            part_set_total: 1,
            part_set_hash: vec![0xBB; 32],
        }),
        last_commit_hash: vec![1; 32],
        data_hash: vec![2; 32],
        validators_hash: vec![3; 32],
        next_validators_hash: vec![4; 32],
        consensus_hash: vec![5; 32],
        app_hash: vec![6; 20],
        last_results_hash: vec![7; 32],
        evidence_hash: vec![8; 32],
        proposer_address: vec![9; 20],
    }
}

#[test]
fn varint_golden_values() {
    let mut buf: Vec<u8> = Vec::new();
    encode_varint(&mut buf, 0);
    assert_eq!(buf, vec![0x00]);

    let mut buf: Vec<u8> = Vec::new();
    encode_varint(&mut buf, 127);
    assert_eq!(buf, vec![0x7F]);

    let mut buf: Vec<u8> = Vec::new();
    encode_varint(&mut buf, 128);
    assert_eq!(buf, vec![0x80, 0x01]);

    let mut buf: Vec<u8> = Vec::new();
    encode_varint(&mut buf, 300);
    assert_eq!(buf, vec![0xAC, 0x02]);

    let mut buf: Vec<u8> = Vec::new();
    encode_varint(&mut buf, u64::MAX);
    assert_eq!(
        buf,
        vec![0xFF, 0xFF, 0xFF, 0xFF, 0xFF, 0xFF, 0xFF, 0xFF, 0xFF, 0x01]
    );
}

#[test]
fn merkle_root_of_no_items_is_the_empty_hash() {
    let items: Vec<Vec<u8>> = Vec::new();
    let root = merkle_root(&items);
    // SHA-256 of the empty string.
    let expected = [
        0xE3, 0xB0, 0xC4, 0x42, 0x98, 0xFC, 0x1C, 0x14, 0x9A, 0xFB, 0xF4, 0xC8, 0x99, 0x6F,
        0xB9, 0x24, 0x27, 0xAE, 0x41, 0xE4, 0x64, 0x9B, 0x93, 0x4C, 0xA4, 0x95, 0x99, 0x1B,
        0x78, 0x52, 0xB8, 0x55,
    ];
    assert_eq!(root, expected.to_vec());
}

#[test]
fn merkle_root_of_one_item_is_its_leaf_hash() {
    let items = vec![b"item".to_vec()];
    let root = merkle_root(&items);
    let mut leaf = vec![0u8];
    leaf.extend_from_slice(b"item");
    let expected: Vec<u8> = Sha256::digest(&leaf).to_vec();
    assert_eq!(root, expected);
}

#[test]
fn merkle_root_splits_below_the_item_count() {
    // Three items split as [0, 1] and [2].
    let items = vec![b"a".to_vec(), b"b".to_vec(), b"c".to_vec()];
    let root = merkle_root(&items);

    let leaf = |data: &[u8]| -> Vec<u8> {
        let mut buf = vec![0u8];
        buf.extend_from_slice(data);
        Sha256::digest(&buf).to_vec()
    };
    let inner = |left: &[u8], right: &[u8]| -> Vec<u8> {
        let mut buf = vec![1u8];
        buf.extend_from_slice(left);
        buf.extend_from_slice(right);
        Sha256::digest(&buf).to_vec()
    };
    let expected = inner(&inner(&leaf(b"a"), &leaf(b"b")), &leaf(b"c"));
    assert_eq!(root, expected);
}

#[test]
fn header_hash_is_32_bytes_and_deterministic() {
    let h1 = sample_header();
    let h2 = sample_header();
    let d1 = h1.hash();
    let d2 = h2.hash();
    assert_eq!(d1.len(), 32);
    assert_eq!(d1, d2);
}

#[test]
fn header_hash_depends_on_the_fields() {
    let h1 = sample_header();
    let mut h2 = sample_header();
    h2.height = 101;
    assert_ne!(h1.hash(), h2.hash());

    let mut h3 = sample_header();
    h3.app_hash = vec![0xFF; 20];
    assert_ne!(h1.hash(), h3.hash());
}

#[test]
fn header_preimage_has_one_vector_per_field() {
    let preimage = sample_header().serialize_to_preimage();
    assert_eq!(preimage.len(), 14);
    // The height field is its wrapper message: the value behind a
    // field-one varint key.
    assert_eq!(preimage[2], vec![0x08, 100]);
    // The chain identifier is its wrapper message: the bytes behind a
    // field-one length-delimited key.
    let mut expected_chain_id = vec![0x0A, 10];
    expected_chain_id.extend_from_slice(b"test-chain");
    assert_eq!(preimage[1], expected_chain_id);
    // The version message skips the zero-valued app component.
    assert_eq!(preimage[0], vec![0x08, 11]);
}

#[test]
fn empty_scalar_fields_encode_as_empty() {
    let mut header = sample_header();
    header.last_commit_hash = vec![];
    header.height = 0;
    let preimage = header.serialize_to_preimage();
    assert_eq!(preimage[2], Vec::<u8>::new());
    assert_eq!(preimage[5], Vec::<u8>::new());
}

#[test]
fn absent_block_id_encodes_as_the_zero_identifier() {
    let mut header = sample_header();
    header.last_block_id = None;
    let preimage = header.serialize_to_preimage();
    // The zero identifier: an empty hash is skipped, the empty part-set
    // header message is carried at field two.
    assert_eq!(preimage[4], vec![0x12, 0x00]);
}

// Recomputes the hash of the sample header from scratch: the varint, the
// wrapper-message field encodings and the Merkle tree are all rebuilt
// here, independently of the library's encoders.
fn recomputed_sample_hash() -> Vec<u8> {
    let varint = |mut n: u64| -> Vec<u8> {
        let mut out = Vec::new();
        loop {
            let b = (n & 0x7F) as u8;
            n >>= 7;
            if n != 0 {
                out.push(b | 0x80);
            } else {
                out.push(b);
                return out;
            }
        }
    };
    let wrapped = |b: &[u8]| -> Vec<u8> {
        if b.is_empty() {
            Vec::new()
        } else {
            let mut out = vec![0x0Au8];
            out.extend_from_slice(&varint(b.len() as u64));
            out.extend_from_slice(b);
            out
        }
    };
    let version = vec![0x08u8, 11];
    let mut time = vec![0x08u8];
    time.extend_from_slice(&varint(1_600_000_000));
    time.extend_from_slice(&[0x10, 5]);
    let mut psh = vec![0x08u8, 1, 0x12, 0x20];
    psh.extend_from_slice(&[0xBB; 32]);
    let mut last_block_id = vec![0x0Au8, 0x20];
    last_block_id.extend_from_slice(&[0xAA; 32]);
    last_block_id.push(0x12);
    last_block_id.extend_from_slice(&varint(psh.len() as u64));
    last_block_id.extend_from_slice(&psh);
    let fields: Vec<Vec<u8>> = vec![
        version,
        wrapped(b"test-chain"),
        vec![0x08, 100],
        time,
        last_block_id,
        wrapped(&[1; 32]),
        wrapped(&[2; 32]),
        wrapped(&[3; 32]),
        wrapped(&[4; 32]),
        wrapped(&[5; 32]),
        wrapped(&[6; 20]),
        wrapped(&[7; 32]),
        wrapped(&[8; 32]),
        wrapped(&[9; 20]),
    ];
    tree(&fields)
}

fn tree(items: &[Vec<u8>]) -> Vec<u8> {
    match items.len() {
        0 => Sha256::digest(b"").to_vec(),
        1 => {
            let mut buf = vec![0u8];
            buf.extend_from_slice(&items[0]);
            Sha256::digest(&buf).to_vec()
        }
        n => {
            let mut k = 1usize;
            while k * 2 < n {
                k *= 2;
            }
            let mut buf = vec![1u8];
            buf.extend_from_slice(&tree(&items[..k]));
            buf.extend_from_slice(&tree(&items[k..]));
            Sha256::digest(&buf).to_vec()
        }
    }
}

#[test]
fn header_hash_golden_vector() {
    let digest = sample_header().hash();
    assert_eq!(digest, recomputed_sample_hash());
    // The same digest, pinned: any change to the field encodings, the
    // field order or the tree shape breaks this vector.
    let pinned = [
        0x1E, 0xB8, 0x8F, 0x8A, 0x1A, 0x58, 0xAB, 0x7F, 0xE0, 0x89, 0xB3, 0x10, 0x86, 0x4E,
        0xBB, 0x46, 0xE2, 0xCD, 0xD9, 0x0A, 0xEA, 0x53, 0x21, 0x02, 0x03, 0x10, 0x28, 0x89,
        0x8D, 0xE5, 0x0D, 0x54,
    ];
    assert_eq!(digest, pinned.to_vec());
}
