use tendermint_core::abci::{
    BeginBlock, CheckTx, CheckTxKind, Evidence, LastCommitInfo, OfferSnapshot, RawBeginBlock,
    RawCheckTx, RawOfferSnapshot, Snapshot,
};
use tendermint_core::errors::Error;
use tendermint_core::header::{Consensus, Header, Timestamp};

fn sample_header() -> Header {
    Header {
        version: Consensus { block: 11, app: 0 },
        chain_id: b"test-chain".to_vec(),
        height: 5,
        time: Timestamp { seconds: 1_600_000_000, nanos: 0 },
        last_block_id: None,
        last_commit_hash: vec![1; 32],
        data_hash: vec![2; 32],
        validators_hash: vec![3; 32],
        next_validators_hash: vec![4; 32],
        consensus_hash: vec![5; 32],
        app_hash: vec![6; 20],
        last_results_hash: vec![7; 32],
        evidence_hash: vec![8; 32],
        proposer_address: vec![9; 20],
    }
}

#[test]
fn check_tx_kind_defaults_to_new() {
    assert_eq!(CheckTxKind::default(), CheckTxKind::New);
}

#[test]
fn check_tx_round_trips_both_kinds() {
    for kind in [CheckTxKind::New, CheckTxKind::Recheck] {
        let value = CheckTx { tx: b"payload".to_vec(), kind };
        let raw = value.clone().into_raw();
        assert_eq!(CheckTx::try_from_raw(raw), Ok(value));
    }
}

#[test]
fn check_tx_known_discriminants_decode() {
    let new = CheckTx::try_from_raw(RawCheckTx { tx: vec![7], kind: 0 }).unwrap();
    assert_eq!(new.kind, CheckTxKind::New);
    let recheck = CheckTx::try_from_raw(RawCheckTx { tx: vec![7], kind: 1 }).unwrap();
    assert_eq!(recheck.kind, CheckTxKind::Recheck);
}

#[test]
fn check_tx_unknown_discriminant_is_a_typed_error() {
    for code in [-1, 2, 255] {
        let r = CheckTx::try_from_raw(RawCheckTx { tx: vec![], kind: code });
        assert_eq!(r, Err(Error::UnsupportedCheckTxType));
    }
}

#[test]
fn begin_block_round_trips() {
    let value = BeginBlock {
        hash: vec![0xAB; 32],
        header: sample_header(),
        last_commit_info: LastCommitInfo { round: 1 },
        byzantine_validators: vec![Evidence { bytes: vec![1, 2] }],
    };
    let expected = BeginBlock {
        hash: vec![0xAB; 32],
        header: sample_header(),
        last_commit_info: LastCommitInfo { round: 1 },
        byzantine_validators: vec![Evidence { bytes: vec![1, 2] }],
    };
    let back = BeginBlock::try_from_raw(value.into_raw()).unwrap();
    assert_eq!(back, expected);
}

#[test]
fn begin_block_requires_header_and_commit_info() {
    let missing_header = RawBeginBlock {
        hash: vec![],
        header: None,
        last_commit_info: Some(LastCommitInfo { round: 0 }),
        byzantine_validators: vec![],
    };
    assert_eq!(BeginBlock::try_from_raw(missing_header), Err(Error::MissingHeader));

    let missing_info = RawBeginBlock {
        hash: vec![],
        header: Some(sample_header()),
        last_commit_info: None,
        byzantine_validators: vec![],
    };
    assert_eq!(BeginBlock::try_from_raw(missing_info), Err(Error::MissingLastCommitInfo));
}

#[test]
fn offer_snapshot_round_trips() {
    let snapshot = Snapshot {
        height: 10,
        format: 1,
        chunks: 4,
        hash: vec![0xEE; 32],
        metadata: vec![1, 2, 3],
    };
    let value = OfferSnapshot { snapshot: snapshot.clone(), app_hash: vec![0x11; 32] };
    let expected = OfferSnapshot { snapshot, app_hash: vec![0x11; 32] };
    let back = OfferSnapshot::try_from_raw(value.into_raw()).unwrap();
    assert_eq!(back, expected);
}

#[test]
fn offer_snapshot_requires_the_snapshot() {
    let raw = RawOfferSnapshot { snapshot: None, app_hash: vec![] };
    assert_eq!(OfferSnapshot::try_from_raw(raw), Err(Error::MissingData));
}
