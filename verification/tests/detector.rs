use tendermint_core::block::Commit;
use tendermint_core::errors::VerifierError;
use tendermint_core::fork_detector::{Fork, ForkDetection, NextAction, ProdForkDetector};
use tendermint_core::header::{BlockId, Consensus, Header, Timestamp};
use tendermint_core::light_block::{LightBlock, SignedHeader, ValidatorSet};
use tendermint_core::node::NodeId;

fn header_at(height: u64, app_hash: Vec<u8>) -> Header {
    Header {
        version: Consensus { block: 11, app: 0 },
        chain_id: b"test-chain".to_vec(),
        height,
        time: Timestamp { seconds: 1_600_000_000, nanos: 0 },
        last_block_id: None,
        last_commit_hash: vec![1; 32],
        data_hash: vec![2; 32],
        validators_hash: vec![3; 32],
        next_validators_hash: vec![4; 32],
        consensus_hash: vec![5; 32],
        app_hash,
        last_results_hash: vec![7; 32],
        evidence_hash: vec![8; 32],
        proposer_address: vec![9; 20],
    }
}

fn light_block(height: u64, app_hash: Vec<u8>, provider: u64) -> LightBlock {
    LightBlock {
        signed_header: SignedHeader {
            header: header_at(height, app_hash),
            commit: Commit {
                height,
                round: 0,
                block_id: BlockId {
                    hash: vec![0xCC; 32],
                    part_set_total: 1,
                    part_set_hash: vec![0xDD; 32],
                },
            },
        },
        validators: ValidatorSet { hash: vec![3; 32], total_voting_power: 100 },
        next_validators: ValidatorSet { hash: vec![4; 32], total_voting_power: 100 },
        provider: NodeId { id: provider },
    }
}

fn primary() -> LightBlock {
    light_block(100, vec![0x01; 20], 1)
}

fn trusted() -> LightBlock {
    light_block(90, vec![0x01; 20], 1)
}

fn agreeing_witness_block(provider: u64) -> LightBlock {
    light_block(100, vec![0x01; 20], provider)
}

fn disagreeing_witness_block(provider: u64) -> LightBlock {
    light_block(100, vec![0x02; 20], provider)
}

#[test]
fn all_witnesses_agree() {
    let mut detector =
        ProdForkDetector::new(primary(), trusted(), vec![NodeId { id: 2 }, NodeId { id: 3 }]);
    for witness in 0..2usize {
        match detector.next_action() {
            NextAction::FetchBlock { witness_index, height } => {
                assert_eq!(witness_index, witness);
                assert_eq!(height, 100);
            }
            other => panic!("expected a fetch, got {:?}", other),
        }
        detector.submit_fetch(Ok(agreeing_witness_block(10 + witness as u64)));
    }
    assert_eq!(detector.next_action(), NextAction::Finished);
    assert_eq!(detector.finish(), Ok(ForkDetection::NotDetected));
}

#[test]
fn fork_detected_via_verification() {
    let mut detector = ProdForkDetector::new(primary(), trusted(), vec![NodeId { id: 2 }]);
    detector.submit_fetch(Ok(disagreeing_witness_block(2)));
    match detector.next_action() {
        NextAction::VerifyWitness { witness_index, target_height } => {
            assert_eq!(witness_index, 0);
            assert_eq!(target_height, 100);
        }
        other => panic!("expected a verification, got {:?}", other),
    }
    detector.submit_verify(Ok(()));
    let result = detector.finish().unwrap();
    match result {
        ForkDetection::Detected(forks) => {
            assert_eq!(forks.len(), 1);
            match &forks[0] {
                Fork::Forked { primary: p, witness: w } => {
                    assert_eq!(*p, primary());
                    assert_eq!(*w, disagreeing_witness_block(2));
                }
                other => panic!("expected a real fork, got {:?}", other),
            }
        }
        ForkDetection::NotDetected => panic!("a fork must be detected"),
    }
}

#[test]
fn expired_trust_still_yields_forked() {
    let mut detector = ProdForkDetector::new(primary(), trusted(), vec![NodeId { id: 2 }]);
    detector.submit_fetch(Ok(disagreeing_witness_block(2)));
    detector.submit_verify(Err(VerifierError::ExpiredTrust));
    match detector.finish().unwrap() {
        ForkDetection::Detected(forks) => {
            assert_eq!(forks.len(), 1);
            assert!(matches!(forks[0], Fork::Forked { .. }));
        }
        ForkDetection::NotDetected => panic!("a fork must be detected"),
    }
}

#[test]
fn witness_timeout_skips_verification() {
    let mut detector = ProdForkDetector::new(primary(), trusted(), vec![NodeId { id: 2 }]);
    detector.submit_fetch(Err(VerifierError::Timeout));
    // No verification is attempted for that witness: the session is over.
    assert_eq!(detector.next_action(), NextAction::Finished);
    match detector.finish().unwrap() {
        ForkDetection::Detected(forks) => {
            assert_eq!(forks.len(), 1);
            match &forks[0] {
                Fork::Timeout(peer, e) => {
                    assert_eq!(*peer, NodeId { id: 2 });
                    assert_eq!(*e, VerifierError::Timeout);
                }
                other => panic!("expected a timeout record, got {:?}", other),
            }
        }
        ForkDetection::NotDetected => panic!("the timeout must be reported"),
    }
}

#[test]
fn verification_timeout_blames_the_block_provider() {
    let mut detector = ProdForkDetector::new(primary(), trusted(), vec![NodeId { id: 2 }]);
    detector.submit_fetch(Ok(disagreeing_witness_block(42)));
    detector.submit_verify(Err(VerifierError::Timeout));
    match detector.finish().unwrap() {
        ForkDetection::Detected(forks) => match &forks[0] {
            Fork::Timeout(peer, _) => assert_eq!(*peer, NodeId { id: 42 }),
            other => panic!("expected a timeout record, got {:?}", other),
        },
        ForkDetection::NotDetected => panic!("the timeout must be reported"),
    }
}

#[test]
fn failing_witness_is_deemed_faulty() {
    let mut detector = ProdForkDetector::new(primary(), trusted(), vec![NodeId { id: 2 }]);
    detector.submit_fetch(Ok(disagreeing_witness_block(2)));
    detector.submit_verify(Err(VerifierError::Failed));
    match detector.finish().unwrap() {
        ForkDetection::Detected(forks) => {
            assert!(matches!(&forks[0], Fork::Faulty(_, VerifierError::Failed)));
        }
        ForkDetection::NotDetected => panic!("the faulty witness must be reported"),
    }
}

#[test]
fn hard_fetch_failure_aborts_the_session() {
    let mut detector = ProdForkDetector::new(primary(), trusted(), vec![NodeId { id: 2 }]);
    detector.submit_fetch(Err(VerifierError::Failed));
    assert_eq!(detector.next_action(), NextAction::Finished);
    assert_eq!(detector.finish(), Err(VerifierError::Failed));
}

#[test]
fn forks_keep_witness_order() {
    let witnesses = vec![NodeId { id: 2 }, NodeId { id: 3 }, NodeId { id: 4 }];
    let mut detector = ProdForkDetector::new(primary(), trusted(), witnesses);
    detector.submit_fetch(Err(VerifierError::Timeout));
    detector.submit_fetch(Ok(agreeing_witness_block(3)));
    detector.submit_fetch(Ok(disagreeing_witness_block(4)));
    detector.submit_verify(Ok(()));
    match detector.finish().unwrap() {
        ForkDetection::Detected(forks) => {
            assert_eq!(forks.len(), 2);
            assert!(matches!(forks[0], Fork::Timeout(_, _)));
            assert!(matches!(forks[1], Fork::Forked { .. }));
        }
        ForkDetection::NotDetected => panic!("two forks must be reported"),
    }
}

#[test]
fn repeated_detection_gives_identical_results() {
    let run = || {
        let mut detector =
            ProdForkDetector::new(primary(), trusted(), vec![NodeId { id: 2 }, NodeId { id: 3 }]);
        detector.submit_fetch(Ok(disagreeing_witness_block(2)));
        detector.submit_verify(Err(VerifierError::ExpiredTrust));
        detector.submit_fetch(Err(VerifierError::Timeout));
        detector.finish()
    };
    assert_eq!(run(), run());
}
