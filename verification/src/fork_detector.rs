use vstd::prelude::*;
use crate::bytes::bytes_eq;
use crate::errors::VerifierError;
use crate::header::header_hash_spec;
use crate::light_block::{LightBlock, LightBlockView};
use crate::node::PeerId;

verus! {

/// Types of fork found while cross-checking one verified block.
#[derive(PartialEq, Eq, Debug)]
pub enum Fork {
    /// An actual fork: the witness's block differs from the primary's and
    /// still verifies from the trusted state.
    Forked { primary: LightBlock, witness: LightBlock },
    /// The witness's block could not be verified for a reason other than
    /// expiry or timeout: the witness is deemed faulty.
    Faulty(LightBlock, VerifierError),
    /// The witness was unreachable or too slow.
    Timeout(PeerId, VerifierError),
}

/// The values a fork holds.
pub enum ForkView {
    Forked { primary: LightBlockView, witness: LightBlockView },
    Faulty(LightBlockView, VerifierError),
    Timeout(PeerId, VerifierError),
}

impl View for Fork {
    type V = ForkView;

    open spec fn view(&self) -> ForkView {
        match self {
            Fork::Forked { primary, witness } => ForkView::Forked {
                primary: primary@,
                witness: witness@,
            },
            Fork::Faulty(block, e) => ForkView::Faulty(block@, *e),
            Fork::Timeout(peer, e) => ForkView::Timeout(*peer, *e),
        }
    }
}

/// Result of fork detection over a whole witness list.
#[derive(PartialEq, Eq, Debug)]
pub enum ForkDetection {
    /// One or more forks have been detected.
    Detected(Vec<Fork>),
    /// No fork has been detected.
    NotDetected,
}

/// The values a detection result holds.
pub enum ForkDetectionView {
    Detected(Seq<ForkView>),
    NotDetected,
}

impl View for ForkDetection {
    type V = ForkDetectionView;

    open spec fn view(&self) -> ForkDetectionView {
        match self {
            ForkDetection::Detected(forks) => ForkDetectionView::Detected(
                forks@.map_values(|f: Fork| f@),
            ),
            ForkDetection::NotDetected => ForkDetectionView::NotDetected,
        }
    }
}

/// The values of one light-client outcome handed to the detector.
pub enum DetectorEvent {
    /// What fetching the witness's block at the target height returned.
    Fetch(Result<LightBlockView, VerifierError>),
    /// What verifying the witness's block to the target height returned.
    Verify(Result<(), VerifierError>),
}

/// Mathematical state of a fork-detection session.
pub struct DetectorModel {
    /// The block verified against the primary, under cross-check.
    pub primary: LightBlockView,
    /// The trusted block the witnesses verify from.
    pub trusted: LightBlockView,
    /// The header hash of the primary's block.
    pub primary_hash: Seq<u8>,
    /// The witnesses to consult, in consultation order.
    pub witnesses: Seq<PeerId>,
    /// How many witnesses have been dealt with.
    pub next_witness: int,
    /// A fetched witness block whose hash disagreed, awaiting verification.
    pub pending: Option<LightBlockView>,
    /// The forks recorded so far, in witness order.
    pub forks: Seq<ForkView>,
    /// A fetch failure other than a timeout; it aborts the whole session.
    pub failed: Option<VerifierError>,
}

/// The state a fresh session starts in.
pub open spec fn initial_detector(
    primary: LightBlockView,
    trusted: LightBlockView,
    witnesses: Seq<PeerId>,
) -> DetectorModel {
    DetectorModel {
        primary,
        trusted,
        primary_hash: header_hash_spec(primary.signed_header.header),
        witnesses,
        next_witness: 0,
        pending: None,
        forks: Seq::empty(),
        failed: None,
    }
}

pub open spec fn detector_wf(m: DetectorModel) -> bool {
    m.primary_hash == header_hash_spec(m.primary.signed_header.header) && 0 <= m.next_witness
        <= m.witnesses.len()
}

/// Whether the session is over: every witness dealt with, or aborted.
pub open spec fn detector_done(m: DetectorModel) -> bool {
    m.failed is Some || m.next_witness >= m.witnesses.len()
}

/// Whether the session waits for the current witness's block.
pub open spec fn awaiting_fetch(m: DetectorModel) -> bool {
    !detector_done(m) && m.pending is None
}

/// Whether the session waits for the verification of a fetched block.
pub open spec fn awaiting_verify(m: DetectorModel) -> bool {
    !detector_done(m) && m.pending is Some
}

/// The state after learning what the fetch returned: a block hashing like
/// the primary's clears the witness; a differing one goes to verification;
/// a timeout is recorded against the witness; any other failure aborts.
pub open spec fn apply_fetch(
    m: DetectorModel,
    outcome: Result<LightBlockView, VerifierError>,
) -> DetectorModel {
    match outcome {
        Ok(wb) => if header_hash_spec(wb.signed_header.header) == m.primary_hash {
            DetectorModel { next_witness: m.next_witness + 1, ..m }
        } else {
            DetectorModel { pending: Some(wb), ..m }
        },
        Err(e) => if e is Timeout {
            DetectorModel {
                forks: m.forks.push(ForkView::Timeout(m.witnesses[m.next_witness], e)),
                next_witness: m.next_witness + 1,
                ..m
            }
        } else {
            DetectorModel { failed: Some(e), ..m }
        },
    }
}

/// The state after learning what verification returned: success, and also
/// an expired trusting period, prove a real fork; a timeout is recorded
/// against the witness; anything else marks the witness faulty.
pub open spec fn apply_verify(
    m: DetectorModel,
    outcome: Result<(), VerifierError>,
) -> DetectorModel {
    match m.pending {
        Some(wb) => {
            let fork = match outcome {
                Ok(_) => ForkView::Forked { primary: m.primary, witness: wb },
                Err(e) => if e is ExpiredTrust {
                    ForkView::Forked { primary: m.primary, witness: wb }
                } else if e is Timeout {
                    ForkView::Timeout(wb.provider, e)
                } else {
                    ForkView::Faulty(wb, e)
                },
            };
            DetectorModel {
                pending: None,
                forks: m.forks.push(fork),
                next_witness: m.next_witness + 1,
                ..m
            }
        },
        None => m,
    }
}

/// The state after one light-client outcome.
pub open spec fn apply_event(m: DetectorModel, ev: DetectorEvent) -> DetectorModel {
    match ev {
        DetectorEvent::Fetch(outcome) => apply_fetch(m, outcome),
        DetectorEvent::Verify(outcome) => apply_verify(m, outcome),
    }
}

/// The state after a whole sequence of light-client outcomes.
pub open spec fn detector_run(m: DetectorModel, evs: Seq<DetectorEvent>) -> DetectorModel
    decreases evs.len(),
{
    if evs.len() == 0 {
        m
    } else {
        detector_run(apply_event(m, evs.first()), evs.drop_first())
    }
}

/// What the next step of the session is.
#[derive(Clone, Copy, PartialEq, Eq, Debug, Structural)]
pub enum NextAction {
    /// Ask witness number `witness_index` for its light block at `height`.
    FetchBlock { witness_index: usize, height: u64 },
    /// Seed a fresh store with the trusted block as verified and the
    /// fetched witness block as unverified, and verify to `target_height`
    /// against witness number `witness_index`.
    VerifyWitness { witness_index: usize, target_height: u64 },
    /// The session is over; its result can be taken.
    Finished,
}

/// A fork-detection session over one verified block, one trusted block and
/// a list of witnesses.
///
/// The session is driven from outside: `next_action` names the
/// light-client call to make, and the call's outcome comes back through
/// `submit_fetch` or `submit_verify`. The classification of every outcome,
/// and the result handed out by `finish`, are functions of the inputs and
/// the outcomes alone.
pub struct ProdForkDetector {
    primary: LightBlock,
    trusted: LightBlock,
    primary_hash: Vec<u8>,
    witnesses: Vec<PeerId>,
    next_witness: usize,
    pending: Option<LightBlock>,
    forks: Vec<Fork>,
    failed: Option<VerifierError>,
}

pub open spec fn opt_block_view(b: Option<LightBlock>) -> Option<LightBlockView> {
    match b {
        Some(x) => Some(x@),
        None => None,
    }
}

impl ProdForkDetector {
    /// The session state this value denotes.
    pub closed spec fn model(&self) -> DetectorModel {
        DetectorModel {
            primary: self.primary@,
            trusted: self.trusted@,
            primary_hash: self.primary_hash@,
            witnesses: self.witnesses@,
            next_witness: self.next_witness as int,
            pending: opt_block_view(self.pending),
            forks: self.forks@.map_values(|f: Fork| f@),
            failed: self.failed,
        }
    }

    /// Opens a session: the primary's header hash is computed once, and
    /// every witness still awaits consultation.
    pub fn new(verified_block: LightBlock, trusted_block: LightBlock, witnesses: Vec<PeerId>) -> (
        r: Self)
        ensures
            r.model() == initial_detector(verified_block@, trusted_block@, witnesses@),
            detector_wf(r.model()),
    {
        let primary_hash = verified_block.signed_header.header.hash();
        let r = ProdForkDetector {
            primary: verified_block,
            trusted: trusted_block,
            primary_hash,
            witnesses,
            next_witness: 0,
            pending: None,
            forks: Vec::new(),
            failed: None,
        };
        proof {
            assert(r.model().forks =~= Seq::<ForkView>::empty());
        }
        r
    }

    /// Names the light-client call the session waits for, or reports that
    /// it is over.
    pub fn next_action(&self) -> (r: NextAction)
        requires
            detector_wf(self.model()),
        ensures
            detector_done(self.model()) ==> r == NextAction::Finished,
            awaiting_fetch(self.model()) ==> r == (NextAction::FetchBlock {
                witness_index: self.model().next_witness as usize,
                height: self.model().primary.signed_header.header.height,
            }),
            awaiting_verify(self.model()) ==> r == (NextAction::VerifyWitness {
                witness_index: self.model().next_witness as usize,
                target_height: self.model().primary.signed_header.header.height,
            }),
    {
        if self.failed.is_some() || self.next_witness >= self.witnesses.len() {
            NextAction::Finished
        } else if self.pending.is_some() {
            NextAction::VerifyWitness {
                witness_index: self.next_witness,
                target_height: self.primary.signed_header.header.height,
            }
        } else {
            NextAction::FetchBlock {
                witness_index: self.next_witness,
                height: self.primary.signed_header.header.height,
            }
        }
    }

    /// Hands the session what fetching the current witness's block
    /// returned.
    pub fn submit_fetch(&mut self, outcome: Result<LightBlock, VerifierError>)
        requires
            detector_wf(old(self).model()),
            awaiting_fetch(old(self).model()),
        ensures
            detector_wf(final(self).model()),
            final(self).model() == apply_fetch(
                old(self).model(),
                match outcome {
                    Ok(wb) => Ok::<LightBlockView, VerifierError>(wb@),
                    Err(e) => Err::<LightBlockView, VerifierError>(e),
                },
            ),
    {
        match outcome {
            Ok(wb) => {
                let witness_hash = wb.signed_header.header.hash();
                if bytes_eq(&witness_hash, &self.primary_hash) {
                    proof {
                        assert(self.next_witness < self.witnesses.len());
                    }
                    self.next_witness = self.next_witness + 1;
                } else {
                    self.pending = Some(wb);
                }
            },
            Err(e) => {
                if e.is_timeout() {
                    let peer = self.witnesses[self.next_witness];
                    self.forks.push(Fork::Timeout(peer, e));
                    proof {
                        assert(self.next_witness < self.witnesses.len());
                    }
                    self.next_witness = self.next_witness + 1;
                    proof {
                        assert(self.forks@.map_values(|f: Fork| f@) =~= old(self).model().forks.push(
                            ForkView::Timeout(peer, e),
                        ));
                    }
                } else {
                    self.failed = Some(e);
                }
            },
        }
    }

    /// Hands the session what verifying the fetched witness block
    /// returned.
    pub fn submit_verify(&mut self, outcome: Result<(), VerifierError>)
        requires
            detector_wf(old(self).model()),
            awaiting_verify(old(self).model()),
        ensures
            detector_wf(final(self).model()),
            final(self).model() == apply_verify(old(self).model(), outcome),
    {
        let wb = match self.pending.take() {
            Some(wb) => wb,
            None => {
                proof {
                    assert(false);
                }
                unreached()
            },
        };
        let fork = match outcome {
            Ok(_) => Fork::Forked { primary: self.primary.clone(), witness: wb },
            Err(e) => {
                if e.has_expired() {
                    Fork::Forked { primary: self.primary.clone(), witness: wb }
                } else if e.is_timeout() {
                    Fork::Timeout(wb.provider, e)
                } else {
                    Fork::Faulty(wb, e)
                }
            },
        };
        let ghost fork_view = fork@;
        self.forks.push(fork);
        proof {
            assert(self.next_witness < self.witnesses.len());
        }
        self.next_witness = self.next_witness + 1;
        proof {
            assert(self.forks@.map_values(|f: Fork| f@) =~= old(self).model().forks.push(
                fork_view,
            ));
            assert(final(self).model() =~= apply_verify(old(self).model(), outcome));
        }
    }

    /// Closes the session and hands its result out: the aborting error if
    /// a fetch failed hard, the forks in witness order if any were found,
    /// and a clean bill otherwise.
    pub fn finish(self) -> (r: Result<ForkDetection, VerifierError>)
        requires
            detector_done(self.model()),
        ensures
            self.model().failed matches Some(e) ==> r == Err::<ForkDetection, VerifierError>(e),
            (self.model().failed is None && self.model().forks.len() == 0) ==> r == Ok::<
                ForkDetection,
                VerifierError,
            >(ForkDetection::NotDetected),
            (self.model().failed is None && self.model().forks.len() != 0) ==> (r matches Ok(d)
                && d@ == ForkDetectionView::Detected(self.model().forks)),
    {
        match self.failed {
            Some(e) => Err(e),
            None => {
                if self.forks.len() == 0 {
                    proof {
                        assert(self.model().forks =~= Seq::<ForkView>::empty());
                    }
                    Ok(ForkDetection::NotDetected)
                } else {
                    Ok(ForkDetection::Detected(self.forks))
                }
            },
        }
    }
}

/// Fork detection is deterministic: the session state after any run is a
/// function of the verified block, the trusted block, the witness list and
/// the sequence of light-client outcomes alone, so with a fixed witness
/// list and deterministic light clients, repeated sessions end in equal
/// states, and `finish` is pinned to that state by its contract.
pub proof fn lemma_detection_deterministic(
    primary: LightBlockView,
    trusted: LightBlockView,
    witnesses: Seq<PeerId>,
    evs1: Seq<DetectorEvent>,
    evs2: Seq<DetectorEvent>,
)
    requires
        evs1 == evs2,
    ensures
        detector_run(initial_detector(primary, trusted, witnesses), evs1) == detector_run(
            initial_detector(primary, trusted, witnesses),
            evs2,
        ),
{
}

} // verus!
