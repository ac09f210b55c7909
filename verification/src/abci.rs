use vstd::prelude::*;
use crate::errors::Error;
use crate::header::Header;

verus! {

/// The possible kinds of transaction check.
#[derive(Clone, Copy, PartialEq, Eq, Hash, Debug, Structural)]
pub enum CheckTxKind {
    /// A full check is required (the default).
    New,
    /// The mempool is initiating a recheck of the transaction.
    Recheck,
}

impl Default for CheckTxKind {
    fn default() -> (r: Self)
        ensures
            r == CheckTxKind::New,
    {
        CheckTxKind::New
    }
}

/// The wire discriminant a check kind encodes as.
pub open spec fn check_tx_kind_code(kind: CheckTxKind) -> i32 {
    match kind {
        CheckTxKind::New => 0,
        CheckTxKind::Recheck => 1,
    }
}

/// A request to check whether a transaction may enter the mempool.
#[derive(Clone, PartialEq, Eq, Debug)]
pub struct CheckTx {
    /// The transaction bytes.
    pub tx: Vec<u8>,
    /// The kind of check to perform. The wire format calls this field
    /// `type`.
    pub kind: CheckTxKind,
}

/// A check-transaction request as it crosses the wire boundary; the kind
/// is a bare discriminant.
#[derive(Clone, PartialEq, Eq, Debug)]
pub struct RawCheckTx {
    pub tx: Vec<u8>,
    pub kind: i32,
}

/// The wire form of a check-transaction request.
pub open spec fn raw_of_check_tx(value: CheckTx) -> RawCheckTx {
    RawCheckTx { tx: value.tx, kind: check_tx_kind_code(value.kind) }
}

/// The request a wire form decodes to: known discriminants map to their
/// kind, any other discriminant is a typed error.
pub open spec fn check_tx_of_raw(value: RawCheckTx) -> Result<CheckTx, Error> {
    if value.kind == 0 {
        Ok(CheckTx { tx: value.tx, kind: CheckTxKind::New })
    } else if value.kind == 1 {
        Ok(CheckTx { tx: value.tx, kind: CheckTxKind::Recheck })
    } else {
        Err(Error::UnsupportedCheckTxType)
    }
}

impl CheckTx {
    /// The wire form of this request.
    pub fn into_raw(self) -> (r: RawCheckTx)
        ensures
            r == raw_of_check_tx(self),
    {
        let kind: i32 = match self.kind {
            CheckTxKind::New => 0,
            CheckTxKind::Recheck => 1,
        };
        RawCheckTx { tx: self.tx, kind }
    }

    /// Reads a request off its wire form; an unknown kind discriminant is
    /// rejected with a typed error.
    pub fn try_from_raw(value: RawCheckTx) -> (r: Result<CheckTx, Error>)
        ensures
            r == check_tx_of_raw(value),
    {
        let kind = if value.kind == 0 {
            CheckTxKind::New
        } else if value.kind == 1 {
            CheckTxKind::Recheck
        } else {
            return Err(Error::UnsupportedCheckTxType);
        };
        Ok(CheckTx { tx: value.tx, kind })
    }
}

/// Decoding inverts encoding: every check-transaction request round-trips
/// through its wire form; and every wire form whose discriminant is
/// unknown decodes to a typed error, never to a default.
pub proof fn lemma_check_tx_round_trip(value: CheckTx, raw: RawCheckTx)
    ensures
        check_tx_of_raw(raw_of_check_tx(value)) == Ok::<CheckTx, Error>(value),
        check_tx_kind_code(value.kind) == 0 || check_tx_kind_code(value.kind) == 1,
        raw.kind != 0 && raw.kind != 1 ==> check_tx_of_raw(raw) == Err::<CheckTx, Error>(
            Error::UnsupportedCheckTxType,
        ),
{
}

/// Information about the commit that finalized the previous block, as the
/// application sees it at the start of a block.
#[derive(Clone, Copy, PartialEq, Eq, Debug, Structural)]
pub struct LastCommitInfo {
    /// The voting round the commit was reached in.
    pub round: u32,
}

/// Evidence of validator misbehavior, opaque bytes to this crate.
#[derive(Clone, PartialEq, Eq, Debug)]
pub struct Evidence {
    pub bytes: Vec<u8>,
}

/// A request that begins a block: its hash, header, last-commit info and
/// the evidence of byzantine validators.
#[derive(PartialEq, Eq, Debug)]
pub struct BeginBlock {
    /// The block's hash, derivable from the header.
    pub hash: Vec<u8>,
    /// The block header.
    pub header: Header,
    /// Information about the last commit.
    pub last_commit_info: LastCommitInfo,
    /// Evidence of validator misbehavior.
    pub byzantine_validators: Vec<Evidence>,
}

/// A begin-block request as it crosses the wire boundary: header and
/// last-commit info optional.
#[derive(PartialEq, Eq, Debug)]
pub struct RawBeginBlock {
    pub hash: Vec<u8>,
    pub header: Option<Header>,
    pub last_commit_info: Option<LastCommitInfo>,
    pub byzantine_validators: Vec<Evidence>,
}

/// The wire form of a begin-block request: every part present.
pub open spec fn raw_of_begin_block(value: BeginBlock) -> RawBeginBlock {
    RawBeginBlock {
        hash: value.hash,
        header: Some(value.header),
        last_commit_info: Some(value.last_commit_info),
        byzantine_validators: value.byzantine_validators,
    }
}

/// The request a wire form decodes to: the header and the last-commit
/// info must be present.
pub open spec fn begin_block_of_raw(value: RawBeginBlock) -> Result<BeginBlock, Error> {
    match value.header {
        None => Err(Error::MissingHeader),
        Some(h) => match value.last_commit_info {
            None => Err(Error::MissingLastCommitInfo),
            Some(lci) => Ok(
                BeginBlock {
                    hash: value.hash,
                    header: h,
                    last_commit_info: lci,
                    byzantine_validators: value.byzantine_validators,
                },
            ),
        },
    }
}

impl BeginBlock {
    /// The wire form of this request: every part present.
    pub fn into_raw(self) -> (r: RawBeginBlock)
        ensures
            r == raw_of_begin_block(self),
    {
        RawBeginBlock {
            hash: self.hash,
            header: Some(self.header),
            last_commit_info: Some(self.last_commit_info),
            byzantine_validators: self.byzantine_validators,
        }
    }

    /// Reads a request off its wire form. The header and the last-commit
    /// info must be present.
    pub fn try_from_raw(value: RawBeginBlock) -> (r: Result<BeginBlock, Error>)
        ensures
            r == begin_block_of_raw(value),
    {
        let header = match value.header {
            Some(h) => h,
            None => {
                return Err(Error::MissingHeader);
            },
        };
        let last_commit_info = match value.last_commit_info {
            Some(lci) => lci,
            None => {
                return Err(Error::MissingLastCommitInfo);
            },
        };
        Ok(
            BeginBlock {
                hash: value.hash,
                header,
                last_commit_info,
                byzantine_validators: value.byzantine_validators,
            },
        )
    }
}

/// A snapshot of the application state offered for restoration.
#[derive(Clone, PartialEq, Eq, Debug)]
pub struct Snapshot {
    /// The height at which the snapshot was taken.
    pub height: u64,
    /// The application-specific snapshot format.
    pub format: u32,
    /// The number of chunks in the snapshot.
    pub chunks: u32,
    /// An arbitrary snapshot hash.
    pub hash: Vec<u8>,
    /// Arbitrary application metadata.
    pub metadata: Vec<u8>,
}

/// A request offering a snapshot for restoration.
#[derive(PartialEq, Eq, Debug)]
pub struct OfferSnapshot {
    /// The snapshot offered for restoration.
    pub snapshot: Snapshot,
    /// The light-client verified app hash for this height.
    pub app_hash: Vec<u8>,
}

/// An offer-snapshot request as it crosses the wire boundary: the snapshot
/// optional.
#[derive(PartialEq, Eq, Debug)]
pub struct RawOfferSnapshot {
    pub snapshot: Option<Snapshot>,
    pub app_hash: Vec<u8>,
}

impl OfferSnapshot {
    /// The wire form of this request: the snapshot present.
    pub fn into_raw(self) -> (r: RawOfferSnapshot)
        ensures
            r == raw_of_offer_snapshot(self),
    {
        RawOfferSnapshot { snapshot: Some(self.snapshot), app_hash: self.app_hash }
    }

    /// Reads a request off its wire form. The snapshot must be present.
    pub fn try_from_raw(value: RawOfferSnapshot) -> (r: Result<OfferSnapshot, Error>)
        ensures
            r == offer_snapshot_of_raw(value),
    {
        match value.snapshot {
            Some(snapshot) => Ok(OfferSnapshot { snapshot, app_hash: value.app_hash }),
            None => Err(Error::MissingData),
        }
    }
}

/// Encoding then decoding a begin-block request gives the request back.
pub proof fn lemma_begin_block_round_trip(value: BeginBlock)
    ensures
        begin_block_of_raw(raw_of_begin_block(value)) == Ok::<BeginBlock, Error>(value),
{
}

/// The wire form of an offer-snapshot request: the snapshot present.
pub open spec fn raw_of_offer_snapshot(value: OfferSnapshot) -> RawOfferSnapshot {
    RawOfferSnapshot { snapshot: Some(value.snapshot), app_hash: value.app_hash }
}

/// The request a wire form decodes to: the snapshot must be present.
pub open spec fn offer_snapshot_of_raw(value: RawOfferSnapshot) -> Result<OfferSnapshot, Error> {
    match value.snapshot {
        Some(s) => Ok(OfferSnapshot { snapshot: s, app_hash: value.app_hash }),
        None => Err(Error::MissingData),
    }
}

/// Encoding then decoding an offer-snapshot request gives the request
/// back.
pub proof fn lemma_offer_snapshot_round_trip(value: OfferSnapshot)
    ensures
        offer_snapshot_of_raw(raw_of_offer_snapshot(value)) == Ok::<OfferSnapshot, Error>(value),
{
}

} // verus!
