use vstd::prelude::*;
use vstd::string::StringExecFns;
use crate::errors::Error;
use crate::header::{BlockId, BlockIdView, Header};

verus! {

/// The votes that finalized a block: the commit for the block identified
/// by `block_id` at `height`, reached in voting round `round`.
#[derive(PartialEq, Eq, Debug)]
pub struct Commit {
    pub height: u64,
    pub round: u32,
    pub block_id: BlockId,
}

/// The values a commit holds.
pub struct CommitView {
    pub height: u64,
    pub round: u32,
    pub block_id: BlockIdView,
}

impl View for Commit {
    type V = CommitView;

    open spec fn view(&self) -> CommitView {
        CommitView { height: self.height, round: self.round, block_id: self.block_id@ }
    }
}

impl Clone for Commit {
    fn clone(&self) -> (r: Self)
        ensures
            r@ == self@,
    {
        Commit { height: self.height, round: self.round, block_id: self.block_id.clone() }
    }
}

/// Evidence of malfeasance carried in a block, opaque items of bytes.
#[derive(PartialEq, Eq, Debug)]
pub struct EvidenceData {
    pub items: Vec<Vec<u8>>,
}

impl View for EvidenceData {
    type V = Seq<Seq<u8>>;

    open spec fn view(&self) -> Seq<Seq<u8>> {
        self.items.deep_view()
    }
}

/// A block: a header, transaction data, evidence of malfeasance, and the
/// commit that finalized the previous block.
#[derive(PartialEq, Eq, Debug)]
pub struct Block {
    pub header: Header,
    pub data: Vec<Vec<u8>>,
    pub evidence: EvidenceData,
    pub last_commit: Option<Commit>,
}

/// Whether a block's last commit agrees with its height: only the first
/// block of a chain carries no commit for a previous block.
pub open spec fn block_parts_consistent(height: u64, has_last_commit: bool) -> bool {
    has_last_commit == (height != 1)
}

impl Block {
    /// Builds a block from its parts.
    ///
    /// Construction succeeds exactly when the parts are consistent: a last
    /// commit is present if and only if the header's height is not one.
    pub fn new(
        header: Header,
        data: Vec<Vec<u8>>,
        evidence: EvidenceData,
        last_commit: Option<Commit>,
    ) -> (r: Result<Block, Error>)
        ensures
            block_parts_consistent(header.height, last_commit is Some) <==> r is Ok,
            r matches Ok(b) ==> b == (Block { header, data, evidence, last_commit }),
            r matches Err(e) ==> header.height != 1 ==> (e matches Error::InvalidBlock {
                reason,
            } && reason@ == "last_commit is empty on non-first block"@),
            r matches Err(e) ==> header.height == 1 ==> (e matches Error::InvalidBlock {
                reason,
            } && reason@ == "last_commit is filled on first block"@),
    {
        if last_commit.is_none() && header.height != 1 {
            return Err(
                Error::InvalidBlock {
                    reason: String::from_str("last_commit is empty on non-first block"),
                },
            );
        }
        if last_commit.is_some() && header.height == 1 {
            return Err(
                Error::InvalidBlock {
                    reason: String::from_str("last_commit is filled on first block"),
                },
            );
        }
        Ok(Block { header, data, evidence, last_commit })
    }

    /// The block's header.
    pub fn header(&self) -> (r: &Header)
        ensures
            *r == self.header,
    {
        &self.header
    }

    /// The block's transaction data.
    pub fn data(&self) -> (r: &Vec<Vec<u8>>)
        ensures
            *r == self.data,
    {
        &self.data
    }

    /// The block's evidence of malfeasance.
    pub fn evidence(&self) -> (r: &EvidenceData)
        ensures
            *r == self.evidence,
    {
        &self.evidence
    }

    /// The commit that finalized the previous block, absent on the first.
    pub fn last_commit(&self) -> (r: &Option<Commit>)
        ensures
            *r == self.last_commit,
    {
        &self.last_commit
    }
}

/// A block as it crosses the wire boundary: every part optional, the
/// transaction data in its own envelope.
#[derive(PartialEq, Eq, Debug)]
pub struct RawBlock {
    pub header: Option<Header>,
    pub data: Option<RawData>,
    pub evidence: Option<EvidenceData>,
    pub last_commit: Option<Commit>,
}

/// The transaction-data envelope of a raw block.
#[derive(PartialEq, Eq, Debug)]
pub struct RawData {
    pub txs: Vec<Vec<u8>>,
}

/// Whether a raw commit stands for "no commit": the zero value, which the
/// wire format cannot tell apart from an absent one.
pub open spec fn commit_is_nil(c: CommitView) -> bool {
    c.height == 0 && c.round == 0 && c.block_id.hash.len() == 0 && c.block_id.part_set_total == 0
        && c.block_id.part_set_hash.len() == 0
}

fn commit_is_nil_exec(c: &Commit) -> (r: bool)
    ensures
        r == commit_is_nil(c@),
{
    c.height == 0 && c.round == 0 && c.block_id.hash.len() == 0 && c.block_id.part_set_total == 0
        && c.block_id.part_set_hash.len() == 0
}

/// The last commit a raw block effectively carries: a nil commit counts as
/// absent.
pub open spec fn effective_last_commit(c: Option<Commit>) -> Option<Commit> {
    match c {
        Some(commit) => if commit_is_nil(commit@) {
            None
        } else {
            Some(commit)
        },
        None => None,
    }
}

impl Block {
    /// Reads a block off its wire form. The header, data and evidence
    /// parts must be present; a nil last commit counts as absent, and the
    /// effective commit's presence must match the height: present if and
    /// only if the height is not one.
    pub fn try_from_raw(value: RawBlock) -> (r: Result<Block, Error>)
        ensures
            value.header is None ==> r == Err::<Block, Error>(Error::MissingHeader),
            value.header matches Some(h) ==> (effective_last_commit(value.last_commit) is None
                && h.height != 1) ==> (r matches Err(e) && e matches Error::InvalidBlock { reason }
                && reason@ == "last_commit is empty on non-first block"@),
            value.header matches Some(h) ==> (effective_last_commit(value.last_commit) is Some
                && h.height == 1) ==> (r matches Err(e) && e matches Error::InvalidBlock { reason }
                && reason@ == "last_commit is filled on first block"@),
            value.header matches Some(h) ==> block_parts_consistent(
                h.height,
                effective_last_commit(value.last_commit) is Some,
            ) ==> match (value.data, value.evidence) {
                (Some(d), Some(ev)) => r == Ok::<Block, Error>(
                    Block {
                        header: h,
                        data: d.txs,
                        evidence: ev,
                        last_commit: effective_last_commit(value.last_commit),
                    },
                ),
                (None, _) => r == Err::<Block, Error>(Error::MissingData),
                (Some(_), None) => r == Err::<Block, Error>(Error::MissingEvidence),
            },
    {
        let header = match value.header {
            Some(h) => h,
            None => {
                return Err(Error::MissingHeader);
            },
        };
        let last_commit = match value.last_commit {
            Some(c) => if commit_is_nil_exec(&c) {
                None
            } else {
                Some(c)
            },
            None => None,
        };
        if last_commit.is_none() && header.height != 1 {
            return Err(
                Error::InvalidBlock {
                    reason: String::from_str("last_commit is empty on non-first block"),
                },
            );
        }
        if last_commit.is_some() && header.height == 1 {
            return Err(
                Error::InvalidBlock {
                    reason: String::from_str("last_commit is filled on first block"),
                },
            );
        }
        let data = match value.data {
            Some(d) => d.txs,
            None => {
                return Err(Error::MissingData);
            },
        };
        let evidence = match value.evidence {
            Some(ev) => ev,
            None => {
                return Err(Error::MissingEvidence);
            },
        };
        Ok(Block { header, data, evidence, last_commit })
    }

    /// The wire form of this block: every part present.
    pub fn into_raw(self) -> (r: RawBlock)
        ensures
            r == (RawBlock {
                header: Some(self.header),
                data: Some(RawData { txs: self.data }),
                evidence: Some(self.evidence),
                last_commit: self.last_commit,
            }),
    {
        RawBlock {
            header: Some(self.header),
            data: Some(RawData { txs: self.data }),
            evidence: Some(self.evidence),
            last_commit: self.last_commit,
        }
    }
}

} // verus!
