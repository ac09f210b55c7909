use vstd::prelude::*;
use crate::block::{Commit, CommitView};
use crate::bytes::clone_bytes;
use crate::header::{Header, HeaderView};
use crate::node::PeerId;

verus! {

/// A header together with the commit that finalized it.
#[derive(PartialEq, Eq, Debug)]
pub struct SignedHeader {
    pub header: Header,
    pub commit: Commit,
}

/// The values a signed header holds.
pub struct SignedHeaderView {
    pub header: HeaderView,
    pub commit: CommitView,
}

impl View for SignedHeader {
    type V = SignedHeaderView;

    open spec fn view(&self) -> SignedHeaderView {
        SignedHeaderView { header: self.header@, commit: self.commit@ }
    }
}

impl Clone for SignedHeader {
    fn clone(&self) -> (r: Self)
        ensures
            r@ == self@,
    {
        SignedHeader { header: self.header.clone(), commit: self.commit.clone() }
    }
}

/// A validator set, reduced to what this crate reads of it: its hash and
/// its total voting power.
#[derive(PartialEq, Eq, Debug)]
pub struct ValidatorSet {
    pub hash: Vec<u8>,
    pub total_voting_power: u64,
}

/// The values a validator set holds.
pub struct ValidatorSetView {
    pub hash: Seq<u8>,
    pub total_voting_power: u64,
}

impl View for ValidatorSet {
    type V = ValidatorSetView;

    open spec fn view(&self) -> ValidatorSetView {
        ValidatorSetView { hash: self.hash@, total_voting_power: self.total_voting_power }
    }
}

impl Clone for ValidatorSet {
    fn clone(&self) -> (r: Self)
        ensures
            r@ == self@,
    {
        ValidatorSet {
            hash: clone_bytes(&self.hash),
            total_voting_power: self.total_voting_power,
        }
    }
}

/// A light block: the signed header, the validator sets of its height and
/// the next, and the peer that furnished it.
#[derive(PartialEq, Eq, Debug)]
pub struct LightBlock {
    pub signed_header: SignedHeader,
    pub validators: ValidatorSet,
    pub next_validators: ValidatorSet,
    pub provider: PeerId,
}

/// The values a light block holds.
pub struct LightBlockView {
    pub signed_header: SignedHeaderView,
    pub validators: ValidatorSetView,
    pub next_validators: ValidatorSetView,
    pub provider: PeerId,
}

impl View for LightBlock {
    type V = LightBlockView;

    open spec fn view(&self) -> LightBlockView {
        LightBlockView {
            signed_header: self.signed_header@,
            validators: self.validators@,
            next_validators: self.next_validators@,
            provider: self.provider,
        }
    }
}

impl Clone for LightBlock {
    fn clone(&self) -> (r: Self)
        ensures
            r@ == self@,
    {
        LightBlock {
            signed_header: self.signed_header.clone(),
            validators: self.validators.clone(),
            next_validators: self.next_validators.clone(),
            provider: self.provider,
        }
    }
}

impl LightBlock {
    /// The height of the block's header.
    pub fn height(&self) -> (r: u64)
        ensures
            r == self@.signed_header.header.height,
    {
        self.signed_header.header.height
    }
}

} // verus!
