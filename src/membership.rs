//! Membership proof: the metadata of the NFT a player presents must name the
//! house's collection as a verified creator.
use vstd::prelude::*;
use crate::address::Address;

verus! {

/// One creator entry of an NFT's metadata.
#[derive(Clone, Copy, Debug)]
pub struct CreatorEntry {
    pub address: Address,
    pub verified: bool,
}

/// The part of an NFT's metadata that membership depends on.
#[derive(Clone, Debug)]
pub struct MembershipMetadata {
    pub mint: Address,
    pub creators: Option<Vec<CreatorEntry>>,
}

/// Mathematical view of [`MembershipMetadata`].
pub ghost struct MetadataView {
    pub mint: Address,
    pub creators: Option<Seq<CreatorEntry>>,
}

impl View for MembershipMetadata {
    type V = MetadataView;

    open spec fn view(&self) -> MetadataView {
        MetadataView {
            mint: self.mint,
            creators: match self.creators {
                Some(v) => Some(v@),
                None => None,
            },
        }
    }
}

/// The metadata that a token-metadata account's bytes decode to, if they decode.
pub uninterp spec fn decoded_metadata(data: Seq<u8>) -> Option<MetadataView>;

/// Relies on mpl_token_metadata's `Metadata::from_bytes` (a Borsh decode of the
/// account data): the result depends on the bytes alone.
#[verifier::external_body]
pub(crate) fn decode_metadata(data: &[u8]) -> (r: Option<MembershipMetadata>)
    ensures
        match r {
            Some(m) => decoded_metadata(data@) == Some(m@),
            None => decoded_metadata(data@) is None,
        },
{
    match mpl_token_metadata::accounts::Metadata::from_bytes(data) {
        Ok(m) => Some(MembershipMetadata {
            mint: Address { bytes: m.mint.to_bytes() },
            creators: m.creators.map(|cs| cs.into_iter().map(|c| CreatorEntry {
                address: Address { bytes: c.address.to_bytes() },
                verified: c.verified,
            }).collect()),
        }),
        Err(_) => None,
    }
}

/// Whether `creators` holds an entry for `collection` that is verified.
pub open spec fn has_verified_creator(creators: Seq<CreatorEntry>, collection: Address) -> bool {
    exists|i: int| 0 <= i < creators.len() && creators[i].address == collection && creators[i].verified
}

/// Whether metadata proves membership of `collection` for the NFT of mint
/// `nft_mint`: it belongs to that mint, and its creator list is present,
/// non-empty, and holds a verified entry for the collection.
pub open spec fn proves_membership(m: MetadataView, nft_mint: Address, collection: Address) -> bool {
    &&& m.mint == nft_mint
    &&& m.creators is Some
    &&& m.creators.unwrap().len() > 0
    &&& has_verified_creator(m.creators.unwrap(), collection)
}

/// Whether decoded metadata proves membership of `collection` for `nft_mint`.
pub fn check_membership(meta: &MembershipMetadata, nft_mint: &Address, collection: &Address) -> (r: bool)
    ensures
        r == proves_membership(meta@, *nft_mint, *collection),
{
    if !meta.mint.same(nft_mint) {
        return false;
    }
    match &meta.creators {
        None => false,
        Some(creators) => {
            if creators.len() == 0 {
                return false;
            }
            let mut i: usize = 0;
            while i < creators.len()
                invariant
                    0 <= i <= creators@.len(),
                    meta@.creators == Some(creators@),
                    meta.mint == *nft_mint,
                    creators@.len() > 0,
                    forall|j: int| 0 <= j < i ==> !(creators@[j].address == *collection && creators@[j].verified),
                decreases creators.len() - i,
            {
                if creators[i].verified && creators[i].address.same(collection) {
                    assert(creators@[i as int].address == *collection && creators@[i as int].verified);
                    return true;
                }
                i = i + 1;
            }
            false
        },
    }
}

} // verus!
