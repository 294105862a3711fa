//! The digests that stand for a leaf, and the address of an asset.

use vstd::prelude::*;
use vstd::string::StringExecFns;
use crate::encoding::{
    creator_bytes, metadata_bytes, metadata_encodable, metadata_to_bytes, push_bytes,
    push_creator, push_u16, push_u64, u16_bytes, u64_bytes,
};
use crate::error::{wrong_length_text, Error};
use crate::metadata::{
    creator_views, creators_well_formed, Creator, CreatorView, MetadataArgs, MetadataView,
};
use crate::programs::{bubblegum_program_id, MPL_BUBBLEGUM_ID};
use crate::pubkey::{bytes_from_array, Pubkey};
use crate::sdk::{byte_strings, find_program_address, keccak_digest, keccak_hashv, program_address};
use crate::types::{creators_from_raw, raw_creator_views, ElixirCreator};

verus! {

/// What is said when metadata cannot be laid out for hashing.
pub open spec fn hash_failure_text() -> Seq<char> {
    "Failed to hash metadata: invalid input parameter"@
}

/// What is said when no address can be derived for an asset.
pub open spec fn asset_id_failure_text() -> Seq<char> {
    "Unable to find a viable program address bump seed"@
}

/// What is hashed second for metadata: the digest of its layout, then the
/// seller fee in two bytes.
pub open spec fn data_hash_parts(inner: Seq<u8>, seller_fee_basis_points: u16) -> Seq<Seq<u8>> {
    seq![inner, u16_bytes(seller_fee_basis_points)]
}

/// The digest of metadata: the layout is hashed, and its digest is hashed
/// again together with the seller fee.
pub open spec fn metadata_digest(m: MetadataView) -> Seq<u8> {
    keccak_digest(
        data_hash_parts(keccak_digest(seq![metadata_bytes(m)]), m.seller_fee_basis_points),
    )
}

/// What is hashed for creators: one byte string for each, in their order.
pub open spec fn creator_parts(creators: Seq<CreatorView>) -> Seq<Seq<u8>> {
    creators.map_values(|c: CreatorView| creator_bytes(c))
}

/// The seeds from which the address of an asset is derived: the word
/// `asset`, the tree, and the leaf's number in eight bytes.
pub open spec fn asset_seeds(tree: Seq<u8>, nonce: u64) -> Seq<Seq<u8>> {
    seq![ASSET_PREFIX@, tree, u64_bytes(nonce)]
}

/// The word `asset`.
pub const ASSET_PREFIX: [u8; 5] = [97, 115, 115, 101, 116];

/// Builds what is hashed second for metadata.
pub fn data_hash_input(inner: &[u8; 32], seller_fee_basis_points: u16) -> (parts: Vec<Vec<u8>>)
    ensures
        byte_strings(parts@) == data_hash_parts(inner@, seller_fee_basis_points),
{
    let mut fee: Vec<u8> = Vec::new();
    push_u16(&mut fee, seller_fee_basis_points);
    let mut parts: Vec<Vec<u8>> = Vec::new();
    parts.push(bytes_from_array(inner));
    parts.push(fee);
    assert(byte_strings(parts@) =~= data_hash_parts(inner@, seller_fee_basis_points));
    parts
}

/// Computes the digest of metadata.  It fails exactly when a length in the
/// metadata cannot be stated in four bytes.
pub fn hash_metadata(metadata: MetadataArgs) -> (result: Result<[u8; 32], Error>)
    ensures
        result is Ok <==> metadata_encodable(metadata@),
        result matches Ok(digest) ==> digest@ == metadata_digest(metadata@),
        result matches Err(e) ==> e matches Error::Bubblegum(m) && m@ == hash_failure_text(),
{
    let layout = match metadata_to_bytes(&metadata) {
        Some(bytes) => bytes,
        None => {
            return Err(
                Error::Bubblegum(
                    String::from_str("Failed to hash metadata: invalid input parameter"),
                ),
            );
        },
    };
    let mut first: Vec<Vec<u8>> = Vec::new();
    first.push(layout);
    assert(byte_strings(first@) =~= seq![metadata_bytes(metadata@)]);
    let inner = keccak_hashv(&first);
    let second = data_hash_input(&inner, metadata.seller_fee_basis_points);
    Ok(keccak_hashv(&second))
}

/// Builds what is hashed for creators.
pub fn creator_hash_input(creators: &Vec<Creator>) -> (parts: Vec<Vec<u8>>)
    ensures
        byte_strings(parts@) == creator_parts(creator_views(creators@)),
{
    let mut parts: Vec<Vec<u8>> = Vec::with_capacity(creators.len());
    let mut i: usize = 0;
    while i < creators.len()
        invariant
            i <= creators.len(),
            parts@.len() == i,
            forall|j: int| 0 <= j < i ==> (#[trigger] parts@[j])@ == creator_bytes(creators@[j]@),
        decreases creators.len() - i,
    {
        let mut part: Vec<u8> = Vec::with_capacity(34);
        push_creator(&mut part, &creators[i]);
        assert(part@ =~= creator_bytes(creators@[i as int]@));
        parts.push(part);
        i += 1;
    }
    assert(byte_strings(parts@) =~= creator_parts(creator_views(creators@)));
    parts
}

/// Computes the digest of a list of creators, in their order.  The empty
/// list has a digest too.  It fails exactly when an address among them
/// does not have thirty-two bytes.
pub fn hash_creators(creators: Vec<ElixirCreator>) -> (result: Result<[u8; 32], Error>)
    ensures
        result is Ok <==> creators_well_formed(raw_creator_views(creators@)),
        result matches Ok(digest) ==> digest@ == keccak_digest(
            creator_parts(raw_creator_views(creators@)),
        ),
        result matches Err(e) ==> e matches Error::InvalidParameter(m) && m@
            == wrong_length_text("creator.address"@),
{
    let checked = match creators_from_raw(&creators) {
        Ok(checked) => checked,
        Err(e) => {
            return Err(e);
        },
    };
    let parts = creator_hash_input(&checked);
    Ok(keccak_hashv(&parts))
}

/// Builds the seeds from which the address of an asset is derived.
pub fn asset_seed_input(tree: &Pubkey, nonce: u64) -> (seeds: Vec<Vec<u8>>)
    ensures
        byte_strings(seeds@) == asset_seeds(tree@, nonce),
{
    let mut prefix: Vec<u8> = Vec::new();
    let word = ASSET_PREFIX;
    push_bytes(&mut prefix, word.as_slice());
    let mut index: Vec<u8> = Vec::new();
    push_u64(&mut index, nonce);
    let mut seeds: Vec<Vec<u8>> = Vec::new();
    seeds.push(prefix);
    seeds.push(bytes_from_array(&tree.bytes));
    seeds.push(index);
    assert(byte_strings(seeds@) =~= asset_seeds(tree@, nonce));
    seeds
}

/// Turns what the search for an address found into the outcome of the
/// derivation: the address, or the failure to find one.
pub fn asset_id_outcome(found: Option<(Pubkey, u8)>) -> (result: Result<Pubkey, Error>)
    ensures
        match found {
            Some((address, _)) => result == Ok::<Pubkey, Error>(address),
            None => result matches Err(e) && e matches Error::Bubblegum(m) && m@
                == asset_id_failure_text(),
        },
{
    match found {
        Some((address, _)) => Ok(address),
        None => Err(
            Error::Bubblegum(String::from_str("Unable to find a viable program address bump seed")),
        ),
    }
}

/// Derives the address of the asset at leaf `nonce` of `tree`.  It fails
/// exactly when the search finds no address.
pub fn get_asset_id(tree: Pubkey, nonce: u64) -> (result: Result<Pubkey, Error>)
    ensures
        match program_address(asset_seeds(tree@, nonce), MPL_BUBBLEGUM_ID@) {
            Some((address, _)) => result matches Ok(id) && id@ == address,
            None => result matches Err(e) && e matches Error::Bubblegum(m) && m@
                == asset_id_failure_text(),
        },
{
    let seeds = asset_seed_input(&tree, nonce);
    let program = bubblegum_program_id();
    asset_id_outcome(find_program_address(&seeds, &program))
}

} // verus!
