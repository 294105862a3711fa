//! The operations as a caller outside the library reaches them: every
//! address and digest is still a byte string of any length, every variant
//! still a number.  Each operation checks its inputs first, in a fixed
//! order, and reports the first that it cannot take; only then does it
//! build anything.

use vstd::prelude::*;
use crate::error::{wrong_length_text, Error};
use crate::encoding::metadata_encodable;
use crate::instructions::{
    create_tree_config, create_tree_config_view, mint_v1, mint_v1_data, mint_v1_view, transfer,
    transfer_view, tree_size_failure_text, tree_size_supported,
};
use crate::metadata::MetadataArgs;
use crate::programs::MPL_BUBBLEGUM_ID;
use crate::sdk::program_address;
use crate::transaction::{encoded, serialization_failure_prefix, MAX_INSTRUCTION_DATA};
use crate::types::{
    checked_metadata, digest_field, metadata_rejection, pubkey_field, ElixirHash, ElixirMetadata,
    ElixirMetadataView, ElixirPubkey,
};
use crate::utils::{
    asset_id_failure_text, asset_seeds, get_asset_id, hash_failure_text, hash_metadata,
    metadata_digest,
};

verus! {

/// Why the creation of a tree is refused before anything is built: the
/// message for the first address that does not have thirty-two bytes.
pub open spec fn create_tree_config_rejection(
    tree_config: Seq<u8>,
    merkle_tree: Seq<u8>,
    payer: Seq<u8>,
    tree_creator: Seq<u8>,
) -> Option<Seq<char>> {
    if tree_config.len() != 32 {
        Some(wrong_length_text("tree_config"@))
    } else if merkle_tree.len() != 32 {
        Some(wrong_length_text("merkle_tree"@))
    } else if payer.len() != 32 {
        Some(wrong_length_text("payer"@))
    } else if tree_creator.len() != 32 {
        Some(wrong_length_text("tree_creator"@))
    } else {
        None
    }
}

/// Creates the transaction that sets up a tree, from inputs as they are
/// supplied.
pub fn raw_create_tree_config(
    tree_config: ElixirPubkey,
    merkle_tree: ElixirPubkey,
    payer: ElixirPubkey,
    tree_creator: ElixirPubkey,
    max_depth: u32,
    max_buffer_size: u32,
    public: Option<bool>,
) -> (result: Result<Vec<u8>, Error>)
    ensures
        match create_tree_config_rejection(tree_config@, merkle_tree@, payer@, tree_creator@) {
            Some(text) => result matches Err(e) && e matches Error::InvalidParameter(m) && m@
                == text,
            None => {
                &&& result is Ok <==> tree_size_supported(max_depth, max_buffer_size)
                &&& result matches Ok(bytes) ==> bytes@ == encoded(
                    create_tree_config_view(
                        tree_config@,
                        merkle_tree@,
                        payer@,
                        tree_creator@,
                        max_depth,
                        max_buffer_size,
                        public,
                    ),
                )
                &&& result matches Err(e) ==> e matches Error::InvalidParameter(m) && m@
                    == tree_size_failure_text()
            },
        },
{
    let tree_config = match pubkey_field(&tree_config, "tree_config") {
        Ok(key) => key,
        Err(e) => {
            return Err(e);
        },
    };
    let merkle_tree = match pubkey_field(&merkle_tree, "merkle_tree") {
        Ok(key) => key,
        Err(e) => {
            return Err(e);
        },
    };
    let payer = match pubkey_field(&payer, "payer") {
        Ok(key) => key,
        Err(e) => {
            return Err(e);
        },
    };
    let tree_creator = match pubkey_field(&tree_creator, "tree_creator") {
        Ok(key) => key,
        Err(e) => {
            return Err(e);
        },
    };
    create_tree_config(
        tree_config,
        merkle_tree,
        payer,
        tree_creator,
        max_depth,
        max_buffer_size,
        public,
    )
}

/// Why a mint is refused before anything is built: the message for the
/// first address that does not have thirty-two bytes, or else for the
/// first field of the metadata that cannot be taken.
pub open spec fn mint_v1_rejection(
    tree_config: Seq<u8>,
    leaf_owner: Seq<u8>,
    leaf_delegate: Seq<u8>,
    merkle_tree: Seq<u8>,
    payer: Seq<u8>,
    tree_creator_or_delegate: Seq<u8>,
    metadata: ElixirMetadataView,
) -> Option<Seq<char>> {
    if tree_config.len() != 32 {
        Some(wrong_length_text("tree_config"@))
    } else if leaf_owner.len() != 32 {
        Some(wrong_length_text("leaf_owner"@))
    } else if leaf_delegate.len() != 32 {
        Some(wrong_length_text("leaf_delegate"@))
    } else if merkle_tree.len() != 32 {
        Some(wrong_length_text("merkle_tree"@))
    } else if payer.len() != 32 {
        Some(wrong_length_text("payer"@))
    } else if tree_creator_or_delegate.len() != 32 {
        Some(wrong_length_text("tree_creator_or_delegate"@))
    } else {
        metadata_rejection(metadata)
    }
}

/// Creates the transaction that mints an asset, from inputs as they are
/// supplied.
pub fn raw_mint_v1(
    tree_config: ElixirPubkey,
    leaf_owner: ElixirPubkey,
    leaf_delegate: ElixirPubkey,
    merkle_tree: ElixirPubkey,
    payer: ElixirPubkey,
    tree_creator_or_delegate: ElixirPubkey,
    metadata: ElixirMetadata,
) -> (result: Result<Vec<u8>, Error>)
    ensures
        match mint_v1_rejection(
            tree_config@,
            leaf_owner@,
            leaf_delegate@,
            merkle_tree@,
            payer@,
            tree_creator_or_delegate@,
            metadata@,
        ) {
            Some(text) => result matches Err(e) && e matches Error::InvalidParameter(m) && m@
                == text,
            None => {
                &&& result is Ok <==> metadata_encodable(checked_metadata(metadata@))
                    && mint_v1_data(checked_metadata(metadata@)).len() <= MAX_INSTRUCTION_DATA
                &&& result matches Ok(bytes) ==> bytes@ == encoded(
                    mint_v1_view(
                        tree_config@,
                        leaf_owner@,
                        leaf_delegate@,
                        merkle_tree@,
                        payer@,
                        tree_creator_or_delegate@,
                        checked_metadata(metadata@),
                    ),
                )
                &&& result matches Err(e) ==> e matches Error::Conversion(m)
                    && serialization_failure_prefix().is_prefix_of(m@)
            },
        },
{
    let tree_config = match pubkey_field(&tree_config, "tree_config") {
        Ok(key) => key,
        Err(e) => {
            return Err(e);
        },
    };
    let leaf_owner = match pubkey_field(&leaf_owner, "leaf_owner") {
        Ok(key) => key,
        Err(e) => {
            return Err(e);
        },
    };
    let leaf_delegate = match pubkey_field(&leaf_delegate, "leaf_delegate") {
        Ok(key) => key,
        Err(e) => {
            return Err(e);
        },
    };
    let merkle_tree = match pubkey_field(&merkle_tree, "merkle_tree") {
        Ok(key) => key,
        Err(e) => {
            return Err(e);
        },
    };
    let payer = match pubkey_field(&payer, "payer") {
        Ok(key) => key,
        Err(e) => {
            return Err(e);
        },
    };
    let tree_creator_or_delegate = match pubkey_field(
        &tree_creator_or_delegate,
        "tree_creator_or_delegate",
    ) {
        Ok(key) => key,
        Err(e) => {
            return Err(e);
        },
    };
    let metadata = match MetadataArgs::try_from(metadata) {
        Ok(metadata) => metadata,
        Err(e) => {
            return Err(e);
        },
    };
    mint_v1(
        tree_config,
        leaf_owner,
        leaf_delegate,
        merkle_tree,
        payer,
        tree_creator_or_delegate,
        metadata,
    )
}

/// Why a transfer is refused before anything is built: the message for
/// the first digest, and then the first address, that does not have
/// thirty-two bytes.
pub open spec fn transfer_rejection(
    tree_config: Seq<u8>,
    leaf_owner: Seq<u8>,
    leaf_delegate: Seq<u8>,
    new_leaf_owner: Seq<u8>,
    merkle_tree: Seq<u8>,
    root: Seq<u8>,
    data_hash: Seq<u8>,
    creator_hash: Seq<u8>,
) -> Option<Seq<char>> {
    if root.len() != 32 {
        Some(wrong_length_text("root"@))
    } else if data_hash.len() != 32 {
        Some(wrong_length_text("data_hash"@))
    } else if creator_hash.len() != 32 {
        Some(wrong_length_text("creator_hash"@))
    } else if tree_config.len() != 32 {
        Some(wrong_length_text("tree_config"@))
    } else if leaf_owner.len() != 32 {
        Some(wrong_length_text("leaf_owner"@))
    } else if leaf_delegate.len() != 32 {
        Some(wrong_length_text("leaf_delegate"@))
    } else if new_leaf_owner.len() != 32 {
        Some(wrong_length_text("new_leaf_owner"@))
    } else if merkle_tree.len() != 32 {
        Some(wrong_length_text("merkle_tree"@))
    } else {
        None
    }
}

/// Creates the transaction that hands a leaf to a new owner, from inputs
/// as they are supplied.
pub fn raw_transfer(
    tree_config: ElixirPubkey,
    leaf_owner: ElixirPubkey,
    leaf_delegate: ElixirPubkey,
    new_leaf_owner: ElixirPubkey,
    merkle_tree: ElixirPubkey,
    root: Vec<u8>,
    data_hash: Vec<u8>,
    creator_hash: Vec<u8>,
    nonce: u64,
    index: u32,
) -> (result: Result<Vec<u8>, Error>)
    ensures
        match transfer_rejection(
            tree_config@,
            leaf_owner@,
            leaf_delegate@,
            new_leaf_owner@,
            merkle_tree@,
            root@,
            data_hash@,
            creator_hash@,
        ) {
            Some(text) => result matches Err(e) && e matches Error::InvalidParameter(m) && m@
                == text,
            None => result matches Ok(bytes) && bytes@ == encoded(
                transfer_view(
                    tree_config@,
                    leaf_owner@,
                    leaf_delegate@,
                    new_leaf_owner@,
                    merkle_tree@,
                    root@,
                    data_hash@,
                    creator_hash@,
                    nonce,
                    index,
                ),
            ),
        },
{
    let root = match digest_field(&root, "root") {
        Ok(digest) => digest,
        Err(e) => {
            return Err(e);
        },
    };
    let data_hash = match digest_field(&data_hash, "data_hash") {
        Ok(digest) => digest,
        Err(e) => {
            return Err(e);
        },
    };
    let creator_hash = match digest_field(&creator_hash, "creator_hash") {
        Ok(digest) => digest,
        Err(e) => {
            return Err(e);
        },
    };
    let tree_config = match pubkey_field(&tree_config, "tree_config") {
        Ok(key) => key,
        Err(e) => {
            return Err(e);
        },
    };
    let leaf_owner = match pubkey_field(&leaf_owner, "leaf_owner") {
        Ok(key) => key,
        Err(e) => {
            return Err(e);
        },
    };
    let leaf_delegate = match pubkey_field(&leaf_delegate, "leaf_delegate") {
        Ok(key) => key,
        Err(e) => {
            return Err(e);
        },
    };
    let new_leaf_owner = match pubkey_field(&new_leaf_owner, "new_leaf_owner") {
        Ok(key) => key,
        Err(e) => {
            return Err(e);
        },
    };
    let merkle_tree = match pubkey_field(&merkle_tree, "merkle_tree") {
        Ok(key) => key,
        Err(e) => {
            return Err(e);
        },
    };
    transfer(
        tree_config,
        leaf_owner,
        leaf_delegate,
        new_leaf_owner,
        merkle_tree,
        root,
        data_hash,
        creator_hash,
        nonce,
        index,
    )
}

/// Computes the digest of metadata as they are supplied.
pub fn raw_hash_metadata(metadata: ElixirMetadata) -> (result: Result<ElixirHash, Error>)
    ensures
        match metadata_rejection(metadata@) {
            Some(text) => result matches Err(e) && e matches Error::InvalidParameter(m) && m@
                == text,
            None => {
                &&& result is Ok <==> metadata_encodable(checked_metadata(metadata@))
                &&& result matches Ok(hash) ==> hash@ == metadata_digest(
                    checked_metadata(metadata@),
                )
                &&& result matches Err(e) ==> e matches Error::Bubblegum(m) && m@
                    == hash_failure_text()
            },
        },
{
    let metadata = match MetadataArgs::try_from(metadata) {
        Ok(metadata) => metadata,
        Err(e) => {
            return Err(e);
        },
    };
    match hash_metadata(metadata) {
        Ok(digest) => Ok(ElixirHash::from(digest)),
        Err(e) => Err(e),
    }
}

/// Derives the address of an asset from a tree as it is supplied.
pub fn raw_get_asset_id(tree: ElixirPubkey, nonce: u64) -> (result: Result<ElixirPubkey, Error>)
    ensures
        if tree@.len() != 32 {
            result matches Err(e) && e matches Error::InvalidParameter(m) && m@
                == wrong_length_text("tree"@)
        } else {
            match program_address(asset_seeds(tree@, nonce), MPL_BUBBLEGUM_ID@) {
                Some((address, _)) => result matches Ok(id) && id@ == address,
                None => result matches Err(e) && e matches Error::Bubblegum(m) && m@
                    == asset_id_failure_text(),
            }
        },
{
    let tree = match pubkey_field(&tree, "tree") {
        Ok(key) => key,
        Err(e) => {
            return Err(e);
        },
    };
    match get_asset_id(tree, nonce) {
        Ok(id) => Ok(ElixirPubkey::from(id)),
        Err(e) => Err(e),
    }
}

} // verus!
