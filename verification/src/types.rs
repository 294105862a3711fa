//! The values that callers hand in, before they have been checked, and the
//! conversions that check them.
//!
//! An address or a digest arrives as a byte string of any length and a
//! variant arrives as a small number.  A conversion succeeds exactly when
//! every byte string has thirty-two bytes and every number stands for a
//! variant; otherwise it reports the first field that does not.
//!
//! The conversions are the standard `From` and `TryFrom`.  What each does
//! is stated on its own `from` or `try_from`: the specification functions
//! that go with the two traits cannot name a value that holds a `Vec` or a
//! `String`, so they are left open.

use vstd::prelude::*;
use vstd::std_specs::convert::{FromSpecImpl, TryFromSpecImpl};
use crate::error::{undefined_code_text, wrong_length_text, Error};
use crate::metadata::{
    creator_views, creators_well_formed, Collection, CollectionView, Creator, CreatorView,
    MetadataArgs, MetadataView, TokenProgramVersion, TokenStandard, UseMethod, Uses,
};
use crate::pubkey::{array_from_bytes, bytes_from_array, Pubkey};

verus! {

/// An address as the caller supplies it.
#[derive(Debug, Clone)]
pub struct ElixirPubkey {
    pub bytes: Vec<u8>,
}

impl View for ElixirPubkey {
    type V = Seq<u8>;

    open spec fn view(&self) -> Seq<u8> {
        self.bytes@
    }
}

/// A digest as the caller supplies it.
#[derive(Debug, Clone)]
pub struct ElixirHash {
    pub bytes: Vec<u8>,
}

impl View for ElixirHash {
    type V = Seq<u8>;

    open spec fn view(&self) -> Seq<u8> {
        self.bytes@
    }
}

/// A creator as the caller supplies it.
#[derive(Debug, Clone)]
pub struct ElixirCreator {
    pub address: ElixirPubkey,
    pub verified: bool,
    pub share: u8,
}

impl View for ElixirCreator {
    type V = CreatorView;

    open spec fn view(&self) -> CreatorView {
        CreatorView { address: self.address@, verified: self.verified, share: self.share }
    }
}

/// A collection as the caller supplies it.
#[derive(Debug, Clone)]
pub struct ElixirCollection {
    pub verified: bool,
    pub key: ElixirPubkey,
}

impl View for ElixirCollection {
    type V = CollectionView;

    open spec fn view(&self) -> CollectionView {
        CollectionView { verified: self.verified, key: self.key@ }
    }
}

/// Uses as the caller supplies them.
#[derive(Debug, Clone, Copy)]
pub struct ElixirUses {
    pub use_method: u8,
    pub remaining: u64,
    pub total: u64,
}

/// Metadata as the caller supplies it.
#[derive(Debug, Clone)]
pub struct ElixirMetadata {
    pub name: String,
    pub symbol: String,
    pub uri: String,
    pub seller_fee_basis_points: u16,
    pub primary_sale_happened: bool,
    pub is_mutable: bool,
    pub edition_nonce: Option<u8>,
    pub token_standard: Option<u8>,
    pub collection: Option<ElixirCollection>,
    pub uses: Option<ElixirUses>,
    pub token_program_version: u8,
    pub creators: Vec<ElixirCreator>,
}

/// An `ElixirMetadata` as a mathematical value.
pub struct ElixirMetadataView {
    pub name: Seq<char>,
    pub symbol: Seq<char>,
    pub uri: Seq<char>,
    pub seller_fee_basis_points: u16,
    pub primary_sale_happened: bool,
    pub is_mutable: bool,
    pub edition_nonce: Option<u8>,
    pub token_standard: Option<u8>,
    pub collection: Option<CollectionView>,
    pub uses: Option<ElixirUses>,
    pub token_program_version: u8,
    pub creators: Seq<CreatorView>,
}

impl View for ElixirMetadata {
    type V = ElixirMetadataView;

    open spec fn view(&self) -> ElixirMetadataView {
        ElixirMetadataView {
            name: self.name@,
            symbol: self.symbol@,
            uri: self.uri@,
            seller_fee_basis_points: self.seller_fee_basis_points,
            primary_sale_happened: self.primary_sale_happened,
            is_mutable: self.is_mutable,
            edition_nonce: self.edition_nonce,
            token_standard: self.token_standard,
            collection: match self.collection {
                Some(c) => Some(c@),
                None => None,
            },
            uses: self.uses,
            token_program_version: self.token_program_version,
            creators: raw_creator_views(self.creators@),
        }
    }
}

/// The supplied creators of a list, each as a mathematical value.
pub open spec fn raw_creator_views(creators: Seq<ElixirCreator>) -> Seq<CreatorView> {
    creators.map_values(|c: ElixirCreator| c@)
}

/// The uses that supplied uses stand for, where their method is defined.
pub open spec fn checked_uses(raw: ElixirUses) -> Option<Uses> {
    match UseMethod::of_code(raw.use_method) {
        Some(use_method) => Some(Uses { use_method, remaining: raw.remaining, total: raw.total }),
        None => None,
    }
}

/// The metadata that supplied metadata stand for, where nothing in them
/// is refused: every number replaced by its variant, all else as it is.
pub open spec fn checked_metadata(raw: ElixirMetadataView) -> MetadataView {
    MetadataView {
        name: raw.name,
        symbol: raw.symbol,
        uri: raw.uri,
        seller_fee_basis_points: raw.seller_fee_basis_points,
        primary_sale_happened: raw.primary_sale_happened,
        is_mutable: raw.is_mutable,
        edition_nonce: raw.edition_nonce,
        token_standard: match raw.token_standard {
            Some(code) => TokenStandard::of_code(code),
            None => None,
        },
        collection: raw.collection,
        uses: match raw.uses {
            Some(u) => checked_uses(u),
            None => None,
        },
        token_program_version: TokenProgramVersion::of_code(raw.token_program_version).unwrap(),
        creators: raw.creators,
    }
}

/// Why supplied metadata are refused: the message for the first field, in
/// the order version, standard, collection, uses, creators, that cannot
/// be taken; `None` where every field can.
pub open spec fn metadata_rejection(raw: ElixirMetadataView) -> Option<Seq<char>> {
    if TokenProgramVersion::of_code(raw.token_program_version) is None {
        Some(undefined_code_text("token program version"@, raw.token_program_version))
    } else if raw.token_standard is Some && TokenStandard::of_code(raw.token_standard.unwrap())
        is None {
        Some(undefined_code_text("token standard"@, raw.token_standard.unwrap()))
    } else if raw.collection is Some && raw.collection.unwrap().key.len() != 32 {
        Some(wrong_length_text("collection.key"@))
    } else if raw.uses is Some && UseMethod::of_code(raw.uses.unwrap().use_method) is None {
        Some(undefined_code_text("use method"@, raw.uses.unwrap().use_method))
    } else if !creators_well_formed(raw.creators) {
        Some(wrong_length_text("creator.address"@))
    } else {
        None
    }
}

/// Takes a byte string as the address in `field`: accepted exactly when it
/// has thirty-two bytes.
pub fn pubkey_field(raw: &ElixirPubkey, field: &str) -> (result: Result<Pubkey, Error>)
    ensures
        result is Ok <==> raw@.len() == 32,
        result matches Ok(key) ==> key@ == raw@,
        result matches Err(e) ==> e matches Error::InvalidParameter(m) && m@ == wrong_length_text(
            field@,
        ),
{
    match array_from_bytes(&raw.bytes) {
        Some(bytes) => Ok(Pubkey { bytes }),
        None => Err(Error::wrong_length(field)),
    }
}

/// Takes a byte string as the digest in `field`: accepted exactly when it
/// has thirty-two bytes.
pub fn digest_field(raw: &Vec<u8>, field: &str) -> (result: Result<[u8; 32], Error>)
    ensures
        result is Ok <==> raw@.len() == 32,
        result matches Ok(digest) ==> digest@ == raw@,
        result matches Err(e) ==> e matches Error::InvalidParameter(m) && m@ == wrong_length_text(
            field@,
        ),
{
    match array_from_bytes(raw) {
        Some(bytes) => Ok(bytes),
        None => Err(Error::wrong_length(field)),
    }
}

impl TryFrom<ElixirPubkey> for Pubkey {
    type Error = Error;

    /// Takes a supplied address: accepted exactly when it has thirty-two
    /// bytes.
    fn try_from(pubkey: ElixirPubkey) -> (result: Result<Pubkey, Error>)
        ensures
            result is Ok <==> pubkey@.len() == 32,
            result matches Ok(key) ==> key@ == pubkey@,
            result matches Err(e) ==> e matches Error::InvalidParameter(m) && m@
                == wrong_length_text("pubkey"@),
    {
        pubkey_field(&pubkey, "pubkey")
    }
}

impl TryFromSpecImpl<ElixirPubkey> for Pubkey {
    open spec fn obeys_try_from_spec() -> bool {
        false
    }

    open spec fn try_from_spec(pubkey: ElixirPubkey) -> Result<Pubkey, Error> {
        arbitrary()
    }
}

impl From<Pubkey> for ElixirPubkey {
    /// An address as a caller would supply it.
    fn from(pubkey: Pubkey) -> (raw: ElixirPubkey)
        ensures
            raw@ == pubkey@,
    {
        ElixirPubkey { bytes: bytes_from_array(&pubkey.bytes) }
    }
}

impl FromSpecImpl<Pubkey> for ElixirPubkey {
    open spec fn obeys_from_spec() -> bool {
        false
    }

    open spec fn from_spec(pubkey: Pubkey) -> ElixirPubkey {
        arbitrary()
    }
}

impl TryFrom<ElixirHash> for [u8; 32] {
    type Error = Error;

    /// Takes a supplied digest: accepted exactly when it has thirty-two
    /// bytes.
    fn try_from(hash: ElixirHash) -> (result: Result<[u8; 32], Error>)
        ensures
            result is Ok <==> hash@.len() == 32,
            result matches Ok(digest) ==> digest@ == hash@,
            result matches Err(e) ==> e matches Error::InvalidParameter(m) && m@
                == wrong_length_text("hash"@),
    {
        digest_field(&hash.bytes, "hash")
    }
}

impl TryFromSpecImpl<ElixirHash> for [u8; 32] {
    open spec fn obeys_try_from_spec() -> bool {
        false
    }

    open spec fn try_from_spec(hash: ElixirHash) -> Result<[u8; 32], Error> {
        arbitrary()
    }
}

impl From<[u8; 32]> for ElixirHash {
    /// A digest as a caller would supply it.
    fn from(hash: [u8; 32]) -> (raw: ElixirHash)
        ensures
            raw@ == hash@,
    {
        ElixirHash { bytes: bytes_from_array(&hash) }
    }
}

impl FromSpecImpl<[u8; 32]> for ElixirHash {
    open spec fn obeys_from_spec() -> bool {
        false
    }

    open spec fn from_spec(hash: [u8; 32]) -> ElixirHash {
        arbitrary()
    }
}

/// Checks one supplied creator.
pub fn creator_from_raw(raw: &ElixirCreator) -> (result: Result<Creator, Error>)
    ensures
        result is Ok <==> raw@.address.len() == 32,
        result matches Ok(creator) ==> creator@ == raw@,
        result matches Err(e) ==> e matches Error::InvalidParameter(m) && m@ == wrong_length_text(
            "creator.address"@,
        ),
{
    match pubkey_field(&raw.address, "creator.address") {
        Ok(address) => Ok(Creator { address, verified: raw.verified, share: raw.share }),
        Err(e) => Err(e),
    }
}

impl TryFrom<ElixirCreator> for Creator {
    type Error = Error;

    /// Takes a supplied creator: accepted exactly when its address has
    /// thirty-two bytes.
    fn try_from(creator: ElixirCreator) -> (result: Result<Creator, Error>)
        ensures
            result is Ok <==> creator@.address.len() == 32,
            result matches Ok(c) ==> c@ == creator@,
            result matches Err(e) ==> e matches Error::InvalidParameter(m) && m@
                == wrong_length_text("creator.address"@),
    {
        creator_from_raw(&creator)
    }
}

impl TryFromSpecImpl<ElixirCreator> for Creator {
    open spec fn obeys_try_from_spec() -> bool {
        false
    }

    open spec fn try_from_spec(creator: ElixirCreator) -> Result<Creator, Error> {
        arbitrary()
    }
}

impl From<Creator> for ElixirCreator {
    /// A creator as a caller would supply it.
    fn from(creator: Creator) -> (raw: ElixirCreator)
        ensures
            raw@ == creator@,
    {
        ElixirCreator {
            address: ElixirPubkey::from(creator.address),
            verified: creator.verified,
            share: creator.share,
        }
    }
}

impl FromSpecImpl<Creator> for ElixirCreator {
    open spec fn obeys_from_spec() -> bool {
        false
    }

    open spec fn from_spec(creator: Creator) -> ElixirCreator {
        arbitrary()
    }
}

impl TryFrom<ElixirCollection> for Collection {
    type Error = Error;

    /// Takes a supplied collection: accepted exactly when its key has
    /// thirty-two bytes.
    fn try_from(collection: ElixirCollection) -> (result: Result<Collection, Error>)
        ensures
            result is Ok <==> collection@.key.len() == 32,
            result matches Ok(c) ==> c@ == collection@,
            result matches Err(e) ==> e matches Error::InvalidParameter(m) && m@
                == wrong_length_text("collection.key"@),
    {
        match pubkey_field(&collection.key, "collection.key") {
            Ok(key) => Ok(Collection { verified: collection.verified, key }),
            Err(e) => Err(e),
        }
    }
}

impl TryFromSpecImpl<ElixirCollection> for Collection {
    open spec fn obeys_try_from_spec() -> bool {
        false
    }

    open spec fn try_from_spec(collection: ElixirCollection) -> Result<Collection, Error> {
        arbitrary()
    }
}

impl TryFrom<ElixirUses> for Uses {
    type Error = Error;

    /// Takes supplied uses: accepted exactly when the number of the method
    /// stands for a method.
    fn try_from(uses: ElixirUses) -> (result: Result<Uses, Error>)
        ensures
            result is Ok <==> UseMethod::of_code(uses.use_method) is Some,
            result matches Ok(u) ==> Some(u) == checked_uses(uses),
            result matches Err(e) ==> e matches Error::InvalidParameter(m) && m@
                == undefined_code_text("use method"@, uses.use_method),
    {
        match UseMethod::from_code(uses.use_method) {
            Some(use_method) => Ok(Uses { use_method, remaining: uses.remaining, total: uses.total }),
            None => Err(Error::undefined_code("use method", uses.use_method)),
        }
    }
}

impl TryFromSpecImpl<ElixirUses> for Uses {
    open spec fn obeys_try_from_spec() -> bool {
        false
    }

    open spec fn try_from_spec(uses: ElixirUses) -> Result<Uses, Error> {
        arbitrary()
    }
}

/// Checks supplied creators one by one, keeping their order.
pub fn creators_from_raw(raw: &Vec<ElixirCreator>) -> (result: Result<Vec<Creator>, Error>)
    ensures
        result is Ok <==> creators_well_formed(raw_creator_views(raw@)),
        result matches Ok(creators) ==> creator_views(creators@) == raw_creator_views(raw@),
        result matches Err(e) ==> e matches Error::InvalidParameter(m) && m@ == wrong_length_text(
            "creator.address"@,
        ),
{
    let ghost views = raw_creator_views(raw@);
    let mut creators: Vec<Creator> = Vec::with_capacity(raw.len());
    let mut i: usize = 0;
    while i < raw.len()
        invariant
            i <= raw.len(),
            views == raw_creator_views(raw@),
            views.len() == raw.len(),
            creators@.len() == i,
            forall|j: int| 0 <= j < i ==> (#[trigger] views[j]).address.len() == 32,
            forall|j: int| 0 <= j < i ==> (#[trigger] creators@[j])@ == views[j],
        decreases raw.len() - i,
    {
        assert(views[i as int] == raw@[i as int]@);
        match creator_from_raw(&raw[i]) {
            Ok(creator) => {
                creators.push(creator);
            },
            Err(e) => {
                assert(!creators_well_formed(views));
                return Err(e);
            },
        }
        i += 1;
    }
    assert(creator_views(creators@) =~= views);
    Ok(creators)
}

impl TryFrom<ElixirMetadata> for MetadataArgs {
    type Error = Error;

    /// Takes supplied metadata: the version first, then the standard, the
    /// collection, the uses and the creators; refused with the message for
    /// the first of them that cannot be taken.
    fn try_from(metadata: ElixirMetadata) -> (result: Result<MetadataArgs, Error>)
        ensures
            result is Ok <==> metadata_rejection(metadata@) is None,
            result matches Ok(m) ==> m@ == checked_metadata(metadata@),
            result matches Err(e) ==> e matches Error::InvalidParameter(m) && Some(m@)
                == metadata_rejection(metadata@),
    {
        let token_program_version = match TokenProgramVersion::from_code(
            metadata.token_program_version,
        ) {
            Some(version) => version,
            None => {
                return Err(
                    Error::undefined_code("token program version", metadata.token_program_version),
                );
            },
        };

        let token_standard = match metadata.token_standard {
            Some(code) => match TokenStandard::from_code(code) {
                Some(standard) => Some(standard),
                None => {
                    return Err(Error::undefined_code("token standard", code));
                },
            },
            None => None,
        };

        let collection = match &metadata.collection {
            Some(c) => match pubkey_field(&c.key, "collection.key") {
                Ok(key) => Some(Collection { verified: c.verified, key }),
                Err(e) => {
                    return Err(e);
                },
            },
            None => None,
        };

        let uses = match metadata.uses {
            Some(u) => match Uses::try_from(u) {
                Ok(uses) => Some(uses),
                Err(e) => {
                    return Err(e);
                },
            },
            None => None,
        };

        let creators = match creators_from_raw(&metadata.creators) {
            Ok(creators) => creators,
            Err(e) => {
                return Err(e);
            },
        };

        Ok(
            MetadataArgs {
                name: metadata.name,
                symbol: metadata.symbol,
                uri: metadata.uri,
                seller_fee_basis_points: metadata.seller_fee_basis_points,
                primary_sale_happened: metadata.primary_sale_happened,
                is_mutable: metadata.is_mutable,
                edition_nonce: metadata.edition_nonce,
                token_standard,
                collection,
                uses,
                token_program_version,
                creators,
            },
        )
    }
}

impl TryFromSpecImpl<ElixirMetadata> for MetadataArgs {
    open spec fn obeys_try_from_spec() -> bool {
        false
    }

    open spec fn try_from_spec(metadata: ElixirMetadata) -> Result<MetadataArgs, Error> {
        arbitrary()
    }
}

} // verus!
