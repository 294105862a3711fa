//! The leaf payload of a compressed asset: what is hashed into a leaf and
//! what a mint instruction carries.

use vstd::prelude::*;
use crate::pubkey::Pubkey;

verus! {

/// Which token program an asset follows.
#[derive(Clone, Copy, Debug, PartialEq, Eq)]
pub enum TokenProgramVersion {
    Original,
    Token2022,
}

impl TokenProgramVersion {
    /// The number that stands for the variant on the wire.
    pub open spec fn code(self) -> u8 {
        match self {
            TokenProgramVersion::Original => 0,
            TokenProgramVersion::Token2022 => 1,
        }
    }

    /// The variant that a number stands for, if any.
    pub open spec fn of_code(code: u8) -> Option<TokenProgramVersion> {
        if code == 0 {
            Some(TokenProgramVersion::Original)
        } else if code == 1 {
            Some(TokenProgramVersion::Token2022)
        } else {
            None
        }
    }

    /// The number that stands for the variant.
    pub fn to_code(self) -> (code: u8)
        ensures
            code == self.code(),
    {
        match self {
            TokenProgramVersion::Original => 0,
            TokenProgramVersion::Token2022 => 1,
        }
    }

    /// The variant that `code` stands for; `None` for any other number.
    pub fn from_code(code: u8) -> (version: Option<TokenProgramVersion>)
        ensures
            version == Self::of_code(code),
    {
        match code {
            0 => Some(TokenProgramVersion::Original),
            1 => Some(TokenProgramVersion::Token2022),
            _ => None,
        }
    }
}

/// The kind of token an asset is.
#[derive(Clone, Copy, Debug, PartialEq, Eq)]
pub enum TokenStandard {
    NonFungible,
    FungibleAsset,
    Fungible,
    NonFungibleEdition,
}

impl TokenStandard {
    /// The number that stands for the variant on the wire.
    pub open spec fn code(self) -> u8 {
        match self {
            TokenStandard::NonFungible => 0,
            TokenStandard::FungibleAsset => 1,
            TokenStandard::Fungible => 2,
            TokenStandard::NonFungibleEdition => 3,
        }
    }

    /// The variant that a number stands for, if any.
    pub open spec fn of_code(code: u8) -> Option<TokenStandard> {
        if code == 0 {
            Some(TokenStandard::NonFungible)
        } else if code == 1 {
            Some(TokenStandard::FungibleAsset)
        } else if code == 2 {
            Some(TokenStandard::Fungible)
        } else if code == 3 {
            Some(TokenStandard::NonFungibleEdition)
        } else {
            None
        }
    }

    /// The number that stands for the variant.
    pub fn to_code(self) -> (code: u8)
        ensures
            code == self.code(),
    {
        match self {
            TokenStandard::NonFungible => 0,
            TokenStandard::FungibleAsset => 1,
            TokenStandard::Fungible => 2,
            TokenStandard::NonFungibleEdition => 3,
        }
    }

    /// The variant that `code` stands for; `None` for any other number.
    pub fn from_code(code: u8) -> (standard: Option<TokenStandard>)
        ensures
            standard == Self::of_code(code),
    {
        match code {
            0 => Some(TokenStandard::NonFungible),
            1 => Some(TokenStandard::FungibleAsset),
            2 => Some(TokenStandard::Fungible),
            3 => Some(TokenStandard::NonFungibleEdition),
            _ => None,
        }
    }
}

/// How the uses of an asset are counted down.
#[derive(Clone, Copy, Debug, PartialEq, Eq)]
pub enum UseMethod {
    Burn,
    Multiple,
    Single,
}

impl UseMethod {
    /// The number that stands for the variant on the wire.
    pub open spec fn code(self) -> u8 {
        match self {
            UseMethod::Burn => 0,
            UseMethod::Multiple => 1,
            UseMethod::Single => 2,
        }
    }

    /// The variant that a number stands for, if any.
    pub open spec fn of_code(code: u8) -> Option<UseMethod> {
        if code == 0 {
            Some(UseMethod::Burn)
        } else if code == 1 {
            Some(UseMethod::Multiple)
        } else if code == 2 {
            Some(UseMethod::Single)
        } else {
            None
        }
    }

    /// The number that stands for the variant.
    pub fn to_code(self) -> (code: u8)
        ensures
            code == self.code(),
    {
        match self {
            UseMethod::Burn => 0,
            UseMethod::Multiple => 1,
            UseMethod::Single => 2,
        }
    }

    /// The variant that `code` stands for; `None` for any other number.
    pub fn from_code(code: u8) -> (method: Option<UseMethod>)
        ensures
            method == Self::of_code(code),
    {
        match code {
            0 => Some(UseMethod::Burn),
            1 => Some(UseMethod::Multiple),
            2 => Some(UseMethod::Single),
            _ => None,
        }
    }
}

/// One creator of an asset.  The order of creators is part of what is
/// hashed, and the shares are not summed here.
#[derive(Clone, Copy, Debug, PartialEq, Eq)]
pub struct Creator {
    pub address: Pubkey,
    pub verified: bool,
    pub share: u8,
}

/// A creator as a mathematical value.
pub struct CreatorView {
    pub address: Seq<u8>,
    pub verified: bool,
    pub share: u8,
}

impl View for Creator {
    type V = CreatorView;

    open spec fn view(&self) -> CreatorView {
        CreatorView { address: self.address@, verified: self.verified, share: self.share }
    }
}

/// The creators of a list, each as a mathematical value.
pub open spec fn creator_views(creators: Seq<Creator>) -> Seq<CreatorView> {
    creators.map_values(|c: Creator| c@)
}

/// Every creator of a list has an address of thirty-two bytes.
pub open spec fn creators_well_formed(creators: Seq<CreatorView>) -> bool {
    forall|i: int| 0 <= i < creators.len() ==> (#[trigger] creators[i]).address.len() == 32
}

/// The collection an asset belongs to.
#[derive(Clone, Copy, Debug, PartialEq, Eq)]
pub struct Collection {
    pub verified: bool,
    pub key: Pubkey,
}

/// A collection as a mathematical value.
pub struct CollectionView {
    pub verified: bool,
    pub key: Seq<u8>,
}

impl View for Collection {
    type V = CollectionView;

    open spec fn view(&self) -> CollectionView {
        CollectionView { verified: self.verified, key: self.key@ }
    }
}

/// How often an asset may be used, and how often it still can be.
#[derive(Clone, Copy, Debug, PartialEq, Eq)]
pub struct Uses {
    pub use_method: UseMethod,
    pub remaining: u64,
    pub total: u64,
}

/// The full description of a compressed asset.
#[derive(Clone, Debug, PartialEq, Eq)]
pub struct MetadataArgs {
    pub name: String,
    pub symbol: String,
    pub uri: String,
    pub seller_fee_basis_points: u16,
    pub primary_sale_happened: bool,
    pub is_mutable: bool,
    pub edition_nonce: Option<u8>,
    pub token_standard: Option<TokenStandard>,
    pub collection: Option<Collection>,
    pub uses: Option<Uses>,
    pub token_program_version: TokenProgramVersion,
    pub creators: Vec<Creator>,
}

/// A `MetadataArgs` as a mathematical value.
pub struct MetadataView {
    pub name: Seq<char>,
    pub symbol: Seq<char>,
    pub uri: Seq<char>,
    pub seller_fee_basis_points: u16,
    pub primary_sale_happened: bool,
    pub is_mutable: bool,
    pub edition_nonce: Option<u8>,
    pub token_standard: Option<TokenStandard>,
    pub collection: Option<CollectionView>,
    pub uses: Option<Uses>,
    pub token_program_version: TokenProgramVersion,
    pub creators: Seq<CreatorView>,
}

impl MetadataView {
    /// Every address in the metadata has thirty-two bytes.
    pub open spec fn well_formed(self) -> bool {
        &&& self.collection is Some ==> self.collection.unwrap().key.len() == 32
        &&& creators_well_formed(self.creators)
    }
}

impl View for MetadataArgs {
    type V = MetadataView;

    open spec fn view(&self) -> MetadataView {
        MetadataView {
            name: self.name@,
            symbol: self.symbol@,
            uri: self.uri@,
            seller_fee_basis_points: self.seller_fee_basis_points,
            primary_sale_happened: self.primary_sale_happened,
            is_mutable: self.is_mutable,
            edition_nonce: self.edition_nonce,
            token_standard: self.token_standard,
            collection: match self.collection {
                Some(c) => Some(c@),
                None => None,
            },
            uses: self.uses,
            token_program_version: self.token_program_version,
            creators: creator_views(self.creators@),
        }
    }
}

/// Metadata that the library holds are well formed: an address is
/// thirty-two bytes by its type.
pub proof fn lemma_metadata_well_formed(m: MetadataArgs)
    ensures
        m@.well_formed(),
{
}

} // verus!
