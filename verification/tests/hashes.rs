use mpl_bubblegum::encoding::metadata_to_bytes;
use mpl_bubblegum::error::Error;
use mpl_bubblegum::metadata::{
    Collection, Creator, MetadataArgs, TokenProgramVersion, TokenStandard, UseMethod, Uses,
};
use mpl_bubblegum::pubkey::Pubkey;
use mpl_bubblegum::types::{ElixirCreator, ElixirPubkey};
use mpl_bubblegum::utils::{
    creator_hash_input, data_hash_input, hash_creators, hash_metadata,
};

fn supplied_creator(byte: u8, verified: bool, share: u8) -> ElixirCreator {
    ElixirCreator { address: ElixirPubkey { bytes: vec![byte; 32] }, verified, share }
}

fn checked_creator(byte: u8, verified: bool, share: u8) -> Creator {
    Creator { address: Pubkey::new_from_array([byte; 32]), verified, share }
}

fn hashed_metadata() -> MetadataArgs {
    MetadataArgs {
        name: String::from("Solana NFT"),
        symbol: String::from("SNFT"),
        uri: String::from("https://example.com/nft.json"),
        seller_fee_basis_points: 500,
        primary_sale_happened: false,
        is_mutable: true,
        edition_nonce: None,
        token_standard: Some(TokenStandard::NonFungible),
        collection: None,
        uses: None,
        token_program_version: TokenProgramVersion::Original,
        creators: vec![checked_creator(1, true, 60), checked_creator(2, false, 40)],
    }
}

fn hashed_metadata_in_full() -> MetadataArgs {
    MetadataArgs {
        name: String::from("\u{dc}n\u{ef}c\u{f6}d\u{e9}"),
        symbol: String::from("U"),
        uri: String::new(),
        seller_fee_basis_points: 0,
        primary_sale_happened: true,
        is_mutable: false,
        edition_nonce: Some(7),
        token_standard: Some(TokenStandard::NonFungibleEdition),
        collection: Some(Collection { verified: true, key: Pubkey::new_from_array([9; 32]) }),
        uses: Some(Uses { use_method: UseMethod::Single, remaining: 10, total: 20 }),
        token_program_version: TokenProgramVersion::Token2022,
        creators: Vec::new(),
    }
}

#[test]
fn hash_of_no_creators_is_the_digest_of_nothing() {
    let digest = hash_creators(Vec::new()).unwrap();
    let expected: [u8; 32] = [
        0xc5, 0xd2, 0x46, 0x01, 0x86, 0xf7, 0x23, 0x3c, 0x92, 0x7e, 0x7d, 0xb2, 0xdc, 0xc7, 0x03,
        0xc0, 0xe5, 0x00, 0xb6, 0x53, 0xca, 0x82, 0x27, 0x3b, 0x7b, 0xfa, 0xd8, 0x04, 0x5d, 0x85,
        0xa4, 0x70,
    ];
    assert_eq!(digest, expected);
}

#[test]
fn hash_of_two_creators_has_the_known_value() {
    let digest =
        hash_creators(vec![supplied_creator(1, true, 60), supplied_creator(2, false, 40)]).unwrap();
    let expected: [u8; 32] = [
        3, 178, 187, 65, 184, 60, 131, 244, 254, 195, 204, 1, 103, 25, 222, 155, 104, 206, 133,
        145, 211, 184, 24, 129, 104, 221, 232, 60, 181, 244, 105, 194,
    ];
    assert_eq!(digest, expected);
}

#[test]
fn hash_of_creators_is_repeatable() {
    let first = hash_creators(vec![supplied_creator(1, true, 60), supplied_creator(2, false, 40)]).unwrap();
    let second = hash_creators(vec![supplied_creator(1, true, 60), supplied_creator(2, false, 40)]).unwrap();
    assert_eq!(first, second);
}

#[test]
fn hash_of_some_creators_differs_from_hash_of_none() {
    let none = hash_creators(Vec::new()).unwrap();
    let one = hash_creators(vec![supplied_creator(1, true, 100)]).unwrap();
    assert_ne!(none, one);
}

#[test]
fn exchanging_creators_changes_their_hash() {
    let forward = hash_creators(vec![supplied_creator(1, true, 60), supplied_creator(2, false, 40)]).unwrap();
    let backward =
        hash_creators(vec![supplied_creator(2, false, 40), supplied_creator(1, true, 60)]).unwrap();
    assert_ne!(forward, backward);
}

#[test]
fn hash_of_creators_refuses_a_short_address() {
    let short = ElixirCreator {
        address: ElixirPubkey { bytes: vec![1; 31] },
        verified: false,
        share: 0,
    };
    match hash_creators(vec![supplied_creator(1, true, 100), short]) {
        Err(Error::InvalidParameter(message)) => {
            assert_eq!(message, "creator.address must be 32 bytes")
        }
        other => panic!("unexpected outcome: {:?}", other),
    }
}

#[test]
fn creator_hash_input_is_one_part_for_each_creator() {
    let parts = creator_hash_input(&vec![checked_creator(1, true, 60), checked_creator(2, false, 40)]);
    assert_eq!(parts.len(), 2);
    let mut first = vec![1u8; 32];
    first.push(1);
    first.push(60);
    let mut second = vec![2u8; 32];
    second.push(0);
    second.push(40);
    assert_eq!(parts[0], first);
    assert_eq!(parts[1], second);
    assert!(creator_hash_input(&Vec::new()).is_empty());
}

#[test]
fn metadata_layout_has_the_known_bytes() {
    let expected: Vec<u8> = vec![
        10, 0, 0, 0, 83, 111, 108, 97, 110, 97, 32, 78, 70, 84, 4, 0, 0, 0, 83, 78, 70, 84, 28,
        0, 0, 0, 104, 116, 116, 112, 115, 58, 47, 47, 101, 120, 97, 109, 112, 108, 101, 46, 99,
        111, 109, 47, 110, 102, 116, 46, 106, 115, 111, 110, 244, 1, 0, 1, 0, 1, 0, 0, 0, 0, 2,
        0, 0, 0, 1, 1, 1, 1, 1, 1, 1, 1, 1, 1, 1, 1, 1, 1, 1, 1, 1, 1, 1, 1, 1, 1, 1, 1, 1, 1,
        1, 1, 1, 1, 1, 1, 1, 60, 2, 2, 2, 2, 2, 2, 2, 2, 2, 2, 2, 2, 2, 2, 2, 2, 2, 2, 2, 2, 2,
        2, 2, 2, 2, 2, 2, 2, 2, 2, 2, 2, 0, 40,
    ];
    assert_eq!(metadata_to_bytes(&hashed_metadata()), Some(expected));
}

#[test]
fn metadata_layout_of_every_optional_field_has_the_known_bytes() {
    let expected: Vec<u8> = vec![
        11, 0, 0, 0, 195, 156, 110, 195, 175, 99, 195, 182, 100, 195, 169, 1, 0, 0, 0, 85, 0,
        0, 0, 0, 0, 0, 1, 0, 1, 7, 1, 3, 1, 1, 9, 9, 9, 9, 9, 9, 9, 9, 9, 9, 9, 9, 9, 9, 9, 9,
        9, 9, 9, 9, 9, 9, 9, 9, 9, 9, 9, 9, 9, 9, 9, 9, 1, 2, 10, 0, 0, 0, 0, 0, 0, 0, 20, 0,
        0, 0, 0, 0, 0, 0, 1, 0, 0, 0, 0,
    ];
    assert_eq!(metadata_to_bytes(&hashed_metadata_in_full()), Some(expected));
}

#[test]
fn hash_of_metadata_has_the_known_value() {
    let expected: [u8; 32] = [
        27, 18, 132, 31, 184, 141, 57, 161, 26, 7, 209, 12, 23, 49, 2, 239, 216, 57, 74, 254,
        116, 111, 164, 3, 192, 163, 210, 142, 229, 165, 228, 177,
    ];
    assert_eq!(hash_metadata(hashed_metadata()).unwrap(), expected);
}

#[test]
fn hash_of_metadata_with_every_optional_field_has_the_known_value() {
    let expected: [u8; 32] = [
        159, 250, 13, 242, 163, 171, 119, 220, 177, 1, 95, 234, 23, 105, 0, 67, 171, 60, 226,
        19, 194, 88, 197, 5, 89, 172, 190, 217, 41, 124, 252, 171,
    ];
    assert_eq!(hash_metadata(hashed_metadata_in_full()).unwrap(), expected);
}

#[test]
fn hash_of_metadata_is_repeatable() {
    assert_eq!(hash_metadata(hashed_metadata()).unwrap(), hash_metadata(hashed_metadata()).unwrap());
}

#[test]
fn changing_one_field_changes_the_hash_of_metadata() {
    let base = hash_metadata(hashed_metadata()).unwrap();

    let mut changed = hashed_metadata();
    changed.name = String::from("Solana NFU");
    assert_ne!(hash_metadata(changed).unwrap(), base);

    let mut changed = hashed_metadata();
    changed.symbol = String::from("SNFU");
    assert_ne!(hash_metadata(changed).unwrap(), base);

    let mut changed = hashed_metadata();
    changed.uri = String::from("https://example.com/nft.jsom");
    assert_ne!(hash_metadata(changed).unwrap(), base);

    let mut changed = hashed_metadata();
    changed.seller_fee_basis_points = 501;
    assert_ne!(hash_metadata(changed).unwrap(), base);

    let mut changed = hashed_metadata();
    changed.primary_sale_happened = true;
    assert_ne!(hash_metadata(changed).unwrap(), base);

    let mut changed = hashed_metadata();
    changed.is_mutable = false;
    assert_ne!(hash_metadata(changed).unwrap(), base);

    let mut changed = hashed_metadata();
    changed.edition_nonce = Some(0);
    assert_ne!(hash_metadata(changed).unwrap(), base);

    let mut changed = hashed_metadata();
    changed.token_standard = None;
    assert_ne!(hash_metadata(changed).unwrap(), base);

    let mut changed = hashed_metadata();
    changed.collection = Some(Collection { verified: false, key: Pubkey::new_from_array([0; 32]) });
    assert_ne!(hash_metadata(changed).unwrap(), base);

    let mut changed = hashed_metadata();
    changed.uses = Some(Uses { use_method: UseMethod::Burn, remaining: 0, total: 0 });
    assert_ne!(hash_metadata(changed).unwrap(), base);

    let mut changed = hashed_metadata();
    changed.token_program_version = TokenProgramVersion::Token2022;
    assert_ne!(hash_metadata(changed).unwrap(), base);

    let mut changed = hashed_metadata();
    changed.creators = vec![checked_creator(2, false, 40), checked_creator(1, true, 60)];
    assert_ne!(hash_metadata(changed).unwrap(), base);
}

#[test]
fn data_hash_input_is_the_inner_digest_and_the_fee() {
    let parts = data_hash_input(&[3u8; 32], 500);
    assert_eq!(parts, vec![vec![3u8; 32], vec![244u8, 1]]);
}
