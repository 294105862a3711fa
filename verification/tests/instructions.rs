use mpl_bubblegum::boundary::{raw_create_tree_config, raw_mint_v1, raw_transfer};
use mpl_bubblegum::error::Error;
use mpl_bubblegum::instructions::{
    create_tree_config, create_tree_config_instruction, get_merkle_tree_size, mint_v1,
    mint_v1_instruction, supported_tree_size, transfer, transfer_instruction,
};
use mpl_bubblegum::metadata::{Creator, MetadataArgs, TokenProgramVersion, TokenStandard};
use mpl_bubblegum::programs::{
    bubblegum_program_id, system_program_id, ACCOUNT_COMPRESSION_PROGRAM_ID, MPL_BUBBLEGUM_ID,
    NOOP_PROGRAM_ID, SYSTEM_PROGRAM_ID,
};
use mpl_bubblegum::pubkey::Pubkey;
use mpl_bubblegum::transaction::{
    within_account_limit, AccountMeta, Instruction, UnsignedTransaction,
};
use mpl_bubblegum::types::{ElixirCreator, ElixirMetadata, ElixirPubkey};

fn account(byte: u8) -> Pubkey {
    Pubkey::new_from_array([byte; 32])
}

fn supplied_account(byte: u8) -> ElixirPubkey {
    ElixirPubkey { bytes: vec![byte; 32] }
}

fn named(pubkey: Pubkey, is_signer: bool, is_writable: bool) -> AccountMeta {
    AccountMeta { pubkey, is_signer, is_writable }
}

fn named_programs() -> Vec<AccountMeta> {
    vec![
        named(Pubkey::new_from_array(NOOP_PROGRAM_ID), false, false),
        named(Pubkey::new_from_array(ACCOUNT_COMPRESSION_PROGRAM_ID), false, false),
        named(Pubkey::new_from_array(SYSTEM_PROGRAM_ID), false, false),
    ]
}

fn minted_metadata() -> MetadataArgs {
    MetadataArgs {
        name: String::from("Solana NFT"),
        symbol: String::from("SNFT"),
        uri: String::from("https://example.com/nft.json"),
        seller_fee_basis_points: 500,
        primary_sale_happened: false,
        is_mutable: true,
        edition_nonce: None,
        token_standard: Some(TokenStandard::NonFungible),
        collection: None,
        uses: None,
        token_program_version: TokenProgramVersion::Original,
        creators: vec![
            Creator { address: account(1), verified: true, share: 60 },
            Creator { address: account(2), verified: false, share: 40 },
        ],
    }
}

fn supplied_minted_metadata() -> ElixirMetadata {
    ElixirMetadata {
        name: String::from("Solana NFT"),
        symbol: String::from("SNFT"),
        uri: String::from("https://example.com/nft.json"),
        seller_fee_basis_points: 500,
        primary_sale_happened: false,
        is_mutable: true,
        edition_nonce: None,
        token_standard: Some(0),
        collection: None,
        uses: None,
        token_program_version: 0,
        creators: vec![
            ElixirCreator { address: supplied_account(1), verified: true, share: 60 },
            ElixirCreator { address: supplied_account(2), verified: false, share: 40 },
        ],
    }
}

fn expected_transfer_transaction() -> Vec<u8> {
    vec![
        1, 0, 0, 0, 0, 0, 0, 0, 0, 0, 0, 0, 0, 0, 0, 0, 0, 0, 0, 0, 0, 0, 0, 0, 0, 0, 0, 0, 0,
        0, 0, 0, 0, 0, 0, 0, 0, 0, 0, 0, 0, 0, 0, 0, 0, 0, 0, 0, 0, 0, 0, 0, 0, 0, 0, 0, 0, 0,
        0, 0, 0, 0, 0, 0, 0, 1, 0, 7, 9, 2, 2, 2, 2, 2, 2, 2, 2, 2, 2, 2, 2, 2, 2, 2, 2, 2, 2,
        2, 2, 2, 2, 2, 2, 2, 2, 2, 2, 2, 2, 2, 2, 5, 5, 5, 5, 5, 5, 5, 5, 5, 5, 5, 5, 5, 5, 5,
        5, 5, 5, 5, 5, 5, 5, 5, 5, 5, 5, 5, 5, 5, 5, 5, 5, 0, 0, 0, 0, 0, 0, 0, 0, 0, 0, 0, 0,
        0, 0, 0, 0, 0, 0, 0, 0, 0, 0, 0, 0, 0, 0, 0, 0, 0, 0, 0, 0, 1, 1, 1, 1, 1, 1, 1, 1, 1,
        1, 1, 1, 1, 1, 1, 1, 1, 1, 1, 1, 1, 1, 1, 1, 1, 1, 1, 1, 1, 1, 1, 1, 3, 3, 3, 3, 3, 3,
        3, 3, 3, 3, 3, 3, 3, 3, 3, 3, 3, 3, 3, 3, 3, 3, 3, 3, 3, 3, 3, 3, 3, 3, 3, 3, 4, 4, 4,
        4, 4, 4, 4, 4, 4, 4, 4, 4, 4, 4, 4, 4, 4, 4, 4, 4, 4, 4, 4, 4, 4, 4, 4, 4, 4, 4, 4, 4,
        9, 42, 19, 238, 149, 196, 28, 186, 8, 166, 127, 90, 198, 126, 141, 247, 225, 218, 17,
        98, 94, 29, 100, 19, 127, 143, 79, 35, 131, 3, 127, 20, 11, 188, 15, 192, 187, 71, 202,
        47, 116, 196, 17, 46, 148, 171, 19, 207, 163, 198, 52, 229, 220, 23, 234, 203, 3, 205,
        26, 35, 205, 126, 120, 124, 152, 139, 128, 235, 121, 53, 40, 105, 178, 36, 116, 95, 89,
        221, 191, 138, 38, 88, 202, 19, 220, 104, 129, 33, 38, 53, 28, 174, 7, 193, 165, 165,
        0, 0, 0, 0, 0, 0, 0, 0, 0, 0, 0, 0, 0, 0, 0, 0, 0, 0, 0, 0, 0, 0, 0, 0, 0, 0, 0, 0, 0,
        0, 0, 0, 1, 8, 8, 3, 0, 4, 5, 1, 7, 6, 2, 116, 163, 52, 200, 231, 140, 3, 69, 186, 170,
        170, 170, 170, 170, 170, 170, 170, 170, 170, 170, 170, 170, 170, 170, 170, 170, 170,
        170, 170, 170, 170, 170, 170, 170, 170, 170, 170, 170, 170, 170, 170, 187, 187, 187,
        187, 187, 187, 187, 187, 187, 187, 187, 187, 187, 187, 187, 187, 187, 187, 187, 187,
        187, 187, 187, 187, 187, 187, 187, 187, 187, 187, 187, 187, 204, 204, 204, 204, 204,
        204, 204, 204, 204, 204, 204, 204, 204, 204, 204, 204, 204, 204, 204, 204, 204, 204,
        204, 204, 204, 204, 204, 204, 204, 204, 204, 204, 5, 0, 0, 0, 0, 0, 0, 0, 5, 0, 0, 0,
    ]
}

fn expected_create_tree_transaction() -> Vec<u8> {
    vec![
        4, 0, 0, 0, 0, 0, 0, 0, 0, 0, 0, 0, 0, 0, 0, 0, 0, 0, 0, 0, 0, 0, 0, 0, 0, 0, 0, 0, 0,
        0, 0, 0, 0, 0, 0, 0, 0, 0, 0, 0, 0, 0, 0, 0, 0, 0, 0, 0, 0, 0, 0, 0, 0, 0, 0, 0, 0, 0,
        0, 0, 0, 0, 0, 0, 0, 0, 0, 0, 0, 0, 0, 0, 0, 0, 0, 0, 0, 0, 0, 0, 0, 0, 0, 0, 0, 0, 0,
        0, 0, 0, 0, 0, 0, 0, 0, 0, 0, 0, 0, 0, 0, 0, 0, 0, 0, 0, 0, 0, 0, 0, 0, 0, 0, 0, 0, 0,
        0, 0, 0, 0, 0, 0, 0, 0, 0, 0, 0, 0, 0, 0, 0, 0, 0, 0, 0, 0, 0, 0, 0, 0, 0, 0, 0, 0, 0,
        0, 0, 0, 0, 0, 0, 0, 0, 0, 0, 0, 0, 0, 0, 0, 0, 0, 0, 0, 0, 0, 0, 0, 0, 0, 0, 0, 0, 0,
        0, 0, 0, 0, 0, 0, 0, 0, 0, 0, 0, 0, 0, 0, 0, 0, 0, 0, 0, 0, 0, 0, 0, 0, 0, 0, 0, 0, 0,
        0, 0, 0, 0, 0, 0, 0, 0, 0, 0, 0, 0, 0, 0, 0, 0, 0, 0, 0, 0, 0, 0, 0, 0, 0, 0, 0, 0, 0,
        0, 0, 0, 0, 0, 0, 0, 0, 0, 0, 0, 0, 0, 0, 0, 0, 0, 0, 0, 0, 0, 0, 0, 0, 0, 4, 1, 4, 8,
        3, 3, 3, 3, 3, 3, 3, 3, 3, 3, 3, 3, 3, 3, 3, 3, 3, 3, 3, 3, 3, 3, 3, 3, 3, 3, 3, 3, 3,
        3, 3, 3, 1, 1, 1, 1, 1, 1, 1, 1, 1, 1, 1, 1, 1, 1, 1, 1, 1, 1, 1, 1, 1, 1, 1, 1, 1, 1,
        1, 1, 1, 1, 1, 1, 2, 2, 2, 2, 2, 2, 2, 2, 2, 2, 2, 2, 2, 2, 2, 2, 2, 2, 2, 2, 2, 2, 2,
        2, 2, 2, 2, 2, 2, 2, 2, 2, 4, 4, 4, 4, 4, 4, 4, 4, 4, 4, 4, 4, 4, 4, 4, 4, 4, 4, 4, 4,
        4, 4, 4, 4, 4, 4, 4, 4, 4, 4, 4, 4, 0, 0, 0, 0, 0, 0, 0, 0, 0, 0, 0, 0, 0, 0, 0, 0, 0,
        0, 0, 0, 0, 0, 0, 0, 0, 0, 0, 0, 0, 0, 0, 0, 9, 42, 19, 238, 149, 196, 28, 186, 8, 166,
        127, 90, 198, 126, 141, 247, 225, 218, 17, 98, 94, 29, 100, 19, 127, 143, 79, 35, 131,
        3, 127, 20, 11, 188, 15, 192, 187, 71, 202, 47, 116, 196, 17, 46, 148, 171, 19, 207,
        163, 198, 52, 229, 220, 23, 234, 203, 3, 205, 26, 35, 205, 126, 120, 124, 152, 139,
        128, 235, 121, 53, 40, 105, 178, 36, 116, 95, 89, 221, 191, 138, 38, 88, 202, 19, 220,
        104, 129, 33, 38, 53, 28, 174, 7, 193, 165, 165, 0, 0, 0, 0, 0, 0, 0, 0, 0, 0, 0, 0, 0,
        0, 0, 0, 0, 0, 0, 0, 0, 0, 0, 0, 0, 0, 0, 0, 0, 0, 0, 0, 3, 4, 2, 0, 1, 52, 0, 0, 0, 0,
        176, 242, 17, 0, 0, 0, 0, 0, 41, 0, 0, 0, 0, 0, 0, 0, 152, 139, 128, 235, 121, 53, 40,
        105, 178, 36, 116, 95, 89, 221, 191, 138, 38, 88, 202, 19, 220, 104, 129, 33, 38, 53,
        28, 174, 7, 193, 165, 165, 4, 2, 0, 2, 52, 0, 0, 0, 0, 128, 189, 174, 32, 2, 0, 0, 0,
        72, 8, 20, 0, 0, 0, 0, 0, 9, 42, 19, 238, 149, 196, 28, 186, 8, 166, 127, 90, 198, 126,
        141, 247, 225, 218, 17, 98, 94, 29, 100, 19, 127, 143, 79, 35, 131, 3, 127, 20, 7, 7,
        1, 2, 0, 3, 6, 5, 4, 18, 165, 83, 136, 142, 89, 202, 47, 220, 14, 0, 0, 0, 64, 0, 0, 0,
        1, 1,
    ]
}

fn expected_mint_transaction() -> Vec<u8> {
    vec![
        2, 0, 0, 0, 0, 0, 0, 0, 0, 0, 0, 0, 0, 0, 0, 0, 0, 0, 0, 0, 0, 0, 0, 0, 0, 0, 0, 0, 0,
        0, 0, 0, 0, 0, 0, 0, 0, 0, 0, 0, 0, 0, 0, 0, 0, 0, 0, 0, 0, 0, 0, 0, 0, 0, 0, 0, 0, 0,
        0, 0, 0, 0, 0, 0, 0, 0, 0, 0, 0, 0, 0, 0, 0, 0, 0, 0, 0, 0, 0, 0, 0, 0, 0, 0, 0, 0, 0,
        0, 0, 0, 0, 0, 0, 0, 0, 0, 0, 0, 0, 0, 0, 0, 0, 0, 0, 0, 0, 0, 0, 0, 0, 0, 0, 0, 0, 0,
        0, 0, 0, 0, 0, 0, 0, 0, 0, 0, 0, 0, 0, 2, 1, 6, 10, 5, 5, 5, 5, 5, 5, 5, 5, 5, 5, 5, 5,
        5, 5, 5, 5, 5, 5, 5, 5, 5, 5, 5, 5, 5, 5, 5, 5, 5, 5, 5, 5, 6, 6, 6, 6, 6, 6, 6, 6, 6,
        6, 6, 6, 6, 6, 6, 6, 6, 6, 6, 6, 6, 6, 6, 6, 6, 6, 6, 6, 6, 6, 6, 6, 1, 1, 1, 1, 1, 1,
        1, 1, 1, 1, 1, 1, 1, 1, 1, 1, 1, 1, 1, 1, 1, 1, 1, 1, 1, 1, 1, 1, 1, 1, 1, 1, 4, 4, 4,
        4, 4, 4, 4, 4, 4, 4, 4, 4, 4, 4, 4, 4, 4, 4, 4, 4, 4, 4, 4, 4, 4, 4, 4, 4, 4, 4, 4, 4,
        0, 0, 0, 0, 0, 0, 0, 0, 0, 0, 0, 0, 0, 0, 0, 0, 0, 0, 0, 0, 0, 0, 0, 0, 0, 0, 0, 0, 0,
        0, 0, 0, 2, 2, 2, 2, 2, 2, 2, 2, 2, 2, 2, 2, 2, 2, 2, 2, 2, 2, 2, 2, 2, 2, 2, 2, 2, 2,
        2, 2, 2, 2, 2, 2, 3, 3, 3, 3, 3, 3, 3, 3, 3, 3, 3, 3, 3, 3, 3, 3, 3, 3, 3, 3, 3, 3, 3,
        3, 3, 3, 3, 3, 3, 3, 3, 3, 9, 42, 19, 238, 149, 196, 28, 186, 8, 166, 127, 90, 198,
        126, 141, 247, 225, 218, 17, 98, 94, 29, 100, 19, 127, 143, 79, 35, 131, 3, 127, 20,
        11, 188, 15, 192, 187, 71, 202, 47, 116, 196, 17, 46, 148, 171, 19, 207, 163, 198, 52,
        229, 220, 23, 234, 203, 3, 205, 26, 35, 205, 126, 120, 124, 152, 139, 128, 235, 121,
        53, 40, 105, 178, 36, 116, 95, 89, 221, 191, 138, 38, 88, 202, 19, 220, 104, 129, 33,
        38, 53, 28, 174, 7, 193, 165, 165, 0, 0, 0, 0, 0, 0, 0, 0, 0, 0, 0, 0, 0, 0, 0, 0, 0,
        0, 0, 0, 0, 0, 0, 0, 0, 0, 0, 0, 0, 0, 0, 0, 1, 9, 9, 2, 5, 6, 3, 0, 1, 8, 7, 4, 144,
        1, 145, 98, 192, 118, 184, 147, 118, 104, 10, 0, 0, 0, 83, 111, 108, 97, 110, 97, 32,
        78, 70, 84, 4, 0, 0, 0, 83, 78, 70, 84, 28, 0, 0, 0, 104, 116, 116, 112, 115, 58, 47,
        47, 101, 120, 97, 109, 112, 108, 101, 46, 99, 111, 109, 47, 110, 102, 116, 46, 106,
        115, 111, 110, 244, 1, 0, 1, 0, 1, 0, 0, 0, 0, 2, 0, 0, 0, 1, 1, 1, 1, 1, 1, 1, 1, 1,
        1, 1, 1, 1, 1, 1, 1, 1, 1, 1, 1, 1, 1, 1, 1, 1, 1, 1, 1, 1, 1, 1, 1, 1, 60, 2, 2, 2, 2,
        2, 2, 2, 2, 2, 2, 2, 2, 2, 2, 2, 2, 2, 2, 2, 2, 2, 2, 2, 2, 2, 2, 2, 2, 2, 2, 2, 2, 0,
        40,
    ]
}

#[test]
fn create_tree_config_instruction_names_the_accounts_in_the_fixed_order() {
    let ix = create_tree_config_instruction(account(1), account(2), account(3), account(4), 14, 64, Some(true));
    let mut expected = vec![
        named(account(1), false, true),
        named(account(2), false, true),
        named(account(3), true, true),
        named(account(4), true, false),
    ];
    expected.extend(named_programs());
    assert_eq!(ix.accounts, expected);
    assert_eq!(ix.program_id, Pubkey::new_from_array(MPL_BUBBLEGUM_ID));
}

#[test]
fn create_tree_config_instruction_writes_depth_buffer_and_flag() {
    let ix = create_tree_config_instruction(account(1), account(2), account(3), account(4), 14, 64, Some(true));
    assert_eq!(
        ix.data,
        vec![165, 83, 136, 142, 89, 202, 47, 220, 14, 0, 0, 0, 64, 0, 0, 0, 1, 1]
    );
    let ix = create_tree_config_instruction(account(1), account(2), account(3), account(4), 14, 64, Some(false));
    assert_eq!(
        ix.data,
        vec![165, 83, 136, 142, 89, 202, 47, 220, 14, 0, 0, 0, 64, 0, 0, 0, 1, 0]
    );
}

#[test]
fn create_tree_config_instruction_leaves_the_flag_out_when_it_is_not_given() {
    let ix = create_tree_config_instruction(account(1), account(2), account(3), account(4), 14, 64, None);
    assert_eq!(ix.data, vec![165, 83, 136, 142, 89, 202, 47, 220, 14, 0, 0, 0, 64, 0, 0, 0, 0]);
}

#[test]
fn mint_v1_instruction_names_the_accounts_in_the_fixed_order() {
    let ix = mint_v1_instruction(account(1), account(2), account(3), account(4), account(5), account(6), &minted_metadata())
        .unwrap();
    let mut expected = vec![
        named(account(1), false, true),
        named(account(2), false, false),
        named(account(3), false, false),
        named(account(4), false, true),
        named(account(5), true, false),
        named(account(6), true, false),
    ];
    expected.extend(named_programs());
    assert_eq!(ix.accounts, expected);
    assert_eq!(ix.program_id, bubblegum_program_id());
}

#[test]
fn mint_v1_instruction_carries_the_metadata_in_full() {
    let ix = mint_v1_instruction(account(1), account(2), account(3), account(4), account(5), account(6), &minted_metadata())
        .unwrap();
    let mut expected = vec![145u8, 98, 192, 118, 184, 147, 118, 104];
    expected.extend(mpl_bubblegum::encoding::metadata_to_bytes(&minted_metadata()).unwrap());
    assert_eq!(ix.data, expected);
    assert_eq!(ix.data.len(), 8 + 136);
}

#[test]
fn transfer_instruction_names_the_accounts_in_the_fixed_order() {
    let ix = transfer_instruction(
        account(1),
        account(2),
        account(3),
        account(4),
        account(5),
        [0xaa; 32],
        [0xbb; 32],
        [0xcc; 32],
        5,
        5,
    );
    let mut expected = vec![
        named(account(1), false, false),
        named(account(2), true, false),
        named(account(3), false, false),
        named(account(4), false, false),
        named(account(5), false, true),
    ];
    expected.extend(named_programs());
    assert_eq!(ix.accounts, expected);
    assert_eq!(ix.program_id, bubblegum_program_id());
}

#[test]
fn transfer_payload_is_root_digests_nonce_and_index_after_the_discriminator() {
    let ix = transfer_instruction(
        account(1),
        account(2),
        account(3),
        account(4),
        account(5),
        [0xaa; 32],
        [0xbb; 32],
        [0xcc; 32],
        5,
        5,
    );
    let mut expected = vec![163u8, 52, 200, 231, 140, 3, 69, 186];
    expected.extend([0xaau8; 32]);
    expected.extend([0xbbu8; 32]);
    expected.extend([0xccu8; 32]);
    expected.extend([5u8, 0, 0, 0, 0, 0, 0, 0]);
    expected.extend([5u8, 0, 0, 0]);
    assert_eq!(ix.data, expected);
}

#[test]
fn transfer_payload_writes_numbers_lowest_byte_first() {
    let ix = transfer_instruction(
        account(1),
        account(2),
        account(3),
        account(4),
        account(5),
        [0; 32],
        [0; 32],
        [0; 32],
        0x0102030405060708,
        0x0a0b0c0d,
    );
    assert_eq!(&ix.data[104..], &[8u8, 7, 6, 5, 4, 3, 2, 1, 0x0d, 0x0c, 0x0b, 0x0a][..]);
    let ix = transfer_instruction(
        account(1),
        account(2),
        account(3),
        account(4),
        account(5),
        [0; 32],
        [0; 32],
        [0; 32],
        u64::MAX,
        u32::MAX,
    );
    assert_eq!(&ix.data[104..], &[255u8; 12][..]);
}

#[test]
fn transfer_transaction_has_the_known_bytes() {
    let bytes = transfer(
        account(1),
        account(2),
        account(3),
        account(4),
        account(5),
        [0xaa; 32],
        [0xbb; 32],
        [0xcc; 32],
        5,
        5,
    )
    .unwrap();
    assert_eq!(bytes, expected_transfer_transaction());
}

#[test]
fn transfer_transaction_holds_the_payload() {
    let bytes = transfer(
        account(1),
        account(2),
        account(3),
        account(4),
        account(5),
        [0xaa; 32],
        [0xbb; 32],
        [0xcc; 32],
        5,
        5,
    )
    .unwrap();
    let ix = transfer_instruction(
        account(1),
        account(2),
        account(3),
        account(4),
        account(5),
        [0xaa; 32],
        [0xbb; 32],
        [0xcc; 32],
        5,
        5,
    );
    assert_eq!(&bytes[bytes.len() - ix.data.len()..], &ix.data[..]);
}

#[test]
fn create_tree_transaction_has_the_known_bytes() {
    let bytes = create_tree_config(account(1), account(2), account(3), account(4), 14, 64, Some(true)).unwrap();
    assert_eq!(bytes, expected_create_tree_transaction());
}

#[test]
fn create_tree_transaction_refuses_a_tree_without_depth() {
    match create_tree_config(account(1), account(2), account(3), account(4), 0, 64, None) {
        Err(Error::InvalidParameter(message)) => assert_eq!(
            message,
            "max_depth and max_buffer_size must describe a tree whose account can be sized"
        ),
        other => panic!("unexpected outcome: {:?}", other),
    }
}

#[test]
fn create_tree_transaction_refuses_a_tree_too_deep_to_size() {
    assert!(create_tree_config(account(1), account(2), account(3), account(4), 58, 64, None).is_err());
    assert!(create_tree_config(account(1), account(2), account(3), account(4), u32::MAX, 64, None).is_err());
    assert!(create_tree_config(account(1), account(2), account(3), account(4), 47, 64, None).is_err());
}

#[test]
fn mint_transaction_has_the_known_bytes() {
    let bytes =
        mint_v1(account(1), account(2), account(3), account(4), account(5), account(6), minted_metadata()).unwrap();
    assert_eq!(bytes, expected_mint_transaction());
}

#[test]
fn mint_transaction_refuses_metadata_too_long_for_one_instruction() {
    let mut metadata = minted_metadata();
    metadata.uri = "u".repeat(70_000);
    match mint_v1(account(1), account(2), account(3), account(4), account(5), account(6), metadata) {
        Err(Error::Conversion(message)) => {
            assert!(message.starts_with("Failed to serialize transaction: "))
        }
        other => panic!("unexpected outcome: {:?}", other),
    }
}

#[test]
fn mint_transaction_takes_the_longest_metadata_that_fit() {
    let mut metadata = minted_metadata();
    let other_bytes = 8 + 136 - 28;
    metadata.uri = "u".repeat(65_535 - other_bytes);
    assert!(mint_v1(account(1), account(2), account(3), account(4), account(5), account(6), metadata).is_ok());
    let mut metadata = minted_metadata();
    metadata.uri = "u".repeat(65_536 - other_bytes);
    assert!(mint_v1(account(1), account(2), account(3), account(4), account(5), account(6), metadata).is_err());
}

#[test]
fn merkle_tree_size_follows_the_formula() {
    assert_eq!(get_merkle_tree_size(14, 64), 72 + 8192 * 32 + 32768 * 32 + 64 * 32);
    assert_eq!(get_merkle_tree_size(14, 64), 1_312_840);
    assert_eq!(get_merkle_tree_size(1, 0), 72 + 32 + 4 * 32);
    assert_eq!(get_merkle_tree_size(3, 8), 72 + 4 * 32 + 16 * 32 + 8 * 32);
    assert_eq!(get_merkle_tree_size(30, 2048), 72 + (1usize << 29) * 32 + (1usize << 31) * 32 + 65_536);
}

#[test]
fn supported_tree_size_stops_where_the_rent_cannot_be_computed() {
    assert_eq!(supported_tree_size(0, 0), None);
    assert_eq!(supported_tree_size(14, 64), Some(1_312_840));
    assert_eq!(supported_tree_size(45, 0), Some(72 + (1usize << 44) * 32 + (1usize << 46) * 32));
    assert_eq!(supported_tree_size(46, 0), None);
    assert_eq!(supported_tree_size(57, 0), None);
    assert_eq!(supported_tree_size(58, 0), None);
    assert_eq!(supported_tree_size(u32::MAX, u32::MAX), None);
}

#[test]
fn raw_transfer_agrees_with_the_checked_one() {
    let bytes = raw_transfer(
        supplied_account(1),
        supplied_account(2),
        supplied_account(3),
        supplied_account(4),
        supplied_account(5),
        vec![0xaa; 32],
        vec![0xbb; 32],
        vec![0xcc; 32],
        5,
        5,
    )
    .unwrap();
    assert_eq!(bytes, expected_transfer_transaction());
}

#[test]
fn raw_transfer_names_the_first_input_of_the_wrong_length() {
    let outcome = raw_transfer(
        supplied_account(1),
        ElixirPubkey { bytes: vec![2; 31] },
        supplied_account(3),
        supplied_account(4),
        supplied_account(5),
        vec![0xaa; 32],
        vec![0xbb; 33],
        vec![0xcc; 0],
        5,
        5,
    );
    match outcome {
        Err(Error::InvalidParameter(message)) => assert_eq!(message, "data_hash must be 32 bytes"),
        other => panic!("unexpected outcome: {:?}", other),
    }
    let outcome = raw_transfer(
        supplied_account(1),
        ElixirPubkey { bytes: vec![2; 31] },
        supplied_account(3),
        supplied_account(4),
        ElixirPubkey { bytes: Vec::new() },
        vec![0xaa; 32],
        vec![0xbb; 32],
        vec![0xcc; 32],
        5,
        5,
    );
    match outcome {
        Err(Error::InvalidParameter(message)) => assert_eq!(message, "leaf_owner must be 32 bytes"),
        other => panic!("unexpected outcome: {:?}", other),
    }
    let outcome = raw_transfer(
        supplied_account(1),
        supplied_account(2),
        supplied_account(3),
        supplied_account(4),
        supplied_account(5),
        vec![0xaa; 64],
        vec![0xbb; 32],
        vec![0xcc; 32],
        5,
        5,
    );
    match outcome {
        Err(Error::InvalidParameter(message)) => assert_eq!(message, "root must be 32 bytes"),
        other => panic!("unexpected outcome: {:?}", other),
    }
}

#[test]
fn raw_create_tree_config_agrees_with_the_checked_one() {
    let bytes =
        raw_create_tree_config(supplied_account(1), supplied_account(2), supplied_account(3), supplied_account(4), 14, 64, Some(true))
            .unwrap();
    assert_eq!(bytes, expected_create_tree_transaction());
}

#[test]
fn raw_create_tree_config_names_the_first_address_of_the_wrong_length() {
    let outcome = raw_create_tree_config(
        supplied_account(1),
        supplied_account(2),
        ElixirPubkey { bytes: vec![3; 30] },
        ElixirPubkey { bytes: vec![4; 34] },
        0,
        64,
        None,
    );
    match outcome {
        Err(Error::InvalidParameter(message)) => assert_eq!(message, "payer must be 32 bytes"),
        other => panic!("unexpected outcome: {:?}", other),
    }
}

#[test]
fn raw_mint_v1_agrees_with_the_checked_one() {
    let bytes = raw_mint_v1(
        supplied_account(1),
        supplied_account(2),
        supplied_account(3),
        supplied_account(4),
        supplied_account(5),
        supplied_account(6),
        supplied_minted_metadata(),
    )
    .unwrap();
    assert_eq!(bytes, expected_mint_transaction());
}

#[test]
fn raw_mint_v1_refuses_an_undefined_token_standard() {
    let mut metadata = supplied_minted_metadata();
    metadata.token_standard = Some(7);
    let outcome = raw_mint_v1(
        supplied_account(1),
        supplied_account(2),
        supplied_account(3),
        supplied_account(4),
        supplied_account(5),
        supplied_account(6),
        metadata,
    );
    match outcome {
        Err(Error::InvalidParameter(message)) => assert_eq!(message, "Invalid token standard: 7"),
        other => panic!("unexpected outcome: {:?}", other),
    }
}

#[test]
fn raw_mint_v1_checks_the_addresses_before_the_metadata() {
    let mut metadata = supplied_minted_metadata();
    metadata.token_standard = Some(7);
    let outcome = raw_mint_v1(
        supplied_account(1),
        supplied_account(2),
        supplied_account(3),
        supplied_account(4),
        supplied_account(5),
        ElixirPubkey { bytes: vec![6; 1] },
        metadata,
    );
    match outcome {
        Err(Error::InvalidParameter(message)) => {
            assert_eq!(message, "tree_creator_or_delegate must be 32 bytes")
        }
        other => panic!("unexpected outcome: {:?}", other),
    }
}

#[test]
fn a_transaction_that_names_too_many_accounts_is_not_encoded() {
    let accounts: Vec<AccountMeta> = (0..=255u32)
        .map(|i| named(account((i % 251) as u8), false, false))
        .collect();
    let instruction = Instruction { program_id: system_program_id(), accounts, data: Vec::new() };
    assert!(!within_account_limit(&vec![instruction.clone()]));
    let transaction = UnsignedTransaction { instructions: vec![instruction], fee_payer: account(1) };
    match transaction.encode() {
        Err(Error::Conversion(message)) => {
            assert_eq!(message, "Failed to serialize transaction: too many accounts")
        }
        other => panic!("unexpected outcome: {:?}", other),
    }
}

#[test]
fn the_account_limit_counts_payer_programs_and_accounts() {
    let accounts: Vec<AccountMeta> =
        (0..253u32).map(|i| named(account((i % 251) as u8), false, false)).collect();
    let instruction = Instruction { program_id: system_program_id(), accounts, data: Vec::new() };
    assert!(within_account_limit(&vec![instruction.clone()]));
    let mut longer = instruction.clone();
    longer.accounts.push(named(account(9), false, false));
    assert!(!within_account_limit(&vec![longer]));
    assert!(within_account_limit(&Vec::new()));
}

#[test]
fn an_empty_transaction_is_encoded() {
    let transaction = UnsignedTransaction { instructions: Vec::new(), fee_payer: account(1) };
    let bytes = transaction.encode().unwrap();
    let mut expected = vec![1u8];
    expected.extend([0u8; 64]);
    expected.extend([1u8, 0, 0, 1]);
    expected.extend([1u8; 32]);
    expected.extend([0u8; 32]);
    expected.push(0);
    assert_eq!(bytes, expected);
}
