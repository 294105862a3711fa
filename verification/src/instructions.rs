//! The three operations on a tree of compressed assets: each as the
//! instruction that the remote program expects, and as the unsigned
//! transaction that carries it.
//!
//! The order of the accounts, their signer and writable flags and the
//! layout of the arguments are fixed by the remote program.

use vstd::arithmetic::power2::{
    lemma2_to64, lemma2_to64_rest, lemma_pow2_pos, lemma_pow2_strictly_increases, pow2,
};
use vstd::bits::lemma_u64_shl_is_mul;
use vstd::prelude::*;
use vstd::string::StringExecFns;
use crate::encoding::{
    lemma_le_bytes_len, metadata_bytes, metadata_encodable, metadata_to_bytes, option_bool_bytes,
    push_bytes, push_option_bool, push_u32, push_u64, u32_bytes, u64_bytes,
};
use crate::error::{lemma_prefix_stays, Error};
use crate::metadata::{MetadataArgs, MetadataView};
use crate::programs::{
    bubblegum_program_id, system_program_id, ACCOUNT_COMPRESSION_PROGRAM_ID, MPL_BUBBLEGUM_ID,
    NOOP_PROGRAM_ID, SYSTEM_PROGRAM_ID,
};
use crate::pubkey::Pubkey;
use crate::sdk::{
    account_compression_program_id, create_account_instruction, noop_program_id,
    rent_exempt_minimum, rent_minimum_balance, system_create_account, RENT_PER_BYTE_YEAR,
    RENT_STORAGE_OVERHEAD,
};
use crate::transaction::{
    account_mentions, account_views, data_fits, encoded, readonly, serialization_failure,
    serialization_failure_prefix, transaction_encodable, writable, AccountMeta, AccountMetaView,
    Instruction, InstructionView, UnsignedTransaction, UnsignedTransactionView,
    MAX_INSTRUCTION_DATA,
};

verus! {

/// The number by which the remote program knows the creation of a tree.
pub const CREATE_TREE_DISCRIMINATOR: [u8; 8] = [165, 83, 136, 142, 89, 202, 47, 220];

/// The number by which the remote program knows a mint.
pub const MINT_V1_DISCRIMINATOR: [u8; 8] = [145, 98, 192, 118, 184, 147, 118, 104];

/// The number by which the remote program knows a transfer.
pub const TRANSFER_DISCRIMINATOR: [u8; 8] = [163, 52, 200, 231, 140, 3, 69, 186];

/// The three programs that every instruction names last: the one that
/// records changes, the one that keeps the trees, and the system program.
pub open spec fn program_accounts() -> Seq<AccountMetaView> {
    seq![
        readonly(NOOP_PROGRAM_ID@, false),
        readonly(ACCOUNT_COMPRESSION_PROGRAM_ID@, false),
        readonly(SYSTEM_PROGRAM_ID@, false),
    ]
}

/// The accounts of the instruction that creates a tree: the tree's
/// configuration and the tree, both written to; the payer, signing and
/// written to; the creator, signing; then the three programs.
pub open spec fn create_tree_config_accounts(
    tree_config: Seq<u8>,
    merkle_tree: Seq<u8>,
    payer: Seq<u8>,
    tree_creator: Seq<u8>,
) -> Seq<AccountMetaView> {
    seq![
        writable(tree_config, false),
        writable(merkle_tree, false),
        writable(payer, true),
        readonly(tree_creator, true),
    ] + program_accounts()
}

/// The arguments of the instruction that creates a tree: depth, buffer
/// size, and whether anyone may mint, which may be left open.
pub open spec fn create_tree_config_data(
    max_depth: u32,
    max_buffer_size: u32,
    public: Option<bool>,
) -> Seq<u8> {
    CREATE_TREE_DISCRIMINATOR@ + u32_bytes(max_depth) + u32_bytes(max_buffer_size)
        + option_bool_bytes(public)
}

/// The accounts of a mint: the tree's configuration, written to; the
/// leaf's owner and delegate; the tree, written to; the payer and the
/// tree's creator or delegate, both signing; then the three programs.
pub open spec fn mint_v1_accounts(
    tree_config: Seq<u8>,
    leaf_owner: Seq<u8>,
    leaf_delegate: Seq<u8>,
    merkle_tree: Seq<u8>,
    payer: Seq<u8>,
    tree_creator_or_delegate: Seq<u8>,
) -> Seq<AccountMetaView> {
    seq![
        writable(tree_config, false),
        readonly(leaf_owner, false),
        readonly(leaf_delegate, false),
        writable(merkle_tree, false),
        readonly(payer, true),
        readonly(tree_creator_or_delegate, true),
    ] + program_accounts()
}

/// The arguments of a mint: the metadata in full.
pub open spec fn mint_v1_data(metadata: MetadataView) -> Seq<u8> {
    MINT_V1_DISCRIMINATOR@ + metadata_bytes(metadata)
}

/// The accounts of a transfer: the tree's configuration; the leaf's
/// owner, signing; the leaf's delegate; the new owner; the tree, written
/// to; then the three programs.
pub open spec fn transfer_accounts(
    tree_config: Seq<u8>,
    leaf_owner: Seq<u8>,
    leaf_delegate: Seq<u8>,
    new_leaf_owner: Seq<u8>,
    merkle_tree: Seq<u8>,
) -> Seq<AccountMetaView> {
    seq![
        readonly(tree_config, false),
        readonly(leaf_owner, true),
        readonly(leaf_delegate, false),
        readonly(new_leaf_owner, false),
        writable(merkle_tree, false),
    ] + program_accounts()
}

/// The arguments of a transfer: the root of the tree, the two digests of
/// the leaf, the leaf's number in eight bytes and its index in four.
pub open spec fn transfer_data(
    root: Seq<u8>,
    data_hash: Seq<u8>,
    creator_hash: Seq<u8>,
    nonce: u64,
    index: u32,
) -> Seq<u8> {
    TRANSFER_DISCRIMINATOR@ + root + data_hash + creator_hash + u64_bytes(nonce) + u32_bytes(index)
}

/// An instruction to the remote program.
pub open spec fn bubblegum_instruction(
    accounts: Seq<AccountMetaView>,
    data: Seq<u8>,
) -> InstructionView {
    InstructionView { program_id: MPL_BUBBLEGUM_ID@, accounts, data }
}

/// Appends the three programs that every instruction names last.
fn push_program_accounts(accounts: &mut Vec<AccountMeta>)
    ensures
        account_views(final(accounts)@) == account_views(old(accounts)@) + program_accounts(),
{
    let ghost start = account_views(accounts@);
    accounts.push(AccountMeta::new_readonly(noop_program_id(), false));
    accounts.push(AccountMeta::new_readonly(account_compression_program_id(), false));
    accounts.push(AccountMeta::new_readonly(system_program_id(), false));
    assert(account_views(accounts@) =~= start + program_accounts());
}

/// Builds the instruction that creates a tree.
pub fn create_tree_config_instruction(
    tree_config: Pubkey,
    merkle_tree: Pubkey,
    payer: Pubkey,
    tree_creator: Pubkey,
    max_depth: u32,
    max_buffer_size: u32,
    public: Option<bool>,
) -> (ix: Instruction)
    ensures
        ix@ == bubblegum_instruction(
            create_tree_config_accounts(tree_config@, merkle_tree@, payer@, tree_creator@),
            create_tree_config_data(max_depth, max_buffer_size, public),
        ),
{
    let mut accounts: Vec<AccountMeta> = Vec::with_capacity(7);
    accounts.push(AccountMeta::new(tree_config, false));
    accounts.push(AccountMeta::new(merkle_tree, false));
    accounts.push(AccountMeta::new(payer, true));
    accounts.push(AccountMeta::new_readonly(tree_creator, true));
    assert(account_views(accounts@) =~= seq![
        writable(tree_config@, false),
        writable(merkle_tree@, false),
        writable(payer@, true),
        readonly(tree_creator@, true),
    ]);
    push_program_accounts(&mut accounts);

    let mut data: Vec<u8> = Vec::new();
    let discriminator = CREATE_TREE_DISCRIMINATOR;
    push_bytes(&mut data, discriminator.as_slice());
    push_u32(&mut data, max_depth);
    push_u32(&mut data, max_buffer_size);
    push_option_bool(&mut data, public);

    Instruction { program_id: bubblegum_program_id(), accounts, data }
}

/// Builds the instruction that mints an asset; `None` exactly when a
/// length in the metadata cannot be stated in four bytes.
pub fn mint_v1_instruction(
    tree_config: Pubkey,
    leaf_owner: Pubkey,
    leaf_delegate: Pubkey,
    merkle_tree: Pubkey,
    payer: Pubkey,
    tree_creator_or_delegate: Pubkey,
    metadata: &MetadataArgs,
) -> (ix: Option<Instruction>)
    ensures
        ix is Some <==> metadata_encodable(metadata@),
        ix matches Some(ix) ==> ix@ == bubblegum_instruction(
            mint_v1_accounts(
                tree_config@,
                leaf_owner@,
                leaf_delegate@,
                merkle_tree@,
                payer@,
                tree_creator_or_delegate@,
            ),
            mint_v1_data(metadata@),
        ),
{
    let layout = match metadata_to_bytes(metadata) {
        Some(bytes) => bytes,
        None => {
            return None;
        },
    };
    let mut accounts: Vec<AccountMeta> = Vec::with_capacity(9);
    accounts.push(AccountMeta::new(tree_config, false));
    accounts.push(AccountMeta::new_readonly(leaf_owner, false));
    accounts.push(AccountMeta::new_readonly(leaf_delegate, false));
    accounts.push(AccountMeta::new(merkle_tree, false));
    accounts.push(AccountMeta::new_readonly(payer, true));
    accounts.push(AccountMeta::new_readonly(tree_creator_or_delegate, true));
    assert(account_views(accounts@) =~= seq![
        writable(tree_config@, false),
        readonly(leaf_owner@, false),
        readonly(leaf_delegate@, false),
        writable(merkle_tree@, false),
        readonly(payer@, true),
        readonly(tree_creator_or_delegate@, true),
    ]);
    push_program_accounts(&mut accounts);

    let mut data: Vec<u8> = Vec::new();
    let discriminator = MINT_V1_DISCRIMINATOR;
    push_bytes(&mut data, discriminator.as_slice());
    push_bytes(&mut data, layout.as_slice());

    Some(Instruction { program_id: bubblegum_program_id(), accounts, data })
}

/// Builds the instruction that hands a leaf to a new owner.  Nothing is
/// checked against the tree: the root and the digests are written down as
/// they are given.
pub fn transfer_instruction(
    tree_config: Pubkey,
    leaf_owner: Pubkey,
    leaf_delegate: Pubkey,
    new_leaf_owner: Pubkey,
    merkle_tree: Pubkey,
    root: [u8; 32],
    data_hash: [u8; 32],
    creator_hash: [u8; 32],
    nonce: u64,
    index: u32,
) -> (ix: Instruction)
    ensures
        ix@ == bubblegum_instruction(
            transfer_accounts(
                tree_config@,
                leaf_owner@,
                leaf_delegate@,
                new_leaf_owner@,
                merkle_tree@,
            ),
            transfer_data(root@, data_hash@, creator_hash@, nonce, index),
        ),
{
    let mut accounts: Vec<AccountMeta> = Vec::with_capacity(8);
    accounts.push(AccountMeta::new_readonly(tree_config, false));
    accounts.push(AccountMeta::new_readonly(leaf_owner, true));
    accounts.push(AccountMeta::new_readonly(leaf_delegate, false));
    accounts.push(AccountMeta::new_readonly(new_leaf_owner, false));
    accounts.push(AccountMeta::new(merkle_tree, false));
    assert(account_views(accounts@) =~= seq![
        readonly(tree_config@, false),
        readonly(leaf_owner@, true),
        readonly(leaf_delegate@, false),
        readonly(new_leaf_owner@, false),
        writable(merkle_tree@, false),
    ]);
    push_program_accounts(&mut accounts);

    let mut data: Vec<u8> = Vec::new();
    let discriminator = TRANSFER_DISCRIMINATOR;
    push_bytes(&mut data, discriminator.as_slice());
    push_bytes(&mut data, root.as_slice());
    push_bytes(&mut data, data_hash.as_slice());
    push_bytes(&mut data, creator_hash.as_slice());
    push_u64(&mut data, nonce);
    push_u32(&mut data, index);

    Instruction { program_id: bubblegum_program_id(), accounts, data }
}

/// The bytes that the account of a tree's configuration takes.
pub const TREE_CONFIG_SPACE: usize = 41;

/// The bytes with which the account of every tree begins.
pub const MERKLE_TREE_HEADER: u64 = 72;

/// The bytes that one node of a tree takes.
pub const NODE_BYTES: u64 = 32;

/// The deepest tree whose size fits in sixty-four bits.
pub const MAX_SIZED_DEPTH: u32 = 57;

/// The bytes that the account of a tree takes: the header, a canopy of
/// 2^(depth - 1) nodes, 2^(depth + 1) nodes of the tree, and the buffer.
pub open spec fn merkle_tree_size(max_depth: u32, max_buffer_size: u32) -> int
    recommends
        1 <= max_depth,
{
    MERKLE_TREE_HEADER + pow2((max_depth - 1) as nat) * NODE_BYTES + pow2((max_depth + 1) as nat)
        * NODE_BYTES + max_buffer_size * NODE_BYTES
}

/// A tree can be given an account: its depth is at least one, its size is
/// a `usize`, and the rent of that size can be computed.
pub open spec fn tree_size_supported(max_depth: u32, max_buffer_size: u32) -> bool {
    &&& 1 <= max_depth
    &&& merkle_tree_size(max_depth, max_buffer_size) <= usize::MAX
    &&& (RENT_STORAGE_OVERHEAD + merkle_tree_size(max_depth, max_buffer_size)) * RENT_PER_BYTE_YEAR
        <= u64::MAX
}

/// A tree deeper than fifty-seven levels has no size in sixty-four bits.
pub proof fn lemma_deep_tree_oversized(max_depth: u32, max_buffer_size: u32)
    requires
        max_depth > MAX_SIZED_DEPTH,
    ensures
        merkle_tree_size(max_depth, max_buffer_size) > u64::MAX,
{
    lemma2_to64();
    lemma2_to64_rest();
    if max_depth + 1 > 59 {
        lemma_pow2_strictly_increases(59, (max_depth + 1) as nat);
    }
    lemma_pow2_pos((max_depth - 1) as nat);
}

/// Two to the power `e`.
fn pow2_u64(e: u32) -> (p: u64)
    requires
        e <= 58,
    ensures
        p == pow2(e as nat),
{
    proof {
        lemma2_to64();
        lemma2_to64_rest();
        if e < 58 {
            lemma_pow2_strictly_increases(e as nat, 58);
        }
        lemma_u64_shl_is_mul(1, e as u64);
    }
    1u64 << (e as u64)
}

/// The size of a tree of at most fifty-seven levels.
fn sized_tree(max_depth: u32, max_buffer_size: u32) -> (size: u64)
    requires
        1 <= max_depth <= MAX_SIZED_DEPTH,
    ensures
        size == merkle_tree_size(max_depth, max_buffer_size),
{
    proof {
        lemma2_to64();
        lemma2_to64_rest();
        if max_depth + 1 < 58 {
            lemma_pow2_strictly_increases((max_depth + 1) as nat, 58);
        }
        lemma_pow2_strictly_increases((max_depth - 1) as nat, (max_depth + 1) as nat);
    }
    let canopy_size: u64 = pow2_u64(max_depth - 1) * NODE_BYTES;
    let tree_size: u64 = pow2_u64(max_depth + 1) * NODE_BYTES;
    let buffer_size: u64 = max_buffer_size as u64 * NODE_BYTES;
    MERKLE_TREE_HEADER + canopy_size + tree_size + buffer_size
}

/// Calculates the bytes that the account of a tree takes.
pub fn get_merkle_tree_size(max_depth: u32, max_buffer_size: u32) -> (size: usize)
    requires
        1 <= max_depth,
        merkle_tree_size(max_depth, max_buffer_size) <= usize::MAX,
    ensures
        size == merkle_tree_size(max_depth, max_buffer_size),
{
    proof {
        if max_depth > MAX_SIZED_DEPTH {
            lemma_deep_tree_oversized(max_depth, max_buffer_size);
        }
    }
    sized_tree(max_depth, max_buffer_size) as usize
}

/// Calculates the bytes that the account of a tree takes, where the tree
/// can be given an account at all.
pub fn supported_tree_size(max_depth: u32, max_buffer_size: u32) -> (size: Option<usize>)
    ensures
        size is Some <==> tree_size_supported(max_depth, max_buffer_size),
        size matches Some(n) ==> n == merkle_tree_size(max_depth, max_buffer_size),
{
    if max_depth == 0 {
        return None;
    }
    if max_depth > MAX_SIZED_DEPTH {
        proof {
            lemma_deep_tree_oversized(max_depth, max_buffer_size);
        }
        return None;
    }
    let size: u64 = sized_tree(max_depth, max_buffer_size);
    if size > usize::MAX as u64 || size > u64::MAX / RENT_PER_BYTE_YEAR - RENT_STORAGE_OVERHEAD {
        return None;
    }
    Some(size as usize)
}

/// What is said of a tree that cannot be given an account.
pub open spec fn tree_size_failure_text() -> Seq<char> {
    "max_depth and max_buffer_size must describe a tree whose account can be sized"@
}

/// The instructions of the transaction that creates a tree: the system
/// program creates the account of the configuration, owned by the remote
/// program, and the account of the tree, owned by the program that keeps
/// trees, each with the balance that exempts it from rent; then the
/// remote program creates the tree.
pub open spec fn create_tree_config_instructions(
    tree_config: Seq<u8>,
    merkle_tree: Seq<u8>,
    payer: Seq<u8>,
    tree_creator: Seq<u8>,
    max_depth: u32,
    max_buffer_size: u32,
    public: Option<bool>,
) -> Seq<InstructionView> {
    let size = merkle_tree_size(max_depth, max_buffer_size);
    seq![
        create_account_instruction(
            payer,
            tree_config,
            rent_exempt_minimum(TREE_CONFIG_SPACE),
            TREE_CONFIG_SPACE as u64,
            MPL_BUBBLEGUM_ID@,
        ),
        create_account_instruction(
            payer,
            merkle_tree,
            rent_exempt_minimum(size as usize),
            size as u64,
            ACCOUNT_COMPRESSION_PROGRAM_ID@,
        ),
        bubblegum_instruction(
            create_tree_config_accounts(tree_config, merkle_tree, payer, tree_creator),
            create_tree_config_data(max_depth, max_buffer_size, public),
        ),
    ]
}

/// Counting the accounts of a list with one more instruction.
pub proof fn lemma_account_mentions_push(instructions: Seq<InstructionView>, ix: InstructionView)
    ensures
        account_mentions(instructions.push(ix)) == account_mentions(instructions) + 1
            + ix.accounts.len(),
{
    assert(instructions.push(ix).drop_last() =~= instructions);
}

/// A transaction of one instruction.
pub open spec fn single_instruction(
    ix: InstructionView,
    fee_payer: Seq<u8>,
) -> UnsignedTransactionView {
    UnsignedTransactionView { instructions: seq![ix], fee_payer }
}

/// The transaction that sets up a tree and its configuration, paid for by
/// `payer`.
pub open spec fn create_tree_config_view(
    tree_config: Seq<u8>,
    merkle_tree: Seq<u8>,
    payer: Seq<u8>,
    tree_creator: Seq<u8>,
    max_depth: u32,
    max_buffer_size: u32,
    public: Option<bool>,
) -> UnsignedTransactionView {
    UnsignedTransactionView {
        instructions: create_tree_config_instructions(
            tree_config,
            merkle_tree,
            payer,
            tree_creator,
            max_depth,
            max_buffer_size,
            public,
        ),
        fee_payer: payer,
    }
}

/// The transaction that mints an asset, paid for by `payer`.
pub open spec fn mint_v1_view(
    tree_config: Seq<u8>,
    leaf_owner: Seq<u8>,
    leaf_delegate: Seq<u8>,
    merkle_tree: Seq<u8>,
    payer: Seq<u8>,
    tree_creator_or_delegate: Seq<u8>,
    metadata: MetadataView,
) -> UnsignedTransactionView {
    single_instruction(
        bubblegum_instruction(
            mint_v1_accounts(
                tree_config,
                leaf_owner,
                leaf_delegate,
                merkle_tree,
                payer,
                tree_creator_or_delegate,
            ),
            mint_v1_data(metadata),
        ),
        payer,
    )
}

/// The transaction that hands a leaf to a new owner, paid for by the
/// present owner.
pub open spec fn transfer_view(
    tree_config: Seq<u8>,
    leaf_owner: Seq<u8>,
    leaf_delegate: Seq<u8>,
    new_leaf_owner: Seq<u8>,
    merkle_tree: Seq<u8>,
    root: Seq<u8>,
    data_hash: Seq<u8>,
    creator_hash: Seq<u8>,
    nonce: u64,
    index: u32,
) -> UnsignedTransactionView {
    single_instruction(
        bubblegum_instruction(
            transfer_accounts(tree_config, leaf_owner, leaf_delegate, new_leaf_owner, merkle_tree),
            transfer_data(root, data_hash, creator_hash, nonce, index),
        ),
        leaf_owner,
    )
}

/// Binds one instruction to the account that pays for it.
fn transaction_of(instruction: Instruction, fee_payer: Pubkey) -> (tx: UnsignedTransaction)
    ensures
        tx@ == single_instruction(instruction@, fee_payer@),
        account_mentions(tx@.instructions) == 2 + instruction@.accounts.len(),
        data_fits(tx@.instructions) <==> instruction@.data.len() <= MAX_INSTRUCTION_DATA,
{
    let ghost view = instruction@;
    let mut instructions: Vec<Instruction> = Vec::with_capacity(1);
    instructions.push(instruction);
    let tx = UnsignedTransaction { instructions, fee_payer };
    proof {
        assert(tx@.instructions =~= seq![view]);
        lemma_account_mentions_push(Seq::empty(), view);
        assert(seq![view] =~= Seq::empty().push(view));
        if view.data.len() > MAX_INSTRUCTION_DATA {
            assert(seq![view][0] == view);
        }
    }
    tx
}

/// Builds the transaction that sets up a tree and its configuration;
/// `None` exactly when the tree cannot be given an account.  What is
/// built can always be encoded.
pub fn create_tree_config_transaction(
    tree_config: Pubkey,
    merkle_tree: Pubkey,
    payer: Pubkey,
    tree_creator: Pubkey,
    max_depth: u32,
    max_buffer_size: u32,
    public: Option<bool>,
) -> (tx: Option<UnsignedTransaction>)
    ensures
        tx is Some <==> tree_size_supported(max_depth, max_buffer_size),
        tx matches Some(tx) ==> tx@ == create_tree_config_view(
            tree_config@,
            merkle_tree@,
            payer@,
            tree_creator@,
            max_depth,
            max_buffer_size,
            public,
        ) && transaction_encodable(tx@),
{
    let merkle_tree_space: usize = match supported_tree_size(max_depth, max_buffer_size) {
        Some(size) => size,
        None => {
            return None;
        },
    };
    let tree_config_lamports: u64 = rent_minimum_balance(TREE_CONFIG_SPACE);
    let merkle_tree_lamports: u64 = rent_minimum_balance(merkle_tree_space);

    let bubblegum = bubblegum_program_id();
    let compression = account_compression_program_id();
    let mut instructions: Vec<Instruction> = Vec::with_capacity(3);
    instructions.push(
        system_create_account(
            &payer,
            &tree_config,
            tree_config_lamports,
            TREE_CONFIG_SPACE as u64,
            &bubblegum,
        ),
    );
    instructions.push(
        system_create_account(
            &payer,
            &merkle_tree,
            merkle_tree_lamports,
            merkle_tree_space as u64,
            &compression,
        ),
    );
    instructions.push(
        create_tree_config_instruction(
            tree_config,
            merkle_tree,
            payer,
            tree_creator,
            max_depth,
            max_buffer_size,
            public,
        ),
    );

    let transaction = UnsignedTransaction { instructions, fee_payer: payer };
    proof {
        let expected = create_tree_config_instructions(
            tree_config@,
            merkle_tree@,
            payer@,
            tree_creator@,
            max_depth,
            max_buffer_size,
            public,
        );
        assert(transaction@.instructions =~= expected);
        lemma_account_mentions_push(Seq::empty(), expected[0]);
        lemma_account_mentions_push(seq![expected[0]], expected[1]);
        lemma_account_mentions_push(seq![expected[0], expected[1]], expected[2]);
        assert(seq![expected[0]] =~= Seq::empty().push(expected[0]));
        assert(seq![expected[0], expected[1]] =~= seq![expected[0]].push(expected[1]));
        assert(expected =~= seq![expected[0], expected[1]].push(expected[2]));
        lemma_le_bytes_len(0, 4);
        lemma_le_bytes_len(tree_config_lamports as nat, 8);
        lemma_le_bytes_len(merkle_tree_lamports as nat, 8);
        lemma_le_bytes_len(TREE_CONFIG_SPACE as nat, 8);
        lemma_le_bytes_len(merkle_tree_space as nat, 8);
        lemma_le_bytes_len(max_depth as nat, 4);
        lemma_le_bytes_len(max_buffer_size as nat, 4);
        assert(data_fits(expected));
    }
    Some(transaction)
}

/// Creates the transaction that sets up a tree and its configuration, paid
/// for by `payer`, in the bytes that are handed on for signing.  It fails
/// exactly when the tree cannot be given an account.
pub fn create_tree_config(
    tree_config: Pubkey,
    merkle_tree: Pubkey,
    payer: Pubkey,
    tree_creator: Pubkey,
    max_depth: u32,
    max_buffer_size: u32,
    public: Option<bool>,
) -> (result: Result<Vec<u8>, Error>)
    ensures
        result is Ok <==> tree_size_supported(max_depth, max_buffer_size),
        result matches Ok(bytes) ==> bytes@ == encoded(
            create_tree_config_view(
                tree_config@,
                merkle_tree@,
                payer@,
                tree_creator@,
                max_depth,
                max_buffer_size,
                public,
            ),
        ),
        result matches Err(e) ==> e matches Error::InvalidParameter(m) && m@
            == tree_size_failure_text(),
{
    match create_tree_config_transaction(
        tree_config,
        merkle_tree,
        payer,
        tree_creator,
        max_depth,
        max_buffer_size,
        public,
    ) {
        Some(transaction) => transaction.encode(),
        None => Err(
            Error::InvalidParameter(
                String::from_str(
                    "max_depth and max_buffer_size must describe a tree whose account can be sized",
                ),
            ),
        ),
    }
}

/// What is said of metadata that have no layout.
pub open spec fn layout_failure_text() -> Seq<char> {
    "invalid input parameter"@
}

/// Builds the transaction that mints an asset; `None` exactly when a
/// length in the metadata cannot be stated in four bytes.
pub fn mint_v1_transaction(
    tree_config: Pubkey,
    leaf_owner: Pubkey,
    leaf_delegate: Pubkey,
    merkle_tree: Pubkey,
    payer: Pubkey,
    tree_creator_or_delegate: Pubkey,
    metadata: &MetadataArgs,
) -> (tx: Option<UnsignedTransaction>)
    ensures
        tx is Some <==> metadata_encodable(metadata@),
        tx matches Some(tx) ==> tx@ == mint_v1_view(
            tree_config@,
            leaf_owner@,
            leaf_delegate@,
            merkle_tree@,
            payer@,
            tree_creator_or_delegate@,
            metadata@,
        ) && (transaction_encodable(tx@) <==> mint_v1_data(metadata@).len()
            <= MAX_INSTRUCTION_DATA),
{
    match mint_v1_instruction(
        tree_config,
        leaf_owner,
        leaf_delegate,
        merkle_tree,
        payer,
        tree_creator_or_delegate,
        metadata,
    ) {
        Some(instruction) => Some(transaction_of(instruction, payer)),
        None => None,
    }
}

/// Creates the transaction that mints an asset, paid for by `payer`, in
/// the bytes that are handed on for signing.  It fails exactly when the
/// metadata have no layout or the layout is too long for one instruction.
pub fn mint_v1(
    tree_config: Pubkey,
    leaf_owner: Pubkey,
    leaf_delegate: Pubkey,
    merkle_tree: Pubkey,
    payer: Pubkey,
    tree_creator_or_delegate: Pubkey,
    metadata: MetadataArgs,
) -> (result: Result<Vec<u8>, Error>)
    ensures
        result is Ok <==> metadata_encodable(metadata@) && mint_v1_data(metadata@).len()
            <= MAX_INSTRUCTION_DATA,
        result matches Ok(bytes) ==> bytes@ == encoded(
            mint_v1_view(
                tree_config@,
                leaf_owner@,
                leaf_delegate@,
                merkle_tree@,
                payer@,
                tree_creator_or_delegate@,
                metadata@,
            ),
        ),
        result matches Err(e) ==> e matches Error::Conversion(m)
            && serialization_failure_prefix().is_prefix_of(m@) && (!metadata_encodable(metadata@)
            ==> m@ == serialization_failure_prefix() + layout_failure_text()),
{
    match mint_v1_transaction(
        tree_config,
        leaf_owner,
        leaf_delegate,
        merkle_tree,
        payer,
        tree_creator_or_delegate,
        &metadata,
    ) {
        Some(transaction) => transaction.encode(),
        None => {
            proof {
                lemma_prefix_stays(serialization_failure_prefix(), layout_failure_text());
            }
            Err(serialization_failure("invalid input parameter"))
        },
    }
}

/// Builds the transaction that hands a leaf to a new owner.  What is built
/// can always be encoded.
pub fn transfer_transaction(
    tree_config: Pubkey,
    leaf_owner: Pubkey,
    leaf_delegate: Pubkey,
    new_leaf_owner: Pubkey,
    merkle_tree: Pubkey,
    root: [u8; 32],
    data_hash: [u8; 32],
    creator_hash: [u8; 32],
    nonce: u64,
    index: u32,
) -> (tx: UnsignedTransaction)
    ensures
        tx@ == transfer_view(
            tree_config@,
            leaf_owner@,
            leaf_delegate@,
            new_leaf_owner@,
            merkle_tree@,
            root@,
            data_hash@,
            creator_hash@,
            nonce,
            index,
        ),
        transaction_encodable(tx@),
{
    let instruction = transfer_instruction(
        tree_config,
        leaf_owner,
        leaf_delegate,
        new_leaf_owner,
        merkle_tree,
        root,
        data_hash,
        creator_hash,
        nonce,
        index,
    );
    proof {
        lemma_le_bytes_len(nonce as nat, 8);
        lemma_le_bytes_len(index as nat, 4);
    }
    transaction_of(instruction, leaf_owner)
}

/// Creates the transaction that hands a leaf to a new owner, paid for by
/// the present owner, in the bytes that are handed on for signing.  It
/// always succeeds.
pub fn transfer(
    tree_config: Pubkey,
    leaf_owner: Pubkey,
    leaf_delegate: Pubkey,
    new_leaf_owner: Pubkey,
    merkle_tree: Pubkey,
    root: [u8; 32],
    data_hash: [u8; 32],
    creator_hash: [u8; 32],
    nonce: u64,
    index: u32,
) -> (result: Result<Vec<u8>, Error>)
    ensures
        result is Ok,
        result matches Ok(bytes) ==> bytes@ == encoded(
            transfer_view(
                tree_config@,
                leaf_owner@,
                leaf_delegate@,
                new_leaf_owner@,
                merkle_tree@,
                root@,
                data_hash@,
                creator_hash@,
                nonce,
                index,
            ),
        ),
{
    transfer_transaction(
        tree_config,
        leaf_owner,
        leaf_delegate,
        new_leaf_owner,
        merkle_tree,
        root,
        data_hash,
        creator_hash,
        nonce,
        index,
    ).encode()
}

} // verus!
