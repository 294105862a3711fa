//! The calls into the Solana crates.  No function in this file is proved:
//! each states what the library takes on trust about the function it calls.

use vstd::prelude::*;
use crate::encoding::{bool_byte, u32_bytes, u64_bytes};
use crate::programs::{ACCOUNT_COMPRESSION_PROGRAM_ID, NOOP_PROGRAM_ID, SYSTEM_PROGRAM_ID};
use crate::pubkey::Pubkey;
use crate::transaction::{
    account_mentions, data_fits, instruction_views, writable, AccountMeta, AccountMetaView,
    Instruction, InstructionView, MAX_ACCOUNT_MENTIONS,
};

verus! {

/// `bincode::ErrorKind`, held without a look inside.
#[verifier::external_type_specification]
#[verifier::external_body]
pub struct ExBincodeErrorKind(bincode::ErrorKind);

/// The byte strings of a list, each as a mathematical value.
pub open spec fn byte_strings(parts: Seq<Vec<u8>>) -> Seq<Seq<u8>> {
    parts.map_values(|p: Vec<u8>| p@)
}

/// The Keccak-256 digest that `solana_program::keccak::hashv` computes
/// over byte strings fed to it in order.
pub uninterp spec fn keccak_digest(parts: Seq<Seq<u8>>) -> Seq<u8>;

/// `solana_program::keccak::hashv`: the digest is a function of the byte
/// strings, in their order, and of nothing else.
#[verifier::external_body]
pub(crate) fn keccak_hashv(parts: &Vec<Vec<u8>>) -> (digest: [u8; 32])
    ensures
        digest@ == keccak_digest(byte_strings(parts@)),
{
    let slices: Vec<&[u8]> = parts.iter().map(|p| p.as_slice()).collect();
    solana_program::keccak::hashv(&slices).to_bytes()
}

/// What `solana_program::pubkey::Pubkey::try_find_program_address` finds
/// for seeds and a program: a derived address with its bump seed, or
/// nothing.
pub uninterp spec fn program_address(seeds: Seq<Seq<u8>>, program_id: Seq<u8>) -> Option<
    (Seq<u8>, u8),
>;

/// `solana_program::pubkey::Pubkey::try_find_program_address`: what it
/// finds, an address with its bump seed or nothing, is a function of the
/// seeds and the program and of nothing else.
#[verifier::external_body]
pub(crate) fn find_program_address(seeds: &Vec<Vec<u8>>, program_id: &Pubkey) -> (found: Option<
    (Pubkey, u8),
>)
    ensures
        match found {
            Some((address, bump)) => program_address(byte_strings(seeds@), program_id@) == Some(
                (address@, bump),
            ),
            None => program_address(byte_strings(seeds@), program_id@) is None,
        },
{
    let slices: Vec<&[u8]> = seeds.iter().map(|s| s.as_slice()).collect();
    let program = solana_program::pubkey::Pubkey::new_from_array(program_id.bytes);
    match solana_program::pubkey::Pubkey::try_find_program_address(&slices, &program) {
        Some((address, bump)) => Some((Pubkey { bytes: address.to_bytes() }, bump)),
        None => None,
    }
}

/// The balance that `solana_sdk::rent::Rent::minimum_balance` asks, under
/// the default rent, for an account with `data_len` bytes of data.
pub uninterp spec fn rent_exempt_minimum(data_len: usize) -> u64;

/// The bytes of overhead that rent adds to an account's data.
pub const RENT_STORAGE_OVERHEAD: u64 = 128;

/// The default yearly rent per byte.
pub const RENT_PER_BYTE_YEAR: u64 = 3480;

/// `solana_sdk::rent::Rent::minimum_balance` on `Rent::default()`: the
/// balance is a function of the length and of nothing else.  The function
/// multiplies the length plus the overhead by the yearly rate in `u64`
/// before it goes on in floating point, so lengths that overflow there are
/// left out.
#[verifier::external_body]
pub(crate) fn rent_minimum_balance(data_len: usize) -> (lamports: u64)
    requires
        (RENT_STORAGE_OVERHEAD + data_len) * RENT_PER_BYTE_YEAR <= u64::MAX,
    ensures
        lamports == rent_exempt_minimum(data_len),
{
    solana_sdk::rent::Rent::default().minimum_balance(data_len)
}

/// The instruction that asks the system program to create an account: the
/// funding account and the new account, both signing and writable, and as
/// arguments the instruction's number, zero, in four bytes, the balance,
/// the size, and the owner.
pub open spec fn create_account_instruction(
    from: Seq<u8>,
    to: Seq<u8>,
    lamports: u64,
    space: u64,
    owner: Seq<u8>,
) -> InstructionView {
    InstructionView {
        program_id: SYSTEM_PROGRAM_ID@,
        accounts: seq![writable(from, true), writable(to, true)],
        data: u32_bytes(0) + u64_bytes(lamports) + u64_bytes(space) + owner,
    }
}

/// `solana_sdk::system_instruction::create_account`: it returns the
/// instruction that `create_account_instruction` describes, with the
/// variant's number and the two amounts as `bincode` writes them.
#[verifier::external_body]
pub(crate) fn system_create_account(
    from: &Pubkey,
    to: &Pubkey,
    lamports: u64,
    space: u64,
    owner: &Pubkey,
) -> (ix: Instruction)
    ensures
        ix@ == create_account_instruction(from@, to@, lamports, space, owner@),
{
    let from = solana_sdk::pubkey::Pubkey::new_from_array(from.bytes);
    let to = solana_sdk::pubkey::Pubkey::new_from_array(to.bytes);
    let owner = solana_sdk::pubkey::Pubkey::new_from_array(owner.bytes);
    let ix = solana_sdk::system_instruction::create_account(&from, &to, lamports, space, &owner);
    Instruction {
        program_id: Pubkey { bytes: ix.program_id.to_bytes() },
        accounts: ix.accounts.iter().map(|a| AccountMeta {
            pubkey: Pubkey { bytes: a.pubkey.to_bytes() },
            is_signer: a.is_signer,
            is_writable: a.is_writable,
        }).collect(),
        data: ix.data,
    }
}

/// An account of an instruction in thirty-four bytes: the address, whether
/// it signs, whether it is written to.
pub open spec fn account_meta_bytes(account: AccountMetaView) -> Seq<u8> {
    account.pubkey + seq![bool_byte(account.is_signer), bool_byte(account.is_writable)]
}

/// The accounts of an instruction one after another.
pub open spec fn account_metas_bytes(accounts: Seq<AccountMetaView>) -> Seq<u8>
    decreases accounts.len(),
{
    if accounts.len() == 0 {
        Seq::empty()
    } else {
        account_metas_bytes(accounts.drop_last()) + account_meta_bytes(accounts.last())
    }
}

/// An instruction on its own: the program, the accounts behind their
/// number in eight bytes, the argument bytes behind theirs.
pub open spec fn instruction_bytes(ix: InstructionView) -> Seq<u8> {
    ix.program_id + u64_bytes(ix.accounts.len() as u64) + account_metas_bytes(ix.accounts)
        + u64_bytes(ix.data.len() as u64) + ix.data
}

/// `bincode::serialize` on a `solana_sdk::instruction::Instruction`.  It
/// writes the fields in their order, a list behind its length in eight
/// bytes and a truth value in one, and has nothing to fail on.
#[verifier::external_body]
pub(crate) fn serialize_instruction(
    ix: &Instruction,
) -> (result: Result<Vec<u8>, Box<bincode::ErrorKind>>)
    ensures
        result is Ok,
        result matches Ok(bytes) ==> bytes@ == instruction_bytes(ix@),
{
    bincode::serialize(&solana_sdk::instruction::Instruction {
        program_id: solana_sdk::pubkey::Pubkey::new_from_array(ix.program_id.bytes),
        accounts: ix.accounts.iter().map(|a| solana_sdk::instruction::AccountMeta {
            pubkey: solana_sdk::pubkey::Pubkey::new_from_array(a.pubkey.bytes),
            is_signer: a.is_signer,
            is_writable: a.is_writable,
        }).collect(),
        data: ix.data.clone(),
    })
}

/// The bytes that `bincode::serialize` gives for the unsigned transaction
/// that `solana_sdk` makes of instructions and a fee payer.
pub uninterp spec fn unsigned_transaction_bytes(
    instructions: Seq<InstructionView>,
    fee_payer: Seq<u8>,
) -> Seq<u8>;

/// `solana_sdk::message::Message::new`, then
/// `solana_sdk::transaction::Transaction::new_unsigned` on the message,
/// then `bincode::serialize` on the transaction: the three steps by which
/// `solana_sdk` brings instructions and a fee payer into the bytes of an
/// unsigned transaction.  The bytes are a function of the instructions and
/// the fee payer and of nothing else.  The first step panics when it
/// counts more than 255 accounts of one kind, so the accounts named are
/// bounded.  The last fails exactly when a list is too long for its
/// two-byte count, which under that bound only an instruction's argument
/// bytes can be.
#[verifier::external_body]
pub(crate) fn serialize_unsigned_transaction(
    instructions: &Vec<Instruction>,
    fee_payer: &Pubkey,
) -> (result: Result<Vec<u8>, Box<bincode::ErrorKind>>)
    requires
        account_mentions(instruction_views(instructions@)) <= MAX_ACCOUNT_MENTIONS,
    ensures
        result is Ok <==> data_fits(instruction_views(instructions@)),
        result matches Ok(bytes) ==> bytes@ == unsigned_transaction_bytes(
            instruction_views(instructions@),
            fee_payer@,
        ),
{
    let instructions: Vec<_> = instructions.iter().map(|ix| solana_sdk::instruction::Instruction {
        program_id: solana_sdk::pubkey::Pubkey::new_from_array(ix.program_id.bytes),
        accounts: ix.accounts.iter().map(|a| solana_sdk::instruction::AccountMeta {
            pubkey: solana_sdk::pubkey::Pubkey::new_from_array(a.pubkey.bytes),
            is_signer: a.is_signer,
            is_writable: a.is_writable,
        }).collect(),
        data: ix.data.clone(),
    }).collect();
    let payer = solana_sdk::pubkey::Pubkey::new_from_array(fee_payer.bytes);
    let message = solana_sdk::message::Message::new(&instructions, Some(&payer));
    bincode::serialize(&solana_sdk::transaction::Transaction::new_unsigned(message))
}

/// `bincode`'s `Display` text for a failure.  Nothing is claimed about the
/// text.
#[verifier::external_body]
pub(crate) fn bincode_error_text(e: &bincode::ErrorKind) -> String {
    format!("{}", e)
}

/// `spl_noop::id`: the address that `spl_noop` declares for itself is the
/// one written down in `NOOP_PROGRAM_ID`.
#[verifier::external_body]
pub(crate) fn noop_program_id() -> (id: Pubkey)
    ensures
        id@ == NOOP_PROGRAM_ID@,
{
    Pubkey { bytes: spl_noop::id().to_bytes() }
}

/// `spl_account_compression::id`: the address that
/// `spl_account_compression` declares for itself is the one written down
/// in `ACCOUNT_COMPRESSION_PROGRAM_ID`.
#[verifier::external_body]
pub(crate) fn account_compression_program_id() -> (id: Pubkey)
    ensures
        id@ == ACCOUNT_COMPRESSION_PROGRAM_ID@,
{
    Pubkey { bytes: spl_account_compression::id().to_bytes() }
}

} // verus!
