//! Instructions and unsigned transactions as plain data.

use vstd::prelude::*;
use vstd::string::StringExecFns;
use crate::error::{lemma_prefix_stays, Error};
use crate::pubkey::Pubkey;
use crate::sdk::{
    bincode_error_text, instruction_bytes, serialize_instruction, serialize_unsigned_transaction,
    unsigned_transaction_bytes,
};

verus! {

/// One account that an instruction names, with what the instruction asks
/// of it.
#[derive(Clone, Copy, Debug, PartialEq, Eq)]
pub struct AccountMeta {
    pub pubkey: Pubkey,
    pub is_signer: bool,
    pub is_writable: bool,
}

/// An `AccountMeta` as a mathematical value.
pub struct AccountMetaView {
    pub pubkey: Seq<u8>,
    pub is_signer: bool,
    pub is_writable: bool,
}

impl View for AccountMeta {
    type V = AccountMetaView;

    open spec fn view(&self) -> AccountMetaView {
        AccountMetaView {
            pubkey: self.pubkey@,
            is_signer: self.is_signer,
            is_writable: self.is_writable,
        }
    }
}

impl AccountMeta {
    /// An account that the instruction may write to.
    pub fn new(pubkey: Pubkey, is_signer: bool) -> (meta: AccountMeta)
        ensures
            meta@ == writable(pubkey@, is_signer),
    {
        AccountMeta { pubkey, is_signer, is_writable: true }
    }

    /// An account that the instruction only reads.
    pub fn new_readonly(pubkey: Pubkey, is_signer: bool) -> (meta: AccountMeta)
        ensures
            meta@ == readonly(pubkey@, is_signer),
    {
        AccountMeta { pubkey, is_signer, is_writable: false }
    }
}

/// An account that the instruction may write to.
pub open spec fn writable(pubkey: Seq<u8>, is_signer: bool) -> AccountMetaView {
    AccountMetaView { pubkey, is_signer, is_writable: true }
}

/// An account that the instruction only reads.
pub open spec fn readonly(pubkey: Seq<u8>, is_signer: bool) -> AccountMetaView {
    AccountMetaView { pubkey, is_signer, is_writable: false }
}

/// A call of one program: the program, the accounts it is given, in the
/// order in which the program expects them, and its argument bytes.
#[derive(Clone, Debug, PartialEq, Eq)]
pub struct Instruction {
    pub program_id: Pubkey,
    pub accounts: Vec<AccountMeta>,
    pub data: Vec<u8>,
}

/// An `Instruction` as a mathematical value.
pub struct InstructionView {
    pub program_id: Seq<u8>,
    pub accounts: Seq<AccountMetaView>,
    pub data: Seq<u8>,
}

/// The accounts of a list, each as a mathematical value.
pub open spec fn account_views(accounts: Seq<AccountMeta>) -> Seq<AccountMetaView> {
    accounts.map_values(|a: AccountMeta| a@)
}

impl View for Instruction {
    type V = InstructionView;

    open spec fn view(&self) -> InstructionView {
        InstructionView {
            program_id: self.program_id@,
            accounts: account_views(self.accounts@),
            data: self.data@,
        }
    }
}

/// The instructions of a list, each as a mathematical value.
pub open spec fn instruction_views(instructions: Seq<Instruction>) -> Seq<InstructionView> {
    instructions.map_values(|ix: Instruction| ix@)
}

/// How many times the instructions and the fee payer name an account: once
/// for the fee payer, once for each instruction's program, once for each
/// account handed to it.
pub open spec fn account_mentions(instructions: Seq<InstructionView>) -> nat
    decreases instructions.len(),
{
    if instructions.len() == 0 {
        1
    } else {
        account_mentions(instructions.drop_last()) + 1 + instructions.last().accounts.len()
    }
}

/// The most accounts that a transaction can name.
pub const MAX_ACCOUNT_MENTIONS: usize = 255;

/// The most argument bytes that one instruction can carry over the wire.
pub const MAX_INSTRUCTION_DATA: usize = 65535;

/// Every instruction's argument bytes fit the wire format.
pub open spec fn data_fits(instructions: Seq<InstructionView>) -> bool {
    forall|i: int|
        0 <= i < instructions.len() ==> (#[trigger] instructions[i]).data.len()
            <= MAX_INSTRUCTION_DATA
}

/// Instructions bound to the account that pays the fee.  It carries no
/// signature and no recent block hash: whoever signs it adds both.
#[derive(Clone, Debug, PartialEq, Eq)]
pub struct UnsignedTransaction {
    pub instructions: Vec<Instruction>,
    pub fee_payer: Pubkey,
}

/// An `UnsignedTransaction` as a mathematical value.
pub struct UnsignedTransactionView {
    pub instructions: Seq<InstructionView>,
    pub fee_payer: Seq<u8>,
}

impl View for UnsignedTransaction {
    type V = UnsignedTransactionView;

    open spec fn view(&self) -> UnsignedTransactionView {
        UnsignedTransactionView {
            instructions: instruction_views(self.instructions@),
            fee_payer: self.fee_payer@,
        }
    }
}

/// The bytes of an unsigned transaction as they are handed on for signing.
pub open spec fn encoded(tx: UnsignedTransactionView) -> Seq<u8> {
    unsigned_transaction_bytes(tx.instructions, tx.fee_payer)
}

/// The wire format has room for the transaction: it names at most 255
/// accounts, and no instruction carries more than 65535 argument bytes.
pub open spec fn transaction_encodable(tx: UnsignedTransactionView) -> bool {
    &&& account_mentions(tx.instructions) <= MAX_ACCOUNT_MENTIONS
    &&& data_fits(tx.instructions)
}

/// With what every message about a failed encoding begins.
pub open spec fn serialization_failure_prefix() -> Seq<char> {
    "Failed to serialize transaction: "@
}

/// What is said of a transaction that names too many accounts.
pub open spec fn too_many_accounts_text() -> Seq<char> {
    "too many accounts"@
}

/// The error for a transaction that cannot be encoded, with the reason.
pub fn serialization_failure(detail: &str) -> (e: Error)
    ensures
        e matches Error::Conversion(m) && m@ == serialization_failure_prefix() + detail@,
{
    Error::Conversion(String::from_str("Failed to serialize transaction: ").concat(detail))
}

/// One more instruction adds its program and its accounts to the count.
pub proof fn lemma_account_mentions_step(instructions: Seq<InstructionView>, i: int)
    requires
        0 <= i < instructions.len(),
    ensures
        account_mentions(instructions.take(i + 1)) == account_mentions(instructions.take(i)) + 1
            + instructions[i].accounts.len(),
        account_mentions(instructions.take(i + 1)) <= account_mentions(instructions),
    decreases instructions.len() - i,
{
    let upto = instructions.take(i + 1);
    assert(upto.drop_last() =~= instructions.take(i));
    assert(upto.last() == instructions[i]);
    if i + 1 < instructions.len() {
        lemma_account_mentions_step(instructions, i + 1);
    } else {
        assert(upto =~= instructions);
    }
}

/// Whether the instructions, with a fee payer, name at most 255 accounts.
pub fn within_account_limit(instructions: &Vec<Instruction>) -> (within: bool)
    ensures
        within <==> account_mentions(instruction_views(instructions@)) <= MAX_ACCOUNT_MENTIONS,
{
    let ghost views = instruction_views(instructions@);
    let mut count: usize = 1;
    let mut i: usize = 0;
    assert(views.take(0) =~= Seq::<InstructionView>::empty());
    while i < instructions.len()
        invariant
            i <= instructions.len(),
            views == instruction_views(instructions@),
            count == account_mentions(views.take(i as int)),
            count <= MAX_ACCOUNT_MENTIONS,
        decreases instructions.len() - i,
    {
        proof {
            lemma_account_mentions_step(views, i as int);
            assert(views[i as int].accounts.len() == instructions@[i as int].accounts@.len());
        }
        let named: usize = instructions[i].accounts.len();
        if named >= MAX_ACCOUNT_MENTIONS || count + 1 + named > MAX_ACCOUNT_MENTIONS {
            return false;
        }
        count = count + 1 + named;
        i += 1;
    }
    assert(views.take(instructions@.len() as int) =~= views);
    true
}

impl Instruction {
    /// Brings the instruction on its own into bytes.  It always succeeds.
    pub fn encode(&self) -> (result: Result<Vec<u8>, Error>)
        ensures
            result matches Ok(bytes) && bytes@ == instruction_bytes(self@),
    {
        match serialize_instruction(self) {
            Ok(bytes) => Ok(bytes),
            Err(failure) => {
                let detail = bincode_error_text(&*failure);
                Err(serialization_failure(detail.as_str()))
            },
        }
    }
}

impl UnsignedTransaction {
    /// Brings the transaction into the bytes that are handed on for
    /// signing.  It fails exactly when the wire format has no room for the
    /// transaction.
    pub fn encode(&self) -> (result: Result<Vec<u8>, Error>)
        ensures
            result is Ok <==> transaction_encodable(self@),
            result matches Ok(bytes) ==> bytes@ == encoded(self@),
            result matches Err(e) ==> e matches Error::Conversion(m)
                && serialization_failure_prefix().is_prefix_of(m@) && (account_mentions(
                self@.instructions,
            ) > MAX_ACCOUNT_MENTIONS ==> m@ == serialization_failure_prefix()
                + too_many_accounts_text()),
    {
        if !within_account_limit(&self.instructions) {
            let e = serialization_failure("too many accounts");
            proof {
                lemma_prefix_stays(serialization_failure_prefix(), "too many accounts"@);
            }
            return Err(e);
        }
        match serialize_unsigned_transaction(&self.instructions, &self.fee_payer) {
            Ok(bytes) => Ok(bytes),
            Err(failure) => {
                let detail = bincode_error_text(&*failure);
                let e = serialization_failure(detail.as_str());
                proof {
                    lemma_prefix_stays(serialization_failure_prefix(), detail@);
                }
                Err(e)
            },
        }
    }
}

} // verus!
