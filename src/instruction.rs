use vstd::prelude::*;
use vstd::bytes::{
    lemma_auto_spec_u32_to_from_le_bytes, lemma_auto_spec_u64_to_from_le_bytes, spec_u32_from_le_bytes,
    spec_u32_to_le_bytes, spec_u64_from_le_bytes, spec_u64_to_le_bytes, u32_from_le_bytes,
    u32_to_le_bytes, u64_from_le_bytes, u64_to_le_bytes,
};
use vstd::slice::slice_subrange;
use crate::address::{token_program_address, token_program_bytes, Address};
use crate::error::LedgerError;

verus! {

/// The six operations of the ledger, with their arguments.
#[derive(Clone, Copy, Debug, PartialEq, Eq, Structural)]
pub enum UserAccountInstruction {
    /// Creates the record of `user_id`.
    /// Accounts: [allocator, record (writable), asset, operator (signer)].
    Create { user_id: u32, user_account_bump_seed: u8 },
    /// Adds `amount` to the balance of `user_id`.
    /// Accounts: [record (writable), asset, operator (signer)].
    Deposit { user_id: u32, user_account_bump_seed: u8, amount: u64 },
    /// Pays `amount` out of the available balance of `user_id`.
    /// Accounts: [token program, record (writable), asset, source (writable),
    /// source authority, destination (writable), operator (signer)].
    Withdraw { user_id: u32, user_account_bump_seed: u8, source_authority_bump_seed: u8, amount: u64 },
    /// Moves `amount` from the sender's available balance to the recipient.
    /// Accounts: [asset, sender (writable), recipient (writable), operator (signer)].
    Transfer {
        sender_user_id: u32,
        sender_account_bump_seed: u8,
        recipient_user_id: u32,
        recipient_account_bump_seed: u8,
        amount: u64,
    },
    /// Blocks `amount` of the balance of `user_id`.
    /// Accounts: [record (writable), asset, operator (signer)].
    Block { user_id: u32, user_account_bump_seed: u8, amount: u64 },
    /// Releases `amount` of the blocked part of `user_id`'s balance.
    /// Accounts: [record (writable), asset, operator (signer)].
    Unblock { user_id: u32, user_account_bump_seed: u8, amount: u64 },
}

/// The wire form of an instruction: a tag byte, then the fields in order,
/// integers little-endian.
pub open spec fn instruction_bytes(ix: UserAccountInstruction) -> Seq<u8> {
    match ix {
        UserAccountInstruction::Create { user_id, user_account_bump_seed } =>
            seq![0u8] + spec_u32_to_le_bytes(user_id) + seq![user_account_bump_seed],
        UserAccountInstruction::Deposit { user_id, user_account_bump_seed, amount } =>
            seq![1u8] + spec_u32_to_le_bytes(user_id) + seq![user_account_bump_seed] + spec_u64_to_le_bytes(amount),
        UserAccountInstruction::Withdraw { user_id, user_account_bump_seed, source_authority_bump_seed, amount } =>
            seq![2u8] + spec_u32_to_le_bytes(user_id) + seq![user_account_bump_seed, source_authority_bump_seed]
                + spec_u64_to_le_bytes(amount),
        UserAccountInstruction::Transfer {
            sender_user_id,
            sender_account_bump_seed,
            recipient_user_id,
            recipient_account_bump_seed,
            amount,
        } => seq![3u8] + spec_u32_to_le_bytes(sender_user_id) + seq![sender_account_bump_seed]
            + spec_u32_to_le_bytes(recipient_user_id) + seq![recipient_account_bump_seed]
            + spec_u64_to_le_bytes(amount),
        UserAccountInstruction::Block { user_id, user_account_bump_seed, amount } =>
            seq![4u8] + spec_u32_to_le_bytes(user_id) + seq![user_account_bump_seed] + spec_u64_to_le_bytes(amount),
        UserAccountInstruction::Unblock { user_id, user_account_bump_seed, amount } =>
            seq![5u8] + spec_u32_to_le_bytes(user_id) + seq![user_account_bump_seed] + spec_u64_to_le_bytes(amount),
    }
}

/// What a byte string decodes to: the operation its tag names, where the
/// length is exactly that operation's; `None` for any other input.
pub open spec fn decode_instruction_spec(b: Seq<u8>) -> Option<UserAccountInstruction> {
    if b.len() == 0 {
        None
    } else if b[0] == 0 && b.len() == 6 {
        Some(UserAccountInstruction::Create {
            user_id: spec_u32_from_le_bytes(b.subrange(1, 5)),
            user_account_bump_seed: b[5],
        })
    } else if b[0] == 1 && b.len() == 14 {
        Some(UserAccountInstruction::Deposit {
            user_id: spec_u32_from_le_bytes(b.subrange(1, 5)),
            user_account_bump_seed: b[5],
            amount: spec_u64_from_le_bytes(b.subrange(6, 14)),
        })
    } else if b[0] == 2 && b.len() == 15 {
        Some(UserAccountInstruction::Withdraw {
            user_id: spec_u32_from_le_bytes(b.subrange(1, 5)),
            user_account_bump_seed: b[5],
            source_authority_bump_seed: b[6],
            amount: spec_u64_from_le_bytes(b.subrange(7, 15)),
        })
    } else if b[0] == 3 && b.len() == 19 {
        Some(UserAccountInstruction::Transfer {
            sender_user_id: spec_u32_from_le_bytes(b.subrange(1, 5)),
            sender_account_bump_seed: b[5],
            recipient_user_id: spec_u32_from_le_bytes(b.subrange(6, 10)),
            recipient_account_bump_seed: b[10],
            amount: spec_u64_from_le_bytes(b.subrange(11, 19)),
        })
    } else if b[0] == 4 && b.len() == 14 {
        Some(UserAccountInstruction::Block {
            user_id: spec_u32_from_le_bytes(b.subrange(1, 5)),
            user_account_bump_seed: b[5],
            amount: spec_u64_from_le_bytes(b.subrange(6, 14)),
        })
    } else if b[0] == 5 && b.len() == 14 {
        Some(UserAccountInstruction::Unblock {
            user_id: spec_u32_from_le_bytes(b.subrange(1, 5)),
            user_account_bump_seed: b[5],
            amount: spec_u64_from_le_bytes(b.subrange(6, 14)),
        })
    } else {
        None
    }
}

/// Appends the little-endian bytes of a `u32`.
fn push_u32(out: &mut Vec<u8>, v: u32)
    ensures
        final(out)@ == old(out)@ + spec_u32_to_le_bytes(v),
{
    proof {
        lemma_auto_spec_u32_to_from_le_bytes();
    }
    let bytes = u32_to_le_bytes(v);
    let ghost before = out@;
    out.extend_from_slice(bytes.as_slice());
    assert(out@ =~= before + spec_u32_to_le_bytes(v));
}

/// Appends the little-endian bytes of a `u64`.
fn push_u64(out: &mut Vec<u8>, v: u64)
    ensures
        final(out)@ == old(out)@ + spec_u64_to_le_bytes(v),
{
    proof {
        lemma_auto_spec_u64_to_from_le_bytes();
    }
    let bytes = u64_to_le_bytes(v);
    let ghost before = out@;
    out.extend_from_slice(bytes.as_slice());
    assert(out@ =~= before + spec_u64_to_le_bytes(v));
}

impl UserAccountInstruction {
    /// The instruction's wire bytes.
    pub fn pack(&self) -> (r: Vec<u8>)
        ensures
            r@ == instruction_bytes(*self),
    {
        let mut out: Vec<u8> = Vec::new();
        match *self {
            UserAccountInstruction::Create { user_id, user_account_bump_seed } => {
                out.push(0u8);
                push_u32(&mut out, user_id);
                out.push(user_account_bump_seed);
            },
            UserAccountInstruction::Deposit { user_id, user_account_bump_seed, amount } => {
                out.push(1u8);
                push_u32(&mut out, user_id);
                out.push(user_account_bump_seed);
                push_u64(&mut out, amount);
            },
            UserAccountInstruction::Withdraw { user_id, user_account_bump_seed, source_authority_bump_seed, amount } => {
                out.push(2u8);
                push_u32(&mut out, user_id);
                out.push(user_account_bump_seed);
                out.push(source_authority_bump_seed);
                push_u64(&mut out, amount);
            },
            UserAccountInstruction::Transfer {
                sender_user_id,
                sender_account_bump_seed,
                recipient_user_id,
                recipient_account_bump_seed,
                amount,
            } => {
                out.push(3u8);
                push_u32(&mut out, sender_user_id);
                out.push(sender_account_bump_seed);
                push_u32(&mut out, recipient_user_id);
                out.push(recipient_account_bump_seed);
                push_u64(&mut out, amount);
            },
            UserAccountInstruction::Block { user_id, user_account_bump_seed, amount } => {
                out.push(4u8);
                push_u32(&mut out, user_id);
                out.push(user_account_bump_seed);
                push_u64(&mut out, amount);
            },
            UserAccountInstruction::Unblock { user_id, user_account_bump_seed, amount } => {
                out.push(5u8);
                push_u32(&mut out, user_id);
                out.push(user_account_bump_seed);
                push_u64(&mut out, amount);
            },
        }
        assert(out@ =~= instruction_bytes(*self));
        out
    }

    /// Decodes wire bytes; fails with `InvalidInstructionData` on an unknown
    /// tag or a length other than the operation's.
    pub fn unpack(input: &[u8]) -> (r: Result<UserAccountInstruction, LedgerError>)
        ensures
            match decode_instruction_spec(input@) {
                Some(ix) => r == Ok::<UserAccountInstruction, LedgerError>(ix),
                None => r == Err::<UserAccountInstruction, LedgerError>(LedgerError::InvalidInstructionData),
            },
    {
        let len = input.len();
        if len == 0 {
            return Err(LedgerError::InvalidInstructionData);
        }
        let tag = input[0];
        if tag == 0 && len == 6 {
            let user_id = u32_from_le_bytes(slice_subrange(input, 1, 5));
            Ok(UserAccountInstruction::Create { user_id, user_account_bump_seed: input[5] })
        } else if tag == 1 && len == 14 {
            let user_id = u32_from_le_bytes(slice_subrange(input, 1, 5));
            let amount = u64_from_le_bytes(slice_subrange(input, 6, 14));
            Ok(UserAccountInstruction::Deposit { user_id, user_account_bump_seed: input[5], amount })
        } else if tag == 2 && len == 15 {
            let user_id = u32_from_le_bytes(slice_subrange(input, 1, 5));
            let amount = u64_from_le_bytes(slice_subrange(input, 7, 15));
            Ok(UserAccountInstruction::Withdraw {
                user_id,
                user_account_bump_seed: input[5],
                source_authority_bump_seed: input[6],
                amount,
            })
        } else if tag == 3 && len == 19 {
            let sender_user_id = u32_from_le_bytes(slice_subrange(input, 1, 5));
            let recipient_user_id = u32_from_le_bytes(slice_subrange(input, 6, 10));
            let amount = u64_from_le_bytes(slice_subrange(input, 11, 19));
            Ok(UserAccountInstruction::Transfer {
                sender_user_id,
                sender_account_bump_seed: input[5],
                recipient_user_id,
                recipient_account_bump_seed: input[10],
                amount,
            })
        } else if tag == 4 && len == 14 {
            let user_id = u32_from_le_bytes(slice_subrange(input, 1, 5));
            let amount = u64_from_le_bytes(slice_subrange(input, 6, 14));
            Ok(UserAccountInstruction::Block { user_id, user_account_bump_seed: input[5], amount })
        } else if tag == 5 && len == 14 {
            let user_id = u32_from_le_bytes(slice_subrange(input, 1, 5));
            let amount = u64_from_le_bytes(slice_subrange(input, 6, 14));
            Ok(UserAccountInstruction::Unblock { user_id, user_account_bump_seed: input[5], amount })
        } else {
            Err(LedgerError::InvalidInstructionData)
        }
    }
}

/// Decoding the wire form of any instruction gives that instruction back.
pub proof fn lemma_instruction_round_trip(ix: UserAccountInstruction)
    ensures
        decode_instruction_spec(instruction_bytes(ix)) == Some(ix),
{
    lemma_auto_spec_u32_to_from_le_bytes();
    lemma_auto_spec_u64_to_from_le_bytes();
    let b = instruction_bytes(ix);
    match ix {
        UserAccountInstruction::Create { user_id, .. } => {
            assert(b.subrange(1, 5) =~= spec_u32_to_le_bytes(user_id));
        },
        UserAccountInstruction::Deposit { user_id, amount, .. } => {
            assert(b.subrange(1, 5) =~= spec_u32_to_le_bytes(user_id));
            assert(b.subrange(6, 14) =~= spec_u64_to_le_bytes(amount));
        },
        UserAccountInstruction::Withdraw { user_id, amount, .. } => {
            assert(b.subrange(1, 5) =~= spec_u32_to_le_bytes(user_id));
            assert(b.subrange(7, 15) =~= spec_u64_to_le_bytes(amount));
        },
        UserAccountInstruction::Transfer { sender_user_id, recipient_user_id, amount, .. } => {
            assert(b.subrange(1, 5) =~= spec_u32_to_le_bytes(sender_user_id));
            assert(b.subrange(6, 10) =~= spec_u32_to_le_bytes(recipient_user_id));
            assert(b.subrange(11, 19) =~= spec_u64_to_le_bytes(amount));
        },
        UserAccountInstruction::Block { user_id, amount, .. } => {
            assert(b.subrange(1, 5) =~= spec_u32_to_le_bytes(user_id));
            assert(b.subrange(6, 14) =~= spec_u64_to_le_bytes(amount));
        },
        UserAccountInstruction::Unblock { user_id, amount, .. } => {
            assert(b.subrange(1, 5) =~= spec_u32_to_le_bytes(user_id));
            assert(b.subrange(6, 14) =~= spec_u64_to_le_bytes(amount));
        },
    }
}

/// Bytes that decode to an instruction are exactly that instruction's wire
/// form: no two byte strings decode to the same instruction.
pub proof fn lemma_instruction_decode_canonical(b: Seq<u8>)
    requires
        decode_instruction_spec(b) is Some,
    ensures
        instruction_bytes(decode_instruction_spec(b).unwrap()) == b,
{
    lemma_auto_spec_u32_to_from_le_bytes();
    lemma_auto_spec_u64_to_from_le_bytes();
    let ix = decode_instruction_spec(b).unwrap();
    let id1 = b.subrange(1, 5);
    assert(spec_u32_to_le_bytes(spec_u32_from_le_bytes(id1)) == id1);
    if b[0] == 3 {
        let id2 = b.subrange(6, 10);
        let amt = b.subrange(11, 19);
        assert(spec_u32_to_le_bytes(spec_u32_from_le_bytes(id2)) == id2);
        assert(spec_u64_to_le_bytes(spec_u64_from_le_bytes(amt)) == amt);
        assert(instruction_bytes(ix) =~= b);
    } else if b[0] == 2 {
        let amt = b.subrange(7, 15);
        assert(spec_u64_to_le_bytes(spec_u64_from_le_bytes(amt)) == amt);
        assert(instruction_bytes(ix) =~= b);
    } else if b[0] == 0 {
        assert(instruction_bytes(ix) =~= b);
    } else {
        let amt = b.subrange(6, 14);
        assert(spec_u64_to_le_bytes(spec_u64_from_le_bytes(amt)) == amt);
        assert(instruction_bytes(ix) =~= b);
    }
}

/// One account that an instruction names, with its role.
#[derive(Clone, Copy, Debug, PartialEq, Eq)]
pub struct AccountMeta {
    pub pubkey: Address,
    pub is_signer: bool,
    pub is_writable: bool,
}

/// An instruction ready to submit: the program, its accounts in order, and
/// the wire bytes of the operation.
#[derive(Clone, Debug)]
pub struct Instruction {
    pub program_id: Address,
    pub accounts: Vec<AccountMeta>,
    pub data: Vec<u8>,
}

pub open spec fn writable(k: Address) -> AccountMeta {
    AccountMeta { pubkey: k, is_signer: false, is_writable: true }
}

pub open spec fn readonly(k: Address) -> AccountMeta {
    AccountMeta { pubkey: k, is_signer: false, is_writable: false }
}

pub open spec fn signer(k: Address) -> AccountMeta {
    AccountMeta { pubkey: k, is_signer: true, is_writable: false }
}

/// Relies on solana_program's `system_program::id()`, declared as
/// "11111111111111111111111111111111": thirty-two zero bytes.
#[verifier::external_body]
fn system_program_address() -> (r: Address)
    ensures
        r@ == Seq::new(32, |_i: int| 0u8),
{
    Address { bytes: solana_program::system_program::id().to_bytes() }
}

fn meta(pubkey: Address, is_signer: bool, is_writable: bool) -> (r: AccountMeta)
    ensures
        r == (AccountMeta { pubkey, is_signer, is_writable }),
{
    AccountMeta { pubkey, is_signer, is_writable }
}

/// Builds a `Create` instruction.
pub fn create(
    program_id: &Address,
    user_id: u32,
    user_account_bump_seed: u8,
    user_account_key: &Address,
    token_mint_key: &Address,
    payer_key: &Address,
) -> (r: Result<Instruction, LedgerError>)
    ensures
        r matches Ok(ix) && ix.program_id == *program_id
            && ix.data@ == instruction_bytes(UserAccountInstruction::Create { user_id, user_account_bump_seed })
            && ix.accounts@.len() == 4
            && ix.accounts@[0].pubkey@ == Seq::new(32, |_i: int| 0u8)
            && !ix.accounts@[0].is_signer && !ix.accounts@[0].is_writable
            && ix.accounts@[1] == writable(*user_account_key)
            && ix.accounts@[2] == readonly(*token_mint_key)
            && ix.accounts@[3] == signer(*payer_key),
{
    let data = UserAccountInstruction::Create { user_id, user_account_bump_seed }.pack();
    let mut accounts: Vec<AccountMeta> = Vec::new();
    accounts.push(meta(system_program_address(), false, false));
    accounts.push(meta(*user_account_key, false, true));
    accounts.push(meta(*token_mint_key, false, false));
    accounts.push(meta(*payer_key, true, false));
    Ok(Instruction { program_id: *program_id, accounts, data })
}

/// The accounts of an operation on one record: [record, asset, operator].
fn single_record_accounts(user_account_key: &Address, token_mint_key: &Address, payer_key: &Address) -> (r: Vec<AccountMeta>)
    ensures
        r@ == seq![writable(*user_account_key), readonly(*token_mint_key), signer(*payer_key)],
{
    let mut accounts: Vec<AccountMeta> = Vec::new();
    accounts.push(meta(*user_account_key, false, true));
    accounts.push(meta(*token_mint_key, false, false));
    accounts.push(meta(*payer_key, true, false));
    assert(accounts@ =~= seq![writable(*user_account_key), readonly(*token_mint_key), signer(*payer_key)]);
    accounts
}

/// Builds a `Deposit` instruction.
pub fn deposit(
    program_id: &Address,
    user_id: u32,
    user_account_bump_seed: u8,
    amount: u64,
    user_account_key: &Address,
    token_mint_key: &Address,
    payer_key: &Address,
) -> (r: Result<Instruction, LedgerError>)
    ensures
        r matches Ok(ix) && ix.program_id == *program_id
            && ix.data@ == instruction_bytes(UserAccountInstruction::Deposit { user_id, user_account_bump_seed, amount })
            && ix.accounts@ == seq![writable(*user_account_key), readonly(*token_mint_key), signer(*payer_key)],
{
    let data = UserAccountInstruction::Deposit { user_id, user_account_bump_seed, amount }.pack();
    let accounts = single_record_accounts(user_account_key, token_mint_key, payer_key);
    Ok(Instruction { program_id: *program_id, accounts, data })
}

/// Builds a `Withdraw` instruction.
pub fn withdraw(
    program_id: &Address,
    user_id: u32,
    user_account_bump_seed: u8,
    source_authority_bump_seed: u8,
    amount: u64,
    user_account_key: &Address,
    token_mint_key: &Address,
    source_account_key: &Address,
    source_authority_account_key: &Address,
    destination_account_key: &Address,
    payer_key: &Address,
) -> (r: Result<Instruction, LedgerError>)
    ensures
        r matches Ok(ix) && ix.program_id == *program_id
            && ix.data@ == instruction_bytes(
                UserAccountInstruction::Withdraw { user_id, user_account_bump_seed, source_authority_bump_seed, amount },
            )
            && ix.accounts@.len() == 7
            && ix.accounts@[0].pubkey@ == token_program_bytes()
            && !ix.accounts@[0].is_signer && !ix.accounts@[0].is_writable
            && ix.accounts@[1] == writable(*user_account_key)
            && ix.accounts@[2] == readonly(*token_mint_key)
            && ix.accounts@[3] == writable(*source_account_key)
            && ix.accounts@[4] == readonly(*source_authority_account_key)
            && ix.accounts@[5] == writable(*destination_account_key)
            && ix.accounts@[6] == signer(*payer_key),
{
    let data = UserAccountInstruction::Withdraw {
        user_id,
        user_account_bump_seed,
        source_authority_bump_seed,
        amount,
    }.pack();
    let mut accounts: Vec<AccountMeta> = Vec::new();
    accounts.push(meta(token_program_address(), false, false));
    accounts.push(meta(*user_account_key, false, true));
    accounts.push(meta(*token_mint_key, false, false));
    accounts.push(meta(*source_account_key, false, true));
    accounts.push(meta(*source_authority_account_key, false, false));
    accounts.push(meta(*destination_account_key, false, true));
    accounts.push(meta(*payer_key, true, false));
    Ok(Instruction { program_id: *program_id, accounts, data })
}

/// Builds a `Transfer` instruction.
pub fn transfer(
    program_id: &Address,
    token_mint_key: &Address,
    sender_user_id: u32,
    sender_account_bump_seed: u8,
    sender_account_key: &Address,
    recipient_user_id: u32,
    recipient_account_bump_seed: u8,
    recipient_account_key: &Address,
    amount: u64,
    payer_key: &Address,
) -> (r: Result<Instruction, LedgerError>)
    ensures
        r matches Ok(ix) && ix.program_id == *program_id
            && ix.data@ == instruction_bytes(
                UserAccountInstruction::Transfer {
                    sender_user_id,
                    sender_account_bump_seed,
                    recipient_user_id,
                    recipient_account_bump_seed,
                    amount,
                },
            )
            && ix.accounts@ == seq![
                readonly(*token_mint_key),
                writable(*sender_account_key),
                writable(*recipient_account_key),
                signer(*payer_key),
            ],
{
    let data = UserAccountInstruction::Transfer {
        sender_user_id,
        sender_account_bump_seed,
        recipient_user_id,
        recipient_account_bump_seed,
        amount,
    }.pack();
    let mut accounts: Vec<AccountMeta> = Vec::new();
    accounts.push(meta(*token_mint_key, false, false));
    accounts.push(meta(*sender_account_key, false, true));
    accounts.push(meta(*recipient_account_key, false, true));
    accounts.push(meta(*payer_key, true, false));
    assert(accounts@ =~= seq![
        readonly(*token_mint_key),
        writable(*sender_account_key),
        writable(*recipient_account_key),
        signer(*payer_key),
    ]);
    Ok(Instruction { program_id: *program_id, accounts, data })
}

/// Builds a `Block` instruction.
pub fn block(
    program_id: &Address,
    user_id: u32,
    user_account_bump_seed: u8,
    amount: u64,
    user_account_key: &Address,
    token_mint_key: &Address,
    payer_key: &Address,
) -> (r: Result<Instruction, LedgerError>)
    ensures
        r matches Ok(ix) && ix.program_id == *program_id
            && ix.data@ == instruction_bytes(UserAccountInstruction::Block { user_id, user_account_bump_seed, amount })
            && ix.accounts@ == seq![writable(*user_account_key), readonly(*token_mint_key), signer(*payer_key)],
{
    let data = UserAccountInstruction::Block { user_id, user_account_bump_seed, amount }.pack();
    let accounts = single_record_accounts(user_account_key, token_mint_key, payer_key);
    Ok(Instruction { program_id: *program_id, accounts, data })
}

/// Builds an `Unblock` instruction.
pub fn unblock(
    program_id: &Address,
    user_id: u32,
    user_account_bump_seed: u8,
    amount: u64,
    user_account_key: &Address,
    token_mint_key: &Address,
    payer_key: &Address,
) -> (r: Result<Instruction, LedgerError>)
    ensures
        r matches Ok(ix) && ix.program_id == *program_id
            && ix.data@ == instruction_bytes(UserAccountInstruction::Unblock { user_id, user_account_bump_seed, amount })
            && ix.accounts@ == seq![writable(*user_account_key), readonly(*token_mint_key), signer(*payer_key)],
{
    let data = UserAccountInstruction::Unblock { user_id, user_account_bump_seed, amount }.pack();
    let accounts = single_record_accounts(user_account_key, token_mint_key, payer_key);
    Ok(Instruction { program_id: *program_id, accounts, data })
}

} // verus!
