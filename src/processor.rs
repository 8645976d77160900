use vstd::prelude::*;
use crate::address::{
    account_seed_list, account_seeds, address_verifies, derived_address, associated_token_address,
    associated_token_address_spec, seeds_view, verify_address, Address,
};
use crate::error::LedgerError;
use crate::instruction::{decode_instruction_spec, UserAccountInstruction};
use crate::state::{
    decode_record, decode_record_spec, encode_record, lemma_operations_keep_invariant, lemma_record_round_trip,
    record_bytes, UserAccount, USER_ACCOUNT_LEN,
};

verus! {

/// One account handed to an operation: its address, whether it signed, and
/// its stored bytes.
#[derive(Clone, Debug)]
pub struct AccountHandle {
    pub key: Address,
    pub is_signer: bool,
    pub data: Vec<u8>,
}

/// Storage that the host must allocate for a new record, paid by `payer`
/// and signed for with `seeds`.
#[derive(Clone, Debug)]
pub struct CreateAccountCall {
    pub payer: Address,
    pub new_account: Address,
    pub space: u64,
    pub owner: Address,
    pub seeds: Vec<Vec<u8>>,
}

/// A token transfer that the host must perform through `token_program`,
/// authorised by the derived `authority` with `seeds`.
#[derive(Clone, Debug)]
pub struct TokenTransferCall {
    pub token_program: Address,
    pub source: Address,
    pub destination: Address,
    pub authority: Address,
    pub amount: u64,
    pub seeds: Vec<Vec<u8>>,
}

/// Account `i` of `new` holds `rec`; every other account, and the address
/// and signer flag of account `i`, are as in `old`.
pub open spec fn stored(old: Seq<AccountHandle>, new: Seq<AccountHandle>, i: int, rec: UserAccount) -> bool {
    &&& new.len() == old.len()
    &&& 0 <= i < old.len()
    &&& forall|j: int| 0 <= j < old.len() && j != i ==> new[j] == old[j]
    &&& new[i].key == old[i].key
    &&& new[i].is_signer == old[i].is_signer
    &&& new[i].data@ == record_bytes(rec)
}

/// Accounts `i` and `k` of `new` hold `a` and `b`; everything else is as in `old`.
pub open spec fn stored_pair(
    old: Seq<AccountHandle>,
    new: Seq<AccountHandle>,
    i: int,
    a: UserAccount,
    k: int,
    b: UserAccount,
) -> bool {
    &&& new.len() == old.len()
    &&& 0 <= i < old.len()
    &&& 0 <= k < old.len()
    &&& i != k
    &&& forall|j: int| 0 <= j < old.len() && j != i && j != k ==> new[j] == old[j]
    &&& new[i].key == old[i].key
    &&& new[i].is_signer == old[i].is_signer
    &&& new[i].data@ == record_bytes(a)
    &&& new[k].key == old[k].key
    &&& new[k].is_signer == old[k].is_signer
    &&& new[k].data@ == record_bytes(b)
}

/// The record that an operation on the layout [record, asset, operator] works on:
/// the operator must sign, the record's address must be the one derived for
/// `user_id`, the asset and the operator, and its bytes must decode.
pub open spec fn load_spec(
    program: Seq<u8>,
    accts: Seq<AccountHandle>,
    user_id: u32,
    salt: u8,
) -> Result<UserAccount, LedgerError> {
    if accts.len() < 3 {
        Err(LedgerError::NotEnoughAccountKeys)
    } else if !accts[2].is_signer {
        Err(LedgerError::MissingRequiredSignature)
    } else if !address_verifies(accts[0].key@, program, user_id, accts[1].key@, accts[2].key@, salt) {
        Err(LedgerError::InvalidAccountData)
    } else {
        match decode_record_spec(accts[0].data@) {
            Some(r) => Ok(r),
            None => Err(LedgerError::Deserialization),
        }
    }
}

/// What a single-record operation does to the accounts: on success account 0
/// holds the new record; on failure nothing changes.
pub open spec fn single_done(
    outcome: Result<UserAccount, LedgerError>,
    old: Seq<AccountHandle>,
    r: Result<(), LedgerError>,
    new: Seq<AccountHandle>,
) -> bool {
    match outcome {
        Ok(rec) => r is Ok && stored(old, new, 0, rec),
        Err(e) => r == Err::<(), LedgerError>(e) && new == old,
    }
}

/// The record that a deposit leaves, or the error it fails with.
pub open spec fn deposit_outcome(program: Seq<u8>, accts: Seq<AccountHandle>, user_id: u32, salt: u8, amount: u64) -> Result<UserAccount, LedgerError> {
    match load_spec(program, accts, user_id, salt) {
        Ok(rec) => rec.credit_spec(amount),
        Err(e) => Err(e),
    }
}

/// The record that a block leaves, or the error it fails with.
pub open spec fn block_outcome(program: Seq<u8>, accts: Seq<AccountHandle>, user_id: u32, salt: u8, amount: u64) -> Result<UserAccount, LedgerError> {
    match load_spec(program, accts, user_id, salt) {
        Ok(rec) => rec.block_spec(amount),
        Err(e) => Err(e),
    }
}

/// The record that an unblock leaves, or the error it fails with.
pub open spec fn unblock_outcome(program: Seq<u8>, accts: Seq<AccountHandle>, user_id: u32, salt: u8, amount: u64) -> Result<UserAccount, LedgerError> {
    match load_spec(program, accts, user_id, salt) {
        Ok(rec) => rec.unblock_spec(amount),
        Err(e) => Err(e),
    }
}

/// Writes `rec` into the data of account `i`.
fn store_record(accounts: &mut Vec<AccountHandle>, i: usize, rec: &UserAccount)
    requires
        i < old(accounts)@.len(),
    ensures
        stored(old(accounts)@, final(accounts)@, i as int, *rec),
{
    let key = accounts[i].key;
    let is_signer = accounts[i].is_signer;
    let data = encode_record(rec);
    accounts.set(i, AccountHandle { key, is_signer, data });
}

/// Loads the record of a [record, asset, operator] operation.
fn load_single(
    program_id: &Address,
    accounts: &Vec<AccountHandle>,
    user_id: u32,
    salt: u8,
) -> (r: Result<UserAccount, LedgerError>)
    ensures
        r == load_spec(program_id@, accounts@, user_id, salt),
        r matches Ok(rec) ==> rec.wf(),
{
    if accounts.len() < 3 {
        return Err(LedgerError::NotEnoughAccountKeys);
    }
    let record = &accounts[0];
    let asset = &accounts[1];
    let operator = &accounts[2];
    if !operator.is_signer {
        return Err(LedgerError::MissingRequiredSignature);
    }
    if !verify_address(&record.key, program_id, user_id, &asset.key, &operator.key, salt) {
        return Err(LedgerError::InvalidAccountData);
    }
    decode_record(record.data.as_slice())
}

/// Adds `amount` to the balance of the record at account 0.
/// Accounts: [record (writable), asset, operator (signer)].
pub fn process_deposit(
    program_id: &Address,
    accounts: &mut Vec<AccountHandle>,
    user_id: u32,
    user_account_bump_seed: u8,
    amount: u64,
) -> (r: Result<(), LedgerError>)
    ensures
        single_done(
            deposit_outcome(program_id@, old(accounts)@, user_id, user_account_bump_seed, amount),
            old(accounts)@,
            r,
            final(accounts)@,
        ),
{
    let rec = load_single(program_id, accounts, user_id, user_account_bump_seed)?;
    let updated = rec.credit(amount)?;
    store_record(accounts, 0, &updated);
    Ok(())
}

/// Blocks `amount` more of the balance of the record at account 0.
/// Accounts: [record (writable), asset, operator (signer)].
pub fn process_block(
    program_id: &Address,
    accounts: &mut Vec<AccountHandle>,
    user_id: u32,
    user_account_bump_seed: u8,
    amount: u64,
) -> (r: Result<(), LedgerError>)
    ensures
        single_done(
            block_outcome(program_id@, old(accounts)@, user_id, user_account_bump_seed, amount),
            old(accounts)@,
            r,
            final(accounts)@,
        ),
{
    let rec = load_single(program_id, accounts, user_id, user_account_bump_seed)?;
    let updated = rec.block(amount)?;
    store_record(accounts, 0, &updated);
    Ok(())
}

/// Releases `amount` of the blocked part of the record at account 0.
/// Accounts: [record (writable), asset, operator (signer)].
pub fn process_unblock(
    program_id: &Address,
    accounts: &mut Vec<AccountHandle>,
    user_id: u32,
    user_account_bump_seed: u8,
    amount: u64,
) -> (r: Result<(), LedgerError>)
    ensures
        single_done(
            unblock_outcome(program_id@, old(accounts)@, user_id, user_account_bump_seed, amount),
            old(accounts)@,
            r,
            final(accounts)@,
        ),
{
    let rec = load_single(program_id, accounts, user_id, user_account_bump_seed)?;
    let updated = rec.unblock(amount)?;
    store_record(accounts, 0, &updated);
    Ok(())
}

/// The records that a transfer leaves at the sender and the recipient.
/// Accounts: [asset, sender, recipient, operator]. When both handles name one
/// account, the recipient's record is read after the sender's was written.
pub open spec fn transfer_outcome(
    program: Seq<u8>,
    accts: Seq<AccountHandle>,
    sender_user_id: u32,
    sender_salt: u8,
    recipient_user_id: u32,
    recipient_salt: u8,
    amount: u64,
) -> Result<(UserAccount, UserAccount), LedgerError> {
    if accts.len() < 4 {
        Err(LedgerError::NotEnoughAccountKeys)
    } else if !accts[3].is_signer {
        Err(LedgerError::MissingRequiredSignature)
    } else if !address_verifies(accts[1].key@, program, sender_user_id, accts[0].key@, accts[3].key@, sender_salt) {
        Err(LedgerError::InvalidAccountData)
    } else if !address_verifies(accts[2].key@, program, recipient_user_id, accts[0].key@, accts[3].key@, recipient_salt) {
        Err(LedgerError::InvalidAccountData)
    } else {
        match decode_record_spec(accts[1].data@) {
            None => Err(LedgerError::Deserialization),
            Some(s) => match s.debit_spec(amount) {
                Err(e) => Err(e),
                Ok(s2) => {
                    let rdata = if accts[1].key@ == accts[2].key@ { record_bytes(s2) } else { accts[2].data@ };
                    match decode_record_spec(rdata) {
                        None => Err(LedgerError::Deserialization),
                        Some(rc) => match rc.credit_spec(amount) {
                            Err(e) => Err(e),
                            Ok(r2) => Ok((s2, r2)),
                        },
                    }
                },
            },
        }
    }
}

/// What a transfer does to the accounts: both handles hold their new records
/// (one record, where they name one account); on failure nothing changes.
pub open spec fn transfer_done(
    outcome: Result<(UserAccount, UserAccount), LedgerError>,
    old: Seq<AccountHandle>,
    r: Result<(), LedgerError>,
    new: Seq<AccountHandle>,
) -> bool {
    match outcome {
        Ok((s2, r2)) => r is Ok && if old[1].key@ == old[2].key@ {
            stored_pair(old, new, 1, r2, 2, r2)
        } else {
            stored_pair(old, new, 1, s2, 2, r2)
        },
        Err(e) => r == Err::<(), LedgerError>(e) && new == old,
    }
}

/// Moves `amount` from the available balance of the sender's record to the
/// recipient's. Accounts: [asset, sender (writable), recipient (writable),
/// operator (signer)].
pub fn process_transfer(
    program_id: &Address,
    accounts: &mut Vec<AccountHandle>,
    sender_user_id: u32,
    sender_account_bump_seed: u8,
    recipient_user_id: u32,
    recipient_account_bump_seed: u8,
    amount: u64,
) -> (r: Result<(), LedgerError>)
    ensures
        transfer_done(
            transfer_outcome(
                program_id@,
                old(accounts)@,
                sender_user_id,
                sender_account_bump_seed,
                recipient_user_id,
                recipient_account_bump_seed,
                amount,
            ),
            old(accounts)@,
            r,
            final(accounts)@,
        ),
{
    if accounts.len() < 4 {
        return Err(LedgerError::NotEnoughAccountKeys);
    }
    let asset = accounts[0].key;
    let sender = accounts[1].key;
    let recipient = accounts[2].key;
    let operator = accounts[3].key;
    if !accounts[3].is_signer {
        return Err(LedgerError::MissingRequiredSignature);
    }
    if !verify_address(&sender, program_id, sender_user_id, &asset, &operator, sender_account_bump_seed) {
        return Err(LedgerError::InvalidAccountData);
    }
    if !verify_address(&recipient, program_id, recipient_user_id, &asset, &operator, recipient_account_bump_seed) {
        return Err(LedgerError::InvalidAccountData);
    }
    let sender_rec = decode_record(accounts[1].data.as_slice())?;
    let sender_new = sender_rec.debit(amount)?;
    let same = sender.equals(&recipient);
    let recipient_rec = if same {
        let bytes = encode_record(&sender_new);
        decode_record(bytes.as_slice())?
    } else {
        decode_record(accounts[2].data.as_slice())?
    };
    let recipient_new = recipient_rec.credit(amount)?;
    if same {
        store_record(accounts, 1, &recipient_new);
    } else {
        store_record(accounts, 1, &sender_new);
    }
    store_record(accounts, 2, &recipient_new);
    Ok(())
}

/// The record that a withdrawal leaves, and the checks before it.
/// Accounts: [token program, record, asset, source, source authority,
/// destination, operator]. The source authority is the address derived for
/// user 0 with its own salt; the source is its associated token account,
/// and a withdrawal fails where no such account address exists.
pub open spec fn withdraw_outcome(
    program: Seq<u8>,
    accts: Seq<AccountHandle>,
    user_id: u32,
    salt: u8,
    authority_salt: u8,
    amount: u64,
) -> Result<UserAccount, LedgerError> {
    if accts.len() < 7 {
        Err(LedgerError::NotEnoughAccountKeys)
    } else if !accts[6].is_signer {
        Err(LedgerError::MissingRequiredSignature)
    } else if !address_verifies(accts[1].key@, program, user_id, accts[2].key@, accts[6].key@, salt) {
        Err(LedgerError::InvalidAccountData)
    } else if !address_verifies(accts[4].key@, program, 0, accts[2].key@, accts[6].key@, authority_salt) {
        Err(LedgerError::InvalidAccountData)
    } else if associated_token_address_spec(accts[4].key@, accts[2].key@) != Some(accts[3].key@) {
        Err(LedgerError::InvalidAccountData)
    } else {
        match decode_record_spec(accts[1].data@) {
            None => Err(LedgerError::Deserialization),
            Some(rec) => rec.debit_spec(amount),
        }
    }
}

/// What a withdrawal does: on success the record at account 1 holds the
/// debited record and the returned transfer moves `amount` from the source to
/// the destination under the source authority; on failure nothing changes.
pub open spec fn withdraw_done(
    program: Seq<u8>,
    old: Seq<AccountHandle>,
    user_id: u32,
    salt: u8,
    authority_salt: u8,
    amount: u64,
    r: Result<TokenTransferCall, LedgerError>,
    new: Seq<AccountHandle>,
) -> bool {
    match withdraw_outcome(program, old, user_id, salt, authority_salt, amount) {
        Ok(rec) => r matches Ok(call) && stored(old, new, 1, rec)
            && call.token_program == old[0].key
            && call.source == old[3].key
            && call.authority == old[4].key
            && call.destination == old[5].key
            && call.amount == amount
            && seeds_view(call.seeds@) == account_seeds(0, old[2].key@, old[6].key@, authority_salt),
        Err(e) => r matches Err(e2) && e2 == e && new == old,
    }
}

/// Takes `amount` from the available balance of the record at account 1 and
/// returns the token transfer that pays it out: `amount` from the source to
/// the destination, signed for by the source authority. The host commits the
/// new record only once that transfer succeeds.
pub fn process_withdraw(
    program_id: &Address,
    accounts: &mut Vec<AccountHandle>,
    user_id: u32,
    user_account_bump_seed: u8,
    source_authority_bump_seed: u8,
    amount: u64,
) -> (r: Result<TokenTransferCall, LedgerError>)
    ensures
        withdraw_done(
            program_id@,
            old(accounts)@,
            user_id,
            user_account_bump_seed,
            source_authority_bump_seed,
            amount,
            r,
            final(accounts)@,
        ),
{
    if accounts.len() < 7 {
        return Err(LedgerError::NotEnoughAccountKeys);
    }
    let token_program = accounts[0].key;
    let record = accounts[1].key;
    let asset = accounts[2].key;
    let source = accounts[3].key;
    let authority = accounts[4].key;
    let destination = accounts[5].key;
    let operator = accounts[6].key;
    if !accounts[6].is_signer {
        return Err(LedgerError::MissingRequiredSignature);
    }
    if !verify_address(&record, program_id, user_id, &asset, &operator, user_account_bump_seed) {
        return Err(LedgerError::InvalidAccountData);
    }
    if !verify_address(&authority, program_id, 0, &asset, &operator, source_authority_bump_seed) {
        return Err(LedgerError::InvalidAccountData);
    }
    match associated_token_address(&authority, &asset) {
        Some(expected_source) => {
            if !expected_source.equals(&source) {
                return Err(LedgerError::InvalidAccountData);
            }
        },
        None => {
            return Err(LedgerError::InvalidAccountData);
        },
    }
    let rec = decode_record(accounts[1].data.as_slice())?;
    let updated = rec.debit(amount)?;
    let seeds = account_seed_list(0, &asset, &operator, source_authority_bump_seed);
    store_record(accounts, 1, &updated);
    Ok(TokenTransferCall { token_program, source, destination, authority, amount, seeds })
}

/// What creating a record demands of the host.
/// Accounts: [allocator, record, asset, operator].
pub open spec fn create_outcome(
    program: Seq<u8>,
    accts: Seq<AccountHandle>,
    user_id: u32,
    salt: u8,
) -> Result<(), LedgerError> {
    if accts.len() < 4 {
        Err(LedgerError::NotEnoughAccountKeys)
    } else if !accts[3].is_signer {
        Err(LedgerError::MissingRequiredSignature)
    } else if !address_verifies(accts[1].key@, program, user_id, accts[2].key@, accts[3].key@, salt) {
        Err(LedgerError::InvalidAccountData)
    } else {
        Ok(())
    }
}

/// What creating a record returns: on success, the allocation of exactly the
/// record's size at the derived address, owned by the program and paid by the
/// operator; otherwise the error of the first failed check.
pub open spec fn create_done(
    program: Seq<u8>,
    accts: Seq<AccountHandle>,
    user_id: u32,
    salt: u8,
    r: Result<CreateAccountCall, LedgerError>,
) -> bool {
    match create_outcome(program, accts, user_id, salt) {
        Ok(_) => r matches Ok(call)
            && call.payer == accts[3].key
            && call.new_account == accts[1].key
            && call.space == USER_ACCOUNT_LEN
            && call.owner@ == program
            && seeds_view(call.seeds@) == account_seeds(user_id, accts[2].key@, accts[3].key@, salt),
        Err(e) => r matches Err(e2) && e2 == e,
    }
}

/// Checks a new record's address and returns the allocation that creates it:
/// exactly the record's size at the derived address, owned by the program and
/// paid by the operator.
pub fn process_create(
    program_id: &Address,
    accounts: &Vec<AccountHandle>,
    user_id: u32,
    user_account_bump_seed: u8,
) -> (r: Result<CreateAccountCall, LedgerError>)
    ensures
        create_done(program_id@, accounts@, user_id, user_account_bump_seed, r),
{
    if accounts.len() < 4 {
        return Err(LedgerError::NotEnoughAccountKeys);
    }
    let record = accounts[1].key;
    let asset = accounts[2].key;
    let operator = accounts[3].key;
    if !accounts[3].is_signer {
        return Err(LedgerError::MissingRequiredSignature);
    }
    if !verify_address(&record, program_id, user_id, &asset, &operator, user_account_bump_seed) {
        return Err(LedgerError::InvalidAccountData);
    }
    let seeds = account_seed_list(user_id, &asset, &operator, user_account_bump_seed);
    Ok(CreateAccountCall {
        payer: operator,
        new_account: record,
        space: USER_ACCOUNT_LEN as u64,
        owner: *program_id,
        seeds,
    })
}

/// A call that the host performs on the ledger's behalf after an operation.
#[derive(Clone, Debug)]
pub enum HostCall {
    CreateAccount(CreateAccountCall),
    TokenTransfer(TokenTransferCall),
}

/// What processing a decoded instruction does, per operation.
pub open spec fn dispatch_done(
    program: Seq<u8>,
    old: Seq<AccountHandle>,
    ix: UserAccountInstruction,
    r: Result<Option<HostCall>, LedgerError>,
    new: Seq<AccountHandle>,
) -> bool {
    match ix {
        UserAccountInstruction::Create { user_id, user_account_bump_seed } => new == old && match r {
            Ok(Some(HostCall::CreateAccount(call))) => create_done(program, old, user_id, user_account_bump_seed, Ok(call)),
            Err(e) => create_done(program, old, user_id, user_account_bump_seed, Err(e)),
            _ => false,
        },
        UserAccountInstruction::Deposit { user_id, user_account_bump_seed, amount } => match r {
            Ok(None) => single_done(deposit_outcome(program, old, user_id, user_account_bump_seed, amount), old, Ok(()), new),
            Err(e) => single_done(deposit_outcome(program, old, user_id, user_account_bump_seed, amount), old, Err(e), new),
            _ => false,
        },
        UserAccountInstruction::Withdraw { user_id, user_account_bump_seed, source_authority_bump_seed, amount } => match r {
            Ok(Some(HostCall::TokenTransfer(call))) =>
                withdraw_done(program, old, user_id, user_account_bump_seed, source_authority_bump_seed, amount, Ok(call), new),
            Err(e) =>
                withdraw_done(program, old, user_id, user_account_bump_seed, source_authority_bump_seed, amount, Err(e), new),
            _ => false,
        },
        UserAccountInstruction::Transfer {
            sender_user_id,
            sender_account_bump_seed,
            recipient_user_id,
            recipient_account_bump_seed,
            amount,
        } => {
            let outcome = transfer_outcome(
                program,
                old,
                sender_user_id,
                sender_account_bump_seed,
                recipient_user_id,
                recipient_account_bump_seed,
                amount,
            );
            match r {
                Ok(None) => transfer_done(outcome, old, Ok(()), new),
                Err(e) => transfer_done(outcome, old, Err(e), new),
                _ => false,
            }
        },
        UserAccountInstruction::Block { user_id, user_account_bump_seed, amount } => match r {
            Ok(None) => single_done(block_outcome(program, old, user_id, user_account_bump_seed, amount), old, Ok(()), new),
            Err(e) => single_done(block_outcome(program, old, user_id, user_account_bump_seed, amount), old, Err(e), new),
            _ => false,
        },
        UserAccountInstruction::Unblock { user_id, user_account_bump_seed, amount } => match r {
            Ok(None) => single_done(unblock_outcome(program, old, user_id, user_account_bump_seed, amount), old, Ok(()), new),
            Err(e) => single_done(unblock_outcome(program, old, user_id, user_account_bump_seed, amount), old, Err(e), new),
            _ => false,
        },
    }
}

/// What processing instruction bytes does: the decoded operation's effect,
/// or `InvalidInstructionData` with nothing changed.
pub open spec fn instruction_done(
    program: Seq<u8>,
    data: Seq<u8>,
    old: Seq<AccountHandle>,
    r: Result<Option<HostCall>, LedgerError>,
    new: Seq<AccountHandle>,
) -> bool {
    match decode_instruction_spec(data) {
        None => r == Err::<Option<HostCall>, LedgerError>(LedgerError::InvalidInstructionData) && new == old,
        Some(ix) => dispatch_done(program, old, ix, r, new),
    }
}

/// Decodes `instruction_data` and runs the operation it names. Fails with
/// `InvalidInstructionData`, changing nothing, where the bytes name none.
pub fn process_instruction(
    program_id: &Address,
    accounts: &mut Vec<AccountHandle>,
    instruction_data: &[u8],
) -> (r: Result<Option<HostCall>, LedgerError>)
    ensures
        instruction_done(program_id@, instruction_data@, old(accounts)@, r, final(accounts)@),
{
    let ix = UserAccountInstruction::unpack(instruction_data)?;
    match ix {
        UserAccountInstruction::Create { user_id, user_account_bump_seed } => {
            match process_create(program_id, accounts, user_id, user_account_bump_seed) {
                Ok(call) => Ok(Some(HostCall::CreateAccount(call))),
                Err(e) => Err(e),
            }
        },
        UserAccountInstruction::Deposit { user_id, user_account_bump_seed, amount } => {
            process_deposit(program_id, accounts, user_id, user_account_bump_seed, amount)?;
            Ok(None)
        },
        UserAccountInstruction::Withdraw { user_id, user_account_bump_seed, source_authority_bump_seed, amount } => {
            match process_withdraw(program_id, accounts, user_id, user_account_bump_seed, source_authority_bump_seed, amount) {
                Ok(call) => Ok(Some(HostCall::TokenTransfer(call))),
                Err(e) => Err(e),
            }
        },
        UserAccountInstruction::Transfer {
            sender_user_id,
            sender_account_bump_seed,
            recipient_user_id,
            recipient_account_bump_seed,
            amount,
        } => {
            process_transfer(
                program_id,
                accounts,
                sender_user_id,
                sender_account_bump_seed,
                recipient_user_id,
                recipient_account_bump_seed,
                amount,
            )?;
            Ok(None)
        },
        UserAccountInstruction::Block { user_id, user_account_bump_seed, amount } => {
            process_block(program_id, accounts, user_id, user_account_bump_seed, amount)?;
            Ok(None)
        },
        UserAccountInstruction::Unblock { user_id, user_account_bump_seed, amount } => {
            process_unblock(program_id, accounts, user_id, user_account_bump_seed, amount)?;
            Ok(None)
        },
    }
}

/// Every record that an operation writes keeps `blocked_amount <= balance`,
/// and so does every record that an operation reads.
pub proof fn lemma_written_records_keep_invariant(
    program: Seq<u8>,
    accts: Seq<AccountHandle>,
    user_id: u32,
    salt: u8,
    other_user_id: u32,
    other_salt: u8,
    amount: u64,
)
    ensures
        load_spec(program, accts, user_id, salt) matches Ok(rec) ==> rec.wf(),
        deposit_outcome(program, accts, user_id, salt, amount) matches Ok(rec) ==> rec.wf(),
        block_outcome(program, accts, user_id, salt, amount) matches Ok(rec) ==> rec.wf(),
        unblock_outcome(program, accts, user_id, salt, amount) matches Ok(rec) ==> rec.wf(),
        withdraw_outcome(program, accts, user_id, salt, other_salt, amount) matches Ok(rec) ==> rec.wf(),
        transfer_outcome(program, accts, user_id, salt, other_user_id, other_salt, amount) matches Ok((a, b))
            ==> a.wf() && b.wf(),
{
    if let Some(rec) = decode_record_spec(accts[0].data@) {
        lemma_operations_keep_invariant(rec, amount);
    }
    if let Some(rec) = decode_record_spec(accts[1].data@) {
        lemma_operations_keep_invariant(rec, amount);
        if let Ok(s2) = rec.debit_spec(amount) {
            lemma_record_round_trip(s2);
            lemma_operations_keep_invariant(s2, amount);
        }
    }
    if let Some(rec) = decode_record_spec(accts[2].data@) {
        lemma_operations_keep_invariant(rec, amount);
    }
}

/// After an operation wrote `rec` at account 0, loading the same record again
/// gives `rec`.
proof fn lemma_reload(program: Seq<u8>, a0: Seq<AccountHandle>, a1: Seq<AccountHandle>, user_id: u32, salt: u8, rec: UserAccount)
    requires
        load_spec(program, a0, user_id, salt) is Ok,
        stored(a0, a1, 0, rec),
        rec.wf(),
    ensures
        load_spec(program, a1, user_id, salt) == Ok::<UserAccount, LedgerError>(rec),
{
    lemma_record_round_trip(rec);
    assert(a1[1] == a0[1]);
    assert(a1[2] == a0[2]);
}

/// Two deposits of `amount` add `2 * amount` to the balance (where that sum fits).
pub proof fn lemma_deposit_twice(
    program: Seq<u8>,
    a0: Seq<AccountHandle>,
    a1: Seq<AccountHandle>,
    user_id: u32,
    salt: u8,
    amount: u64,
)
    requires
        single_done(deposit_outcome(program, a0, user_id, salt, amount), a0, Ok(()), a1),
        load_spec(program, a0, user_id, salt) matches Ok(r0) && r0.balance + 2 * amount <= u64::MAX,
    ensures
        deposit_outcome(program, a1, user_id, salt, amount) matches Ok(r2)
            && r2.balance == load_spec(program, a0, user_id, salt).unwrap().balance + 2 * amount
            && r2.blocked_amount == load_spec(program, a0, user_id, salt).unwrap().blocked_amount,
{
    let r0 = load_spec(program, a0, user_id, salt).unwrap();
    lemma_operations_keep_invariant(r0, amount);
    let r1 = r0.credit_spec(amount).unwrap();
    lemma_reload(program, a0, a1, user_id, salt, r1);
}

/// Blocking `amount` and then unblocking it leaves the record as it was.
pub proof fn lemma_block_then_unblock(
    program: Seq<u8>,
    a0: Seq<AccountHandle>,
    a1: Seq<AccountHandle>,
    user_id: u32,
    salt: u8,
    amount: u64,
)
    requires
        single_done(block_outcome(program, a0, user_id, salt, amount), a0, Ok(()), a1),
    ensures
        unblock_outcome(program, a1, user_id, salt, amount) == Ok::<UserAccount, LedgerError>(
            load_spec(program, a0, user_id, salt).unwrap(),
        ),
{
    let r0 = load_spec(program, a0, user_id, salt).unwrap();
    lemma_operations_keep_invariant(r0, amount);
    let r1 = r0.block_spec(amount).unwrap();
    lemma_reload(program, a0, a1, user_id, salt, r1);
}

/// An operation whose operator account did not sign fails with
/// `MissingRequiredSignature`, whatever its other inputs are, once the
/// operation's accounts are all present.
pub proof fn lemma_unsigned_operator_rejected(
    program: Seq<u8>,
    accts: Seq<AccountHandle>,
    user_id: u32,
    salt: u8,
    other_user_id: u32,
    other_salt: u8,
    amount: u64,
)
    ensures
        accts.len() >= 3 && !accts[2].is_signer ==> {
            &&& deposit_outcome(program, accts, user_id, salt, amount)
                == Err::<UserAccount, LedgerError>(LedgerError::MissingRequiredSignature)
            &&& block_outcome(program, accts, user_id, salt, amount)
                == Err::<UserAccount, LedgerError>(LedgerError::MissingRequiredSignature)
            &&& unblock_outcome(program, accts, user_id, salt, amount)
                == Err::<UserAccount, LedgerError>(LedgerError::MissingRequiredSignature)
        },
        accts.len() >= 4 && !accts[3].is_signer ==> {
            &&& create_outcome(program, accts, user_id, salt)
                == Err::<(), LedgerError>(LedgerError::MissingRequiredSignature)
            &&& transfer_outcome(program, accts, user_id, salt, other_user_id, other_salt, amount)
                == Err::<(UserAccount, UserAccount), LedgerError>(LedgerError::MissingRequiredSignature)
        },
        accts.len() >= 7 && !accts[6].is_signer ==> withdraw_outcome(program, accts, user_id, salt, other_salt, amount)
            == Err::<UserAccount, LedgerError>(LedgerError::MissingRequiredSignature),
{
}

/// Two results of processing name the same host call with the same
/// arguments, or fail with the same error.
pub open spec fn same_outcome(r1: Result<Option<HostCall>, LedgerError>, r2: Result<Option<HostCall>, LedgerError>) -> bool {
    match (r1, r2) {
        (Err(e1), Err(e2)) => e1 == e2,
        (Ok(None), Ok(None)) => true,
        (Ok(Some(HostCall::CreateAccount(c1))), Ok(Some(HostCall::CreateAccount(c2)))) => {
            &&& c1.payer == c2.payer
            &&& c1.new_account == c2.new_account
            &&& c1.space == c2.space
            &&& c1.owner@ == c2.owner@
            &&& seeds_view(c1.seeds@) == seeds_view(c2.seeds@)
        },
        (Ok(Some(HostCall::TokenTransfer(t1))), Ok(Some(HostCall::TokenTransfer(t2)))) => {
            &&& t1.token_program == t2.token_program
            &&& t1.source == t2.source
            &&& t1.destination == t2.destination
            &&& t1.authority == t2.authority
            &&& t1.amount == t2.amount
            &&& seeds_view(t1.seeds@) == seeds_view(t2.seeds@)
        },
        _ => false,
    }
}

/// Two account lists agree in every address, signer flag and stored bytes.
pub open spec fn same_accounts(a: Seq<AccountHandle>, b: Seq<AccountHandle>) -> bool {
    &&& a.len() == b.len()
    &&& forall|i: int| 0 <= i < a.len() ==> a[i].key == b[i].key && a[i].is_signer == b[i].is_signer && a[i].data@ == b[i].data@
}

/// Processing is a function of its inputs: two runs on the same program,
/// instruction bytes and accounts (addresses, signer flags and stored bytes)
/// give the same outcome and leave the same stored bytes, the address
/// re-derivations included.
#[verifier::rlimit(50)]
pub proof fn lemma_processing_deterministic(
    program: Seq<u8>,
    data: Seq<u8>,
    old1: Seq<AccountHandle>,
    old2: Seq<AccountHandle>,
    r1: Result<Option<HostCall>, LedgerError>,
    new1: Seq<AccountHandle>,
    r2: Result<Option<HostCall>, LedgerError>,
    new2: Seq<AccountHandle>,
)
    requires
        same_accounts(old1, old2),
        instruction_done(program, data, old1, r1, new1),
        instruction_done(program, data, old2, r2, new2),
    ensures
        same_outcome(r1, r2),
        same_accounts(new1, new2),
{
    assert(old1.len() >= 1 ==> old1[0].data@ == old2[0].data@);
    assert(old1.len() >= 2 ==> old1[1].data@ == old2[1].data@);
    assert(old1.len() >= 3 ==> old1[2].data@ == old2[2].data@);
    assert(old1.len() >= 4 ==> old1[3].key == old2[3].key);
    assert(old1.len() >= 5 ==> old1[4].key == old2[4].key);
    assert(old1.len() >= 6 ==> old1[5].key == old2[5].key);
    assert(old1.len() >= 7 ==> old1[6].key == old2[6].key && old1[6].is_signer == old2[6].is_signer);
    if let Some(ix) = decode_instruction_spec(data) {
        match ix {
            UserAccountInstruction::Create { user_id, user_account_bump_seed } => {
                assert(create_outcome(program, old1, user_id, user_account_bump_seed)
                    == create_outcome(program, old2, user_id, user_account_bump_seed));
            },
            UserAccountInstruction::Deposit { user_id, user_account_bump_seed, amount } => {
                assert(load_spec(program, old1, user_id, user_account_bump_seed)
                    == load_spec(program, old2, user_id, user_account_bump_seed));
            },
            UserAccountInstruction::Withdraw { user_id, user_account_bump_seed, source_authority_bump_seed, amount } => {
                assert(withdraw_outcome(program, old1, user_id, user_account_bump_seed, source_authority_bump_seed, amount)
                    == withdraw_outcome(program, old2, user_id, user_account_bump_seed, source_authority_bump_seed, amount));
            },
            UserAccountInstruction::Transfer {
                sender_user_id,
                sender_account_bump_seed,
                recipient_user_id,
                recipient_account_bump_seed,
                amount,
            } => {
                assert(transfer_outcome(program, old1, sender_user_id, sender_account_bump_seed, recipient_user_id, recipient_account_bump_seed, amount)
                    == transfer_outcome(program, old2, sender_user_id, sender_account_bump_seed, recipient_user_id, recipient_account_bump_seed, amount));
            },
            UserAccountInstruction::Block { user_id, user_account_bump_seed, amount } => {
                assert(load_spec(program, old1, user_id, user_account_bump_seed)
                    == load_spec(program, old2, user_id, user_account_bump_seed));
            },
            UserAccountInstruction::Unblock { user_id, user_account_bump_seed, amount } => {
                assert(load_spec(program, old1, user_id, user_account_bump_seed)
                    == load_spec(program, old2, user_id, user_account_bump_seed));
            },
        }
    }
}

/// Where the claimed record address is not the one derived for the given
/// user, asset, operator and salt (another input's address, or none derives),
/// a signed single-record operation fails with `InvalidAccountData`.
pub proof fn lemma_underived_address_rejected(
    program: Seq<u8>,
    accts: Seq<AccountHandle>,
    user_id: u32,
    salt: u8,
    amount: u64,
)
    requires
        accts.len() >= 3,
        accts[2].is_signer,
        derived_address(program, user_id, accts[1].key@, accts[2].key@, salt) != Some(accts[0].key@),
    ensures
        deposit_outcome(program, accts, user_id, salt, amount)
            == Err::<UserAccount, LedgerError>(LedgerError::InvalidAccountData),
        block_outcome(program, accts, user_id, salt, amount)
            == Err::<UserAccount, LedgerError>(LedgerError::InvalidAccountData),
        unblock_outcome(program, accts, user_id, salt, amount)
            == Err::<UserAccount, LedgerError>(LedgerError::InvalidAccountData),
{
}

} // verus!
