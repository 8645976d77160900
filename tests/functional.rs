use emotion_user_account::address::{derive_address, Address};
use emotion_user_account::error::LedgerError;
use emotion_user_account::instruction::{block, create, deposit, transfer, unblock, withdraw, Instruction};
use emotion_user_account::processor::{process_instruction, AccountHandle, HostCall};
use emotion_user_account::state::{decode_record, UserAccount};
use solana_program::pubkey::Pubkey;
use spl_associated_token_account::get_associated_token_address;

fn program_id() -> Address {
    Address::new([7u8; 32])
}

fn payer() -> Address {
    Address::new([1u8; 32])
}

fn mint() -> Address {
    Address::new([2u8; 32])
}

fn find_address(user_id: u32, asset: &Address, authority: &Address) -> (Address, u8) {
    for bump in (0..=255u8).rev() {
        if let Some(a) = derive_address(&program_id(), user_id, asset, authority, bump) {
            return (a, bump);
        }
    }
    panic!("no viable bump seed");
}

/// An in-memory host: stores account data and applies a batch of
/// instructions all-or-nothing.
struct Bank {
    entries: Vec<(Address, Vec<u8>)>,
}

impl Bank {
    fn new() -> Bank {
        Bank { entries: Vec::new() }
    }

    fn data_of(&self, k: &Address) -> Vec<u8> {
        for (a, d) in &self.entries {
            if a == k {
                return d.clone();
            }
        }
        Vec::new()
    }

    fn holds(&self, k: &Address) -> bool {
        self.entries.iter().any(|(a, _)| a == k)
    }

    fn set(&mut self, k: Address, data: Vec<u8>) {
        for e in self.entries.iter_mut() {
            if e.0 == k {
                e.1 = data;
                return;
            }
        }
        self.entries.push((k, data));
    }

    fn record(&self, k: &Address) -> UserAccount {
        decode_record(&self.data_of(k)).unwrap()
    }

    fn run(&mut self, ixs: &[Instruction]) -> Result<Vec<HostCall>, (usize, LedgerError)> {
        let snapshot = self.entries.clone();
        let mut calls = Vec::new();
        for (i, ix) in ixs.iter().enumerate() {
            if ix.program_id != program_id() {
                continue;
            }
            let mut handles: Vec<AccountHandle> = ix
                .accounts
                .iter()
                .map(|m| AccountHandle { key: m.pubkey, is_signer: m.is_signer, data: self.data_of(&m.pubkey) })
                .collect();
            match process_instruction(&ix.program_id, &mut handles, &ix.data) {
                Ok(call) => {
                    for (m, h) in ix.accounts.iter().zip(handles.into_iter()) {
                        if m.is_writable && self.holds(&m.pubkey) {
                            self.set(m.pubkey, h.data);
                        }
                    }
                    if let Some(HostCall::CreateAccount(c)) = &call {
                        if self.holds(&c.new_account) {
                            self.entries = snapshot;
                            return Err((i, LedgerError::InvalidAccountData));
                        }
                        self.set(c.new_account, vec![0u8; c.space as usize]);
                    }
                    if let Some(c) = call {
                        calls.push(c);
                    }
                }
                Err(e) => {
                    self.entries = snapshot;
                    return Err((i, e));
                }
            }
        }
        Ok(calls)
    }

    fn create_user_account(&mut self, user_id: u32, amount: u64) -> (Address, u8) {
        let (key, bump) = find_address(user_id, &mint(), &payer());
        let mut ixs = vec![create(&program_id(), user_id, bump, &key, &mint(), &payer()).unwrap()];
        if amount > 0 {
            ixs.push(deposit(&program_id(), user_id, bump, amount, &key, &mint(), &payer()).unwrap());
        }
        self.run(&ixs).unwrap();
        (key, bump)
    }

    /// The pooled source: record 0, and its associated token account.
    fn with_source_user(&mut self) -> (Address, Address, u8) {
        let (authority, bump) = self.create_user_account(0, 0);
        let ata = get_associated_token_address(
            &Pubkey::new_from_array(authority.bytes),
            &Pubkey::new_from_array(mint().bytes),
        );
        (authority, Address::new(ata.to_bytes()), bump)
    }
}

fn destination() -> Address {
    let ata = get_associated_token_address(
        &Pubkey::new_from_array(payer().bytes),
        &Pubkey::new_from_array(mint().bytes),
    );
    Address::new(ata.to_bytes())
}

/// Stands for an instruction of another program in the same batch.
fn other_program_instruction() -> Instruction {
    Instruction { program_id: Address::new([9u8; 32]), accounts: Vec::new(), data: Vec::new() }
}

#[test]
fn test_user_account() {
    let user_id = 100u32;
    let amount = 5000000000u64;
    let mut bank = Bank::new();
    let (key, bump) = bank.create_user_account(user_id, 0);
    let ixs = vec![
        deposit(&program_id(), user_id, bump, amount, &key, &mint(), &payer()).unwrap(),
        block(&program_id(), user_id, bump, amount, &key, &mint(), &payer()).unwrap(),
        unblock(&program_id(), user_id, bump, amount, &key, &mint(), &payer()).unwrap(),
    ];
    bank.run(&ixs).unwrap();
    assert_eq!(bank.record(&key), UserAccount { balance: 5000000000, blocked_amount: 0 });
}

#[test]
fn test_withdraw() {
    let user_id = 100u32;
    let deposit_amount = 5000000000u64;
    let mut bank = Bank::new();
    let (source_key, source_token_key, source_bump) = bank.with_source_user();
    let (key, bump) = bank.create_user_account(user_id, deposit_amount);
    let ixs = vec![
        other_program_instruction(),
        withdraw(
            &program_id(),
            user_id,
            bump,
            source_bump,
            deposit_amount,
            &key,
            &mint(),
            &source_token_key,
            &source_key,
            &destination(),
            &payer(),
        )
        .unwrap(),
    ];
    let calls = bank.run(&ixs).unwrap();
    assert_eq!(bank.record(&key), UserAccount { balance: 0, blocked_amount: 0 });
    assert_eq!(calls.len(), 1);
    match &calls[0] {
        HostCall::TokenTransfer(t) => {
            assert_eq!(t.amount, deposit_amount);
            assert_eq!(t.source, source_token_key);
            assert_eq!(t.destination, destination());
            assert_eq!(t.authority, source_key);
            assert_eq!(t.token_program.bytes, spl_token::id().to_bytes());
        }
        other => panic!("unexpected call {:?}", other),
    }
}

#[test]
fn test_transfer() {
    let sender_user_id = 100u32;
    let recipient_user_id = 101u32;
    let deposit_amount = 5000000000u64;
    let transfer_amount = 1000000000u64;
    let mut bank = Bank::new();
    let (sender_key, sender_bump) = bank.create_user_account(sender_user_id, deposit_amount);
    let (recipient_key, recipient_bump) = bank.create_user_account(recipient_user_id, 0);
    let ixs = vec![transfer(
        &program_id(),
        &mint(),
        sender_user_id,
        sender_bump,
        &sender_key,
        recipient_user_id,
        recipient_bump,
        &recipient_key,
        transfer_amount,
        &payer(),
    )
    .unwrap()];
    bank.run(&ixs).unwrap();
    assert_eq!(bank.record(&sender_key), UserAccount { balance: 4000000000, blocked_amount: 0 });
    assert_eq!(bank.record(&recipient_key), UserAccount { balance: 1000000000, blocked_amount: 0 });
}

#[test]
fn test_block_too_big_amount_error() {
    let user_id = 100u32;
    let deposit_amount = 5000000000u64;
    let mut bank = Bank::new();
    let (key, bump) = bank.create_user_account(user_id, deposit_amount);
    let block_amount = deposit_amount - 100;
    let ixs = vec![
        block(&program_id(), user_id, bump, block_amount, &key, &mint(), &payer()).unwrap(),
        block(&program_id(), user_id, bump, 50, &key, &mint(), &payer()).unwrap(),
        block(&program_id(), user_id, bump, 51, &key, &mint(), &payer()).unwrap(),
    ];
    assert_eq!(bank.run(&ixs).unwrap_err(), (2, LedgerError::InvalidArgument));
}

#[test]
fn test_unblock_too_big_amount_error() {
    let user_id = 100u32;
    let deposit_amount = 5000000000u64;
    let mut bank = Bank::new();
    let (key, bump) = bank.create_user_account(user_id, deposit_amount);
    let block_amount = deposit_amount - 100;
    let ixs = vec![
        block(&program_id(), user_id, bump, block_amount, &key, &mint(), &payer()).unwrap(),
        unblock(&program_id(), user_id, bump, block_amount + 1, &key, &mint(), &payer()).unwrap(),
    ];
    assert_eq!(bank.run(&ixs).unwrap_err(), (1, LedgerError::InvalidArgument));
}

#[test]
fn test_withdraw_too_big_amount_error() {
    let user_id = 100u32;
    let deposit_amount = 5000000000u64;
    let mut bank = Bank::new();
    let (source_key, source_token_key, source_bump) = bank.with_source_user();
    let (key, bump) = bank.create_user_account(user_id, deposit_amount);
    let ixs = vec![
        other_program_instruction(),
        block(&program_id(), user_id, bump, 1, &key, &mint(), &payer()).unwrap(),
        withdraw(
            &program_id(),
            user_id,
            bump,
            source_bump,
            deposit_amount,
            &key,
            &mint(),
            &source_token_key,
            &source_key,
            &destination(),
            &payer(),
        )
        .unwrap(),
    ];
    assert_eq!(bank.run(&ixs).unwrap_err(), (2, LedgerError::InvalidArgument));
}

#[test]
fn test_transfer_too_big_amount_error() {
    let sender_user_id = 100u32;
    let recipient_user_id = 101u32;
    let deposit_amount = 5000000000u64;
    let block_amount = 3000000000u64;
    let transfer_amount = 2100000000u64;
    let mut bank = Bank::new();
    let (sender_key, sender_bump) = bank.create_user_account(sender_user_id, deposit_amount);
    let (recipient_key, recipient_bump) = bank.create_user_account(recipient_user_id, 0);
    let ixs = vec![
        block(&program_id(), sender_user_id, sender_bump, block_amount, &sender_key, &mint(), &payer()).unwrap(),
        transfer(
            &program_id(),
            &mint(),
            sender_user_id,
            sender_bump,
            &sender_key,
            recipient_user_id,
            recipient_bump,
            &recipient_key,
            transfer_amount,
            &payer(),
        )
        .unwrap(),
    ];
    assert_eq!(bank.run(&ixs).unwrap_err(), (1, LedgerError::InvalidArgument));
    assert_eq!(bank.record(&sender_key), UserAccount { balance: 5000000000, blocked_amount: 0 });
    assert_eq!(bank.record(&recipient_key), UserAccount { balance: 0, blocked_amount: 0 });
}
