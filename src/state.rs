use vstd::prelude::*;
use vstd::bytes::{
    spec_u64_from_le_bytes, spec_u64_to_le_bytes, u64_from_le_bytes, u64_to_le_bytes,
    lemma_auto_spec_u64_to_from_le_bytes,
};
use vstd::slice::slice_subrange;
use crate::error::LedgerError;

verus! {

/// The size in bytes of a stored account record.
pub const USER_ACCOUNT_LEN: usize = 16;

/// The balance record kept for one (user, asset, authority) triple.
#[derive(Clone, Copy, Debug, PartialEq, Eq, Structural)]
pub struct UserAccount {
    pub balance: u64,
    pub blocked_amount: u64,
}

impl UserAccount {
    /// The record's invariant: what is blocked never exceeds the balance.
    pub open spec fn wf(self) -> bool {
        self.blocked_amount <= self.balance
    }

    /// The part of the balance that may be spent or blocked.
    pub open spec fn available(self) -> int {
        self.balance - self.blocked_amount
    }
}

impl UserAccount {
    /// Adding `amount` to the balance; fails where the balance would overflow.
    pub open spec fn credit_spec(self, amount: u64) -> Result<UserAccount, LedgerError> {
        if self.balance + amount > u64::MAX {
            Err(LedgerError::InvalidArgument)
        } else {
            Ok(UserAccount { balance: (self.balance + amount) as u64, blocked_amount: self.blocked_amount })
        }
    }

    /// Taking `amount` from the balance; fails where it exceeds what is available.
    pub open spec fn debit_spec(self, amount: u64) -> Result<UserAccount, LedgerError> {
        if self.available() < amount {
            Err(LedgerError::InvalidArgument)
        } else {
            Ok(UserAccount { balance: (self.balance - amount) as u64, blocked_amount: self.blocked_amount })
        }
    }

    /// Reserving `amount`; fails where the blocked part would exceed the balance.
    pub open spec fn block_spec(self, amount: u64) -> Result<UserAccount, LedgerError> {
        if self.blocked_amount + amount > self.balance {
            Err(LedgerError::InvalidArgument)
        } else {
            Ok(UserAccount { balance: self.balance, blocked_amount: (self.blocked_amount + amount) as u64 })
        }
    }

    /// Releasing `amount`; fails where more is released than is blocked.
    pub open spec fn unblock_spec(self, amount: u64) -> Result<UserAccount, LedgerError> {
        if amount > self.blocked_amount {
            Err(LedgerError::InvalidArgument)
        } else {
            Ok(UserAccount { balance: self.balance, blocked_amount: (self.blocked_amount - amount) as u64 })
        }
    }

    /// The record with `amount` added to its balance.
    pub fn credit(&self, amount: u64) -> (r: Result<UserAccount, LedgerError>)
        ensures
            r == self.credit_spec(amount),
    {
        match self.balance.checked_add(amount) {
            Some(balance) => Ok(UserAccount { balance, blocked_amount: self.blocked_amount }),
            None => Err(LedgerError::InvalidArgument),
        }
    }

    /// The record with `amount` taken from its available balance.
    pub fn debit(&self, amount: u64) -> (r: Result<UserAccount, LedgerError>)
        requires
            self.wf(),
        ensures
            r == self.debit_spec(amount),
    {
        let available = self.balance - self.blocked_amount;
        if available < amount {
            return Err(LedgerError::InvalidArgument);
        }
        Ok(UserAccount { balance: self.balance - amount, blocked_amount: self.blocked_amount })
    }

    /// The record with `amount` more of its balance blocked.
    pub fn block(&self, amount: u64) -> (r: Result<UserAccount, LedgerError>)
        requires
            self.wf(),
        ensures
            r == self.block_spec(amount),
    {
        match self.blocked_amount.checked_add(amount) {
            Some(blocked_amount) => {
                if blocked_amount > self.balance {
                    Err(LedgerError::InvalidArgument)
                } else {
                    Ok(UserAccount { balance: self.balance, blocked_amount })
                }
            },
            None => Err(LedgerError::InvalidArgument),
        }
    }

    /// The record with `amount` of its blocked part released.
    pub fn unblock(&self, amount: u64) -> (r: Result<UserAccount, LedgerError>)
        ensures
            r == self.unblock_spec(amount),
    {
        if amount > self.blocked_amount {
            return Err(LedgerError::InvalidArgument);
        }
        Ok(UserAccount { balance: self.balance, blocked_amount: self.blocked_amount - amount })
    }
}

/// Every operation on a record keeps `blocked_amount <= balance`.
pub proof fn lemma_operations_keep_invariant(r: UserAccount, amount: u64)
    requires
        r.wf(),
    ensures
        r.credit_spec(amount) matches Ok(n) ==> n.wf(),
        r.debit_spec(amount) matches Ok(n) ==> n.wf(),
        r.block_spec(amount) matches Ok(n) ==> n.wf(),
        r.unblock_spec(amount) matches Ok(n) ==> n.wf(),
{
}

/// Depositing `amount` twice adds `2 * amount` to the balance, where the sum fits.
pub proof fn lemma_credit_twice(r: UserAccount, amount: u64)
    requires
        r.balance + 2 * amount <= u64::MAX,
    ensures
        r.credit_spec(amount) matches Ok(once) && once.credit_spec(amount) matches Ok(twice)
            && twice.balance == r.balance + 2 * amount && twice.blocked_amount == r.blocked_amount,
{
}

/// Blocking `amount` and then unblocking it restores the record.
pub proof fn lemma_block_unblock_inverse(r: UserAccount, amount: u64)
    requires
        r.wf(),
        r.blocked_amount + amount <= r.balance,
    ensures
        r.block_spec(amount) matches Ok(blocked) && blocked.unblock_spec(amount) == Ok::<UserAccount, LedgerError>(r),
{
}

/// The stored form of a record: `balance` then `blocked_amount`, little-endian.
pub open spec fn record_bytes(r: UserAccount) -> Seq<u8> {
    spec_u64_to_le_bytes(r.balance) + spec_u64_to_le_bytes(r.blocked_amount)
}

/// What a stored byte string decodes to: a record exactly when there are
/// sixteen bytes and the decoded record keeps its invariant.
pub open spec fn decode_record_spec(b: Seq<u8>) -> Option<UserAccount> {
    if b.len() != 16 {
        None
    } else {
        let r = UserAccount {
            balance: spec_u64_from_le_bytes(b.subrange(0, 8)),
            blocked_amount: spec_u64_from_le_bytes(b.subrange(8, 16)),
        };
        if r.wf() {
            Some(r)
        } else {
            None
        }
    }
}

/// Encodes a record into its sixteen stored bytes.
pub fn encode_record(r: &UserAccount) -> (out: Vec<u8>)
    ensures
        out@ == record_bytes(*r),
        out@.len() == USER_ACCOUNT_LEN,
{
    proof {
        lemma_auto_spec_u64_to_from_le_bytes();
    }
    let mut out = u64_to_le_bytes(r.balance);
    let tail = u64_to_le_bytes(r.blocked_amount);
    out.extend_from_slice(tail.as_slice());
    assert(out@ =~= record_bytes(*r));
    out
}

/// Decodes stored bytes into a record; fails with `Deserialization` when the
/// input is not sixteen bytes or the record would break its invariant.
pub fn decode_record(b: &[u8]) -> (r: Result<UserAccount, LedgerError>)
    ensures
        match r {
            Ok(rec) => decode_record_spec(b@) == Some(rec),
            Err(e) => decode_record_spec(b@) is None && e == LedgerError::Deserialization,
        },
{
    if b.len() != USER_ACCOUNT_LEN {
        return Err(LedgerError::Deserialization);
    }
    let balance = u64_from_le_bytes(slice_subrange(b, 0, 8));
    let blocked_amount = u64_from_le_bytes(slice_subrange(b, 8, 16));
    if blocked_amount > balance {
        return Err(LedgerError::Deserialization);
    }
    Ok(UserAccount { balance, blocked_amount })
}

/// Decoding the encoding of a well-formed record gives the record back.
pub proof fn lemma_record_round_trip(r: UserAccount)
    requires
        r.wf(),
    ensures
        decode_record_spec(record_bytes(r)) == Some(r),
{
    lemma_auto_spec_u64_to_from_le_bytes();
    let b = record_bytes(r);
    assert(b.subrange(0, 8) =~= spec_u64_to_le_bytes(r.balance));
    assert(b.subrange(8, 16) =~= spec_u64_to_le_bytes(r.blocked_amount));
}

/// Bytes that decode to a record are exactly that record's encoding.
pub proof fn lemma_record_decode_canonical(b: Seq<u8>)
    requires
        decode_record_spec(b) is Some,
    ensures
        record_bytes(decode_record_spec(b).unwrap()) == b,
{
    lemma_auto_spec_u64_to_from_le_bytes();
    let lo = b.subrange(0, 8);
    let hi = b.subrange(8, 16);
    assert(spec_u64_to_le_bytes(spec_u64_from_le_bytes(lo)) == lo);
    assert(spec_u64_to_le_bytes(spec_u64_from_le_bytes(hi)) == hi);
    assert(lo + hi =~= b);
}

} // verus!
