use vstd::prelude::*;
use vstd::array::array_as_slice;
use vstd::bytes::{lemma_auto_spec_u32_to_from_le_bytes, spec_u32_from_le_bytes, spec_u32_to_le_bytes, u32_to_le_bytes};
use vstd::slice::slice_to_vec;
use solana_program::pubkey::Pubkey;

verus! {

/// A 32-byte account address (also used for asset and authority identifiers).
#[derive(Clone, Copy, Debug, PartialEq, Eq)]
pub struct Address {
    pub bytes: [u8; 32],
}

impl View for Address {
    type V = Seq<u8>;

    open spec fn view(&self) -> Seq<u8> {
        self.bytes@
    }
}

impl Address {
    pub fn new(bytes: [u8; 32]) -> (r: Address)
        ensures
            r@ == bytes@,
    {
        Address { bytes }
    }

    /// Byte-wise equality of two addresses.
    pub fn equals(&self, other: &Address) -> (r: bool)
        ensures
            r == (self@ == other@),
    {
        let mut i: usize = 0;
        while i < 32
            invariant
                0 <= i <= 32,
                self@.len() == 32,
                other@.len() == 32,
                forall|j: int| 0 <= j < i ==> self@[j] == other@[j],
            decreases 32 - i,
        {
            if self.bytes[i] != other.bytes[i] {
                return false;
            }
            i = i + 1;
        }
        assert(self@ =~= other@);
        true
    }

    /// The address as a byte vector.
    pub fn to_vec(&self) -> (r: Vec<u8>)
        ensures
            r@ == self@,
    {
        slice_to_vec(array_as_slice(&self.bytes))
    }
}

/// An optional address seen as optional bytes.
pub open spec fn opt_view(o: Option<Address>) -> Option<Seq<u8>> {
    match o {
        Some(a) => Some(a@),
        None => None,
    }
}

/// A list of seeds seen as a sequence of byte strings.
pub open spec fn seeds_view(s: Seq<Vec<u8>>) -> Seq<Seq<u8>> {
    s.map_values(|v: Vec<u8>| v@)
}

/// The program address that the host derives from `seeds` under
/// `program_id`, or `None` where those seeds give no valid address.
pub uninterp spec fn program_address_of(seeds: Seq<Seq<u8>>, program_id: Seq<u8>) -> Option<Seq<u8>>;

/// The address that the host's search over bump seeds finds for `seeds`
/// under `program_id`: the first bump, from 255 down to 1, that appended to
/// the seeds gives a valid program address; `None` where no bump does.
pub uninterp spec fn found_program_address_of(seeds: Seq<Seq<u8>>, program_id: Seq<u8>) -> Option<Seq<u8>>;

/// Relies on solana_program's `Pubkey::create_program_address`: for at most
/// 16 seeds of at most 32 bytes each it returns the address hashed from the
/// seeds and the program id, or an error where that hash is not a valid
/// program address; it depends on its arguments alone.
#[verifier::external_body]
fn create_program_address(seeds: &Vec<Vec<u8>>, program_id: &Address) -> (r: Option<Address>)
    requires
        seeds@.len() <= 16,
        forall|i: int| 0 <= i < seeds@.len() ==> seeds@[i]@.len() <= 32,
    ensures
        opt_view(r) == program_address_of(seeds_view(seeds@), program_id@),
{
    let slices: Vec<&[u8]> = seeds.iter().map(|s| s.as_slice()).collect();
    let program = Pubkey::new_from_array(program_id.bytes);
    Pubkey::create_program_address(&slices, &program).ok().map(|k| Address { bytes: k.to_bytes() })
}

/// Relies on solana_program's `Pubkey::try_find_program_address`: it
/// returns the address found by the bump-seed search, or `None` where no bump
/// seed gives one (it never panics); it depends on its arguments alone. The
/// bump seed it also returns is dropped.
#[verifier::external_body]
fn find_program_address(seeds: &Vec<Vec<u8>>, program_id: &Address) -> (r: Option<Address>)
    ensures
        opt_view(r) == found_program_address_of(seeds_view(seeds@), program_id@),
{
    let slices: Vec<&[u8]> = seeds.iter().map(|s| s.as_slice()).collect();
    let program = Pubkey::new_from_array(program_id.bytes);
    Pubkey::try_find_program_address(&slices, &program).map(|(k, _bump)| Address { bytes: k.to_bytes() })
}

/// The token program's address as its source declares it.
pub open spec fn token_program_bytes() -> Seq<u8> {
    seq![
        6u8, 221, 246, 225, 215, 101, 161, 147, 217, 203, 225, 70, 206, 235, 121, 172,
        28, 180, 133, 237, 95, 91, 55, 145, 58, 140, 245, 133, 126, 255, 0, 169,
    ]
}

/// Relies on spl_token's `id()`, declared as
/// "TokenkegQfeZyiNwAJbNbGKPFXCWuBvf9Ss623VQ5DA" (the bytes of
/// `token_program_bytes`).
#[verifier::external_body]
pub(crate) fn token_program_address() -> (r: Address)
    ensures
        r@ == token_program_bytes(),
{
    Address { bytes: spl_token::id().to_bytes() }
}

/// The associated token account program's address as its source declares it.
pub open spec fn associated_token_program_bytes() -> Seq<u8> {
    seq![
        140u8, 151, 37, 143, 78, 36, 137, 241, 187, 61, 16, 41, 20, 142, 13, 131,
        11, 90, 19, 153, 218, 255, 16, 132, 4, 142, 123, 216, 219, 233, 248, 89,
    ]
}

/// Relies on spl_associated_token_account's `id()`, declared as
/// "ATokenGPvbdGVxr1b2hvZbsiqW5xWH25efTNsLJA8knL" (the bytes of
/// `associated_token_program_bytes`).
#[verifier::external_body]
fn associated_token_program_address() -> (r: Address)
    ensures
        r@ == associated_token_program_bytes(),
{
    Address { bytes: spl_associated_token_account::id().to_bytes() }
}

/// The associated token account of `wallet` for the asset `mint`: the
/// address found for the seeds [wallet, token program, mint] under the
/// associated token account program, where one exists.
pub open spec fn associated_token_address_spec(wallet: Seq<u8>, mint: Seq<u8>) -> Option<Seq<u8>> {
    found_program_address_of(seq![wallet, token_program_bytes(), mint], associated_token_program_bytes())
}

/// Looks up the associated token account of `wallet` for `mint`; `None`
/// where the search finds no address.
pub fn associated_token_address(wallet: &Address, mint: &Address) -> (r: Option<Address>)
    ensures
        opt_view(r) == associated_token_address_spec(wallet@, mint@),
{
    let mut seeds: Vec<Vec<u8>> = Vec::new();
    seeds.push(wallet.to_vec());
    seeds.push(token_program_address().to_vec());
    seeds.push(mint.to_vec());
    assert(seeds_view(seeds@) =~= seq![wallet@, token_program_bytes(), mint@]);
    find_program_address(&seeds, &associated_token_program_address())
}

/// The seeds of the record kept for `user_id` under an asset and an authority:
/// the user id in little-endian, the asset, the authority and the salt byte.
pub open spec fn account_seeds(user_id: u32, asset: Seq<u8>, authority: Seq<u8>, salt: u8) -> Seq<Seq<u8>> {
    seq![spec_u32_to_le_bytes(user_id), asset, authority, seq![salt]]
}

/// The address derived for a (user, asset, authority) triple with a salt.
pub open spec fn derived_address(
    program: Seq<u8>,
    user_id: u32,
    asset: Seq<u8>,
    authority: Seq<u8>,
    salt: u8,
) -> Option<Seq<u8>> {
    program_address_of(account_seeds(user_id, asset, authority, salt), program)
}

/// Whether `claimed` is the address derived for the triple and salt.
pub open spec fn address_verifies(
    claimed: Seq<u8>,
    program: Seq<u8>,
    user_id: u32,
    asset: Seq<u8>,
    authority: Seq<u8>,
    salt: u8,
) -> bool {
    derived_address(program, user_id, asset, authority, salt) == Some(claimed)
}

/// Builds the seed list of a record.
pub fn account_seed_list(user_id: u32, asset: &Address, authority: &Address, salt: u8) -> (r: Vec<Vec<u8>>)
    ensures
        seeds_view(r@) == account_seeds(user_id, asset@, authority@, salt),
        r@.len() == 4,
        forall|i: int| 0 <= i < r@.len() ==> r@[i]@.len() <= 32,
{
    let mut r: Vec<Vec<u8>> = Vec::new();
    let id_bytes = u32_to_le_bytes(user_id);
    r.push(id_bytes);
    r.push(asset.to_vec());
    r.push(authority.to_vec());
    let mut last: Vec<u8> = Vec::new();
    last.push(salt);
    r.push(last);
    assert(last@ =~= seq![salt]);
    assert(seeds_view(r@) =~= account_seeds(user_id, asset@, authority@, salt));
    r
}

/// Derives the address of the record for `user_id` under `asset` and
/// `authority` with the given salt; `None` where the salt gives no address.
pub fn derive_address(
    program_id: &Address,
    user_id: u32,
    asset: &Address,
    authority: &Address,
    salt: u8,
) -> (r: Option<Address>)
    ensures
        opt_view(r) == derived_address(program_id@, user_id, asset@, authority@, salt),
{
    let seeds = account_seed_list(user_id, asset, authority, salt);
    create_program_address(&seeds, program_id)
}

/// Checks a claimed address against the one derived for the triple and salt.
pub fn verify_address(
    claimed: &Address,
    program_id: &Address,
    user_id: u32,
    asset: &Address,
    authority: &Address,
    salt: u8,
) -> (r: bool)
    ensures
        r == address_verifies(claimed@, program_id@, user_id, asset@, authority@, salt),
{
    match derive_address(program_id, user_id, asset, authority, salt) {
        Some(a) => a.equals(claimed),
        None => false,
    }
}

/// Derivation is a function of its inputs: the same triple, salt and program
/// always give the same address, so a verified claim stays verified.
pub proof fn lemma_derivation_deterministic(
    program: Seq<u8>,
    user_id: u32,
    asset: Seq<u8>,
    authority: Seq<u8>,
    salt: u8,
    claimed1: Seq<u8>,
    claimed2: Seq<u8>,
)
    requires
        address_verifies(claimed1, program, user_id, asset, authority, salt),
        address_verifies(claimed2, program, user_id, asset, authority, salt),
    ensures
        claimed1 == claimed2,
{
}

/// Different inputs give different seed lists: the user id, the asset, the
/// authority and the salt can each be read back from the seeds.
pub proof fn lemma_seeds_distinguish_inputs(
    user_id1: u32,
    asset1: Seq<u8>,
    authority1: Seq<u8>,
    salt1: u8,
    user_id2: u32,
    asset2: Seq<u8>,
    authority2: Seq<u8>,
    salt2: u8,
)
    requires
        account_seeds(user_id1, asset1, authority1, salt1) == account_seeds(user_id2, asset2, authority2, salt2),
    ensures
        user_id1 == user_id2,
        asset1 == asset2,
        authority1 == authority2,
        salt1 == salt2,
{
    lemma_auto_spec_u32_to_from_le_bytes();
    let s1 = account_seeds(user_id1, asset1, authority1, salt1);
    let s2 = account_seeds(user_id2, asset2, authority2, salt2);
    assert(s1[0] == s2[0]);
    assert(s1[1] == s2[1]);
    assert(s1[2] == s2[2]);
    assert(s1[3] == s2[3]);
    assert(s1[3][0] == s2[3][0]);
    assert(spec_u32_to_le_bytes(user_id1).len() == 4);
    assert(spec_u32_to_le_bytes(user_id2).len() == 4);
    assert(spec_u32_from_le_bytes(spec_u32_to_le_bytes(user_id1)) == spec_u32_from_le_bytes(spec_u32_to_le_bytes(user_id2)));
}

} // verus!
