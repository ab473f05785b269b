use vstd::prelude::*;
use vstd::string::*;
use crate::account::Account;
use crate::address::{find_program_address, program_address, seed_bytes, Address};
use crate::error::AppError;
use crate::state::Record;
pub use crate::ledger::{create_or_allocate_account_raw, spl_token_burn, spl_token_create_mint, spl_token_mint_to};

verus! {

/// The seeds of the configuration record's address.
pub open spec fn config_seeds(program: Seq<u8>) -> Seq<Seq<u8>> {
    seq![program, "config".spec_bytes()]
}

/// The seeds of the token record's address for a mint.
pub open spec fn token_info_seeds(program: Seq<u8>, mint: Seq<u8>) -> Seq<Seq<u8>> {
    seq![program, mint, "token_info".spec_bytes()]
}

/// The seeds of the mint authority's address for a mint.
pub open spec fn mint_authority_seeds(program: Seq<u8>, mint: Seq<u8>) -> Seq<Seq<u8>> {
    seq![program, mint, "mint_auth".spec_bytes()]
}

/// The seeds of the user record's address for a user.
pub open spec fn user_info_seeds(program: Seq<u8>, user: Seq<u8>) -> Seq<Seq<u8>> {
    seq![program, user, "user_info".spec_bytes()]
}

/// The seeds that sign for a derived address: the seeds it was derived
/// from, then its discriminator byte.
pub open spec fn signer_seeds(path: Seq<Seq<u8>>, bump: u8) -> Seq<Seq<u8>> {
    path.push(seq![bump])
}

/// What checking an address against the derivation from `path` gives: the
/// discriminator where `key` is the derived address, `InvalidDerivedKey`
/// where it is another or where none is derived.
pub open spec fn spec_assert_derivation(program: Seq<u8>, key: Seq<u8>, path: Seq<Seq<u8>>) -> Result<u8, AppError> {
    match program_address(path, program) {
        Some((derived, bump)) => if derived == key {
            Ok(bump)
        } else {
            Err(AppError::InvalidDerivedKey)
        },
        None => Err(AppError::InvalidDerivedKey),
    }
}

/// Succeeds where the account's address is `account`.
pub fn assert_eq_pubkey(account_info: &Account, account: &Address) -> (r: Result<(), AppError>)
    ensures
        r == if account_info.key@ == account@ {
            Ok::<(), AppError>(())
        } else {
            Err(AppError::InvalidEqPubkey)
        },
{
    if !account_info.key.same(account) {
        Err(AppError::InvalidEqPubkey)
    } else {
        Ok(())
    }
}

/// Succeeds where the account is owned by `owner`.
pub fn assert_owned_by(account: &Account, owner: &Address) -> (r: Result<(), AppError>)
    ensures
        r == if account.owner@ == owner@ {
            Ok::<(), AppError>(())
        } else {
            Err(AppError::InvalidOwner)
        },
{
    if !account.owner.same(owner) {
        Err(AppError::InvalidOwner)
    } else {
        Ok(())
    }
}

/// Succeeds where the account signed the transaction.
pub fn assert_signer(account_info: &Account) -> (r: Result<(), AppError>)
    ensures
        r == if account_info.is_signer {
            Ok::<(), AppError>(())
        } else {
            Err(AppError::MissingRequiredSignature)
        },
{
    if !account_info.is_signer {
        Err(AppError::MissingRequiredSignature)
    } else {
        Ok(())
    }
}

/// The address derived from `path` for the program, with its
/// discriminator byte; `None` where the ledger derives none.
pub fn derive_address(program_id: &Address, path: &Vec<Vec<u8>>) -> (r: Option<(Address, u8)>)
    ensures
        match r {
            Some((a, bump)) => program_address(seed_bytes(path@), program_id@) == Some((a@, bump)),
            None => program_address(seed_bytes(path@), program_id@) is None,
        },
{
    find_program_address(path, program_id)
}

/// Checks that the account's address is the one derived from `path` for
/// the program, and returns the discriminator byte of the derivation.
pub fn assert_derivation(program_id: &Address, account: &Account, path: &Vec<Vec<u8>>) -> (r: Result<u8, AppError>)
    ensures
        r == spec_assert_derivation(program_id@, account.key@, seed_bytes(path@)),
{
    match derive_address(program_id, path) {
        Some((key, bump)) => {
            if !key.same(&account.key) {
                return Err(AppError::InvalidDerivedKey);
            }
            Ok(bump)
        },
        None => Err(AppError::InvalidDerivedKey),
    }
}

/// A seed list of two parts: an address, then a literal.
fn seeds_of_two(first: &Address, purpose: &str) -> (path: Vec<Vec<u8>>)
    ensures
        seed_bytes(path@) == seq![first@, purpose.spec_bytes()],
{
    let mut path: Vec<Vec<u8>> = Vec::new();
    path.push(first.to_vec());
    path.push(purpose.as_bytes_vec());
    assert(seed_bytes(path@) =~= seq![first@, purpose.spec_bytes()]);
    path
}

/// A seed list of three parts: two addresses, then a literal.
fn seeds_of_three(first: &Address, second: &Address, purpose: &str) -> (path: Vec<Vec<u8>>)
    ensures
        seed_bytes(path@) == seq![first@, second@, purpose.spec_bytes()],
{
    let mut path: Vec<Vec<u8>> = Vec::new();
    path.push(first.to_vec());
    path.push(second.to_vec());
    path.push(purpose.as_bytes_vec());
    assert(seed_bytes(path@) =~= seq![first@, second@, purpose.spec_bytes()]);
    path
}

/// The seed list of the configuration record.
pub fn config_path(program_id: &Address) -> (path: Vec<Vec<u8>>)
    ensures
        seed_bytes(path@) == config_seeds(program_id@),
{
    seeds_of_two(program_id, "config")
}

/// The seed list of the token record of a mint.
pub fn token_info_path(program_id: &Address, mint: &Address) -> (path: Vec<Vec<u8>>)
    ensures
        seed_bytes(path@) == token_info_seeds(program_id@, mint@),
{
    seeds_of_three(program_id, mint, "token_info")
}

/// The seed list of the mint authority of a mint.
pub fn mint_authority_path(program_id: &Address, mint: &Address) -> (path: Vec<Vec<u8>>)
    ensures
        seed_bytes(path@) == mint_authority_seeds(program_id@, mint@),
{
    seeds_of_three(program_id, mint, "mint_auth")
}

/// The seed list of the user record of a user.
pub fn user_info_path(program_id: &Address, user: &Address) -> (path: Vec<Vec<u8>>)
    ensures
        seed_bytes(path@) == user_info_seeds(program_id@, user@),
{
    seeds_of_three(program_id, user, "user_info")
}

/// The seed list that signs for a derived address: `path`, then the
/// discriminator as a seed of one byte.
pub fn with_bump(path: Vec<Vec<u8>>, bump: u8) -> (seeds: Vec<Vec<u8>>)
    ensures
        seed_bytes(seeds@) == signer_seeds(seed_bytes(path@), bump),
{
    let mut seeds = path;
    let mut last: Vec<u8> = Vec::new();
    last.push(bump);
    assert(last@ =~= seq![bump]);
    seeds.push(last);
    assert(seed_bytes(seeds@) =~= signer_seeds(seed_bytes(path@), bump));
    seeds
}

/// Checks that the account is the program's configuration record.
pub fn assert_config(program_id: &Address, account: &Account) -> (r: Result<u8, AppError>)
    ensures
        r == spec_assert_derivation(program_id@, account.key@, config_seeds(program_id@)),
{
    let path = config_path(program_id);
    assert_derivation(program_id, account, &path)
}

/// Checks that the account is the token record of the mint.
pub fn assert_token_info(program_id: &Address, new_mint: &Address, account: &Account) -> (r: Result<u8, AppError>)
    ensures
        r == spec_assert_derivation(program_id@, account.key@, token_info_seeds(program_id@, new_mint@)),
{
    let path = token_info_path(program_id, new_mint);
    assert_derivation(program_id, account, &path)
}

/// Checks that the account is the user record of the user.
pub fn assert_user_info(program_id: &Address, user: &Address, account: &Account) -> (r: Result<u8, AppError>)
    ensures
        r == spec_assert_derivation(program_id@, account.key@, user_info_seeds(program_id@, user@)),
{
    let path = user_info_path(program_id, user);
    assert_derivation(program_id, account, &path)
}

/// Checks that `authority_info` is the mint authority derived for the
/// mint account `token`.
pub fn assert_mint_authority(program_id: &Address, token: &Account, authority_info: &Account) -> (r: Result<u8, AppError>)
    ensures
        r == spec_assert_derivation(
            program_id@,
            authority_info.key@,
            mint_authority_seeds(program_id@, token.key@),
        ),
{
    let path = mint_authority_path(program_id, &token.key);
    assert_derivation(program_id, authority_info, &path)
}

/// A derivation names one address: two addresses that both pass the check
/// against the same seeds and program are equal, and so are their
/// discriminators.
pub proof fn derivation_is_unique(program: Seq<u8>, path: Seq<Seq<u8>>, key1: Seq<u8>, key2: Seq<u8>)
    requires
        spec_assert_derivation(program, key1, path) is Ok,
        spec_assert_derivation(program, key2, path) is Ok,
    ensures
        key1 == key2,
        spec_assert_derivation(program, key1, path) == spec_assert_derivation(program, key2, path),
{
}

/// A mint has one token record: two accounts that both pass as the token
/// record of the same mint of the same program have the same address and
/// the same discriminator.
pub proof fn token_record_address_is_unique(program: Seq<u8>, mint: Seq<u8>, key1: Seq<u8>, key2: Seq<u8>)
    requires
        spec_assert_derivation(program, key1, token_info_seeds(program, mint)) is Ok,
        spec_assert_derivation(program, key2, token_info_seeds(program, mint)) is Ok,
    ensures
        key1 == key2,
        spec_assert_derivation(program, key1, token_info_seeds(program, mint)) == spec_assert_derivation(
            program,
            key2,
            token_info_seeds(program, mint),
        ),
{
}

/// The check depends on the bytes it is given and on nothing else: on
/// equal bytes it gives the same discriminator or the same error.
pub proof fn derivation_is_repeatable(
    program1: Address,
    program2: Address,
    account1: Account,
    account2: Account,
    path1: Vec<Vec<u8>>,
    path2: Vec<Vec<u8>>,
)
    requires
        program1@ == program2@,
        account1.key@ == account2.key@,
        seed_bytes(path1@) == seed_bytes(path2@),
    ensures
        spec_assert_derivation(program1@, account1.key@, seed_bytes(path1@)) == spec_assert_derivation(
            program2@,
            account2.key@,
            seed_bytes(path2@),
        ),
{
}

/// Reads a record, or the arguments of a transition, from the start of
/// `data` and does not ask that the value ends where the data ends;
/// fails with `InvalidAccountData` where the data holds none.
pub fn try_from_slice_unchecked<T: Record>(data: &Vec<u8>) -> (r: Result<T, AppError>)
    ensures
        match r {
            Ok(x) => T::parse(data@) == Some(x@),
            Err(e) => e == AppError::InvalidAccountData && T::parse(data@) is None,
        },
{
    match T::read(data) {
        Some(x) => Ok(x),
        None => Err(AppError::InvalidAccountData),
    }
}

} // verus!
