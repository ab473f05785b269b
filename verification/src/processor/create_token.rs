use vstd::prelude::*;
use crate::account::Account;
use crate::address::{seed_bytes, Address};
use crate::error::AppError;
use crate::ledger::{
    call_views, create_mint_calls, create_or_allocate_account_raw, provision_calls, spl_token_create_mint,
};
use crate::processor::{check_environment, outcome_is, spec_check_environment, RentQuote, Transition, TransitionView};
use crate::state::{saved_token, token_of_account, token_round_trip, token_saves, CreateTokenArgs, TokenData, TokenRecord};
use crate::utils::{
    assert_mint_authority, assert_token_info, mint_authority_path, mint_authority_seeds, signer_seeds,
    spec_assert_derivation, token_info_path, token_info_seeds, with_bump,
};

verus! {

/// A slot of `n` zero bytes, as the ledger allocates it.
pub open spec fn zeros(n: nat) -> Seq<u8> {
    Seq::new(n, |i: int| 0u8)
}

/// The record of a token that was just created.
pub open spec fn new_token(
    name: Seq<char>,
    symbol: Seq<char>,
    decimals: u8,
    mint: Seq<u8>,
    creator: Seq<u8>,
) -> TokenRecord {
    TokenRecord { name, symbol, decimals, mint, creator, supply: 0 }
}

/// What the create-token transition gives. Accounts, in order: signer,
/// token record, mint, mint authority, metadata record, metadata program,
/// token ledger, rent sysvar, system program.
///
/// Display metadata is best effort and no part of the transition: no
/// call to the metadata program is among the calls, so a token is created
/// whether or not its metadata can be. The metadata record, the metadata
/// program and the instruction's `uri` are accepted and not read; the
/// name and the symbol are kept in the token record. A client that wants
/// the display metadata sends the metadata program's own instruction
/// beside this one.
pub open spec fn create_token_outcome(
    program: Seq<u8>,
    accounts: Seq<Account>,
    name: Seq<char>,
    symbol: Seq<char>,
    decimals: u8,
    rent: RentQuote,
) -> Result<TransitionView, AppError> {
    if accounts.len() < 9 {
        Err(AppError::NotEnoughAccountKeys)
    } else {
        let signer = accounts[0];
        let token_info = accounts[1];
        let mint = accounts[2];
        let mint_auth = accounts[3];
        let record = new_token(name, symbol, decimals, mint.key@, signer.key@);
        match spec_check_environment(signer, accounts[6], accounts[7], accounts[8]) {
            Err(e) => Err(e),
            Ok(_) => match spec_assert_derivation(program, token_info.key@, token_info_seeds(program, mint.key@)) {
                Err(e) => Err(e),
                Ok(info_bump) => match spec_assert_derivation(
                    program,
                    mint_auth.key@,
                    mint_authority_seeds(program, mint.key@),
                ) {
                    Err(e) => Err(e),
                    Ok(auth_bump) => if !token_saves(record, zeros(115)) {
                        Err(AppError::InvalidAccountData)
                    } else {
                        Ok(
                            TransitionView {
                                calls: create_mint_calls(
                                    accounts[6].key@,
                                    signer.key@,
                                    mint.key@,
                                    mint_auth.key@,
                                    Seq::<Seq<u8>>::empty(),
                                    signer_seeds(mint_authority_seeds(program, mint.key@), auth_bump),
                                    accounts[7].key@,
                                    rent.mint,
                                    decimals,
                                ) + provision_calls(
                                    program,
                                    token_info.key@,
                                    token_info.lamports,
                                    accounts[8].key@,
                                    signer.key@,
                                    rent.token_data,
                                    115,
                                    signer_seeds(token_info_seeds(program, mint.key@), info_bump),
                                ),
                                account: token_info.key@,
                                data: saved_token(record, zeros(115)),
                            },
                        )
                    },
                },
            },
        }
    }
}

/// The create-token transition: creates the mint of the token ledger
/// under the mint authority derived for it, provisions the token record
/// and writes it with no supply and the signer as creator.
///
/// Fails with `InvalidAccountData`, before anything is planned, where
/// the name and the symbol are too long for the record to fit its slot.
///
/// It plans no call to the metadata program and does not read
/// `args.uri`: display metadata is best effort, left to the client, and
/// cannot make the creation of a token fail.
pub fn process_create_token(
    program_id: &Address,
    accounts: &Vec<Account>,
    args: CreateTokenArgs,
    rent: &RentQuote,
) -> (r: Result<Transition, AppError>)
    ensures
        outcome_is(
            r,
            create_token_outcome(program_id@, accounts@, args.name@, args.symbol@, args.decimals, *rent),
        ),
{
    if accounts.len() < 9 {
        return Err(AppError::NotEnoughAccountKeys);
    }
    let signer_info = &accounts[0];
    let token_info = &accounts[1];
    let mint_info = &accounts[2];
    let mint_auth_info = &accounts[3];
    let token_program_info = &accounts[6];
    let rent_info = &accounts[7];
    let system_info = &accounts[8];
    check_environment(signer_info, token_program_info, rent_info, system_info)?;
    let info_bump = assert_token_info(program_id, &mint_info.key, token_info)?;
    let auth_bump = assert_mint_authority(program_id, mint_info, mint_auth_info)?;
    let token_data = TokenData {
        name: args.name,
        symbol: args.symbol,
        decimals: args.decimals,
        mint: mint_info.key,
        creator: signer_info.key,
        supply: 0,
    };
    let mut data: Vec<u8> = vec![0u8; 115];
    assert(data@ =~= zeros(115));
    token_data.save(&mut data)?;
    let no_seeds: Vec<Vec<u8>> = Vec::new();
    assert(seed_bytes(no_seeds@) =~= Seq::<Seq<u8>>::empty());
    let auth_seeds = with_bump(mint_authority_path(program_id, &mint_info.key), auth_bump);
    let mut calls = spl_token_create_mint(
        token_program_info,
        signer_info,
        mint_info,
        mint_auth_info,
        &no_seeds,
        &auth_seeds,
        rent_info,
        rent.mint,
        args.decimals,
    )?;
    let info_seeds = with_bump(token_info_path(program_id, &mint_info.key), info_bump);
    let mut provision = create_or_allocate_account_raw(
        *program_id,
        token_info,
        system_info,
        signer_info,
        rent.token_data,
        TokenData::LEN,
        &info_seeds,
    );
    let ghost first = call_views(calls@);
    let ghost second = call_views(provision@);
    calls.append(&mut provision);
    assert(call_views(calls@) =~= first + second);
    Ok(Transition { calls, account: token_info.key, data })
}

/// The record that create-token writes reads back as a token without
/// supply, with the signer as creator.
pub proof fn create_token_writes_a_new_record(
    program: Seq<u8>,
    accounts: Seq<Account>,
    name: Seq<char>,
    symbol: Seq<char>,
    decimals: u8,
    rent: RentQuote,
)
    requires
        create_token_outcome(program, accounts, name, symbol, decimals, rent) is Ok,
    ensures
        token_of_account(create_token_outcome(program, accounts, name, symbol, decimals, rent)->Ok_0.data) == Ok::<
            TokenRecord,
            AppError,
        >(new_token(name, symbol, decimals, accounts[2].key@, accounts[0].key@)),
        create_token_outcome(program, accounts, name, symbol, decimals, rent)->Ok_0.data.len() == 115,
        create_token_outcome(program, accounts, name, symbol, decimals, rent)->Ok_0.account == accounts[1].key@,
{
    token_round_trip(new_token(name, symbol, decimals, accounts[2].key@, accounts[0].key@), zeros(115));
}

} // verus!
