use vstd::prelude::*;
use vstd::slice::slice_to_vec;
use crate::account::Account;
use crate::address::Address;
use crate::error::AppError;
use crate::ledger::{call_views, mint_to_call, spl_token_mint_to, LedgerCall};
use crate::processor::{authorize, outcome_is, spec_authorize, spec_check_environment, Transition, TransitionView};
use crate::state::{
    saved_token, token_of_account, token_read_is_written, token_round_trip, token_saves_with_any_supply, MintArgs,
    TokenData,
};
use crate::supply::{spec_minted, spec_scaled_amount};
use crate::utils::{
    assert_mint_authority, assert_token_info, config_seeds, mint_authority_path, mint_authority_seeds,
    signer_seeds, spec_assert_derivation, token_info_seeds, with_bump,
};

verus! {

/// What the mint transition gives. Accounts, in order: signer,
/// configuration record, mint, destination token account, token record,
/// mint authority, token ledger, rent sysvar, system program.
pub open spec fn mint_outcome(program: Seq<u8>, accounts: Seq<Account>, amt: u64) -> Result<TransitionView, AppError> {
    if accounts.len() < 9 {
        Err(AppError::NotEnoughAccountKeys)
    } else {
        let mint = accounts[2];
        let token_info = accounts[4];
        let mint_auth = accounts[5];
        match spec_authorize(program, accounts[0], accounts[1], accounts[6], accounts[7], accounts[8]) {
            Err(e) => Err(e),
            Ok(_) => match spec_assert_derivation(program, token_info.key@, token_info_seeds(program, mint.key@)) {
                Err(e) => Err(e),
                Ok(_) => match spec_assert_derivation(
                    program,
                    mint_auth.key@,
                    mint_authority_seeds(program, mint.key@),
                ) {
                    Err(e) => Err(e),
                    Ok(bump) => match token_of_account(token_info.data@) {
                        Err(e) => Err(e),
                        Ok(t) => match spec_minted(t, amt) {
                            Err(e) => Err(e),
                            Ok(after) => Ok(
                                TransitionView {
                                    calls: seq![
                                        mint_to_call(
                                            accounts[6].key@,
                                            mint.key@,
                                            accounts[3].key@,
                                            mint_auth.key@,
                                            signer_seeds(mint_authority_seeds(program, mint.key@), bump),
                                            accounts[7].key@,
                                            spec_scaled_amount(amt, t.decimals)->Ok_0,
                                        ),
                                    ],
                                    account: token_info.key@,
                                    data: saved_token(after, token_info.data@),
                                },
                            ),
                        },
                    },
                },
            },
        }
    }
}

/// The mint transition: for the administrator, mints `amt` whole tokens
/// to the destination account and adds them, in base units, to the
/// token's supply.
pub fn process_mint(program_id: &Address, accounts: &Vec<Account>, args: MintArgs) -> (r: Result<
    Transition,
    AppError,
>)
    ensures
        outcome_is(r, mint_outcome(program_id@, accounts@, args.amt)),
{
    if accounts.len() < 9 {
        return Err(AppError::NotEnoughAccountKeys);
    }
    let signer_info = &accounts[0];
    let config_info = &accounts[1];
    let mint_info = &accounts[2];
    let token_account = &accounts[3];
    let token_info = &accounts[4];
    let mint_auth_info = &accounts[5];
    let token_program_info = &accounts[6];
    let rent_info = &accounts[7];
    let system_info = &accounts[8];
    authorize(program_id, signer_info, config_info, token_program_info, rent_info, system_info)?;
    assert_token_info(program_id, &mint_info.key, token_info)?;
    let bump = assert_mint_authority(program_id, mint_info, mint_auth_info)?;
    let token_data = TokenData::from_account_info(token_info)?;
    let (token_data, amt) = token_data.minted(args.amt)?;
    let seeds = with_bump(mint_authority_path(program_id, &mint_info.key), bump);
    let call = spl_token_mint_to(
        token_program_info,
        mint_info,
        token_account,
        mint_auth_info,
        &seeds,
        rent_info,
        amt,
    )?;
    let mut data = slice_to_vec(token_info.data.as_slice());
    proof {
        token_saves_with_any_supply(token_info.data@, token_data.supply);
    }
    token_data.save(&mut data)?;
    let mut calls: Vec<LedgerCall> = Vec::new();
    calls.push(call);
    assert(call_views(calls@) =~= seq![call@]);
    Ok(Transition { calls, account: token_info.key, data })
}

/// Only the administrator mints: where the signer is not the address
/// that the configuration record holds, the mint transition fails, so no
/// call is asked for and no record is written; it fails with
/// `InvalidEqPubkey` where the checks before that one pass.
pub proof fn stranger_cannot_mint(program: Seq<u8>, accounts: Seq<Account>, amt: u64)
    requires
        accounts.len() >= 2,
        accounts[0].key@ != accounts[1].data@,
    ensures
        mint_outcome(program, accounts, amt) is Err,
        accounts.len() >= 9 && spec_check_environment(accounts[0], accounts[6], accounts[7], accounts[8]) is Ok
            && spec_assert_derivation(program, accounts[1].key@, config_seeds(program)) is Ok
            && accounts[1].data@.len() == 32 ==> mint_outcome(program, accounts, amt) == Err::<
            TransitionView,
            AppError,
        >(AppError::InvalidEqPubkey),
{
}

/// The record that a mint writes reads back as the record that was read,
/// with the scaled amount added to its supply and nothing else changed.
pub proof fn mint_writes_the_minted_record(program: Seq<u8>, accounts: Seq<Account>, amt: u64)
    requires
        mint_outcome(program, accounts, amt) is Ok,
    ensures
        token_of_account(accounts[4].data@) is Ok,
        token_of_account(mint_outcome(program, accounts, amt)->Ok_0.data) == spec_minted(
            token_of_account(accounts[4].data@)->Ok_0,
            amt,
        ),
        mint_outcome(program, accounts, amt)->Ok_0.account == accounts[4].key@,
        mint_outcome(program, accounts, amt)->Ok_0.data.len() == 115,
        mint_outcome(program, accounts, amt)->Ok_0.calls.len() == 1,
{
    let data = accounts[4].data@;
    let after = spec_minted(token_of_account(data)->Ok_0, amt)->Ok_0;
    token_read_is_written(data);
    token_saves_with_any_supply(data, after.supply);
    token_round_trip(after, data);
}

} // verus!
