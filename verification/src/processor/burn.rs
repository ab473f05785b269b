use vstd::prelude::*;
use vstd::slice::slice_to_vec;
use crate::account::Account;
use crate::address::Address;
use crate::error::AppError;
use crate::ledger::{burn_call, call_views, spl_token_burn, LedgerCall};
use crate::processor::{authorize, outcome_is, spec_authorize, spec_check_environment, Transition, TransitionView};
use crate::state::{
    saved_token, token_of_account, token_read_is_written, token_round_trip, token_saves_with_any_supply, BurnArgs,
    TokenData,
};
use crate::supply::{spec_burned, spec_scaled_amount};
use crate::utils::{assert_token_info, config_seeds, spec_assert_derivation, token_info_seeds};

verus! {

/// What the burn transition gives. Accounts, in order: signer,
/// configuration record, mint, token account, token record, token ledger,
/// rent sysvar, system program.
pub open spec fn burn_outcome(program: Seq<u8>, accounts: Seq<Account>, amt: u64) -> Result<TransitionView, AppError> {
    if accounts.len() < 8 {
        Err(AppError::NotEnoughAccountKeys)
    } else {
        let mint = accounts[2];
        let token_info = accounts[4];
        match spec_authorize(program, accounts[0], accounts[1], accounts[5], accounts[6], accounts[7]) {
            Err(e) => Err(e),
            Ok(_) => match spec_assert_derivation(program, token_info.key@, token_info_seeds(program, mint.key@)) {
                Err(e) => Err(e),
                Ok(_) => match token_of_account(token_info.data@) {
                    Err(e) => Err(e),
                    Ok(t) => match spec_burned(t, amt) {
                        Err(e) => Err(e),
                        Ok(after) => Ok(
                            TransitionView {
                                calls: seq![
                                    burn_call(
                                        accounts[5].key@,
                                        mint.key@,
                                        accounts[3].key@,
                                        accounts[0].key@,
                                        accounts[6].key@,
                                        spec_scaled_amount(amt, t.decimals)->Ok_0,
                                    ),
                                ],
                                account: token_info.key@,
                                data: saved_token(after, token_info.data@),
                            },
                        ),
                    },
                },
            },
        }
    }
}

/// The burn transition: for the administrator, burns `amt` whole tokens
/// of the token account and takes them, in base units, from the token's
/// supply.
pub fn process_burn(program_id: &Address, accounts: &Vec<Account>, args: BurnArgs) -> (r: Result<
    Transition,
    AppError,
>)
    ensures
        outcome_is(r, burn_outcome(program_id@, accounts@, args.amt)),
{
    if accounts.len() < 8 {
        return Err(AppError::NotEnoughAccountKeys);
    }
    let signer_info = &accounts[0];
    let config_info = &accounts[1];
    let mint_info = &accounts[2];
    let token_account = &accounts[3];
    let token_info = &accounts[4];
    let token_program_info = &accounts[5];
    let rent_info = &accounts[6];
    let system_info = &accounts[7];
    authorize(program_id, signer_info, config_info, token_program_info, rent_info, system_info)?;
    assert_token_info(program_id, &mint_info.key, token_info)?;
    let token_data = TokenData::from_account_info(token_info)?;
    let (token_data, amt) = token_data.burned(args.amt)?;
    let call = spl_token_burn(token_program_info, mint_info, token_account, signer_info, rent_info, amt)?;
    let mut data = slice_to_vec(token_info.data.as_slice());
    proof {
        token_saves_with_any_supply(token_info.data@, token_data.supply);
    }
    token_data.save(&mut data)?;
    let mut calls: Vec<LedgerCall> = Vec::new();
    calls.push(call);
    assert(call_views(calls@) =~= seq![call@]);
    Ok(Transition { calls, account: token_info.key, data })
}

/// Only the administrator burns: where the signer is not the address
/// that the configuration record holds, the burn transition fails, so no
/// call is asked for and no record is written; it fails with
/// `InvalidEqPubkey` where the checks before that one pass.
pub proof fn stranger_cannot_burn(program: Seq<u8>, accounts: Seq<Account>, amt: u64)
    requires
        accounts.len() >= 2,
        accounts[0].key@ != accounts[1].data@,
    ensures
        burn_outcome(program, accounts, amt) is Err,
        accounts.len() >= 8 && spec_check_environment(accounts[0], accounts[5], accounts[6], accounts[7]) is Ok
            && spec_assert_derivation(program, accounts[1].key@, config_seeds(program)) is Ok
            && accounts[1].data@.len() == 32 ==> burn_outcome(program, accounts, amt) == Err::<
            TransitionView,
            AppError,
        >(AppError::InvalidEqPubkey),
{
}

/// A burn of more than the supply holds fails with `ArithmeticUnderflow`
/// where every check before it passes: no call is asked for, and the
/// record stands as it was read.
pub proof fn burn_beyond_supply_is_rejected(program: Seq<u8>, accounts: Seq<Account>, amt: u64)
    requires
        accounts.len() >= 8,
        spec_authorize(program, accounts[0], accounts[1], accounts[5], accounts[6], accounts[7]) is Ok,
        spec_assert_derivation(program, accounts[4].key@, token_info_seeds(program, accounts[2].key@)) is Ok,
        token_of_account(accounts[4].data@) is Ok,
        spec_scaled_amount(amt, token_of_account(accounts[4].data@)->Ok_0.decimals) is Ok,
        spec_scaled_amount(amt, token_of_account(accounts[4].data@)->Ok_0.decimals)->Ok_0 > token_of_account(
            accounts[4].data@,
        )->Ok_0.supply,
    ensures
        burn_outcome(program, accounts, amt) == Err::<TransitionView, AppError>(AppError::ArithmeticUnderflow),
{
}

/// The record that a burn writes reads back as the record that was read,
/// with the scaled amount taken from its supply and nothing else changed.
pub proof fn burn_writes_the_burned_record(program: Seq<u8>, accounts: Seq<Account>, amt: u64)
    requires
        burn_outcome(program, accounts, amt) is Ok,
    ensures
        token_of_account(accounts[4].data@) is Ok,
        token_of_account(burn_outcome(program, accounts, amt)->Ok_0.data) == spec_burned(
            token_of_account(accounts[4].data@)->Ok_0,
            amt,
        ),
        burn_outcome(program, accounts, amt)->Ok_0.account == accounts[4].key@,
        burn_outcome(program, accounts, amt)->Ok_0.data.len() == 115,
        burn_outcome(program, accounts, amt)->Ok_0.calls.len() == 1,
{
    let data = accounts[4].data@;
    let after = spec_burned(token_of_account(data)->Ok_0, amt)->Ok_0;
    token_read_is_written(data);
    token_saves_with_any_supply(data, after.supply);
    token_round_trip(after, data);
}

} // verus!
