use vstd::prelude::*;
use crate::account::Account;
use crate::address::Address;
use crate::error::AppError;
use crate::ledger::{call_views, create_or_allocate_account_raw, provision_calls, LedgerCall, LedgerCallView};
use crate::processor::{outcome_is, RentQuote, Transition, TransitionView};
use crate::state::{config_of_account, ConfigureArgs, ConfigureData};
use crate::utils::{assert_config, assert_signer, config_path, config_seeds, signer_seeds, spec_assert_derivation, with_bump};

verus! {

/// What the configure transition gives. Accounts, in order: signer,
/// configuration record, rent sysvar, system program.
pub open spec fn configure_outcome(
    program: Seq<u8>,
    accounts: Seq<Account>,
    authority: Seq<u8>,
    rent: RentQuote,
) -> Result<TransitionView, AppError> {
    if accounts.len() < 4 {
        Err(AppError::NotEnoughAccountKeys)
    } else if !accounts[0].is_signer {
        Err(AppError::MissingRequiredSignature)
    } else {
        match spec_assert_derivation(program, accounts[1].key@, config_seeds(program)) {
            Err(e) => Err(e),
            Ok(bump) => Ok(
                TransitionView {
                    calls: if accounts[1].data@.len() == 32 {
                        Seq::<LedgerCallView>::empty()
                    } else {
                        provision_calls(
                            program,
                            accounts[1].key@,
                            accounts[1].lamports,
                            accounts[3].key@,
                            accounts[0].key@,
                            rent.configure_data,
                            32,
                            signer_seeds(config_seeds(program), bump),
                        )
                    },
                    account: accounts[1].key@,
                    data: authority,
                },
            ),
        }
    }
}

/// The configure transition: records the administrator in the program's
/// configuration record, which is provisioned where it does not hold a
/// record yet.
pub fn process_configure(program_id: &Address, accounts: &Vec<Account>, args: ConfigureArgs, rent: &RentQuote) -> (r:
    Result<Transition, AppError>)
    ensures
        outcome_is(r, configure_outcome(program_id@, accounts@, args.authority@, *rent)),
{
    if accounts.len() < 4 {
        return Err(AppError::NotEnoughAccountKeys);
    }
    let signer_info = &accounts[0];
    let config_info = &accounts[1];
    let system_info = &accounts[3];
    assert_signer(signer_info)?;
    let bump = assert_config(program_id, config_info)?;
    let calls = if config_info.data.len() == ConfigureData::LEN {
        let none: Vec<LedgerCall> = Vec::new();
        assert(call_views(none@) =~= Seq::<LedgerCallView>::empty());
        none
    } else {
        let seeds = with_bump(config_path(program_id), bump);
        create_or_allocate_account_raw(
            *program_id,
            config_info,
            system_info,
            signer_info,
            rent.configure_data,
            ConfigureData::LEN,
            &seeds,
        )
    };
    let data = (ConfigureData { authority: args.authority }).to_bytes();
    Ok(Transition { calls, account: config_info.key, data })
}

/// The record that configure writes reads back as the authority it was
/// given.
pub proof fn configure_writes_the_authority(
    program: Seq<u8>,
    accounts: Seq<Account>,
    authority: Address,
    rent: RentQuote,
)
    requires
        configure_outcome(program, accounts, authority@, rent) is Ok,
    ensures
        config_of_account(configure_outcome(program, accounts, authority@, rent)->Ok_0.data) == Ok::<
            Seq<u8>,
            AppError,
        >(authority@),
        configure_outcome(program, accounts, authority@, rent)->Ok_0.data.len() == 32,
        configure_outcome(program, accounts, authority@, rent)->Ok_0.account == accounts[1].key@,
{
}

} // verus!
