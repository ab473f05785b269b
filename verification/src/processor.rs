use vstd::prelude::*;
use vstd::slice::slice_to_vec;
use crate::account::Account;
use crate::address::{
    rent_sysvar_id, spec_rent_sysvar_id, spec_system_program_id, spec_token_program_id, system_program_id,
    token_program_id, Address,
};
use crate::error::AppError;
use crate::instruction::{parse_instruction, AppInstruction, InstructionContent};
use crate::ledger::{call_views, LedgerCall, LedgerCallView};
use crate::state::{config_of_account, ConfigureData};
use crate::utils::{assert_config, assert_eq_pubkey, assert_signer, config_seeds, spec_assert_derivation};

pub mod configure;
pub mod create_token;
pub mod mint;
pub mod burn;

pub use crate::processor::burn::{burn_outcome, process_burn};
pub use crate::processor::configure::{configure_outcome, process_configure};
pub use crate::processor::create_token::{create_token_outcome, process_create_token};
pub use crate::processor::mint::{mint_outcome, process_mint};

verus! {

/// The balances that exempt from rent the accounts a transition may
/// create, as the host's rent schedule gives them.
#[derive(Clone, Copy, Debug, PartialEq, Eq)]
pub struct RentQuote {
    /// For a configuration record.
    pub configure_data: u64,
    /// For a token record.
    pub token_data: u64,
    /// For a mint of the token ledger.
    pub mint: u64,
}

/// What a transition that passed its checks asks of the host: the calls
/// to make, in order, and the image to write to one record once all of
/// them have succeeded.
#[derive(Clone, Debug, PartialEq, Eq)]
pub struct Transition {
    pub calls: Vec<LedgerCall>,
    /// The address of the record to write.
    pub account: Address,
    /// The record's new bytes, all of them.
    pub data: Vec<u8>,
}

/// What a transition holds.
pub struct TransitionView {
    pub calls: Seq<LedgerCallView>,
    pub account: Seq<u8>,
    pub data: Seq<u8>,
}

impl View for Transition {
    type V = TransitionView;

    open spec fn view(&self) -> TransitionView {
        TransitionView { calls: call_views(self.calls@), account: self.account@, data: self.data@ }
    }
}

/// Whether a handler's result is what `expected` says.
pub open spec fn outcome_is(r: Result<Transition, AppError>, expected: Result<TransitionView, AppError>) -> bool {
    match r {
        Ok(t) => expected == Ok::<TransitionView, AppError>(t@),
        Err(e) => expected == Err::<TransitionView, AppError>(e),
    }
}

impl Transition {
    /// Which call to make next, after `made` of them were made: the one
    /// at position `made`, or none where the last one made was rejected
    /// or none is left. The calls are made in order and end at the first
    /// that is rejected.
    pub fn next_call(&self, made: usize, last_succeeded: bool) -> (r: Option<usize>)
        ensures
            r == if last_succeeded && made < self.calls@.len() {
                Some(made)
            } else {
                None::<usize>
            },
    {
        if last_succeeded && made < self.calls.len() {
            Some(made)
        } else {
            None
        }
    }

    /// Ends a transition: writes the record's new image where the calls
    /// succeeded; fails with `ExternalOperationFailed`, and leaves the
    /// record as it is, where they did not.
    pub fn settle(&self, calls_succeeded: bool, record: &mut Vec<u8>) -> (r: Result<(), AppError>)
        ensures
            calls_succeeded ==> r is Ok && final(record)@ == self.data@,
            !calls_succeeded ==> r == Err::<(), AppError>(AppError::ExternalOperationFailed) && final(record)@
                == old(record)@,
    {
        if !calls_succeeded {
            return Err(AppError::ExternalOperationFailed);
        }
        *record = slice_to_vec(self.data.as_slice());
        Ok(())
    }
}

/// The checks that mint, burn and create-token begin with: the signer
/// signed, and the token ledger, the rent sysvar and the system program
/// are the ones supplied.
pub open spec fn spec_check_environment(
    signer: Account,
    token_program: Account,
    rent: Account,
    system: Account,
) -> Result<(), AppError> {
    if !signer.is_signer {
        Err(AppError::MissingRequiredSignature)
    } else if token_program.key@ != spec_token_program_id() {
        Err(AppError::InvalidEqPubkey)
    } else if rent.key@ != spec_rent_sysvar_id() {
        Err(AppError::InvalidEqPubkey)
    } else if system.key@ != spec_system_program_id() {
        Err(AppError::InvalidEqPubkey)
    } else {
        Ok(())
    }
}

/// The checks that let a signer mint or burn: those of the environment,
/// then that the configuration record is the canonical one, holds a
/// record, and names the signer as administrator.
pub open spec fn spec_authorize(
    program: Seq<u8>,
    signer: Account,
    config: Account,
    token_program: Account,
    rent: Account,
    system: Account,
) -> Result<(), AppError> {
    match spec_check_environment(signer, token_program, rent, system) {
        Err(e) => Err(e),
        Ok(_) => match spec_assert_derivation(program, config.key@, config_seeds(program)) {
            Err(e) => Err(e),
            Ok(_) => match config_of_account(config.data@) {
                Err(e) => Err(e),
                Ok(authority) => if signer.key@ != authority {
                    Err(AppError::InvalidEqPubkey)
                } else {
                    Ok(())
                },
            },
        },
    }
}

/// Checks the signer and the three well-known accounts.
pub fn check_environment(signer: &Account, token_program: &Account, rent: &Account, system: &Account) -> (r: Result<
    (),
    AppError,
>)
    ensures
        r == spec_check_environment(*signer, *token_program, *rent, *system),
{
    assert_signer(signer)?;
    assert_eq_pubkey(token_program, &token_program_id())?;
    assert_eq_pubkey(rent, &rent_sysvar_id())?;
    assert_eq_pubkey(system, &system_program_id())?;
    Ok(())
}

/// Checks that the signer is the administrator that the program's
/// configuration record names.
pub fn authorize(
    program_id: &Address,
    signer: &Account,
    config: &Account,
    token_program: &Account,
    rent: &Account,
    system: &Account,
) -> (r: Result<(), AppError>)
    ensures
        r == spec_authorize(program_id@, *signer, *config, *token_program, *rent, *system),
{
    check_environment(signer, token_program, rent, system)?;
    assert_config(program_id, config)?;
    let config_data = ConfigureData::from_account_info(config)?;
    assert_eq_pubkey(signer, &config_data.authority)?;
    Ok(())
}

/// What an instruction gives: `InvalidInstructionData` where the bytes
/// hold none, else what the transition it names gives.
pub open spec fn instruction_outcome(
    program: Seq<u8>,
    accounts: Seq<Account>,
    input: Seq<u8>,
    rent: RentQuote,
) -> Result<TransitionView, AppError> {
    match parse_instruction(input) {
        None => Err(AppError::InvalidInstructionData),
        Some(InstructionContent::Configure { authority }) => configure_outcome(program, accounts, authority, rent),
        Some(InstructionContent::CreateToken { name, symbol, uri, decimals }) => create_token_outcome(
            program,
            accounts,
            name,
            symbol,
            decimals,
            rent,
        ),
        Some(InstructionContent::MintToken { amt }) => mint_outcome(program, accounts, amt),
        Some(InstructionContent::BurnToken { amt }) => burn_outcome(program, accounts, amt),
    }
}

/// Decodes an instruction and runs the transition it names.
pub fn process_instruction(program_id: &Address, accounts: &Vec<Account>, input: &Vec<u8>, rent: &RentQuote) -> (r:
    Result<Transition, AppError>)
    ensures
        outcome_is(r, instruction_outcome(program_id@, accounts@, input@, *rent)),
{
    let instruction = AppInstruction::try_from_slice(input)?;
    match instruction {
        AppInstruction::Configure(args) => process_configure(program_id, accounts, args, rent),
        AppInstruction::CreateToken(args) => process_create_token(program_id, accounts, args, rent),
        AppInstruction::MintToken(args) => process_mint(program_id, accounts, args),
        AppInstruction::BurnToken(args) => process_burn(program_id, accounts, args),
    }
}

} // verus!
