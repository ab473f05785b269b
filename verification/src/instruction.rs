use vstd::prelude::*;
use vstd::bytes::*;
use crate::address::{
    rent_sysvar_id, spec_rent_sysvar_id, spec_system_program_id, spec_token_program_id, system_program_id,
    token_program_id, Address,
};
use crate::codec::{
    put_address, put_string, put_u64, read_address, read_string, read_u64, spec_read_string, spec_read_u64,
    string_bytes, string_fits, string_round_trip,
};
use crate::error::AppError;
use crate::ledger::{meta_views, readonly, writable, AccountMeta, Instruction, InstructionView, MetaView};
use crate::state::{BurnArgs, ConfigureArgs, CreateTokenArgs, MintArgs};

verus! {

/// An instruction of this program: one of the four transitions, with its
/// arguments.
#[derive(Clone, Debug, PartialEq)]
pub enum AppInstruction {
    Configure(ConfigureArgs),
    CreateToken(CreateTokenArgs),
    MintToken(MintArgs),
    BurnToken(BurnArgs),
}

/// What an instruction holds.
pub enum InstructionContent {
    Configure { authority: Seq<u8> },
    CreateToken { name: Seq<char>, symbol: Seq<char>, uri: Seq<char>, decimals: u8 },
    MintToken { amt: u64 },
    BurnToken { amt: u64 },
}

impl View for AppInstruction {
    type V = InstructionContent;

    open spec fn view(&self) -> InstructionContent {
        match self {
            AppInstruction::Configure(a) => InstructionContent::Configure { authority: a.authority@ },
            AppInstruction::CreateToken(a) => InstructionContent::CreateToken {
                name: a.name@,
                symbol: a.symbol@,
                uri: a.uri@,
                decimals: a.decimals,
            },
            AppInstruction::MintToken(a) => InstructionContent::MintToken { amt: a.amt },
            AppInstruction::BurnToken(a) => InstructionContent::BurnToken { amt: a.amt },
        }
    }
}

/// Whether an instruction can be written: its strings are short enough
/// for their lengths to be written.
pub open spec fn instruction_fits(c: InstructionContent) -> bool {
    match c {
        InstructionContent::CreateToken { name, symbol, uri, decimals } => string_fits(name) && string_fits(symbol)
            && string_fits(uri),
        _ => true,
    }
}

/// The bytes of an instruction: one byte that tells the transition, then
/// its arguments in order.
pub open spec fn instruction_bytes(c: InstructionContent) -> Seq<u8> {
    match c {
        InstructionContent::Configure { authority } => seq![0u8] + authority,
        InstructionContent::CreateToken { name, symbol, uri, decimals } => seq![1u8] + string_bytes(name)
            + string_bytes(symbol) + string_bytes(uri) + seq![decimals],
        InstructionContent::MintToken { amt } => seq![2u8] + spec_u64_to_le_bytes(amt),
        InstructionContent::BurnToken { amt } => seq![3u8] + spec_u64_to_le_bytes(amt),
    }
}

/// The create-token instruction that follows the first byte; `None` where
/// the bytes end early, a string is no UTF-8, or bytes are left over.
pub open spec fn parse_create_token(bytes: Seq<u8>) -> Option<InstructionContent> {
    match spec_read_string(bytes, 1) {
        None => None,
        Some((name, a)) => match spec_read_string(bytes, a) {
            None => None,
            Some((symbol, b)) => match spec_read_string(bytes, b) {
                None => None,
                Some((uri, c)) => if c + 1 == bytes.len() {
                    Some(InstructionContent::CreateToken { name, symbol, uri, decimals: bytes[c] })
                } else {
                    None
                },
            },
        },
    }
}

/// The instruction that `bytes` hold, all of them; `None` where they hold
/// none.
pub open spec fn parse_instruction(bytes: Seq<u8>) -> Option<InstructionContent> {
    if bytes.len() == 0 {
        None
    } else if bytes[0] == 0 {
        if bytes.len() == 33 {
            Some(InstructionContent::Configure { authority: bytes.subrange(1, 33) })
        } else {
            None
        }
    } else if bytes[0] == 1 {
        parse_create_token(bytes)
    } else if bytes[0] == 2 {
        if bytes.len() == 9 {
            Some(InstructionContent::MintToken { amt: spec_read_u64(bytes, 1) })
        } else {
            None
        }
    } else if bytes[0] == 3 {
        if bytes.len() == 9 {
            Some(InstructionContent::BurnToken { amt: spec_read_u64(bytes, 1) })
        } else {
            None
        }
    } else {
        None
    }
}

impl AppInstruction {
    /// Reads an instruction from bytes that hold one and nothing more;
    /// fails with `InvalidInstructionData` on others.
    pub fn try_from_slice(input: &Vec<u8>) -> (r: Result<AppInstruction, AppError>)
        ensures
            match r {
                Ok(i) => parse_instruction(input@) == Some(i@),
                Err(e) => e == AppError::InvalidInstructionData && parse_instruction(input@) is None,
            },
    {
        let len = input.len();
        if len == 0 {
            return Err(AppError::InvalidInstructionData);
        }
        let tag = input[0];
        if tag == 0 {
            if len != 33 {
                return Err(AppError::InvalidInstructionData);
            }
            Ok(AppInstruction::Configure(ConfigureArgs { authority: read_address(input, 1) }))
        } else if tag == 1 {
            let (name, a) = match read_string(input, 1) {
                Some(p) => p,
                None => { return Err(AppError::InvalidInstructionData); },
            };
            let (symbol, b) = match read_string(input, a) {
                Some(p) => p,
                None => { return Err(AppError::InvalidInstructionData); },
            };
            let (uri, c) = match read_string(input, b) {
                Some(p) => p,
                None => { return Err(AppError::InvalidInstructionData); },
            };
            if len - c != 1 {
                return Err(AppError::InvalidInstructionData);
            }
            Ok(AppInstruction::CreateToken(CreateTokenArgs { name, symbol, uri, decimals: input[c] }))
        } else if tag == 2 {
            if len != 9 {
                return Err(AppError::InvalidInstructionData);
            }
            Ok(AppInstruction::MintToken(MintArgs { amt: read_u64(input, 1) }))
        } else if tag == 3 {
            if len != 9 {
                return Err(AppError::InvalidInstructionData);
            }
            Ok(AppInstruction::BurnToken(BurnArgs { amt: read_u64(input, 1) }))
        } else {
            Err(AppError::InvalidInstructionData)
        }
    }

    /// The instruction's bytes; fails with `InvalidInstructionData` where
    /// a string is too long for its length to be written.
    pub fn try_to_vec(&self) -> (r: Result<Vec<u8>, AppError>)
        ensures
            instruction_fits(self@) ==> r is Ok && r->Ok_0@ == instruction_bytes(self@),
            !instruction_fits(self@) ==> r == Err::<Vec<u8>, AppError>(AppError::InvalidInstructionData),
    {
        let mut out: Vec<u8> = Vec::new();
        match self {
            AppInstruction::Configure(a) => {
                out.push(0);
                put_address(&mut out, &a.authority);
            },
            AppInstruction::CreateToken(a) => {
                out.push(1);
                if !put_string(&mut out, &a.name) {
                    return Err(AppError::InvalidInstructionData);
                }
                if !put_string(&mut out, &a.symbol) {
                    return Err(AppError::InvalidInstructionData);
                }
                if !put_string(&mut out, &a.uri) {
                    return Err(AppError::InvalidInstructionData);
                }
                out.push(a.decimals);
            },
            AppInstruction::MintToken(a) => {
                out.push(2);
                put_u64(&mut out, a.amt);
            },
            AppInstruction::BurnToken(a) => {
                out.push(3);
                put_u64(&mut out, a.amt);
            },
        }
        assert(out@ =~= instruction_bytes(self@));
        Ok(out)
    }
}

/// The accounts of the configure transition, in order.
pub open spec fn configure_accounts(signer: Seq<u8>, config: Seq<u8>) -> Seq<MetaView> {
    seq![
        writable(signer, true),
        writable(config, false),
        readonly(spec_rent_sysvar_id(), false),
        readonly(spec_system_program_id(), false),
    ]
}

/// The accounts of the mint transition, in order.
pub open spec fn mint_accounts(
    signer: Seq<u8>,
    config: Seq<u8>,
    mint: Seq<u8>,
    token_account: Seq<u8>,
    token_info: Seq<u8>,
    mint_auth: Seq<u8>,
    token_program: Seq<u8>,
) -> Seq<MetaView> {
    seq![
        writable(signer, true),
        writable(config, true),
        writable(mint, true),
        writable(token_account, false),
        writable(token_info, false),
        writable(mint_auth, false),
        readonly(token_program, false),
        readonly(spec_rent_sysvar_id(), false),
        readonly(spec_system_program_id(), false),
    ]
}

/// The accounts of the create-token transition, in order.
pub open spec fn create_token_accounts(
    signer: Seq<u8>,
    token_info: Seq<u8>,
    mint: Seq<u8>,
    mint_auth: Seq<u8>,
    metadata: Seq<u8>,
    metadata_program: Seq<u8>,
) -> Seq<MetaView> {
    seq![
        writable(signer, true),
        writable(token_info, false),
        writable(mint, false),
        writable(mint_auth, false),
        writable(metadata, false),
        readonly(metadata_program, false),
        readonly(spec_token_program_id(), false),
        readonly(spec_rent_sysvar_id(), false),
        readonly(spec_system_program_id(), false),
    ]
}

/// The accounts of the burn transition, in order.
pub open spec fn burn_accounts(
    signer: Seq<u8>,
    config: Seq<u8>,
    mint: Seq<u8>,
    token_account: Seq<u8>,
    token_info: Seq<u8>,
    token_program: Seq<u8>,
) -> Seq<MetaView> {
    seq![
        writable(signer, true),
        writable(config, true),
        writable(mint, true),
        writable(token_account, false),
        writable(token_info, false),
        readonly(token_program, false),
        readonly(spec_rent_sysvar_id(), false),
        readonly(spec_system_program_id(), false),
    ]
}

/// What a builder gives for an instruction and its accounts: the
/// instruction for the program, or `InvalidInstructionData` where the
/// arguments cannot be written.
pub open spec fn built(program: Seq<u8>, accounts: Seq<MetaView>, c: InstructionContent) -> Result<
    InstructionView,
    AppError,
> {
    if instruction_fits(c) {
        Ok(InstructionView { program_id: program, accounts, data: instruction_bytes(c) })
    } else {
        Err(AppError::InvalidInstructionData)
    }
}

/// Whether a builder's result is what `expected` says.
pub open spec fn builds(r: Result<Instruction, AppError>, expected: Result<InstructionView, AppError>) -> bool {
    match r {
        Ok(ix) => expected == Ok::<InstructionView, AppError>(ix@),
        Err(e) => expected == Err::<InstructionView, AppError>(e),
    }
}

/// Puts an instruction together from its accounts and its content.
fn build(program_id: &Address, accounts: Vec<AccountMeta>, content: AppInstruction) -> (r: Result<
    Instruction,
    AppError,
>)
    ensures
        builds(r, built(program_id@, meta_views(accounts@), content@)),
{
    let data = content.try_to_vec()?;
    Ok(Instruction { program_id: *program_id, accounts, data })
}

/// The configure instruction for a client to send.
pub fn configure(program_id: &Address, siger: &Address, config_info: &Address, args: ConfigureArgs) -> (r: Result<
    Instruction,
    AppError,
>)
    ensures
        builds(
            r,
            built(
                program_id@,
                configure_accounts(siger@, config_info@),
                InstructionContent::Configure { authority: args.authority@ },
            ),
        ),
{
    let mut accounts: Vec<AccountMeta> = Vec::new();
    accounts.push(AccountMeta::new(*siger, true));
    accounts.push(AccountMeta::new(*config_info, false));
    accounts.push(AccountMeta::new_readonly(rent_sysvar_id(), false));
    accounts.push(AccountMeta::new_readonly(system_program_id(), false));
    assert(meta_views(accounts@) =~= configure_accounts(siger@, config_info@));
    build(program_id, accounts, AppInstruction::Configure(args))
}

/// The mint instruction for a client to send.
pub fn mint(
    program_id: &Address,
    siger: &Address,
    config_info: &Address,
    mint_info: &Address,
    token_account: &Address,
    token_info: &Address,
    mint_auth: &Address,
    token_program_info: &Address,
    args: MintArgs,
) -> (r: Result<Instruction, AppError>)
    ensures
        builds(
            r,
            built(
                program_id@,
                mint_accounts(
                    siger@,
                    config_info@,
                    mint_info@,
                    token_account@,
                    token_info@,
                    mint_auth@,
                    token_program_info@,
                ),
                InstructionContent::MintToken { amt: args.amt },
            ),
        ),
{
    let mut accounts: Vec<AccountMeta> = Vec::new();
    accounts.push(AccountMeta::new(*siger, true));
    accounts.push(AccountMeta::new(*config_info, true));
    accounts.push(AccountMeta::new(*mint_info, true));
    accounts.push(AccountMeta::new(*token_account, false));
    accounts.push(AccountMeta::new(*token_info, false));
    accounts.push(AccountMeta::new(*mint_auth, false));
    accounts.push(AccountMeta::new_readonly(*token_program_info, false));
    accounts.push(AccountMeta::new_readonly(rent_sysvar_id(), false));
    accounts.push(AccountMeta::new_readonly(system_program_id(), false));
    assert(meta_views(accounts@) =~= mint_accounts(
        siger@,
        config_info@,
        mint_info@,
        token_account@,
        token_info@,
        mint_auth@,
        token_program_info@,
    ));
    build(program_id, accounts, AppInstruction::MintToken(args))
}

/// The create-token instruction for a client to send.
pub fn create_token(
    program_id: &Address,
    siger: &Address,
    token_info: &Address,
    mint: &Address,
    mint_auth: &Address,
    metadata_key: &Address,
    metadata_program: &Address,
    args: CreateTokenArgs,
) -> (r: Result<Instruction, AppError>)
    ensures
        builds(
            r,
            built(
                program_id@,
                create_token_accounts(siger@, token_info@, mint@, mint_auth@, metadata_key@, metadata_program@),
                InstructionContent::CreateToken {
                    name: args.name@,
                    symbol: args.symbol@,
                    uri: args.uri@,
                    decimals: args.decimals,
                },
            ),
        ),
{
    let mut accounts: Vec<AccountMeta> = Vec::new();
    accounts.push(AccountMeta::new(*siger, true));
    accounts.push(AccountMeta::new(*token_info, false));
    accounts.push(AccountMeta::new(*mint, false));
    accounts.push(AccountMeta::new(*mint_auth, false));
    accounts.push(AccountMeta::new(*metadata_key, false));
    accounts.push(AccountMeta::new_readonly(*metadata_program, false));
    accounts.push(AccountMeta::new_readonly(token_program_id(), false));
    accounts.push(AccountMeta::new_readonly(rent_sysvar_id(), false));
    accounts.push(AccountMeta::new_readonly(system_program_id(), false));
    assert(meta_views(accounts@) =~= create_token_accounts(
        siger@,
        token_info@,
        mint@,
        mint_auth@,
        metadata_key@,
        metadata_program@,
    ));
    build(program_id, accounts, AppInstruction::CreateToken(args))
}

/// The burn instruction for a client to send.
pub fn burn(
    program_id: &Address,
    siger: &Address,
    config_info: &Address,
    mint_info: &Address,
    token_account: &Address,
    token_info: &Address,
    token_program_info: &Address,
    args: BurnArgs,
) -> (r: Result<Instruction, AppError>)
    ensures
        builds(
            r,
            built(
                program_id@,
                burn_accounts(siger@, config_info@, mint_info@, token_account@, token_info@, token_program_info@),
                InstructionContent::BurnToken { amt: args.amt },
            ),
        ),
{
    let mut accounts: Vec<AccountMeta> = Vec::new();
    accounts.push(AccountMeta::new(*siger, true));
    accounts.push(AccountMeta::new(*config_info, true));
    accounts.push(AccountMeta::new(*mint_info, true));
    accounts.push(AccountMeta::new(*token_account, false));
    accounts.push(AccountMeta::new(*token_info, false));
    accounts.push(AccountMeta::new_readonly(*token_program_info, false));
    accounts.push(AccountMeta::new_readonly(rent_sysvar_id(), false));
    accounts.push(AccountMeta::new_readonly(system_program_id(), false));
    assert(meta_views(accounts@) =~= burn_accounts(
        siger@,
        config_info@,
        mint_info@,
        token_account@,
        token_info@,
        token_program_info@,
    ));
    build(program_id, accounts, AppInstruction::BurnToken(args))
}

/// An instruction is read back from the bytes it was written as.
pub proof fn instruction_round_trip(c: InstructionContent)
    requires
        instruction_fits(c),
        c is Configure ==> c->authority.len() == 32,
    ensures
        parse_instruction(instruction_bytes(c)) == Some(c),
{
    lemma_auto_spec_u64_to_from_le_bytes();
    let bytes = instruction_bytes(c);
    match c {
        InstructionContent::Configure { authority } => {
            assert(bytes.subrange(1, 33) =~= authority);
        },
        InstructionContent::CreateToken { name, symbol, uri, decimals } => {
            let tag = seq![1u8];
            let last = seq![decimals];
            string_round_trip(tag, name, string_bytes(symbol) + string_bytes(uri) + last);
            string_round_trip(tag + string_bytes(name), symbol, string_bytes(uri) + last);
            string_round_trip(tag + string_bytes(name) + string_bytes(symbol), uri, last);
            assert(bytes =~= tag + string_bytes(name) + (string_bytes(symbol) + string_bytes(uri) + last));
            assert(bytes =~= tag + string_bytes(name) + string_bytes(symbol) + (string_bytes(uri) + last));
            assert(bytes =~= tag + string_bytes(name) + string_bytes(symbol) + string_bytes(uri) + last);
        },
        InstructionContent::MintToken { amt } => {
            assert(bytes.subrange(1, 9) =~= spec_u64_to_le_bytes(amt));
        },
        InstructionContent::BurnToken { amt } => {
            assert(bytes.subrange(1, 9) =~= spec_u64_to_le_bytes(amt));
        },
    }
}

} // verus!
