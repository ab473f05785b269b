use vstd::prelude::*;
use solana_program::pubkey::Pubkey;
use vstd::bytes::*;
use crate::account::Account;
use crate::address::{
    copy_seeds, seed_bytes, spec_rent_sysvar_id, spec_system_program_id, spec_token_program_id, Address,
};
use crate::error::AppError;

verus! {

/// How an instruction uses one account.
#[derive(Clone, Copy, Debug, PartialEq, Eq)]
pub struct AccountMeta {
    pub pubkey: Address,
    /// Whether the instruction needs the account's signature.
    pub is_signer: bool,
    /// Whether the instruction may change the account.
    pub is_writable: bool,
}

/// What an account's entry in an instruction holds.
pub struct MetaView {
    pub pubkey: Seq<u8>,
    pub is_signer: bool,
    pub is_writable: bool,
}

impl View for AccountMeta {
    type V = MetaView;

    open spec fn view(&self) -> MetaView {
        MetaView { pubkey: self.pubkey@, is_signer: self.is_signer, is_writable: self.is_writable }
    }
}

impl AccountMeta {
    /// A writable account.
    pub fn new(pubkey: Address, is_signer: bool) -> (m: AccountMeta)
        ensures
            m@ == writable(pubkey@, is_signer),
    {
        AccountMeta { pubkey, is_signer, is_writable: true }
    }

    /// A read-only account.
    pub fn new_readonly(pubkey: Address, is_signer: bool) -> (m: AccountMeta)
        ensures
            m@ == readonly(pubkey@, is_signer),
    {
        AccountMeta { pubkey, is_signer, is_writable: false }
    }

    /// The entry with the given key and flags.
    pub fn from_parts(key: [u8; 32], is_signer: bool, is_writable: bool) -> (m: AccountMeta)
        ensures
            m@ == (MetaView { pubkey: key@, is_signer, is_writable }),
    {
        AccountMeta { pubkey: Address { bytes: key }, is_signer, is_writable }
    }
}

/// An instruction for a program of the ledger.
#[derive(Clone, Debug, PartialEq, Eq)]
pub struct Instruction {
    /// The program that executes it.
    pub program_id: Address,
    /// The accounts it uses, in the order the program expects.
    pub accounts: Vec<AccountMeta>,
    /// The program's own encoding of what to do.
    pub data: Vec<u8>,
}

/// What an instruction holds.
pub struct InstructionView {
    pub program_id: Seq<u8>,
    pub accounts: Seq<MetaView>,
    pub data: Seq<u8>,
}

/// A list of account entries, each by what it holds.
pub open spec fn meta_views(accounts: Seq<AccountMeta>) -> Seq<MetaView> {
    Seq::new(accounts.len(), |i: int| accounts[i]@)
}

impl View for Instruction {
    type V = InstructionView;

    open spec fn view(&self) -> InstructionView {
        InstructionView {
            program_id: self.program_id@,
            accounts: meta_views(self.accounts@),
            data: self.data@,
        }
    }
}

impl Instruction {
    /// The instruction with the given program, accounts and data.
    pub fn from_parts(program: [u8; 32], accounts: Vec<AccountMeta>, data: Vec<u8>) -> (ix: Instruction)
        ensures
            ix@ == (InstructionView { program_id: program@, accounts: meta_views(accounts@), data: data@ }),
    {
        Instruction { program_id: Address { bytes: program }, accounts, data }
    }
}

/// One call into another program that a transition asks the host to make.
#[derive(Clone, Debug, PartialEq, Eq)]
pub struct LedgerCall {
    pub instruction: Instruction,
    /// The accounts handed to the callee, by address.
    pub accounts: Vec<Address>,
    /// The seeds of the derived address that signs the call; `None` where
    /// the call carries only the transaction's own signatures.
    pub signer_seeds: Option<Vec<Vec<u8>>>,
}

/// What a call holds.
pub struct LedgerCallView {
    pub instruction: InstructionView,
    pub accounts: Seq<Seq<u8>>,
    pub signer_seeds: Option<Seq<Seq<u8>>>,
}

/// A list of addresses, each by its bytes.
pub open spec fn address_views(accounts: Seq<Address>) -> Seq<Seq<u8>> {
    Seq::new(accounts.len(), |i: int| accounts[i]@)
}

impl View for LedgerCall {
    type V = LedgerCallView;

    open spec fn view(&self) -> LedgerCallView {
        LedgerCallView {
            instruction: self.instruction@,
            accounts: address_views(self.accounts@),
            signer_seeds: match self.signer_seeds {
                Some(s) => Some(seed_bytes(s@)),
                None => None,
            },
        }
    }
}

/// A list of calls, each by what it holds.
pub open spec fn call_views(calls: Seq<LedgerCall>) -> Seq<LedgerCallView> {
    Seq::new(calls.len(), |i: int| calls[i]@)
}

/// The length of a mint's account in the token ledger, which initializes
/// a mint of no other length.
pub const MINT_LEN: usize = 82;

/// A writable account in an instruction.
pub open spec fn writable(pubkey: Seq<u8>, is_signer: bool) -> MetaView {
    MetaView { pubkey, is_signer, is_writable: true }
}

/// A read-only account in an instruction.
pub open spec fn readonly(pubkey: Seq<u8>, is_signer: bool) -> MetaView {
    MetaView { pubkey, is_signer, is_writable: false }
}

/// The data of the system program's transfer instruction: the tag 2 in
/// four little-endian bytes, then the amount in eight.
pub open spec fn system_transfer_data(lamports: u64) -> Seq<u8> {
    seq![2u8, 0, 0, 0] + spec_u64_to_le_bytes(lamports)
}

/// The data of the system program's allocate instruction: the tag 8 in
/// four little-endian bytes, then the size in eight.
pub open spec fn system_allocate_data(space: u64) -> Seq<u8> {
    seq![8u8, 0, 0, 0] + spec_u64_to_le_bytes(space)
}

/// The data of the system program's assign instruction: the tag 1 in four
/// little-endian bytes, then the new owner's address.
pub open spec fn system_assign_data(owner: Seq<u8>) -> Seq<u8> {
    seq![1u8, 0, 0, 0] + owner
}

/// The data of the system program's create-account instruction: the tag 0
/// in four little-endian bytes, then the balance and the size in eight
/// each, then the owner's address.
pub open spec fn system_create_account_data(lamports: u64, space: u64, owner: Seq<u8>) -> Seq<u8> {
    seq![0u8, 0, 0, 0] + spec_u64_to_le_bytes(lamports) + spec_u64_to_le_bytes(space) + owner
}

/// An instruction for the system program.
pub open spec fn system_instruction(accounts: Seq<MetaView>, data: Seq<u8>) -> InstructionView {
    InstructionView { program_id: spec_system_program_id(), accounts, data }
}

/// The system program's instruction that moves `lamports` from one
/// account to another.
pub open spec fn transfer_instruction(from: Seq<u8>, to: Seq<u8>, lamports: u64) -> InstructionView {
    system_instruction(seq![writable(from, true), writable(to, false)], system_transfer_data(lamports))
}

/// The system program's instruction that gives an account `space` bytes.
pub open spec fn allocate_instruction(account: Seq<u8>, space: u64) -> InstructionView {
    system_instruction(seq![writable(account, true)], system_allocate_data(space))
}

/// The system program's instruction that hands an account to an owner.
pub open spec fn assign_instruction(account: Seq<u8>, owner: Seq<u8>) -> InstructionView {
    system_instruction(seq![writable(account, true)], system_assign_data(owner))
}

/// The system program's instruction that creates an account.
pub open spec fn create_account_instruction(
    from: Seq<u8>,
    to: Seq<u8>,
    lamports: u64,
    space: u64,
    owner: Seq<u8>,
) -> InstructionView {
    system_instruction(
        seq![writable(from, true), writable(to, true)],
        system_create_account_data(lamports, space, owner),
    )
}

/// The token ledger's instruction that initializes a mint, with a freeze
/// authority.
pub open spec fn initialize_mint_instruction(
    mint: Seq<u8>,
    authority: Seq<u8>,
    freeze_authority: Seq<u8>,
    decimals: u8,
) -> InstructionView {
    InstructionView {
        program_id: spec_token_program_id(),
        accounts: seq![writable(mint, false), readonly(spec_rent_sysvar_id(), false)],
        data: seq![0u8, decimals] + authority + seq![1u8] + freeze_authority,
    }
}

/// The token ledger's instruction that mints `amount` base units to an
/// account, signed by the mint's authority.
pub open spec fn mint_to_instruction(mint: Seq<u8>, account: Seq<u8>, owner: Seq<u8>, amount: u64) -> InstructionView {
    InstructionView {
        program_id: spec_token_program_id(),
        accounts: seq![
            writable(mint, false),
            writable(account, false),
            readonly(owner, false),
            readonly(owner, true),
        ],
        data: seq![7u8] + spec_u64_to_le_bytes(amount),
    }
}

/// The token ledger's instruction that burns `amount` base units of an
/// account, signed by the account's authority.
pub open spec fn burn_instruction(account: Seq<u8>, mint: Seq<u8>, authority: Seq<u8>, amount: u64) -> InstructionView {
    InstructionView {
        program_id: spec_token_program_id(),
        accounts: seq![
            writable(account, false),
            writable(mint, false),
            readonly(authority, false),
            readonly(authority, true),
        ],
        data: seq![8u8] + spec_u64_to_le_bytes(amount),
    }
}

/// Calls `system_instruction::transfer` of solana_program.
///
/// Believed, not proved: the instruction is for the system program, names
/// the sender as a writable signer and the receiver as writable, and its
/// data is the variant's index, 2, as four little-endian bytes and the
/// amount as eight.
#[verifier::external_body]
pub(crate) fn system_transfer(from: &Address, to: &Address, lamports: u64) -> (r: Instruction)
    ensures
        r@ == system_instruction(
            seq![writable(from@, true), writable(to@, false)],
            system_transfer_data(lamports),
        ),
{
    let from_key = Pubkey::new_from_array(from.bytes);
    let to_key = Pubkey::new_from_array(to.bytes);
    let ix = solana_program::system_instruction::transfer(&from_key, &to_key, lamports);
    let accounts = ix.accounts.iter().map(|m| AccountMeta::from_parts(m.pubkey.to_bytes(), m.is_signer, m.is_writable)).collect();
    Instruction::from_parts(ix.program_id.to_bytes(), accounts, ix.data)
}

/// Calls `system_instruction::allocate` of solana_program.
///
/// Believed, not proved: the instruction is for the system program, names
/// the account as a writable signer, and its data is the variant's index,
/// 8, as four little-endian bytes and the size as eight.
#[verifier::external_body]
pub(crate) fn system_allocate(account: &Address, space: u64) -> (r: Instruction)
    ensures
        r@ == system_instruction(seq![writable(account@, true)], system_allocate_data(space)),
{
    let key = Pubkey::new_from_array(account.bytes);
    let ix = solana_program::system_instruction::allocate(&key, space);
    let accounts = ix.accounts.iter().map(|m| AccountMeta::from_parts(m.pubkey.to_bytes(), m.is_signer, m.is_writable)).collect();
    Instruction::from_parts(ix.program_id.to_bytes(), accounts, ix.data)
}

/// Calls `system_instruction::assign` of solana_program.
///
/// Believed, not proved: the instruction is for the system program, names
/// the account as a writable signer, and its data is the variant's index,
/// 1, as four little-endian bytes and the new owner's thirty-two bytes.
#[verifier::external_body]
pub(crate) fn system_assign(account: &Address, owner: &Address) -> (r: Instruction)
    ensures
        r@ == system_instruction(seq![writable(account@, true)], system_assign_data(owner@)),
{
    let key = Pubkey::new_from_array(account.bytes);
    let owner_key = Pubkey::new_from_array(owner.bytes);
    let ix = solana_program::system_instruction::assign(&key, &owner_key);
    let accounts = ix.accounts.iter().map(|m| AccountMeta::from_parts(m.pubkey.to_bytes(), m.is_signer, m.is_writable)).collect();
    Instruction::from_parts(ix.program_id.to_bytes(), accounts, ix.data)
}

/// Calls `system_instruction::create_account` of solana_program.
///
/// Believed, not proved: the instruction is for the system program, names
/// the payer and the new account as writable signers, and its data is the
/// variant's index, 0, as four little-endian bytes, the balance and the
/// size as eight each, and the owner's thirty-two bytes.
#[verifier::external_body]
pub(crate) fn system_create_account(from: &Address, to: &Address, lamports: u64, space: u64, owner: &Address) -> (r: Instruction)
    ensures
        r@ == system_instruction(
            seq![writable(from@, true), writable(to@, true)],
            system_create_account_data(lamports, space, owner@),
        ),
{
    let from_key = Pubkey::new_from_array(from.bytes);
    let to_key = Pubkey::new_from_array(to.bytes);
    let owner_key = Pubkey::new_from_array(owner.bytes);
    let ix = solana_program::system_instruction::create_account(&from_key, &to_key, lamports, space, &owner_key);
    let accounts = ix.accounts.iter().map(|m| AccountMeta::from_parts(m.pubkey.to_bytes(), m.is_signer, m.is_writable)).collect();
    Instruction::from_parts(ix.program_id.to_bytes(), accounts, ix.data)
}

/// Calls `spl_token::instruction::initialize_mint`, with a freeze
/// authority.
///
/// Believed, not proved: the call succeeds exactly where `token_program`
/// is the token ledger's identifier; the instruction names the mint as
/// writable and the rent sysvar as read-only, and its data is the tag 0,
/// the decimals, the authority, the byte 1 and the freeze authority.
#[verifier::external_body]
pub(crate) fn token_initialize_mint(
    token_program: &Address,
    mint: &Address,
    authority: &Address,
    freeze_authority: &Address,
    decimals: u8,
) -> (r: Option<Instruction>)
    ensures
        r is Some == (token_program@ == spec_token_program_id()),
        r is Some ==> r->0@ == initialize_mint_instruction(mint@, authority@, freeze_authority@, decimals),
{
    let program = Pubkey::new_from_array(token_program.bytes);
    let mint_key = Pubkey::new_from_array(mint.bytes);
    let auth = Pubkey::new_from_array(authority.bytes);
    let freeze = Pubkey::new_from_array(freeze_authority.bytes);
    let ix = spl_token::instruction::initialize_mint(&program, &mint_key, &auth, Some(&freeze), decimals).ok()?;
    let accounts = ix.accounts.iter().map(|m| AccountMeta::from_parts(m.pubkey.to_bytes(), m.is_signer, m.is_writable)).collect();
    Some(Instruction::from_parts(ix.program_id.to_bytes(), accounts, ix.data))
}

/// Calls `spl_token::instruction::mint_to`, with the owner as the one
/// signer.
///
/// Believed, not proved: the call succeeds exactly where `token_program`
/// is the token ledger's identifier; the instruction names the mint and
/// the account as writable, then the owner read-only, first unsigned and
/// then as signer; its data is the tag 7 and the amount in little-endian
/// bytes.
#[verifier::external_body]
pub(crate) fn token_mint_to(
    token_program: &Address,
    mint: &Address,
    account: &Address,
    owner: &Address,
    amount: u64,
) -> (r: Option<Instruction>)
    ensures
        r is Some == (token_program@ == spec_token_program_id()),
        r is Some ==> r->0@ == mint_to_instruction(mint@, account@, owner@, amount),
{
    let program = Pubkey::new_from_array(token_program.bytes);
    let mint_key = Pubkey::new_from_array(mint.bytes);
    let dest = Pubkey::new_from_array(account.bytes);
    let auth = Pubkey::new_from_array(owner.bytes);
    let ix = spl_token::instruction::mint_to(&program, &mint_key, &dest, &auth, &[&auth], amount).ok()?;
    let accounts = ix.accounts.iter().map(|m| AccountMeta::from_parts(m.pubkey.to_bytes(), m.is_signer, m.is_writable)).collect();
    Some(Instruction::from_parts(ix.program_id.to_bytes(), accounts, ix.data))
}

/// Calls `spl_token::instruction::burn`, with the authority as the one
/// signer.
///
/// Believed, not proved: the call succeeds exactly where `token_program`
/// is the token ledger's identifier; the instruction names the account
/// and the mint as writable, then the authority read-only, first unsigned
/// and then as signer; its data is the tag 8 and the amount in
/// little-endian bytes.
#[verifier::external_body]
pub(crate) fn token_burn(
    token_program: &Address,
    account: &Address,
    mint: &Address,
    authority: &Address,
    amount: u64,
) -> (r: Option<Instruction>)
    ensures
        r is Some == (token_program@ == spec_token_program_id()),
        r is Some ==> r->0@ == burn_instruction(account@, mint@, authority@, amount),
{
    let program = Pubkey::new_from_array(token_program.bytes);
    let source = Pubkey::new_from_array(account.bytes);
    let mint_key = Pubkey::new_from_array(mint.bytes);
    let auth = Pubkey::new_from_array(authority.bytes);
    let ix = spl_token::instruction::burn(&program, &source, &mint_key, &auth, &[&auth], amount).ok()?;
    let accounts = ix.accounts.iter().map(|m| AccountMeta::from_parts(m.pubkey.to_bytes(), m.is_signer, m.is_writable)).collect();
    Some(Instruction::from_parts(ix.program_id.to_bytes(), accounts, ix.data))
}

/// Reads `Pack::LEN` of `spl_token::state::Mint`.
///
/// Believed, not proved: a mint of the ledger takes 82 bytes.
#[verifier::external_body]
pub(crate) fn mint_len() -> (n: usize)
    ensures
        n == MINT_LEN,
{
    <spl_token::state::Mint as solana_program::program_pack::Pack>::LEN
}

/// A call that carries only the transaction's own signatures.
pub open spec fn plain_call(instruction: InstructionView, accounts: Seq<Seq<u8>>) -> LedgerCallView {
    LedgerCallView { instruction, accounts, signer_seeds: None }
}

/// A call signed by the derived address that `seeds` stand for.
pub open spec fn signed_call(instruction: InstructionView, accounts: Seq<Seq<u8>>, seeds: Seq<Seq<u8>>) -> LedgerCallView {
    LedgerCallView { instruction, accounts, signer_seeds: Some(seeds) }
}

/// What has to be paid into an account for it to hold `minimum_balance`,
/// and one unit at the least.
pub open spec fn shortfall(minimum_balance: u64, lamports: u64) -> u64 {
    let need = if minimum_balance < 1 {
        1u64
    } else {
        minimum_balance
    };
    if need > lamports {
        (need - lamports) as u64
    } else {
        0
    }
}

/// The calls that provision a record: a transfer of the shortfall from
/// the payer where there is one, then the allocation of `size` bytes and
/// the assignment to the owning program, both signed by the record's
/// derived address.
pub open spec fn provision_calls(
    program: Seq<u8>,
    target: Seq<u8>,
    lamports: u64,
    system_program: Seq<u8>,
    payer: Seq<u8>,
    minimum_balance: u64,
    size: u64,
    seeds: Seq<Seq<u8>>,
) -> Seq<LedgerCallView> {
    let due = shortfall(minimum_balance, lamports);
    let fund = if due > 0 {
        seq![plain_call(transfer_instruction(payer, target, due), seq![payer, target, system_program])]
    } else {
        Seq::<LedgerCallView>::empty()
    };
    fund + seq![
        signed_call(allocate_instruction(target, size), seq![target, system_program], seeds),
        signed_call(assign_instruction(target, program), seq![target, system_program], seeds),
    ]
}

/// The calls that create a mint of the token ledger: the creation of its
/// account, of a mint's length and owned by the token ledger, then its
/// initialization with one address as mint authority and freeze
/// authority. `minimum_balance` is what exempts an account of that length
/// from rent.
pub open spec fn create_mint_calls(
    token_program: Seq<u8>,
    payer: Seq<u8>,
    mint: Seq<u8>,
    authority: Seq<u8>,
    create_account_seeds: Seq<Seq<u8>>,
    initialize_mint_seeds: Seq<Seq<u8>>,
    rent: Seq<u8>,
    minimum_balance: u64,
    decimals: u8,
) -> Seq<LedgerCallView> {
    seq![
        signed_call(
            create_account_instruction(payer, mint, minimum_balance, MINT_LEN as u64, token_program),
            seq![payer, mint],
            create_account_seeds,
        ),
        signed_call(
            initialize_mint_instruction(mint, authority, authority, decimals),
            seq![token_program, mint, authority, rent],
            initialize_mint_seeds,
        ),
    ]
}

/// The call that mints `amt` base units to a token account.
pub open spec fn mint_to_call(
    token_program: Seq<u8>,
    mint: Seq<u8>,
    token_account: Seq<u8>,
    authority: Seq<u8>,
    seeds: Seq<Seq<u8>>,
    rent: Seq<u8>,
    amt: u64,
) -> LedgerCallView {
    signed_call(
        mint_to_instruction(mint, token_account, authority, amt),
        seq![token_program, mint, token_account, authority, rent],
        seeds,
    )
}

/// The call that burns `amt` base units of a token account.
pub open spec fn burn_call(
    token_program: Seq<u8>,
    mint: Seq<u8>,
    token_account: Seq<u8>,
    authority: Seq<u8>,
    rent: Seq<u8>,
    amt: u64,
) -> LedgerCallView {
    plain_call(
        burn_instruction(token_account, mint, authority, amt),
        seq![token_program, mint, token_account, authority, rent],
    )
}

/// The addresses of two accounts.
fn keys_of_two(a: &Account, b: &Account) -> (v: Vec<Address>)
    ensures
        address_views(v@) == seq![a.key@, b.key@],
{
    let mut v: Vec<Address> = Vec::new();
    v.push(a.key);
    v.push(b.key);
    assert(address_views(v@) =~= seq![a.key@, b.key@]);
    v
}

/// The addresses of three accounts.
fn keys_of_three(a: &Account, b: &Account, c: &Account) -> (v: Vec<Address>)
    ensures
        address_views(v@) == seq![a.key@, b.key@, c.key@],
{
    let mut v: Vec<Address> = Vec::new();
    v.push(a.key);
    v.push(b.key);
    v.push(c.key);
    assert(address_views(v@) =~= seq![a.key@, b.key@, c.key@]);
    v
}

/// The addresses of four accounts.
fn keys_of_four(a: &Account, b: &Account, c: &Account, d: &Account) -> (v: Vec<Address>)
    ensures
        address_views(v@) == seq![a.key@, b.key@, c.key@, d.key@],
{
    let mut v: Vec<Address> = Vec::new();
    v.push(a.key);
    v.push(b.key);
    v.push(c.key);
    v.push(d.key);
    assert(address_views(v@) =~= seq![a.key@, b.key@, c.key@, d.key@]);
    v
}

/// The addresses of five accounts.
fn keys_of_five(a: &Account, b: &Account, c: &Account, d: &Account, e: &Account) -> (v: Vec<Address>)
    ensures
        address_views(v@) == seq![a.key@, b.key@, c.key@, d.key@, e.key@],
{
    let mut v: Vec<Address> = Vec::new();
    v.push(a.key);
    v.push(b.key);
    v.push(c.key);
    v.push(d.key);
    v.push(e.key);
    assert(address_views(v@) =~= seq![a.key@, b.key@, c.key@, d.key@, e.key@]);
    v
}

/// Plans the provisioning of a record of `size` bytes for the owning
/// program: what the payer still has to transfer for the record to hold
/// `minimum_balance`, the allocation and the assignment.
pub fn create_or_allocate_account_raw(
    program_id: Address,
    new_account_info: &Account,
    system_program_info: &Account,
    payer_info: &Account,
    minimum_balance: u64,
    size: usize,
    signer_seeds: &Vec<Vec<u8>>,
) -> (calls: Vec<LedgerCall>)
    ensures
        call_views(calls@) == provision_calls(
            program_id@,
            new_account_info.key@,
            new_account_info.lamports,
            system_program_info.key@,
            payer_info.key@,
            minimum_balance,
            size as u64,
            seed_bytes(signer_seeds@),
        ),
{
    let need: u64 = if minimum_balance < 1 {
        1
    } else {
        minimum_balance
    };
    let required_lamports: u64 = if need > new_account_info.lamports {
        need - new_account_info.lamports
    } else {
        0
    };
    let mut calls: Vec<LedgerCall> = Vec::new();
    if required_lamports > 0 {
        let accounts = keys_of_three(payer_info, new_account_info, system_program_info);
        calls.push(
            LedgerCall {
                instruction: system_transfer(&payer_info.key, &new_account_info.key, required_lamports),
                accounts,
                signer_seeds: None,
            },
        );
    }
    calls.push(
        LedgerCall {
            instruction: system_allocate(&new_account_info.key, size as u64),
            accounts: keys_of_two(new_account_info, system_program_info),
            signer_seeds: Some(copy_seeds(signer_seeds)),
        },
    );
    calls.push(
        LedgerCall {
            instruction: system_assign(&new_account_info.key, &program_id),
            accounts: keys_of_two(new_account_info, system_program_info),
            signer_seeds: Some(copy_seeds(signer_seeds)),
        },
    );
    assert(call_views(calls@) =~= provision_calls(
        program_id@,
        new_account_info.key@,
        new_account_info.lamports,
        system_program_info.key@,
        payer_info.key@,
        minimum_balance,
        size as u64,
        seed_bytes(signer_seeds@),
    ));
    calls
}

/// Plans the creation of a mint of the token ledger, with `authority` as
/// mint authority and freeze authority. Fails with
/// `ExternalOperationFailed` where `token_program` is not the token
/// ledger.
pub fn spl_token_create_mint(
    token_program: &Account,
    payer_info: &Account,
    new_mint: &Account,
    authority: &Account,
    create_account_seeds: &Vec<Vec<u8>>,
    initialize_mint_seeds: &Vec<Vec<u8>>,
    rent_info: &Account,
    minimum_balance: u64,
    decimals: u8,
) -> (r: Result<Vec<LedgerCall>, AppError>)
    ensures
        token_program.key@ != spec_token_program_id() ==> r == Err::<Vec<LedgerCall>, AppError>(
            AppError::ExternalOperationFailed,
        ),
        token_program.key@ == spec_token_program_id() ==> r is Ok && call_views(r->Ok_0@) == create_mint_calls(
            token_program.key@,
            payer_info.key@,
            new_mint.key@,
            authority.key@,
            seed_bytes(create_account_seeds@),
            seed_bytes(initialize_mint_seeds@),
            rent_info.key@,
            minimum_balance,
            decimals,
        ),
{
    let size = mint_len();
    let initialize = match token_initialize_mint(
        &token_program.key,
        &new_mint.key,
        &authority.key,
        &authority.key,
        decimals,
    ) {
        Some(ix) => ix,
        None => { return Err(AppError::ExternalOperationFailed); },
    };
    let mut calls: Vec<LedgerCall> = Vec::new();
    calls.push(
        LedgerCall {
            instruction: system_create_account(
                &payer_info.key,
                &new_mint.key,
                minimum_balance,
                size as u64,
                &token_program.key,
            ),
            accounts: keys_of_two(payer_info, new_mint),
            signer_seeds: Some(copy_seeds(create_account_seeds)),
        },
    );
    let accounts = keys_of_four(token_program, new_mint, authority, rent_info);
    calls.push(
        LedgerCall { instruction: initialize, accounts, signer_seeds: Some(copy_seeds(initialize_mint_seeds)) },
    );
    assert(call_views(calls@) =~= create_mint_calls(
        token_program.key@,
        payer_info.key@,
        new_mint.key@,
        authority.key@,
        seed_bytes(create_account_seeds@),
        seed_bytes(initialize_mint_seeds@),
        rent_info.key@,
        minimum_balance,
        decimals,
    ));
    Ok(calls)
}

/// Plans the minting of `amt` base units to a token account, signed by
/// the mint's derived authority. Fails with `ExternalOperationFailed`
/// where `token_program` is not the token ledger.
pub fn spl_token_mint_to(
    token_program: &Account,
    new_mint: &Account,
    token_account: &Account,
    authority: &Account,
    mint_to_seeds: &Vec<Vec<u8>>,
    rent_info: &Account,
    amt: u64,
) -> (r: Result<LedgerCall, AppError>)
    ensures
        token_program.key@ != spec_token_program_id() ==> r == Err::<LedgerCall, AppError>(
            AppError::ExternalOperationFailed,
        ),
        token_program.key@ == spec_token_program_id() ==> r is Ok && r->Ok_0@ == mint_to_call(
            token_program.key@,
            new_mint.key@,
            token_account.key@,
            authority.key@,
            seed_bytes(mint_to_seeds@),
            rent_info.key@,
            amt,
        ),
{
    match token_mint_to(&token_program.key, &new_mint.key, &token_account.key, &authority.key, amt) {
        Some(instruction) => Ok(
            LedgerCall {
                instruction,
                accounts: keys_of_five(token_program, new_mint, token_account, authority, rent_info),
                signer_seeds: Some(copy_seeds(mint_to_seeds)),
            },
        ),
        None => Err(AppError::ExternalOperationFailed),
    }
}

/// Plans the burning of `amt` base units of a token account, authorized
/// by the transaction's own signature of `authority`. Fails with
/// `ExternalOperationFailed` where `token_program` is not the token
/// ledger.
pub fn spl_token_burn(
    token_program: &Account,
    new_mint: &Account,
    token_account: &Account,
    authority: &Account,
    rent_info: &Account,
    amt: u64,
) -> (r: Result<LedgerCall, AppError>)
    ensures
        token_program.key@ != spec_token_program_id() ==> r == Err::<LedgerCall, AppError>(
            AppError::ExternalOperationFailed,
        ),
        token_program.key@ == spec_token_program_id() ==> r is Ok && r->Ok_0@ == burn_call(
            token_program.key@,
            new_mint.key@,
            token_account.key@,
            authority.key@,
            rent_info.key@,
            amt,
        ),
{
    match token_burn(&token_program.key, &token_account.key, &new_mint.key, &authority.key, amt) {
        Some(instruction) => Ok(
            LedgerCall {
                instruction,
                accounts: keys_of_five(token_program, new_mint, token_account, authority, rent_info),
                signer_seeds: None,
            },
        ),
        None => Err(AppError::ExternalOperationFailed),
    }
}

} // verus!
