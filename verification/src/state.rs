use vstd::prelude::*;
use vstd::bytes::*;
use crate::account::Account;
use crate::address::Address;
use crate::codec::{overwrite_prefix, put_address, put_string, put_u64, read_address, read_string, read_u64, spec_read_string, spec_read_u64, string_bytes, string_end, string_fits, string_read_is_written, string_round_trip};
use crate::error::AppError;

verus! {

/// The arguments of the configure transition.
#[derive(Clone, Copy, Debug, PartialEq)]
pub struct ConfigureArgs {
    /// The administrator to record.
    pub authority: Address,
}

/// The arguments of the mint transition.
#[derive(Clone, Copy, Debug, PartialEq, Eq, Structural)]
pub struct MintArgs {
    /// The amount to mint, in whole tokens.
    pub amt: u64,
}

/// The arguments of the burn transition.
#[derive(Clone, Copy, Debug, PartialEq, Eq, Structural)]
pub struct BurnArgs {
    /// The amount to burn, in whole tokens.
    pub amt: u64,
}

/// The arguments of the create-token transition.
#[derive(Clone, Debug, PartialEq)]
pub struct CreateTokenArgs {
    pub name: String,
    pub symbol: String,
    pub uri: String,
    pub decimals: u8,
}

/// The configuration record: the one administrator of the program.
#[derive(Clone, Copy, Debug, PartialEq)]
pub struct ConfigureData {
    /// The administrator.
    pub authority: Address,
}

/// The record of one token class.
#[derive(Clone, Debug, PartialEq)]
pub struct TokenData {
    pub name: String,
    pub symbol: String,
    pub decimals: u8,
    /// The mint of the external token ledger.
    pub mint: Address,
    /// Who created the token.
    pub creator: Address,
    /// Base units minted and not burned.
    pub supply: u64,
}

/// What a token record holds.
pub struct TokenRecord {
    pub name: Seq<char>,
    pub symbol: Seq<char>,
    pub decimals: u8,
    pub mint: Seq<u8>,
    pub creator: Seq<u8>,
    pub supply: u64,
}

impl View for TokenData {
    type V = TokenRecord;

    open spec fn view(&self) -> TokenRecord {
        TokenRecord {
            name: self.name@,
            symbol: self.symbol@,
            decimals: self.decimals,
            mint: self.mint@,
            creator: self.creator@,
            supply: self.supply,
        }
    }
}

impl Default for ConfigureArgs {
    fn default() -> (a: ConfigureArgs)
        ensures
            a.authority@ == Seq::new(32, |i: int| 0u8),
    {
        ConfigureArgs { authority: Address::zero() }
    }
}

impl Default for MintArgs {
    fn default() -> (a: MintArgs)
        ensures
            a.amt == 0,
    {
        MintArgs { amt: 0 }
    }
}

impl Default for BurnArgs {
    fn default() -> (a: BurnArgs)
        ensures
            a.amt == 0,
    {
        BurnArgs { amt: 0 }
    }
}

impl Default for ConfigureData {
    fn default() -> (c: ConfigureData)
        ensures
            c.authority@ == Seq::new(32, |i: int| 0u8),
    {
        ConfigureData { authority: Address::zero() }
    }
}

/// The length of a configuration record.
pub const CONFIGURE_DATA_LEN: usize = 32;

/// The length of a token record's slot.
pub const TOKEN_DATA_LEN: usize = 115;

/// The bytes of a token record's fields, in order.
pub open spec fn token_bytes(t: TokenRecord) -> Seq<u8> {
    string_bytes(t.name) + string_bytes(t.symbol) + seq![t.decimals] + t.mint + t.creator
        + spec_u64_to_le_bytes(t.supply)
}

/// Whether a record can be written at all: both strings are short enough
/// for their lengths to be written.
pub open spec fn token_fits(t: TokenRecord) -> bool {
    string_fits(t.name) && string_fits(t.symbol)
}

/// The token record that the start of `bytes` holds; `None` where the
/// bytes end early or a string is no UTF-8. What follows the record is
/// not read.
pub open spec fn parse_token(bytes: Seq<u8>) -> Option<TokenRecord> {
    match spec_read_string(bytes, 0) {
        None => None,
        Some((name, a)) => match spec_read_string(bytes, a) {
            None => None,
            Some((symbol, b)) => if b + 73 > bytes.len() {
                None
            } else {
                Some(
                    TokenRecord {
                        name,
                        symbol,
                        decimals: bytes[b],
                        mint: bytes.subrange(b + 1, b + 33),
                        creator: bytes.subrange(b + 33, b + 65),
                        supply: spec_read_u64(bytes, b + 65),
                    },
                )
            },
        },
    }
}

/// What reading a token record from an account's bytes gives: the record
/// that a slot of the right length holds, else `InvalidAccountData`.
pub open spec fn token_of_account(data: Seq<u8>) -> Result<TokenRecord, AppError> {
    if data.len() != TOKEN_DATA_LEN {
        Err(AppError::InvalidAccountData)
    } else {
        match parse_token(data) {
            Some(t) => Ok(t),
            None => Err(AppError::InvalidAccountData),
        }
    }
}

/// What reading a configuration record from an account's bytes gives: the
/// administrator's bytes, or `InvalidAccountData` where the length is not
/// that of the record.
pub open spec fn config_of_account(data: Seq<u8>) -> Result<Seq<u8>, AppError> {
    if data.len() != CONFIGURE_DATA_LEN {
        Err(AppError::InvalidAccountData)
    } else {
        Ok(data)
    }
}

impl ConfigureData {
    /// The length of the record in an account.
    pub const LEN: usize = 32;

    /// Reads the configuration record that an account holds.
    pub fn from_account_info(a: &Account) -> (r: Result<ConfigureData, AppError>)
        ensures
            match r {
                Ok(c) => config_of_account(a.data@) == Ok::<Seq<u8>, AppError>(c.authority@),
                Err(e) => config_of_account(a.data@) == Err::<Seq<u8>, AppError>(e),
            },
    {
        if a.data.len() != Self::LEN {
            return Err(AppError::InvalidAccountData);
        }
        let authority = read_address(&a.data, 0);
        assert(a.data@.subrange(0, 32) =~= a.data@);
        Ok(ConfigureData { authority })
    }

    /// The record's bytes: the administrator's address.
    pub fn to_bytes(&self) -> (out: Vec<u8>)
        ensures
            out@ == self.authority@,
    {
        self.authority.to_vec()
    }

    /// Writes the record over the start of `slot`, whose length stays;
    /// fails with `InvalidAccountData`, and writes nothing, where the slot
    /// is shorter than the record.
    pub fn save(&self, slot: &mut Vec<u8>) -> (r: Result<(), AppError>)
        ensures
            old(slot)@.len() >= 32 ==> r is Ok && final(slot)@ == self.authority@ + old(slot)@.skip(32),
            old(slot)@.len() < 32 ==> r == Err::<(), AppError>(AppError::InvalidAccountData) && final(slot)@
                == old(slot)@,
    {
        let image = self.to_bytes();
        if overwrite_prefix(slot, &image) {
            Ok(())
        } else {
            Err(AppError::InvalidAccountData)
        }
    }
}

impl TokenData {
    /// The length of the record's slot in an account: room for the two
    /// strings with their lengths, then the fixed fields.
    pub const LEN: usize = 32 + 10 + 1 + 32 + 32 + 8;

    /// Reads the token record that the start of `data` holds, whatever
    /// follows it.
    pub fn read_prefix(data: &Vec<u8>) -> (r: Option<TokenData>)
        ensures
            match r {
                Some(t) => parse_token(data@) == Some(t@),
                None => parse_token(data@) is None,
            },
    {
        let (name, a) = match read_string(data, 0) {
            Some(p) => p,
            None => { return None; },
        };
        let (symbol, b) = match read_string(data, a) {
            Some(p) => p,
            None => { return None; },
        };
        let len = data.len();
        if len - b < 73 {
            return None;
        }
        let decimals = data[b];
        let mint = read_address(data, b + 1);
        let creator = read_address(data, b + 33);
        let supply = read_u64(data, b + 65);
        Some(TokenData { name, symbol, decimals, mint, creator, supply })
    }

    /// Reads the token record that an account holds.
    pub fn from_account_info(a: &Account) -> (r: Result<TokenData, AppError>)
        ensures
            match r {
                Ok(t) => token_of_account(a.data@) == Ok::<TokenRecord, AppError>(t@),
                Err(e) => token_of_account(a.data@) == Err::<TokenRecord, AppError>(e),
            },
    {
        if a.data.len() != Self::LEN {
            return Err(AppError::InvalidAccountData);
        }
        match Self::read_prefix(&a.data) {
            Some(t) => Ok(t),
            None => Err(AppError::InvalidAccountData),
        }
    }

    /// The record's bytes; `None` where a string is too long for its
    /// length to be written.
    pub fn to_bytes(&self) -> (r: Option<Vec<u8>>)
        ensures
            r is Some == token_fits(self@),
            r is Some ==> r->0@ == token_bytes(self@),
    {
        let mut out: Vec<u8> = Vec::new();
        if !put_string(&mut out, &self.name) {
            return None;
        }
        if !put_string(&mut out, &self.symbol) {
            return None;
        }
        out.push(self.decimals);
        put_address(&mut out, &self.mint);
        put_address(&mut out, &self.creator);
        put_u64(&mut out, self.supply);
        assert(out@ =~= token_bytes(self@));
        Some(out)
    }

    /// Whether the record keeps to the format, so that a slot of a
    /// record's length holds it.
    pub fn is_well_formed(&self) -> (r: bool)
        ensures
            r == token_well_formed(self@),
    {
        match self.to_bytes() {
            Some(image) => image.len() <= Self::LEN,
            None => false,
        }
    }

    /// Writes the record over the start of `slot`, whose length stays;
    /// fails with `InvalidAccountData`, and writes nothing, where the
    /// record's bytes are more than the slot holds.
    pub fn save(&self, slot: &mut Vec<u8>) -> (r: Result<(), AppError>)
        ensures
            token_saves(self@, old(slot)@) ==> r is Ok && final(slot)@ == saved_token(self@, old(slot)@),
            !token_saves(self@, old(slot)@) ==> r == Err::<(), AppError>(AppError::InvalidAccountData)
                && final(slot)@ == old(slot)@,
    {
        match self.to_bytes() {
            Some(image) => {
                if overwrite_prefix(slot, &image) {
                    Ok(())
                } else {
                    Err(AppError::InvalidAccountData)
                }
            },
            None => Err(AppError::InvalidAccountData),
        }
    }
}

/// Whether a record keeps to the format: its bytes can be written and
/// are no more than a record's slot holds, and its addresses have an
/// address's length.
pub open spec fn token_well_formed(t: TokenRecord) -> bool {
    token_fits(t) && token_bytes(t).len() <= TOKEN_DATA_LEN && t.mint.len() == 32 && t.creator.len() == 32
}

/// Whether a record can be written into a slot: its bytes can be written
/// and are no more than the slot holds.
pub open spec fn token_saves(t: TokenRecord, slot: Seq<u8>) -> bool {
    token_fits(t) && token_bytes(t).len() <= slot.len()
}

/// A slot after a record was written over its start.
pub open spec fn saved_token(t: TokenRecord, slot: Seq<u8>) -> Seq<u8> {
    token_bytes(t) + slot.skip(token_bytes(t).len() as int)
}

/// A token record that was written into a slot is read back from it,
/// whatever the slot held; from a slot of a record's length it is read
/// back as an account's record.
pub proof fn token_round_trip(t: TokenRecord, slot: Seq<u8>)
    requires
        t.mint.len() == 32,
        t.creator.len() == 32,
        token_saves(t, slot),
    ensures
        saved_token(t, slot).len() == slot.len(),
        parse_token(saved_token(t, slot)) == Some(t),
        slot.len() == TOKEN_DATA_LEN ==> token_of_account(saved_token(t, slot)) == Ok::<TokenRecord, AppError>(t),
{
    lemma_auto_spec_u64_to_from_le_bytes();
    let bytes = saved_token(t, slot);
    let rest = slot.skip(token_bytes(t).len() as int);
    let tail = seq![t.decimals] + t.mint + t.creator + spec_u64_to_le_bytes(t.supply) + rest;
    let none = Seq::<u8>::empty();
    string_round_trip(none, t.name, string_bytes(t.symbol) + tail);
    string_round_trip(string_bytes(t.name), t.symbol, tail);
    assert(bytes =~= none + string_bytes(t.name) + (string_bytes(t.symbol) + tail));
    assert(bytes =~= string_bytes(t.name) + string_bytes(t.symbol) + tail);
    let b = (string_bytes(t.name).len() + string_bytes(t.symbol).len()) as int;
    assert(bytes[b] == t.decimals);
    assert(bytes.subrange(b + 1, b + 33) =~= t.mint);
    assert(bytes.subrange(b + 33, b + 65) =~= t.creator);
    assert(bytes.subrange(b + 65, b + 73) =~= spec_u64_to_le_bytes(t.supply));
}

/// A token record that was read stands at the start of the bytes as it
/// would be written, and its addresses have an address's length.
pub proof fn token_read_is_written(data: Seq<u8>)
    requires
        parse_token(data) is Some,
    ensures
        token_fits(parse_token(data)->0),
        token_bytes(parse_token(data)->0).len() <= data.len(),
        data.subrange(0, token_bytes(parse_token(data)->0).len() as int) == token_bytes(parse_token(data)->0),
        parse_token(data)->0.mint.len() == 32,
        parse_token(data)->0.creator.len() == 32,
{
    lemma_auto_spec_u64_to_from_le_bytes();
    let t = parse_token(data)->0;
    string_read_is_written(data, 0);
    let a = string_end(data, 0);
    string_read_is_written(data, a);
    let b = string_end(data, a);
    let supply = data.subrange(b + 65, b + 73);
    assert(spec_u64_to_le_bytes(spec_u64_from_le_bytes(supply)) == supply);
    assert(data.subrange(0, b + 73) =~= data.subrange(0, a) + data.subrange(a, b) + seq![data[b]]
        + data.subrange(b + 1, b + 33) + data.subrange(b + 33, b + 65) + supply);
}

/// A record that an account holds keeps to the format, and so does the
/// same record with any other supply.
pub proof fn token_of_account_is_well_formed(data: Seq<u8>, supply: u64)
    requires
        token_of_account(data) is Ok,
    ensures
        token_well_formed(token_of_account(data)->Ok_0),
        token_well_formed(TokenRecord { supply, ..token_of_account(data)->Ok_0 }),
{
    lemma_auto_spec_u64_to_from_le_bytes();
    token_read_is_written(data);
}

/// A record read from a slot can be written back into it with any
/// supply: a change of the supply does not change the record's length.
pub proof fn token_saves_with_any_supply(data: Seq<u8>, supply: u64)
    requires
        parse_token(data) is Some,
    ensures
        token_saves(TokenRecord { supply, ..parse_token(data)->0 }, data),
{
    lemma_auto_spec_u64_to_from_le_bytes();
    token_read_is_written(data);
}

/// A configuration record is read back from the bytes it was written as.
pub proof fn config_round_trip(authority: Seq<u8>)
    requires
        authority.len() == 32,
    ensures
        config_of_account(authority) == Ok::<Seq<u8>, AppError>(authority),
{
}

/// Bytes of another length than a token record's are no token record.
pub proof fn token_of_wrong_length(data: Seq<u8>)
    requires
        data.len() != 115,
    ensures
        token_of_account(data) == Err::<TokenRecord, AppError>(AppError::InvalidAccountData),
{
}

impl View for ConfigureData {
    type V = Seq<u8>;

    open spec fn view(&self) -> Seq<u8> {
        self.authority@
    }
}

/// The configuration record that the start of `bytes` holds; `None`
/// where the bytes end early.
pub open spec fn parse_config(bytes: Seq<u8>) -> Option<Seq<u8>> {
    if bytes.len() < 32 {
        None
    } else {
        Some(bytes.subrange(0, 32))
    }
}

/// A value that is read from the start of a buffer: a record, or the
/// arguments of a transition.
pub trait Record: Sized + View {
    /// What the start of `bytes` holds, if it holds a record.
    spec fn parse(bytes: Seq<u8>) -> Option<Self::V>;

    /// Reads the record at the start of `data`, whatever follows it.
    fn read(data: &Vec<u8>) -> (r: Option<Self>)
        ensures
            match r {
                Some(x) => Self::parse(data@) == Some(x@),
                None => Self::parse(data@) is None,
            },
    ;
}

impl Record for ConfigureData {
    open spec fn parse(bytes: Seq<u8>) -> Option<Seq<u8>> {
        parse_config(bytes)
    }

    fn read(data: &Vec<u8>) -> (r: Option<ConfigureData>) {
        if data.len() < 32 {
            return None;
        }
        Some(ConfigureData { authority: read_address(data, 0) })
    }
}

impl View for ConfigureArgs {
    type V = Seq<u8>;

    open spec fn view(&self) -> Seq<u8> {
        self.authority@
    }
}

impl View for MintArgs {
    type V = u64;

    open spec fn view(&self) -> u64 {
        self.amt
    }
}

impl View for BurnArgs {
    type V = u64;

    open spec fn view(&self) -> u64 {
        self.amt
    }
}

/// What the arguments of create-token hold.
pub struct CreateTokenContent {
    pub name: Seq<char>,
    pub symbol: Seq<char>,
    pub uri: Seq<char>,
    pub decimals: u8,
}

impl View for CreateTokenArgs {
    type V = CreateTokenContent;

    open spec fn view(&self) -> CreateTokenContent {
        CreateTokenContent { name: self.name@, symbol: self.symbol@, uri: self.uri@, decimals: self.decimals }
    }
}

/// The amount that the start of `bytes` holds, in eight little-endian
/// bytes; `None` where the bytes end early.
pub open spec fn parse_amount(bytes: Seq<u8>) -> Option<u64> {
    if bytes.len() < 8 {
        None
    } else {
        Some(spec_read_u64(bytes, 0))
    }
}

/// The arguments of create-token that the start of `bytes` holds: three
/// strings, then the decimals; `None` where the bytes end early or a
/// string is no UTF-8.
pub open spec fn parse_create_token_args(bytes: Seq<u8>) -> Option<CreateTokenContent> {
    match spec_read_string(bytes, 0) {
        None => None,
        Some((name, a)) => match spec_read_string(bytes, a) {
            None => None,
            Some((symbol, b)) => match spec_read_string(bytes, b) {
                None => None,
                Some((uri, c)) => if c < bytes.len() {
                    Some(CreateTokenContent { name, symbol, uri, decimals: bytes[c] })
                } else {
                    None
                },
            },
        },
    }
}

impl Record for ConfigureArgs {
    open spec fn parse(bytes: Seq<u8>) -> Option<Seq<u8>> {
        parse_config(bytes)
    }

    fn read(data: &Vec<u8>) -> (r: Option<ConfigureArgs>) {
        if data.len() < 32 {
            return None;
        }
        Some(ConfigureArgs { authority: read_address(data, 0) })
    }
}

impl Record for MintArgs {
    open spec fn parse(bytes: Seq<u8>) -> Option<u64> {
        parse_amount(bytes)
    }

    fn read(data: &Vec<u8>) -> (r: Option<MintArgs>) {
        if data.len() < 8 {
            return None;
        }
        Some(MintArgs { amt: read_u64(data, 0) })
    }
}

impl Record for BurnArgs {
    open spec fn parse(bytes: Seq<u8>) -> Option<u64> {
        parse_amount(bytes)
    }

    fn read(data: &Vec<u8>) -> (r: Option<BurnArgs>) {
        if data.len() < 8 {
            return None;
        }
        Some(BurnArgs { amt: read_u64(data, 0) })
    }
}

impl Record for CreateTokenArgs {
    open spec fn parse(bytes: Seq<u8>) -> Option<CreateTokenContent> {
        parse_create_token_args(bytes)
    }

    fn read(data: &Vec<u8>) -> (r: Option<CreateTokenArgs>) {
        let (name, a) = match read_string(data, 0) {
            Some(p) => p,
            None => { return None; },
        };
        let (symbol, b) = match read_string(data, a) {
            Some(p) => p,
            None => { return None; },
        };
        let (uri, c) = match read_string(data, b) {
            Some(p) => p,
            None => { return None; },
        };
        if c >= data.len() {
            return None;
        }
        Some(CreateTokenArgs { name, symbol, uri, decimals: data[c] })
    }
}

impl Record for TokenData {
    open spec fn parse(bytes: Seq<u8>) -> Option<TokenRecord> {
        parse_token(bytes)
    }

    fn read(data: &Vec<u8>) -> (r: Option<TokenData>) {
        TokenData::read_prefix(data)
    }
}

} // verus!
