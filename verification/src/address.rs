use vstd::prelude::*;
use solana_program::pubkey::Pubkey;

verus! {

/// A 32-byte public-key identifier of an account or a program.
#[derive(Clone, Copy, Debug, PartialEq, Eq, Hash)]
pub struct Address {
    pub bytes: [u8; 32],
}

impl View for Address {
    type V = Seq<u8>;

    open spec fn view(&self) -> Seq<u8> {
        self.bytes@
    }
}

impl Address {
    /// The address made of the given bytes.
    pub fn new(bytes: [u8; 32]) -> (a: Address)
        ensures
            a@ == bytes@,
    {
        Address { bytes }
    }

    /// The address of thirty-two zero bytes.
    pub fn zero() -> (a: Address)
        ensures
            a@ == Seq::new(32, |i: int| 0u8),
    {
        let a = Address { bytes: [0u8; 32] };
        assert(a@ =~= Seq::new(32, |i: int| 0u8));
        a
    }

    /// Whether two addresses hold the same bytes.
    pub fn same(&self, other: &Address) -> (r: bool)
        ensures
            r == (self@ == other@),
    {
        let mut i: usize = 0;
        while i < 32
            invariant
                i <= 32,
                forall|j: int| 0 <= j < i ==> self.bytes@[j] == other.bytes@[j],
            decreases 32 - i,
        {
            if self.bytes[i] != other.bytes[i] {
                return false;
            }
            i += 1;
        }
        assert(self.bytes@ =~= other.bytes@);
        true
    }

    /// The address's bytes as a vector.
    pub fn to_vec(&self) -> (v: Vec<u8>)
        ensures
            v@ == self@,
    {
        let mut v: Vec<u8> = Vec::new();
        let mut i: usize = 0;
        while i < 32
            invariant
                i <= 32,
                v@ == self.bytes@.subrange(0, i as int),
            decreases 32 - i,
        {
            v.push(self.bytes[i]);
            assert(v@ =~= self.bytes@.subrange(0, i + 1));
            i += 1;
        }
        assert(v@ =~= self.bytes@);
        v
    }
}

/// A list of seeds as bytes.
pub open spec fn seed_bytes(seeds: Seq<Vec<u8>>) -> Seq<Seq<u8>> {
    Seq::new(seeds.len(), |i: int| seeds[i]@)
}

impl Default for Address {
    fn default() -> (a: Address)
        ensures
            a@ == Seq::new(32, |i: int| 0u8),
    {
        Address::zero()
    }
}

/// The address that the ledger derives for a program from a list of seeds,
/// with the discriminator byte that completes the seeds; `None` where the
/// ledger derives none.
pub uninterp spec fn program_address(seeds: Seq<Seq<u8>>, program: Seq<u8>) -> Option<(Seq<u8>, u8)>;

/// Calls `Pubkey::try_find_program_address` of solana_program.
///
/// Believed, not proved: the call's result depends on the seeds and the
/// program's bytes alone, so it is named `program_address` of them.
#[verifier::external_body]
pub(crate) fn find_program_address(seeds: &Vec<Vec<u8>>, program: &Address) -> (r: Option<(Address, u8)>)
    ensures
        match r {
            Some((a, bump)) => program_address(seed_bytes(seeds@), program@) == Some((a@, bump)),
            None => program_address(seed_bytes(seeds@), program@) is None,
        },
{
    let parts: Vec<&[u8]> = seeds.iter().map(|s| s.as_slice()).collect();
    let id = Pubkey::new_from_array(program.bytes);
    let found = Pubkey::try_find_program_address(&parts, &id);
    found.map(|(key, bump)| (Address::new(key.to_bytes()), bump))
}

/// The bytes of the token-ledger program's identifier.
pub open spec fn spec_token_program_id() -> Seq<u8> {
    seq![
        6u8, 221, 246, 225, 215, 101, 161, 147, 217, 203, 225, 70, 206, 235, 121, 172,
        28, 180, 133, 237, 95, 91, 55, 145, 58, 140, 245, 133, 126, 255, 0, 169,
    ]
}

/// The bytes of the rent sysvar's identifier.
pub open spec fn spec_rent_sysvar_id() -> Seq<u8> {
    seq![
        6u8, 167, 213, 23, 25, 44, 92, 81, 33, 140, 201, 76, 61, 74, 241, 127,
        88, 218, 238, 8, 155, 161, 253, 68, 227, 219, 217, 138, 0, 0, 0, 0,
    ]
}

/// The bytes of the system program's identifier: thirty-two zeros.
pub open spec fn spec_system_program_id() -> Seq<u8> {
    Seq::new(32, |i: int| 0u8)
}

/// Calls `spl_token::id`.
///
/// Believed, not proved: the identifier that the crate declares has the
/// bytes of `spec_token_program_id`.
#[verifier::external_body]
pub(crate) fn token_program_id() -> (a: Address)
    ensures
        a@ == spec_token_program_id(),
{
    Address::new(spl_token::id().to_bytes())
}

/// Calls `solana_program::sysvar::rent::id`.
///
/// Believed, not proved: the identifier that the crate declares has the
/// bytes of `spec_rent_sysvar_id`.
#[verifier::external_body]
pub(crate) fn rent_sysvar_id() -> (a: Address)
    ensures
        a@ == spec_rent_sysvar_id(),
{
    Address::new(solana_program::sysvar::rent::id().to_bytes())
}

/// Calls `solana_program::system_program::id`.
///
/// Believed, not proved: the identifier that the crate declares is all
/// zeros.
#[verifier::external_body]
pub(crate) fn system_program_id() -> (a: Address)
    ensures
        a@ == spec_system_program_id(),
{
    Address::new(solana_program::system_program::id().to_bytes())
}

} // verus!

verus! {

/// A copy of a list of seeds.
pub fn copy_seeds(seeds: &Vec<Vec<u8>>) -> (out: Vec<Vec<u8>>)
    ensures
        seed_bytes(out@) == seed_bytes(seeds@),
{
    let mut out: Vec<Vec<u8>> = Vec::new();
    let mut i: usize = 0;
    while i < seeds.len()
        invariant
            i <= seeds@.len(),
            out@.len() == i,
            forall|j: int| 0 <= j < i ==> out@[j]@ == seeds@[j]@,
        decreases seeds@.len() - i,
    {
        out.push(vstd::slice::slice_to_vec(seeds[i].as_slice()));
        i += 1;
    }
    assert(seed_bytes(out@) =~= seed_bytes(seeds@));
    out
}

} // verus!
