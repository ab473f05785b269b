use vstd::prelude::*;
use crate::error::AppError;
use crate::state::{TokenData, TokenRecord};

verus! {

/// Ten to the power `n`.
pub open spec fn pow10(n: nat) -> nat
    decreases n,
{
    if n == 0 {
        1
    } else {
        10 * pow10((n - 1) as nat)
    }
}

/// An amount of whole tokens in base units: the amount times ten to the
/// power `decimals`, or `ArithmeticOverflow` where that leaves 64 bits.
pub open spec fn spec_scaled_amount(amt: u64, decimals: u8) -> Result<u64, AppError> {
    if amt * pow10(decimals as nat) <= u64::MAX {
        Ok((amt * pow10(decimals as nat)) as u64)
    } else {
        Err(AppError::ArithmeticOverflow)
    }
}

/// A change of a token's supply, in base units.
#[derive(Clone, Copy, Debug, PartialEq, Eq, Structural)]
pub enum SupplyChange {
    Minted(u64),
    Burned(u64),
}

/// The supply after one change: `ArithmeticOverflow` where minting leaves
/// 64 bits, `ArithmeticUnderflow` where more is burned than there is.
pub open spec fn supply_after(supply: u64, change: SupplyChange) -> Result<u64, AppError> {
    match change {
        SupplyChange::Minted(n) => if supply + n <= u64::MAX {
            Ok((supply + n) as u64)
        } else {
            Err(AppError::ArithmeticOverflow)
        },
        SupplyChange::Burned(n) => if n <= supply {
            Ok((supply - n) as u64)
        } else {
            Err(AppError::ArithmeticUnderflow)
        },
    }
}

/// The supply after a list of changes, all of which succeed; the first
/// failure otherwise.
pub open spec fn supply_after_all(supply: u64, changes: Seq<SupplyChange>) -> Result<u64, AppError>
    decreases changes.len(),
{
    if changes.len() == 0 {
        Ok(supply)
    } else {
        match supply_after_all(supply, changes.drop_last()) {
            Ok(s) => supply_after(s, changes.last()),
            Err(e) => Err(e),
        }
    }
}

/// The base units that a list of changes mints.
pub open spec fn total_minted(changes: Seq<SupplyChange>) -> int
    decreases changes.len(),
{
    if changes.len() == 0 {
        0
    } else {
        total_minted(changes.drop_last()) + match changes.last() {
            SupplyChange::Minted(n) => n as int,
            SupplyChange::Burned(_) => 0,
        }
    }
}

/// The base units that a list of changes burns.
pub open spec fn total_burned(changes: Seq<SupplyChange>) -> int
    decreases changes.len(),
{
    if changes.len() == 0 {
        0
    } else {
        total_burned(changes.drop_last()) + match changes.last() {
            SupplyChange::Minted(_) => 0,
            SupplyChange::Burned(n) => n as int,
        }
    }
}

/// A record with another supply.
pub open spec fn with_supply(t: TokenRecord, supply: u64) -> TokenRecord {
    TokenRecord { supply, ..t }
}

/// A token record after `amt` whole tokens were minted.
pub open spec fn spec_minted(t: TokenRecord, amt: u64) -> Result<TokenRecord, AppError> {
    match spec_scaled_amount(amt, t.decimals) {
        Err(e) => Err(e),
        Ok(n) => match supply_after(t.supply, SupplyChange::Minted(n)) {
            Err(e) => Err(e),
            Ok(s) => Ok(with_supply(t, s)),
        },
    }
}

/// A token record after `amt` whole tokens were burned.
pub open spec fn spec_burned(t: TokenRecord, amt: u64) -> Result<TokenRecord, AppError> {
    match spec_scaled_amount(amt, t.decimals) {
        Err(e) => Err(e),
        Ok(n) => match supply_after(t.supply, SupplyChange::Burned(n)) {
            Err(e) => Err(e),
            Ok(s) => Ok(with_supply(t, s)),
        },
    }
}

proof fn pow10_grows(i: nat, j: nat)
    requires
        i <= j,
    ensures
        1 <= pow10(i) <= pow10(j),
    decreases j,
{
    if i < j {
        pow10_grows(i, (j - 1) as nat);
    } else if i > 0 {
        pow10_grows((i - 1) as nat, (i - 1) as nat);
    }
}

/// Scales an amount of whole tokens to base units.
pub fn scaled_amount(amt: u64, decimals: u8) -> (r: Result<u64, AppError>)
    ensures
        r == spec_scaled_amount(amt, decimals),
{
    if amt == 0 {
        assert(0 * pow10(decimals as nat) == 0) by (nonlinear_arith);
        return Ok(0);
    }
    let mut acc: u64 = amt;
    let mut i: u8 = 0;
    assert(amt * pow10(0) == amt) by (nonlinear_arith)
        requires
            pow10(0) == 1,
    ;
    while i < decimals
        invariant
            i <= decimals,
            amt >= 1,
            acc == amt * pow10(i as nat),
        decreases decimals - i,
    {
        let ghost step = pow10(i as nat);
        let ghost next = pow10((i + 1) as nat);
        assert(next == 10 * step);
        assert(amt * next == acc * 10) by (nonlinear_arith)
            requires
                next == 10 * step,
                acc == amt * step,
        ;
        match acc.checked_mul(10) {
            Some(v) => {
                acc = v;
            },
            None => {
                proof {
                    let full = pow10(decimals as nat);
                    pow10_grows((i + 1) as nat, decimals as nat);
                    assert(amt * next <= amt * full) by (nonlinear_arith)
                        requires
                            next <= full,
                            amt >= 1,
                    ;
                }
                return Err(AppError::ArithmeticOverflow);
            },
        }
        i += 1;
    }
    Ok(acc)
}

impl TokenData {
    /// The record after `amt` whole tokens were minted, with the base
    /// units that were minted.
    pub fn minted(self, amt: u64) -> (r: Result<(TokenData, u64), AppError>)
        ensures
            match r {
                Ok((t, n)) => spec_minted(self@, amt) == Ok::<TokenRecord, AppError>(t@) && spec_scaled_amount(
                    amt,
                    self.decimals,
                ) == Ok::<u64, AppError>(n),
                Err(e) => spec_minted(self@, amt) == Err::<TokenRecord, AppError>(e),
            },
    {
        let n = scaled_amount(amt, self.decimals)?;
        match self.supply.checked_add(n) {
            Some(supply) => {
                let mut t = self;
                t.supply = supply;
                Ok((t, n))
            },
            None => Err(AppError::ArithmeticOverflow),
        }
    }

    /// The record after `amt` whole tokens were burned, with the base
    /// units that were burned.
    pub fn burned(self, amt: u64) -> (r: Result<(TokenData, u64), AppError>)
        ensures
            match r {
                Ok((t, n)) => spec_burned(self@, amt) == Ok::<TokenRecord, AppError>(t@) && spec_scaled_amount(
                    amt,
                    self.decimals,
                ) == Ok::<u64, AppError>(n),
                Err(e) => spec_burned(self@, amt) == Err::<TokenRecord, AppError>(e),
            },
    {
        let n = scaled_amount(amt, self.decimals)?;
        if n > self.supply {
            return Err(AppError::ArithmeticUnderflow);
        }
        let mut t = self;
        t.supply = t.supply - n;
        Ok((t, n))
    }
}

/// After changes that all succeed, the supply is what it was, plus what
/// was minted, less what was burned: from nothing, minted less burned.
pub proof fn supply_is_minted_less_burned(start: u64, changes: Seq<SupplyChange>)
    requires
        supply_after_all(start, changes) is Ok,
    ensures
        supply_after_all(start, changes)->Ok_0 == start + total_minted(changes) - total_burned(changes),
        start == 0 ==> supply_after_all(start, changes)->Ok_0 == total_minted(changes) - total_burned(changes),
        total_burned(changes) <= start + total_minted(changes),
    decreases changes.len(),
{
    if changes.len() > 0 {
        supply_is_minted_less_burned(start, changes.drop_last());
    }
}

/// A burn of more than the supply holds fails with `ArithmeticUnderflow`,
/// and a burn that fails gives no record: the one that was read stands.
pub proof fn burn_beyond_supply_fails(t: TokenRecord, amt: u64)
    requires
        spec_scaled_amount(amt, t.decimals) is Ok,
        spec_scaled_amount(amt, t.decimals)->Ok_0 > t.supply,
    ensures
        spec_burned(t, amt) == Err::<TokenRecord, AppError>(AppError::ArithmeticUnderflow),
{
}

/// Minting and then burning the same amount gives the record back.
pub proof fn mint_then_burn_restores(t: TokenRecord, amt: u64)
    requires
        spec_minted(t, amt) is Ok,
    ensures
        spec_burned(spec_minted(t, amt)->Ok_0, amt) == Ok::<TokenRecord, AppError>(t),
{
}

} // verus!
