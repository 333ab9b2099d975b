//! A stand-in for the staking service, for exercising the settlement flows:
//! it stakes principal into shares at a price that can be set, and can be
//! made to fail or to hand out slightly fewer shares than the price gives.
use crate::pricing::scaled;
use crate::types::{Balance, ONE_NEAR, PRICE_SCALE};
use crate::wide::mul_div_round;
use vstd::prelude::*;

verus! {

/// Why a stake fails.
#[derive(Clone, Copy, Debug, PartialEq, Eq, Structural)]
pub enum StakeError {
    /// The service was set to fail.
    Panicked,
    /// No price, a share count beyond 128 bits, or fewer shares than the
    /// withheld change.
    Unrepresentable,
}

/// The shares withheld from each stake while `small_change` is set.
pub const SMALL_CHANGE: u128 = 10;

pub struct MockLinear {
    pub linear_price: Balance,
    pub panic: bool,
    pub small_change: bool,
}

impl MockLinear {
    /// A service at a price of one, that does not fail.
    pub fn new() -> (r: Self)
        ensures
            r.linear_price == ONE_NEAR,
            !r.panic,
            !r.small_change,
    {
        MockLinear { linear_price: ONE_NEAR, panic: false, small_change: false }
    }

    /// The shares that staking `amount` gives: `amount` at the price,
    /// rounded, less the withheld change where that is set.
    pub open spec fn shares_spec(&self, amount: int) -> Option<int> {
        match scaled(amount, PRICE_SCALE as int, self.linear_price as int) {
            None => None,
            Some(s) => if !self.small_change {
                Some(s)
            } else if s < SMALL_CHANGE {
                None
            } else {
                Some(s - SMALL_CHANGE)
            },
        }
    }

    /// Stakes `amount` of principal and returns the shares to mint to the
    /// caller.
    pub fn deposit_and_stake(&self, amount: Balance) -> (r: Result<Balance, StakeError>)
        ensures
            self.panic ==> r == Err::<Balance, StakeError>(StakeError::Panicked),
            !self.panic ==> match self.shares_spec(amount as int) {
                None => r == Err::<Balance, StakeError>(StakeError::Unrepresentable),
                Some(s) => r == Ok::<Balance, StakeError>(s as u128),
            },
    {
        if self.panic {
            return Err(StakeError::Panicked);
        }
        if self.linear_price == 0 {
            return Err(StakeError::Unrepresentable);
        }
        let shares = match mul_div_round(amount, PRICE_SCALE, self.linear_price) {
            Some(s) => s,
            None => {
                return Err(StakeError::Unrepresentable);
            },
        };
        if self.small_change {
            if shares < SMALL_CHANGE {
                return Err(StakeError::Unrepresentable);
            }
            Ok(shares - SMALL_CHANGE)
        } else {
            Ok(shares)
        }
    }

    pub fn ft_price(&self) -> (r: Balance)
        ensures
            r == self.linear_price,
    {
        self.linear_price
    }

    pub fn set_ft_price(&mut self, price: Balance)
        ensures
            *final(self) == (MockLinear { linear_price: price, ..*old(self) }),
    {
        self.linear_price = price;
    }

    pub fn set_panic(&mut self, panic: bool)
        ensures
            *final(self) == (MockLinear { panic, ..*old(self) }),
    {
        self.panic = panic;
    }

    pub fn set_small_change(&mut self, small_change: bool)
        ensures
            *final(self) == (MockLinear { small_change, ..*old(self) }),
    {
        self.small_change = small_change;
    }
}

} // verus!
