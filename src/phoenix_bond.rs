//! The owner settings of a single-rate bond contract: a fixed alpha and
//! treasury share that only the owner changes.
use crate::errors::BondError;
use crate::types::{BasisPoint, Duration};
use vstd::prelude::*;

verus! {

pub struct PhoenixBond {
    pub owner_id: String,
    /// the accrual parameter
    pub alpha: Duration,
    /// share of a bond that goes to the treasury
    pub tau: BasisPoint,
}

impl PhoenixBond {
    pub fn new(owner_id: String, alpha: Duration, tau: BasisPoint) -> (r: Self)
        ensures
            r.owner_id == owner_id,
            r.alpha == alpha,
            r.tau == tau,
    {
        PhoenixBond { owner_id, alpha, tau }
    }

    /// Accepts `caller` only where it is the owner.
    fn assert_owner(&self, caller: &String) -> (r: Result<(), BondError>)
        ensures
            r is Ok <==> caller@ == self.owner_id@,
            r is Err ==> r->Err_0 == BondError::NotOwner,
    {
        if *caller == self.owner_id {
            Ok(())
        } else {
            Err(BondError::NotOwner)
        }
    }

    /// The owner hands ownership to `new_owner_id`.
    pub fn change_owner(&mut self, caller: &String, new_owner_id: String) -> (r: Result<(), BondError>)
        ensures
            r is Ok <==> caller@ == old(self).owner_id@,
            r is Err ==> r->Err_0 == BondError::NotOwner && *final(self) == *old(self),
            r is Ok ==> *final(self) == (PhoenixBond { owner_id: new_owner_id, ..*old(self) }),
    {
        match self.assert_owner(caller) {
            Ok(()) => {},
            Err(e) => {
                return Err(e);
            },
        }
        self.owner_id = new_owner_id;
        Ok(())
    }

    /// The owner sets alpha.
    pub fn set_alpha(&mut self, caller: &String, new_alpha: Duration) -> (r: Result<(), BondError>)
        ensures
            r is Ok <==> caller@ == old(self).owner_id@,
            r is Err ==> r->Err_0 == BondError::NotOwner && *final(self) == *old(self),
            r is Ok ==> *final(self) == (PhoenixBond { alpha: new_alpha, ..*old(self) }),
    {
        match self.assert_owner(caller) {
            Ok(()) => {},
            Err(e) => {
                return Err(e);
            },
        }
        self.alpha = new_alpha;
        Ok(())
    }

    /// The owner sets the treasury's share.
    pub fn set_tau(&mut self, caller: &String, new_tau: BasisPoint) -> (r: Result<(), BondError>)
        ensures
            r is Ok <==> caller@ == old(self).owner_id@,
            r is Err ==> r->Err_0 == BondError::NotOwner && *final(self) == *old(self),
            r is Ok ==> *final(self) == (PhoenixBond { tau: new_tau, ..*old(self) }),
    {
        match self.assert_owner(caller) {
            Ok(()) => {},
            Err(e) => {
                return Err(e);
            },
        }
        self.tau = new_tau;
        Ok(())
    }
}

} // verus!
