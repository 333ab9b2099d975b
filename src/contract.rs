//! The settlement state machine. Each user operation is a validation step
//! that runs before an outside call is issued, and resumption handlers that
//! take the outside call's result as an argument and re-validate against
//! the current state before changing it. Every handler either applies its
//! whole change or fails and changes nothing.
use crate::accrual::{AccrualConfig, AccrualParameter};
use crate::bond_note::{BondNote, BondNotes, BondStatus};
use crate::errors::{AccrualError, BondError};
use crate::lost_found::LostAndFound;
use crate::pricing::{accrued_spec, accrued_value, linear2near, near2linear, near2pnear, pnear2near, scaled};
use crate::types::{
    apply_basis_point, Balance, BasisPoint, Duration, Timestamp, BOND_STORAGE_DEPOSIT,
    FULL_BASIS_POINT, GAS_BOND, GAS_BOND_CALLBACK, GAS_CANCEL, GAS_CANCEL_CALLBACK, GAS_CLAIM,
    GAS_COMMIT, GAS_COMMIT_CALLBACK, GAS_DEPOSIT_AND_STAKE, GAS_FT_TRANSFER_AND_CALLBACK,
    GAS_GET_LINEAR_PRICE, GAS_REDEEM, GAS_REDEEM_CALLBACK, MINIMUM_BOND_AMOUNT, ONE_PNEAR,
    GAS_FT_ON_TRANSFER, GAS_WITHDRAW, GAS_WITHDRAW_CALLBACK, MINIMUM_BOND_LINEAR_AMOUNT,
    PRICE_SCALE,
};
use vstd::prelude::*;

verus! {

pub open spec fn from_accrual(e: AccrualError) -> BondError {
    match e {
        AccrualError::BadTimestamp => BondError::BadTimestamp,
        AccrualError::Overflow => BondError::Overflow,
        AccrualError::Underflow => BondError::Overflow,
        AccrualError::InvalidConfig => BondError::InvalidConfig,
    }
}

pub fn map_accrual_error(e: AccrualError) -> (r: BondError)
    ensures
        r == from_accrual(e),
{
    match e {
        AccrualError::BadTimestamp => BondError::BadTimestamp,
        AccrualError::Overflow => BondError::Overflow,
        AccrualError::Underflow => BondError::Overflow,
        AccrualError::InvalidConfig => BondError::InvalidConfig,
    }
}

/// `r` is the executable form of the outcome `s`.
pub open spec fn same_result(r: Result<u128, BondError>, s: Result<int, BondError>) -> bool {
    match (r, s) {
        (Ok(a), Ok(b)) => a == b,
        (Err(x), Err(y)) => x == y,
        _ => false,
    }
}

/// What resuming after the stake call leads to.
#[derive(Clone, Copy, Debug, PartialEq, Eq, Structural)]
pub enum StakeOutcome {
    /// The bond was recorded under this note id.
    Bonded(u32),
    /// The stake failed: this much principal goes back to the account.
    Refund(Balance),
}

/// The protocol's state.
pub struct PhoenixBonds {
    pub owner_id: String,
    /// the account of the staked-asset token
    pub linear_address: String,
    /// whether user operations are paused
    pub paused: bool,
    /// staked asset held by the protocol
    pub linear_balance: Balance,
    /// principal of the pending bonds
    pub pending_pool_near_amount: Balance,
    /// principal that the protocol owns for good
    pub permanent_pool_near_amount: Balance,
    /// principal set aside for the treasury
    pub treasury_pool_near_amount: Balance,
    /// share of a bond that goes to the treasury at commit
    pub tau: BasisPoint,
    /// staked asset owed to accounts after failed transfers
    pub linear_lost_and_found: LostAndFound,
    pub bond_notes: BondNotes,
    /// commit and redeem open at this time
    pub bootstrap_ends_at: Timestamp,
    pub accrual_param: AccrualParameter,
}

impl PhoenixBonds {
    pub open spec fn wf(&self) -> bool {
        &&& self.linear_lost_and_found.wf()
        &&& self.bond_notes.wf()
        &&& self.accrual_param.wf()
        &&& self.tau < FULL_BASIS_POINT
    }

    /// The settings that only the owner changes agree.
    pub open spec fn same_settings(&self, other: &Self) -> bool {
        &&& other.owner_id == self.owner_id
        &&& other.linear_address == self.linear_address
        &&& other.paused == self.paused
        &&& other.tau == self.tau
        &&& other.bootstrap_ends_at == self.bootstrap_ends_at
    }

    /// The pools and balances agree.
    pub open spec fn same_pools(&self, other: &Self) -> bool {
        &&& other.linear_balance == self.linear_balance
        &&& other.pending_pool_near_amount == self.pending_pool_near_amount
        &&& other.permanent_pool_near_amount == self.permanent_pool_near_amount
        &&& other.treasury_pool_near_amount == self.treasury_pool_near_amount
    }

    /// A fresh protocol owned by `owner_id`; fails on a bootstrap end that
    /// is not in the future, a tau of 10000 or more, or an invalid accrual
    /// configuration.
    pub fn new(
        owner_id: String,
        linear_address: String,
        tau: BasisPoint,
        bootstrap_ends: Timestamp,
        now: Timestamp,
        accrual: AccrualConfig,
    ) -> (r: Result<Self, BondError>)
        ensures
            bootstrap_ends <= now ==> r == Err::<Self, BondError>(BondError::BadTimestamp),
            bootstrap_ends > now && !(tau < FULL_BASIS_POINT && accrual.valid()) ==> r == Err::<
                Self,
                BondError,
            >(BondError::InvalidConfig),
            r is Ok <==> bootstrap_ends > now && tau < FULL_BASIS_POINT && accrual.valid(),
            r is Ok ==> {
                let s = r->Ok_0;
                &&& s.wf()
                &&& s.owner_id@ == owner_id@
                &&& s.linear_address@ == linear_address@
                &&& !s.paused
                &&& s.linear_balance == 0
                &&& s.pending_pool_near_amount == 0
                &&& s.permanent_pool_near_amount == 0
                &&& s.treasury_pool_near_amount == 0
                &&& s.tau == tau
                &&& s.bootstrap_ends_at == bootstrap_ends
                &&& s.accrual_param.alpha == accrual.alpha
                &&& s.accrual_param.min_alpha == accrual.min_alpha
                &&& s.accrual_param.target_mean_length == accrual.target_mean_length
                &&& s.accrual_param.adjust_interval == accrual.adjust_interval
                &&& s.accrual_param.adjust_rate == accrual.adjust_rate
                &&& s.accrual_param.exceeds_target_at == 0
                &&& s.accrual_param.mean_length.total_weight() == 0
                &&& s.accrual_param.mean_length.weighted_sum() == 0
                &&& s.accrual_param.mean_length.updated_at() == 0
                &&& forall|a: Seq<char>| s.bond_notes.notes_of(a) == Seq::<BondNote>::empty()
                &&& forall|a: Seq<char>| s.linear_lost_and_found.amount_of(a) == 0
            },
    {
        if bootstrap_ends <= now {
            return Err(BondError::BadTimestamp);
        }
        if tau >= FULL_BASIS_POINT {
            return Err(BondError::InvalidConfig);
        }
        match accrual.assert_valid() {
            Ok(()) => {},
            Err(_) => {
                return Err(BondError::InvalidConfig);
            },
        }
        Ok(PhoenixBonds {
            owner_id,
            linear_address,
            paused: false,
            linear_balance: 0,
            pending_pool_near_amount: 0,
            permanent_pool_near_amount: 0,
            treasury_pool_near_amount: 0,
            tau,
            linear_lost_and_found: LostAndFound::new(),
            bond_notes: BondNotes::new(),
            bootstrap_ends_at: bootstrap_ends,
            accrual_param: AccrualParameter::new(
                accrual.alpha,
                accrual.min_alpha,
                accrual.target_mean_length,
                accrual.adjust_interval,
                accrual.adjust_rate,
            ),
        })
    }

    /// A protocol holding the given state, as restored from storage; `None`
    /// exactly where `tau` is out of range.
    pub fn restore(
        owner_id: String,
        linear_address: String,
        paused: bool,
        linear_balance: Balance,
        pending_pool_near_amount: Balance,
        permanent_pool_near_amount: Balance,
        treasury_pool_near_amount: Balance,
        tau: BasisPoint,
        linear_lost_and_found: LostAndFound,
        bond_notes: BondNotes,
        bootstrap_ends_at: Timestamp,
        accrual_param: AccrualParameter,
    ) -> (r: Option<Self>)
        requires
            linear_lost_and_found.wf(),
            bond_notes.wf(),
            accrual_param.wf(),
        ensures
            r is Some <==> tau < FULL_BASIS_POINT,
            r is Some ==> r->0.wf() && r->0 == (PhoenixBonds {
                owner_id,
                linear_address,
                paused,
                linear_balance,
                pending_pool_near_amount,
                permanent_pool_near_amount,
                treasury_pool_near_amount,
                tau,
                linear_lost_and_found,
                bond_notes,
                bootstrap_ends_at,
                accrual_param,
            }),
    {
        if tau >= FULL_BASIS_POINT {
            return None;
        }
        Some(
            PhoenixBonds {
                owner_id,
                linear_address,
                paused,
                linear_balance,
                pending_pool_near_amount,
                permanent_pool_near_amount,
                treasury_pool_near_amount,
                tau,
                linear_lost_and_found,
                bond_notes,
                bootstrap_ends_at,
                accrual_param,
            },
        )
    }

    // ======== pricing over the protocol's pools ========

    /// The reserve: the staked holdings in principal at `price`, less the
    /// pending, permanent and treasury pools; `None` where that is negative
    /// or does not fit.
    pub open spec fn reserve_spec(&self, price: int) -> Option<int> {
        match scaled(self.linear_balance as int, price, PRICE_SCALE as int) {
            None => None,
            Some(owned) => {
                let r = owned - self.pending_pool_near_amount - self.permanent_pool_near_amount
                    - self.treasury_pool_near_amount;
                if r < 0 {
                    None
                } else {
                    Some(r)
                }
            },
        }
    }

    /// The claim-token price in principal: one unit while no claim token
    /// exists, else the reserve per claim token.
    pub open spec fn pnear_price_spec(&self, price: int, supply: int) -> Option<int> {
        if supply == 0 {
            Some(ONE_PNEAR as int)
        } else {
            match self.reserve_spec(price) {
                None => None,
                Some(r) => scaled(r, ONE_PNEAR as int, supply),
            }
        }
    }

    /// The vested part of `value` at age `length` under alpha projected to
    /// `ts`.
    pub open spec fn accrued_result(&self, value: int, length: int, ts: int) -> Result<int, BondError> {
        match self.accrual_param.alpha_result(ts) {
            Err(e) => Err(from_accrual(e)),
            Ok(a) => if length + a == 0 {
                Err(BondError::InvalidConfig)
            } else {
                Ok(accrued_spec(value, length, a as int))
            },
        }
    }

    /// The principal of a bond of `bond_amount` net of the treasury's share.
    pub open spec fn net_of_tau(&self, bond_amount: int) -> int {
        bond_amount - bond_amount * self.tau / 10000
    }

    /// The most claim tokens that a note of `bond_amount` can earn.
    pub open spec fn note_cap_spec(&self, bond_amount: int, price: int, supply: int) -> Option<int> {
        match self.pnear_price_spec(price, supply) {
            None => None,
            Some(p) => scaled(self.net_of_tau(bond_amount), PRICE_SCALE as int, p),
        }
    }

    /// The claim tokens that `note` has earned at `ts`.
    pub open spec fn note_accrued_result(&self, note: BondNote, price: int, supply: int, ts: int) -> Result<
        int,
        BondError,
    > {
        if ts < note.created_at {
            Err(BondError::BadTimestamp)
        } else {
            match self.note_cap_spec(note.bond_amount as int, price, supply) {
                None => Err(BondError::Overflow),
                Some(cap) => self.accrued_result(cap, note.length_spec(ts), ts),
            }
        }
    }

    pub fn reserve_pool_near_amount(&self, linear_price: Balance) -> (r: Option<Balance>)
        ensures
            r is Some <==> self.reserve_spec(linear_price as int) is Some,
            r is Some ==> r->0 == self.reserve_spec(linear_price as int)->0,
    {
        let owned = match linear2near(self.linear_balance, linear_price) {
            Some(x) => x,
            None => {
                return None;
            },
        };
        if owned < self.pending_pool_near_amount {
            return None;
        }
        let r = owned - self.pending_pool_near_amount;
        if r < self.permanent_pool_near_amount {
            return None;
        }
        let r = r - self.permanent_pool_near_amount;
        if r < self.treasury_pool_near_amount {
            return None;
        }
        Some(r - self.treasury_pool_near_amount)
    }

    pub fn pnear_price(&self, linear_price: Balance, pnear_total_supply: Balance) -> (r: Option<
        Balance,
    >)
        ensures
            r is Some <==> self.pnear_price_spec(linear_price as int, pnear_total_supply as int) is Some,
            r is Some ==> r->0 == self.pnear_price_spec(
                linear_price as int,
                pnear_total_supply as int,
            )->0,
    {
        if pnear_total_supply == 0 {
            return Some(ONE_PNEAR);
        }
        match self.reserve_pool_near_amount(linear_price) {
            None => None,
            Some(reserve) => crate::pricing::scale_by(reserve, ONE_PNEAR, pnear_total_supply),
        }
    }

    /// The claim-token price, as a view.
    pub fn get_pnear_price(&self, linear_price: Balance, pnear_total_supply: Balance) -> (r: Option<
        Balance,
    >)
        ensures
            r is Some <==> self.pnear_price_spec(linear_price as int, pnear_total_supply as int) is Some,
            r is Some ==> r->0 == self.pnear_price_spec(
                linear_price as int,
                pnear_total_supply as int,
            )->0,
    {
        self.pnear_price(linear_price, pnear_total_supply)
    }

    pub fn accrued_amount(&self, value: Balance, length: Duration, current_timestamp: Timestamp) -> (r:
        Result<Balance, BondError>)
        requires
            self.wf(),
        ensures
            same_result(r, self.accrued_result(value as int, length as int, current_timestamp as int)),
    {
        let alpha = match self.accrual_param.current_alpha(current_timestamp) {
            Ok(a) => a,
            Err(e) => {
                return Err(map_accrual_error(e));
            },
        };
        match accrued_value(value, length, alpha) {
            Some(v) => Ok(v),
            None => Err(BondError::InvalidConfig),
        }
    }

    /// The most claim tokens that `note` can earn: its principal net of the
    /// treasury's share, converted at the claim-token price.
    pub fn note_cap(&self, note: &BondNote, linear_price: Balance, pnear_total_supply: Balance) -> (r:
        Option<Balance>)
        requires
            self.wf(),
        ensures
            r is Some <==> self.note_cap_spec(
                note.bond_amount as int,
                linear_price as int,
                pnear_total_supply as int,
            ) is Some,
            r is Some ==> r->0 == self.note_cap_spec(
                note.bond_amount as int,
                linear_price as int,
                pnear_total_supply as int,
            )->0,
    {
        let bond_amount = note.bond_amount();
        let amount_to_treasury = apply_basis_point(bond_amount, self.tau);
        match self.pnear_price(linear_price, pnear_total_supply) {
            None => None,
            Some(p) => near2pnear(bond_amount - amount_to_treasury, p),
        }
    }

    /// The claim tokens that `note` would earn if committed at
    /// `current_timestamp`.
    pub fn note_accrued_pnear(
        &self,
        note: &BondNote,
        linear_price: Balance,
        pnear_total_supply: Balance,
        current_timestamp: Timestamp,
    ) -> (r: Result<Balance, BondError>)
        requires
            self.wf(),
            note.wf(),
        ensures
            same_result(
                r,
                self.note_accrued_result(
                    *note,
                    linear_price as int,
                    pnear_total_supply as int,
                    current_timestamp as int,
                ),
            ),
    {
        if current_timestamp < note.created_at {
            return Err(BondError::BadTimestamp);
        }
        let cap = match self.note_cap(note, linear_price, pnear_total_supply) {
            Some(c) => c,
            None => {
                return Err(BondError::Overflow);
            },
        };
        self.accrued_amount(cap, note.length(current_timestamp), current_timestamp)
    }

    /// alpha projected to `timestamp`.
    pub fn get_alpha(&self, timestamp: Timestamp) -> (r: Result<Duration, BondError>)
        requires
            self.wf(),
        ensures
            match self.accrual_param.alpha_result(timestamp as int) {
                Ok(a) => r == Ok::<Duration, BondError>(a),
                Err(e) => r == Err::<Duration, BondError>(from_accrual(e)),
            },
    {
        match self.accrual_param.current_alpha(timestamp) {
            Ok(a) => Ok(a),
            Err(e) => Err(map_accrual_error(e)),
        }
    }

    // ======== bond ========

    /// What `bond` returns: the principal to stake, out of the attached
    /// deposit less the storage deposit.
    pub open spec fn bond_result(&self, prepaid_gas: int, attached_deposit: int) -> Result<
        int,
        BondError,
    > {
        if prepaid_gas < GAS_BOND + GAS_DEPOSIT_AND_STAKE + GAS_BOND_CALLBACK {
            Err(BondError::InsufficientBudget)
        } else if self.paused {
            Err(BondError::Paused)
        } else if attached_deposit <= BOND_STORAGE_DEPOSIT || attached_deposit
            - BOND_STORAGE_DEPOSIT < MINIMUM_BOND_AMOUNT {
            Err(BondError::BondTooSmall)
        } else {
            Ok(attached_deposit - BOND_STORAGE_DEPOSIT)
        }
    }

    /// Validates a new bond before the stake call; returns the principal to
    /// stake.
    pub fn bond(&self, prepaid_gas: u64, attached_deposit: Balance) -> (r: Result<Balance, BondError>)
        ensures
            same_result(r, self.bond_result(prepaid_gas as int, attached_deposit as int)),
    {
        if prepaid_gas < GAS_BOND + GAS_DEPOSIT_AND_STAKE + GAS_BOND_CALLBACK {
            return Err(BondError::InsufficientBudget);
        }
        if self.paused {
            return Err(BondError::Paused);
        }
        if attached_deposit <= BOND_STORAGE_DEPOSIT {
            return Err(BondError::BondTooSmall);
        }
        let bond_amount = attached_deposit - BOND_STORAGE_DEPOSIT;
        if bond_amount < MINIMUM_BOND_AMOUNT {
            return Err(BondError::BondTooSmall);
        }
        Ok(bond_amount)
    }

    /// Why recording a bond would fail, if it would.
    pub open spec fn create_bond_error(&self, user: Seq<char>, bond: int, linear: int, now: int) -> Option<
        BondError,
    > {
        if self.pending_pool_near_amount + bond > u128::MAX || self.linear_balance + linear
            > u128::MAX {
            Some(BondError::Overflow)
        } else if self.bond_notes.notes_of(user).len() >= u32::MAX {
            Some(BondError::Overflow)
        } else {
            match self.accrual_param.insert_outcome(bond, now) {
                Err(e) => Some(from_accrual(e)),
                Ok(_) => None,
            }
        }
    }

    /// `new` is `self` after a bond of `bond` principal, staked as `linear`,
    /// was recorded for `user` at `now`.
    pub open spec fn bond_created(
        &self,
        new: &Self,
        user: Seq<char>,
        bond: int,
        linear: int,
        now: int,
    ) -> bool {
        let notes = new.bond_notes.notes_of(user);
        let note = notes.last();
        &&& self.same_settings(new)
        &&& new.linear_balance == self.linear_balance + linear
        &&& new.pending_pool_near_amount == self.pending_pool_near_amount + bond
        &&& new.permanent_pool_near_amount == self.permanent_pool_near_amount
        &&& new.treasury_pool_near_amount == self.treasury_pool_near_amount
        &&& new.linear_lost_and_found == self.linear_lost_and_found
        &&& self.accrual_param.inserted(&new.accrual_param, bond, now)
        &&& notes.len() == self.bond_notes.notes_of(user).len() + 1
        &&& notes.drop_last() == self.bond_notes.notes_of(user)
        &&& note.id == self.bond_notes.notes_of(user).len()
        &&& note.account_id@ == user
        &&& note.bond_amount == bond
        &&& note.committed_pnear_amount == 0
        &&& note.created_at == now
        &&& note.settled_at == 0
        &&& note.status == BondStatus::Pending
        &&& forall|a: Seq<char>|
            a != user ==> #[trigger] new.bond_notes.notes_of(a) == self.bond_notes.notes_of(a)
    }

    /// Records a bond of `bond_amount` principal, staked as `linear_amount`,
    /// for `user_id` at `now`: a new pending note, the pools, and the mean
    /// age. Returns the note's id.
    pub fn internal_create_bond(
        &mut self,
        user_id: &String,
        bond_amount: Balance,
        linear_amount: Balance,
        now: Timestamp,
    ) -> (r: Result<u32, BondError>)
        requires
            old(self).wf(),
        ensures
            final(self).wf(),
            r is Ok <==> old(self).create_bond_error(
                user_id@,
                bond_amount as int,
                linear_amount as int,
                now as int,
            ) is None,
            r is Err ==> r->Err_0 == old(self).create_bond_error(
                user_id@,
                bond_amount as int,
                linear_amount as int,
                now as int,
            )->0 && *final(self) == *old(self),
            r is Ok ==> r->Ok_0 == old(self).bond_notes.notes_of(user_id@).len() && old(
                self,
            ).bond_created(
                &*final(self),
                user_id@,
                bond_amount as int,
                linear_amount as int,
                now as int,
            ),
    {
        if bond_amount > u128::MAX - self.pending_pool_near_amount || linear_amount > u128::MAX
            - self.linear_balance {
            return Err(BondError::Overflow);
        }
        if self.bond_notes.user_note_len(user_id) == u32::MAX {
            return Err(BondError::Overflow);
        }
        match self.accrual_param.weighted_mean_insert(bond_amount, now) {
            Ok(()) => {},
            Err(e) => {
                return Err(map_accrual_error(e));
            },
        }
        self.pending_pool_near_amount = self.pending_pool_near_amount + bond_amount;
        self.linear_balance = self.linear_balance + linear_amount;
        let note = self.bond_notes.insert_new_note(user_id, bond_amount, now);
        proof {
            assert(self.bond_notes.notes_of(user_id@).drop_last() == old(
                self,
            ).bond_notes.notes_of(user_id@));
        }
        Ok(note.id())
    }

    /// Resumes after the stake call. On success the bond is recorded; on
    /// failure the principal and the storage deposit go back to the account
    /// and nothing changes.
    pub fn on_staked(
        &mut self,
        user_id: &String,
        bond_amount: Balance,
        staked_linear_amount: Option<Balance>,
        now: Timestamp,
    ) -> (r: Result<StakeOutcome, BondError>)
        requires
            old(self).wf(),
        ensures
            final(self).wf(),
            r is Err ==> *final(self) == *old(self),
            staked_linear_amount is None ==> if bond_amount + BOND_STORAGE_DEPOSIT <= u128::MAX {
                r == Ok::<StakeOutcome, BondError>(
                    StakeOutcome::Refund((bond_amount + BOND_STORAGE_DEPOSIT) as u128),
                ) && *final(self) == *old(self)
            } else {
                r == Err::<StakeOutcome, BondError>(BondError::Overflow)
            },
            staked_linear_amount is Some ==> {
                let linear = staked_linear_amount->0 as int;
                let err = old(self).create_bond_error(user_id@, bond_amount as int, linear, now as int);
                &&& r is Ok <==> err is None
                &&& r is Err ==> r->Err_0 == err->0
                &&& r is Ok ==> r->Ok_0 == StakeOutcome::Bonded(
                    old(self).bond_notes.notes_of(user_id@).len() as u32,
                ) && old(self).bond_created(
                    &*final(self),
                    user_id@,
                    bond_amount as int,
                    linear,
                    now as int,
                )
            },
    {
        match staked_linear_amount {
            Some(linear_amount) => {
                match self.internal_create_bond(user_id, bond_amount, linear_amount, now) {
                    Ok(id) => Ok(StakeOutcome::Bonded(id)),
                    Err(e) => Err(e),
                }
            },
            None => {
                if bond_amount > u128::MAX - BOND_STORAGE_DEPOSIT {
                    Err(BondError::Overflow)
                } else {
                    Ok(StakeOutcome::Refund(bond_amount + BOND_STORAGE_DEPOSIT))
                }
            },
        }
    }

    // ======== lost and found ========

    /// Reconciles a transfer of `linear_amount` to `user_id`: a delivered
    /// amount is returned as it is; an undelivered one is credited to the
    /// account's lost-and-found balance and 0 is returned. Fails, changing
    /// nothing, only where the lost-and-found total would overflow.
    pub fn on_linear_transferred(
        &mut self,
        user_id: &String,
        linear_amount: Balance,
        transfer_succeeded: bool,
    ) -> (r: Result<Balance, BondError>)
        requires
            old(self).wf(),
        ensures
            final(self).wf(),
            transfer_succeeded ==> r == Ok::<Balance, BondError>(linear_amount) && *final(self)
                == *old(self),
            !transfer_succeeded ==> old(self).transfer_failed(&*final(self), user_id@, linear_amount as int, r),
    {
        if transfer_succeeded {
            return Ok(linear_amount);
        }
        match self.linear_lost_and_found.insert(user_id, linear_amount) {
            Ok(()) => Ok(0),
            Err(e) => Err(e),
        }
    }

    /// `new` and `r` follow a failed transfer of `amount` to `user`: the
    /// amount is owed to the account on top of what it was owed, the total
    /// owed grows by it, and nothing else changes.
    pub open spec fn transfer_failed(&self, new: &Self, user: Seq<char>, amount: int, r: Result<Balance, BondError>) -> bool {
        &&& r is Ok <==> self.linear_lost_and_found.total_spec() + amount <= u128::MAX
        &&& r is Err ==> r->Err_0 == BondError::Overflow && *new == *self
        &&& r is Ok ==> {
            &&& r->Ok_0 == 0
            &&& new.linear_lost_and_found.amount_of(user) == self.linear_lost_and_found.amount_of(user) + amount
            &&& new.linear_lost_and_found.total_spec() == self.linear_lost_and_found.total_spec() + amount
            &&& forall|a: Seq<char>| a != user ==> #[trigger] new.linear_lost_and_found.amount_of(a) == self.linear_lost_and_found.amount_of(a)
            &&& self.same_settings(new)
            &&& self.same_pools(new)
            &&& new.bond_notes == self.bond_notes
            &&& new.accrual_param == self.accrual_param
        }
    }

    /// What is owed to `account_id`.
    pub fn user_lost_and_found(&self, account_id: &String) -> (r: Balance)
        requires
            self.wf(),
        ensures
            r == self.linear_lost_and_found.amount_of(account_id@),
    {
        self.linear_lost_and_found.user_amount(account_id)
    }

    /// What `claim_lost_and_found` returns.
    pub open spec fn claim_result(&self, prepaid_gas: int, user: Seq<char>) -> Result<int, BondError> {
        if prepaid_gas < GAS_CLAIM + GAS_FT_TRANSFER_AND_CALLBACK {
            Err(BondError::InsufficientBudget)
        } else if self.linear_lost_and_found.amount_of(user) == 0 {
            Err(BondError::NothingToClaim)
        } else {
            Ok(self.linear_lost_and_found.amount_of(user))
        }
    }

    /// `new` is `self` after `user` claimed what it was owed: nothing is owed
    /// to it any more, the total owed dropped by that amount, and nothing
    /// else changed.
    pub open spec fn claimed(&self, new: &Self, user: Seq<char>) -> bool {
        &&& new.linear_lost_and_found.amount_of(user) == 0
        &&& new.linear_lost_and_found.total_spec() == self.linear_lost_and_found.total_spec()
            - self.linear_lost_and_found.amount_of(user)
        &&& forall|a: Seq<char>|
            a != user ==> #[trigger] new.linear_lost_and_found.amount_of(a)
                == self.linear_lost_and_found.amount_of(a)
        &&& self.same_settings(new)
        &&& self.same_pools(new)
        &&& new.bond_notes == self.bond_notes
        &&& new.accrual_param == self.accrual_param
    }

    /// Zeroes what `user_id` is owed and returns it, to be transferred.
    pub fn claim_lost_and_found(&mut self, prepaid_gas: u64, user_id: &String) -> (r: Result<
        Balance,
        BondError,
    >)
        requires
            old(self).wf(),
        ensures
            final(self).wf(),
            same_result(r, old(self).claim_result(prepaid_gas as int, user_id@)),
            r is Err ==> *final(self) == *old(self),
            r is Ok ==> old(self).claimed(&*final(self), user_id@),
    {
        if prepaid_gas < GAS_CLAIM + GAS_FT_TRANSFER_AND_CALLBACK {
            return Err(BondError::InsufficientBudget);
        }
        if self.linear_lost_and_found.user_amount(user_id) == 0 {
            return Err(BondError::NothingToClaim);
        }
        let amount = self.linear_lost_and_found.remove(user_id);
        Ok(amount)
    }

    // ======== cancel ========

    /// Why `cancel` rejects a request, if it does.
    pub open spec fn cancel_error(&self, prepaid_gas: int, user: Seq<char>, note_id: int) -> Option<
        BondError,
    > {
        if prepaid_gas < GAS_CANCEL + GAS_GET_LINEAR_PRICE + GAS_CANCEL_CALLBACK {
            Some(BondError::InsufficientBudget)
        } else if self.paused {
            Some(BondError::Paused)
        } else if note_id >= self.bond_notes.notes_of(user).len() {
            Some(BondError::NoteNotFound)
        } else if self.bond_notes.notes_of(user)[note_id].status != BondStatus::Pending {
            Some(BondError::InvalidNoteState)
        } else {
            None
        }
    }

    /// Validates a cancellation before the price query.
    pub fn cancel(&self, prepaid_gas: u64, user_id: &String, note_id: u32) -> (r: Result<
        (),
        BondError,
    >)
        requires
            self.wf(),
        ensures
            r is Ok <==> self.cancel_error(prepaid_gas as int, user_id@, note_id as int) is None,
            r is Err ==> r->Err_0 == self.cancel_error(
                prepaid_gas as int,
                user_id@,
                note_id as int,
            )->0,
    {
        if prepaid_gas < GAS_CANCEL + GAS_GET_LINEAR_PRICE + GAS_CANCEL_CALLBACK {
            return Err(BondError::InsufficientBudget);
        }
        if self.paused {
            return Err(BondError::Paused);
        }
        match self.bond_notes.get_user_note(user_id, note_id) {
            None => Err(BondError::NoteNotFound),
            Some(note) => if note.status != BondStatus::Pending {
                Err(BondError::InvalidNoteState)
            } else {
                Ok(())
            },
        }
    }

    /// What resuming a cancellation returns: the staked-asset refund.
    pub open spec fn cancel_outcome(
        &self,
        user: Seq<char>,
        note_id: int,
        price: Option<u128>,
        now: int,
    ) -> Result<int, BondError> {
        if price is None {
            Err(BondError::PriceUnavailable)
        } else if note_id >= self.bond_notes.notes_of(user).len() {
            Err(BondError::NoteNotFound)
        } else {
            let note = self.bond_notes.notes_of(user)[note_id];
            if note.status != BondStatus::Pending {
                Err(BondError::InvalidNoteState)
            } else if now < note.created_at {
                Err(BondError::BadTimestamp)
            } else {
                match scaled(note.bond_amount as int, PRICE_SCALE as int, price->0 as int) {
                    None => Err(BondError::Overflow),
                    Some(refund) => if refund == 0 {
                        Err(BondError::ZeroTransfer)
                    } else if self.pending_pool_near_amount < note.bond_amount
                        || self.linear_balance < refund {
                        Err(BondError::Overflow)
                    } else {
                        match self.accrual_param.remove_outcome(
                            note.bond_amount as int,
                            now - note.created_at,
                            now,
                        ) {
                            Err(e) => Err(from_accrual(e)),
                            Ok(_) => Ok(refund),
                        }
                    },
                }
            }
        }
    }

    /// `new` is `self` after note `note_id` of `user` was settled at `now`
    /// as `settled`, with the pending pool and the mean age relieved of it.
    pub open spec fn note_settled(
        &self,
        new: &Self,
        user: Seq<char>,
        note_id: int,
        settled: BondNote,
        now: int,
    ) -> bool {
        let note = self.bond_notes.notes_of(user)[note_id];
        &&& self.same_settings(new)
        &&& new.linear_lost_and_found == self.linear_lost_and_found
        &&& new.pending_pool_near_amount == self.pending_pool_near_amount - note.bond_amount
        &&& new.bond_notes.notes_of(user) == self.bond_notes.notes_of(user).update(note_id, settled)
        &&& forall|a: Seq<char>|
            a != user ==> #[trigger] new.bond_notes.notes_of(a) == self.bond_notes.notes_of(a)
        &&& self.accrual_param.removed(
            &new.accrual_param,
            note.bond_amount as int,
            now - note.created_at,
            now,
        )
    }

    /// Resumes a cancellation with the price query's result. Marks the note
    /// cancelled, takes it out of the pending pool and the mean age, and
    /// returns the staked-asset refund to transfer to the account.
    pub fn on_get_linear_price_for_cancel(
        &mut self,
        user_id: &String,
        note_id: u32,
        linear_price: Option<Balance>,
        now: Timestamp,
    ) -> (r: Result<Balance, BondError>)
        requires
            old(self).wf(),
        ensures
            final(self).wf(),
            same_result(r, old(self).cancel_outcome(user_id@, note_id as int, linear_price, now as int)),
            r is Err ==> *final(self) == *old(self),
            r is Ok ==> {
                let note = old(self).bond_notes.notes_of(user_id@)[note_id as int];
                &&& old(self).note_settled(
                    &*final(self),
                    user_id@,
                    note_id as int,
                    BondNote { status: BondStatus::Cancelled, settled_at: now, ..note },
                    now as int,
                )
                &&& final(self).linear_balance == old(self).linear_balance - r->Ok_0
                &&& final(self).permanent_pool_near_amount == old(self).permanent_pool_near_amount
                &&& final(self).treasury_pool_near_amount == old(self).treasury_pool_near_amount
            },
    {
        let price = match linear_price {
            Some(p) => p,
            None => {
                return Err(BondError::PriceUnavailable);
            },
        };
        let mut note = match self.bond_notes.get_user_note(user_id, note_id) {
            Some(n) => n,
            None => {
                return Err(BondError::NoteNotFound);
            },
        };
        if note.status != BondStatus::Pending {
            return Err(BondError::InvalidNoteState);
        }
        if now < note.created_at {
            return Err(BondError::BadTimestamp);
        }
        let refund = match near2linear(note.bond_amount, price) {
            Some(x) => x,
            None => {
                return Err(BondError::Overflow);
            },
        };
        if refund == 0 {
            return Err(BondError::ZeroTransfer);
        }
        if self.pending_pool_near_amount < note.bond_amount || self.linear_balance < refund {
            return Err(BondError::Overflow);
        }
        let length = now - note.created_at;
        match self.accrual_param.weighted_mean_remove(note.bond_amount, length, now) {
            Ok(()) => {},
            Err(e) => {
                return Err(map_accrual_error(e));
            },
        }
        let _ = note.cancel(now);
        self.pending_pool_near_amount = self.pending_pool_near_amount - note.bond_amount;
        self.linear_balance = self.linear_balance - refund;
        self.bond_notes.save_user_note(user_id, note_id, note);
        Ok(refund)
    }

    // ======== commit ========

    /// Why `commit` rejects a request, if it does.
    pub open spec fn commit_error(&self, prepaid_gas: int, now: int, user: Seq<char>, note_id: int) -> Option<
        BondError,
    > {
        if prepaid_gas < GAS_COMMIT + GAS_GET_LINEAR_PRICE + GAS_COMMIT_CALLBACK {
            Some(BondError::InsufficientBudget)
        } else if self.paused {
            Some(BondError::Paused)
        } else if now < self.bootstrap_ends_at {
            Some(BondError::Bootstrapping)
        } else if note_id >= self.bond_notes.notes_of(user).len() {
            Some(BondError::NoteNotFound)
        } else if self.bond_notes.notes_of(user)[note_id].status != BondStatus::Pending {
            Some(BondError::InvalidNoteState)
        } else {
            None
        }
    }

    /// Validates a commit before the price query.
    pub fn commit(&self, prepaid_gas: u64, now: Timestamp, user_id: &String, note_id: u32) -> (r:
        Result<(), BondError>)
        requires
            self.wf(),
        ensures
            r is Ok <==> self.commit_error(prepaid_gas as int, now as int, user_id@, note_id as int)
                is None,
            r is Err ==> r->Err_0 == self.commit_error(
                prepaid_gas as int,
                now as int,
                user_id@,
                note_id as int,
            )->0,
    {
        if prepaid_gas < GAS_COMMIT + GAS_GET_LINEAR_PRICE + GAS_COMMIT_CALLBACK {
            return Err(BondError::InsufficientBudget);
        }
        if self.paused {
            return Err(BondError::Paused);
        }
        if now < self.bootstrap_ends_at {
            return Err(BondError::Bootstrapping);
        }
        match self.bond_notes.get_user_note(user_id, note_id) {
            None => Err(BondError::NoteNotFound),
            Some(note) => if note.status != BondStatus::Pending {
                Err(BondError::InvalidNoteState)
            } else {
                Ok(())
            },
        }
    }

    /// What the treasury gains at a commit of `note`: its share of the bond,
    /// and at the first commit (no claim token yet) also the staking profit
    /// accumulated so far.
    pub open spec fn treasury_gain(&self, note: BondNote, price: int, supply: int) -> Option<int> {
        let to_treasury = note.bond_amount * self.tau / 10000;
        if supply != 0 {
            Some(to_treasury)
        } else {
            match scaled(self.linear_balance as int, price, PRICE_SCALE as int) {
                None => None,
                Some(owned) => if owned < self.pending_pool_near_amount || to_treasury + owned
                    - self.pending_pool_near_amount > u128::MAX {
                    None
                } else {
                    Some(to_treasury + owned - self.pending_pool_near_amount)
                },
            }
        }
    }

    /// What resuming a commit leads to: the claim tokens to mint, and what
    /// the treasury and the permanent pool gain.
    pub open spec fn commit_outcome(
        &self,
        user: Seq<char>,
        note_id: int,
        price: Option<u128>,
        supply: int,
        now: int,
    ) -> Result<(int, int, int), BondError> {
        if price is None {
            Err(BondError::PriceUnavailable)
        } else if note_id >= self.bond_notes.notes_of(user).len() {
            Err(BondError::NoteNotFound)
        } else {
            let note = self.bond_notes.notes_of(user)[note_id];
            let p = price->0 as int;
            let net = self.net_of_tau(note.bond_amount as int);
            if note.status != BondStatus::Pending {
                Err(BondError::InvalidNoteState)
            } else if now < note.created_at {
                Err(BondError::BadTimestamp)
            } else {
                match self.treasury_gain(note, p, supply) {
                    None => Err(BondError::Overflow),
                    Some(treasury) => match self.accrued_result(net, now - note.created_at, now) {
                        Err(e) => Err(e),
                        Ok(reserve) => match self.note_accrued_result(note, p, supply, now) {
                            Err(e) => Err(e),
                            Ok(mint) => if reserve > net || self.treasury_pool_near_amount
                                + treasury > u128::MAX || self.permanent_pool_near_amount + (net
                                - reserve) > u128::MAX || self.pending_pool_near_amount
                                < note.bond_amount {
                                Err(BondError::Overflow)
                            } else {
                                match self.accrual_param.remove_outcome(
                                    note.bond_amount as int,
                                    now - note.created_at,
                                    now,
                                ) {
                                    Err(e) => Err(from_accrual(e)),
                                    Ok(_) => Ok((mint, treasury, net - reserve)),
                                }
                            },
                        },
                    },
                }
            }
        }
    }

    /// Resumes a commit with the price query's result and the claim-token
    /// supply. Marks the note committed with what it has earned, moves its
    /// principal from the pending pool to the treasury and permanent pools,
    /// takes it out of the mean age, and returns the claim tokens to mint
    /// to the account.
    pub fn on_get_linear_price_for_commit(
        &mut self,
        user_id: &String,
        note_id: u32,
        linear_price: Option<Balance>,
        pnear_total_supply: Balance,
        now: Timestamp,
    ) -> (r: Result<Balance, BondError>)
        requires
            old(self).wf(),
        ensures
            final(self).wf(),
            ({
                let out = old(self).commit_outcome(
                    user_id@,
                    note_id as int,
                    linear_price,
                    pnear_total_supply as int,
                    now as int,
                );
                &&& r is Ok <==> out is Ok
                &&& r is Err ==> r->Err_0 == out->Err_0 && *final(self) == *old(self)
                &&& r is Ok ==> {
                    let note = old(self).bond_notes.notes_of(user_id@)[note_id as int];
                    let (mint, treasury, permanent) = out->Ok_0;
                    &&& r->Ok_0 == mint
                    &&& old(self).note_settled(
                        &*final(self),
                        user_id@,
                        note_id as int,
                        BondNote {
                            status: BondStatus::Committed,
                            committed_pnear_amount: r->Ok_0,
                            settled_at: now,
                            ..note
                        },
                        now as int,
                    )
                    &&& final(self).linear_balance == old(self).linear_balance
                    &&& final(self).treasury_pool_near_amount == old(self).treasury_pool_near_amount
                        + treasury
                    &&& final(self).permanent_pool_near_amount == old(
                        self,
                    ).permanent_pool_near_amount + permanent
                }
            }),
    {
        let price = match linear_price {
            Some(p) => p,
            None => {
                return Err(BondError::PriceUnavailable);
            },
        };
        let mut note = match self.bond_notes.get_user_note(user_id, note_id) {
            Some(n) => n,
            None => {
                return Err(BondError::NoteNotFound);
            },
        };
        if note.status != BondStatus::Pending {
            return Err(BondError::InvalidNoteState);
        }
        if now < note.created_at {
            return Err(BondError::BadTimestamp);
        }
        let bond_amount = note.bond_amount;
        let amount_for_treasury = apply_basis_point(bond_amount, self.tau);
        let net = bond_amount - amount_for_treasury;
        let treasury_gained = if pnear_total_supply == 0 {
            // the staking profit earned before the first commit goes to the
            // treasury
            match linear2near(self.linear_balance, price) {
                None => {
                    return Err(BondError::Overflow);
                },
                Some(owned) => {
                    if owned < self.pending_pool_near_amount {
                        return Err(BondError::Overflow);
                    }
                    let profit = owned - self.pending_pool_near_amount;
                    if profit > u128::MAX - amount_for_treasury {
                        return Err(BondError::Overflow);
                    }
                    amount_for_treasury + profit
                },
            }
        } else {
            amount_for_treasury
        };
        let length = now - note.created_at;
        let reserve_gained = match self.accrued_amount(net, length, now) {
            Ok(x) => x,
            Err(e) => {
                return Err(e);
            },
        };
        let pnear_to_mint = match self.note_accrued_pnear(&note, price, pnear_total_supply, now) {
            Ok(x) => x,
            Err(e) => {
                return Err(e);
            },
        };
        if reserve_gained > net || treasury_gained > u128::MAX - self.treasury_pool_near_amount
            || net - reserve_gained > u128::MAX - self.permanent_pool_near_amount
            || self.pending_pool_near_amount < bond_amount {
            return Err(BondError::Overflow);
        }
        let permanent_gained = net - reserve_gained;
        match self.accrual_param.weighted_mean_remove(bond_amount, length, now) {
            Ok(()) => {},
            Err(e) => {
                return Err(map_accrual_error(e));
            },
        }
        let _ = note.commit(pnear_to_mint, now);
        self.treasury_pool_near_amount = self.treasury_pool_near_amount + treasury_gained;
        self.permanent_pool_near_amount = self.permanent_pool_near_amount + permanent_gained;
        self.pending_pool_near_amount = self.pending_pool_near_amount - bond_amount;
        self.bond_notes.save_user_note(user_id, note_id, note);
        Ok(pnear_to_mint)
    }

    // ======== redeem ========

    /// The claim-token balance and supply allow burning `amount`: the
    /// account holds it, and more than one whole claim token stays in
    /// supply.
    pub open spec fn redeem_guard(balance: int, supply: int, amount: int) -> Option<BondError> {
        if balance < amount {
            Some(BondError::InsufficientBalance)
        } else if supply - amount <= ONE_PNEAR {
            Some(BondError::SupplyFloorViolation)
        } else {
            None
        }
    }

    fn check_redeem_guard(balance: Balance, supply: Balance, amount: Balance) -> (r: Result<
        (),
        BondError,
    >)
        ensures
            r is Ok <==> Self::redeem_guard(balance as int, supply as int, amount as int) is None,
            r is Err ==> r->Err_0 == Self::redeem_guard(
                balance as int,
                supply as int,
                amount as int,
            )->0,
    {
        if balance < amount {
            return Err(BondError::InsufficientBalance);
        }
        if amount >= supply || supply - amount <= ONE_PNEAR {
            return Err(BondError::SupplyFloorViolation);
        }
        Ok(())
    }

    /// Why `redeem` rejects a request, if it does.
    pub open spec fn redeem_error(
        &self,
        prepaid_gas: int,
        now: int,
        balance: int,
        supply: int,
        amount: int,
    ) -> Option<BondError> {
        if prepaid_gas < GAS_REDEEM + GAS_GET_LINEAR_PRICE + GAS_REDEEM_CALLBACK {
            Some(BondError::InsufficientBudget)
        } else if self.paused {
            Some(BondError::Paused)
        } else if now < self.bootstrap_ends_at {
            Some(BondError::Bootstrapping)
        } else {
            Self::redeem_guard(balance, supply, amount)
        }
    }

    /// Validates a redemption of `amount` claim tokens, held as `balance`
    /// out of a supply of `pnear_total_supply`, before the price query.
    pub fn redeem(
        &self,
        prepaid_gas: u64,
        now: Timestamp,
        balance: Balance,
        pnear_total_supply: Balance,
        amount: Balance,
    ) -> (r: Result<(), BondError>)
        ensures
            r is Ok <==> self.redeem_error(
                prepaid_gas as int,
                now as int,
                balance as int,
                pnear_total_supply as int,
                amount as int,
            ) is None,
            r is Err ==> r->Err_0 == self.redeem_error(
                prepaid_gas as int,
                now as int,
                balance as int,
                pnear_total_supply as int,
                amount as int,
            )->0,
            r is Ok ==> pnear_total_supply - amount > ONE_PNEAR,
    {
        if prepaid_gas < GAS_REDEEM + GAS_GET_LINEAR_PRICE + GAS_REDEEM_CALLBACK {
            return Err(BondError::InsufficientBudget);
        }
        if self.paused {
            return Err(BondError::Paused);
        }
        if now < self.bootstrap_ends_at {
            return Err(BondError::Bootstrapping);
        }
        Self::check_redeem_guard(balance, pnear_total_supply, amount)
    }

    /// What resuming a redemption returns: the staked asset to transfer.
    pub open spec fn redeem_outcome(
        &self,
        amount: int,
        price: Option<u128>,
        balance: int,
        supply: int,
    ) -> Result<int, BondError> {
        if price is None {
            Err(BondError::PriceUnavailable)
        } else if Self::redeem_guard(balance, supply, amount) is Some {
            Err(Self::redeem_guard(balance, supply, amount)->0)
        } else {
            match self.pnear_price_spec(price->0 as int, supply) {
                None => Err(BondError::Overflow),
                Some(pp) => match scaled(amount, pp, PRICE_SCALE as int) {
                    None => Err(BondError::Overflow),
                    Some(near) => match scaled(near, PRICE_SCALE as int, price->0 as int) {
                        None => Err(BondError::Overflow),
                        Some(linear) => if linear > self.linear_balance {
                            Err(BondError::Overflow)
                        } else if linear == 0 {
                            Err(BondError::ZeroTransfer)
                        } else {
                            Ok(linear)
                        },
                    },
                },
            }
        }
    }

    /// Resumes a redemption of `pnear_amount` claim tokens with the price
    /// query's result and the current balance and supply, checked again.
    /// Takes the account's share of the reserve out of the staked holdings
    /// and returns it, to be transferred once the claim tokens are burnt.
    pub fn on_get_linear_price_for_redeem(
        &mut self,
        pnear_amount: Balance,
        linear_price: Option<Balance>,
        balance: Balance,
        pnear_total_supply: Balance,
    ) -> (r: Result<Balance, BondError>)
        requires
            old(self).wf(),
        ensures
            final(self).wf(),
            same_result(
                r,
                old(self).redeem_outcome(
                    pnear_amount as int,
                    linear_price,
                    balance as int,
                    pnear_total_supply as int,
                ),
            ),
            r is Err ==> *final(self) == *old(self),
            r is Ok ==> pnear_total_supply - pnear_amount > ONE_PNEAR,
            r is Ok ==> {
                &&& final(self).linear_balance == old(self).linear_balance - r->Ok_0
                &&& final(self).pending_pool_near_amount == old(self).pending_pool_near_amount
                &&& final(self).permanent_pool_near_amount == old(self).permanent_pool_near_amount
                &&& final(self).treasury_pool_near_amount == old(self).treasury_pool_near_amount
                &&& old(self).same_settings(&*final(self))
                &&& final(self).bond_notes == old(self).bond_notes
                &&& final(self).accrual_param == old(self).accrual_param
                &&& final(self).linear_lost_and_found == old(self).linear_lost_and_found
            },
    {
        let price = match linear_price {
            Some(p) => p,
            None => {
                return Err(BondError::PriceUnavailable);
            },
        };
        match Self::check_redeem_guard(balance, pnear_total_supply, pnear_amount) {
            Ok(()) => {},
            Err(e) => {
                return Err(e);
            },
        }
        let pnear_price = match self.pnear_price(price, pnear_total_supply) {
            Some(p) => p,
            None => {
                return Err(BondError::Overflow);
            },
        };
        let equivalent_near_amount = match pnear2near(pnear_amount, pnear_price) {
            Some(x) => x,
            None => {
                return Err(BondError::Overflow);
            },
        };
        let redeemed_linear = match near2linear(equivalent_near_amount, price) {
            Some(x) => x,
            None => {
                return Err(BondError::Overflow);
            },
        };
        if redeemed_linear > self.linear_balance {
            return Err(BondError::Overflow);
        }
        if redeemed_linear == 0 {
            return Err(BondError::ZeroTransfer);
        }
        self.linear_balance = self.linear_balance - redeemed_linear;
        Ok(redeemed_linear)
    }

    // ======== owner ========

    /// Accepts `caller` only where it is the owner.
    pub fn assert_owner(&self, caller: &String) -> (r: Result<(), BondError>)
        ensures
            r is Ok <==> caller@ == self.owner_id@,
            r is Err ==> r->Err_0 == BondError::NotOwner,
    {
        if *caller == self.owner_id {
            Ok(())
        } else {
            Err(BondError::NotOwner)
        }
    }

    /// The owner hands ownership to `new_owner_id`.
    pub fn change_owner(&mut self, caller: &String, new_owner_id: String) -> (r: Result<(), BondError>)
        ensures
            r is Ok <==> caller@ == old(self).owner_id@,
            r is Err ==> r->Err_0 == BondError::NotOwner && *final(self) == *old(self),
            r is Ok ==> *final(self) == (PhoenixBonds { owner_id: new_owner_id, ..*old(self) }),
    {
        match self.assert_owner(caller) {
            Ok(()) => {},
            Err(e) => {
                return Err(e);
            },
        }
        self.owner_id = new_owner_id;
        Ok(())
    }

    /// The owner sets the treasury's share of each commit.
    pub fn set_tau(&mut self, caller: &String, new_tau: BasisPoint) -> (r: Result<(), BondError>)
        ensures
            new_tau >= FULL_BASIS_POINT ==> r == Err::<(), BondError>(BondError::InvalidConfig),
            new_tau < FULL_BASIS_POINT && caller@ != old(self).owner_id@ ==> r == Err::<
                (),
                BondError,
            >(BondError::NotOwner),
            r is Ok <==> new_tau < FULL_BASIS_POINT && caller@ == old(self).owner_id@,
            r is Err ==> *final(self) == *old(self),
            r is Ok ==> *final(self) == (PhoenixBonds { tau: new_tau, ..*old(self) }),
    {
        if new_tau >= FULL_BASIS_POINT {
            return Err(BondError::InvalidConfig);
        }
        match self.assert_owner(caller) {
            Ok(()) => {},
            Err(e) => {
                return Err(e);
            },
        }
        self.tau = new_tau;
        Ok(())
    }

    /// The owner pauses user operations.
    pub fn pause(&mut self, caller: &String) -> (r: Result<(), BondError>)
        ensures
            caller@ != old(self).owner_id@ ==> r == Err::<(), BondError>(BondError::NotOwner),
            caller@ == old(self).owner_id@ && old(self).paused ==> r == Err::<(), BondError>(
                BondError::AlreadySet,
            ),
            r is Ok <==> caller@ == old(self).owner_id@ && !old(self).paused,
            r is Err ==> *final(self) == *old(self),
            r is Ok ==> *final(self) == (PhoenixBonds { paused: true, ..*old(self) }),
    {
        match self.assert_owner(caller) {
            Ok(()) => {},
            Err(e) => {
                return Err(e);
            },
        }
        if self.paused {
            return Err(BondError::AlreadySet);
        }
        self.paused = true;
        Ok(())
    }

    /// The owner resumes user operations.
    pub fn resume(&mut self, caller: &String) -> (r: Result<(), BondError>)
        ensures
            caller@ != old(self).owner_id@ ==> r == Err::<(), BondError>(BondError::NotOwner),
            caller@ == old(self).owner_id@ && !old(self).paused ==> r == Err::<(), BondError>(
                BondError::AlreadySet,
            ),
            r is Ok <==> caller@ == old(self).owner_id@ && old(self).paused,
            r is Err ==> *final(self) == *old(self),
            r is Ok ==> *final(self) == (PhoenixBonds { paused: false, ..*old(self) }),
    {
        match self.assert_owner(caller) {
            Ok(()) => {},
            Err(e) => {
                return Err(e);
            },
        }
        if !self.paused {
            return Err(BondError::AlreadySet);
        }
        self.paused = false;
        Ok(())
    }

    /// Why `withdraw_treasury` rejects a request, if it does.
    pub open spec fn withdraw_error(&self, caller: Seq<char>, prepaid_gas: int) -> Option<BondError> {
        if caller != self.owner_id@ {
            Some(BondError::NotOwner)
        } else if self.treasury_pool_near_amount == 0 {
            Some(BondError::NothingToClaim)
        } else if prepaid_gas < GAS_WITHDRAW + GAS_WITHDRAW_CALLBACK + GAS_GET_LINEAR_PRICE {
            Some(BondError::InsufficientBudget)
        } else {
            None
        }
    }

    /// Validates a treasury withdrawal before the price query.
    pub fn withdraw_treasury(&self, caller: &String, prepaid_gas: u64) -> (r: Result<(), BondError>)
        ensures
            r is Ok <==> self.withdraw_error(caller@, prepaid_gas as int) is None,
            r is Err ==> r->Err_0 == self.withdraw_error(caller@, prepaid_gas as int)->0,
    {
        match self.assert_owner(caller) {
            Ok(()) => {},
            Err(e) => {
                return Err(e);
            },
        }
        if self.treasury_pool_near_amount == 0 {
            return Err(BondError::NothingToClaim);
        }
        if prepaid_gas < GAS_WITHDRAW + GAS_WITHDRAW_CALLBACK + GAS_GET_LINEAR_PRICE {
            return Err(BondError::InsufficientBudget);
        }
        Ok(())
    }

    /// The staked asset that a withdrawal of the whole treasury takes: its
    /// worth at `price`, capped by the holdings against rounding.
    pub open spec fn withdraw_outcome(&self, price: Option<u128>) -> Result<int, BondError> {
        if price is None {
            Err(BondError::PriceUnavailable)
        } else if self.treasury_pool_near_amount == 0 {
            Err(BondError::NothingToClaim)
        } else {
            match scaled(
                self.treasury_pool_near_amount as int,
                PRICE_SCALE as int,
                price->0 as int,
            ) {
                None => Err(BondError::Overflow),
                Some(x) => Ok(
                    if x <= self.linear_balance {
                        x
                    } else {
                        self.linear_balance as int
                    },
                ),
            }
        }
    }

    /// Resumes a treasury withdrawal with the price query's result. Empties
    /// the treasury and returns its principal and the staked asset to
    /// transfer to the owner.
    pub fn on_get_linear_price_for_withdraw(&mut self, linear_price: Option<Balance>) -> (r: Result<
        (Balance, Balance),
        BondError,
    >)
        ensures
            r is Ok <==> old(self).withdraw_outcome(linear_price) is Ok,
            r is Err ==> r->Err_0 == old(self).withdraw_outcome(linear_price)->Err_0 && *final(self)
                == *old(self),
            r is Ok ==> r->Ok_0 == (
                old(self).treasury_pool_near_amount,
                old(self).withdraw_outcome(linear_price)->Ok_0 as u128,
            ) && *final(self) == (PhoenixBonds {
                treasury_pool_near_amount: 0,
                linear_balance: (old(self).linear_balance - old(self).withdraw_outcome(
                    linear_price,
                )->Ok_0) as u128,
                ..*old(self)
            }),
    {
        let price = match linear_price {
            Some(p) => p,
            None => {
                return Err(BondError::PriceUnavailable);
            },
        };
        let near_amount = self.treasury_pool_near_amount;
        if near_amount == 0 {
            return Err(BondError::NothingToClaim);
        }
        let worth = match near2linear(near_amount, price) {
            Some(x) => x,
            None => {
                return Err(BondError::Overflow);
            },
        };
        // rounding may put the worth slightly above the holdings
        let linear_amount = if worth <= self.linear_balance {
            worth
        } else {
            self.linear_balance
        };
        self.treasury_pool_near_amount = 0;
        self.linear_balance = self.linear_balance - linear_amount;
        Ok((near_amount, linear_amount))
    }

    /// Reconciles the treasury transfer: where it failed, the treasury and
    /// the holdings get back what was taken out.
    pub fn on_treasury_withdrawn(
        &mut self,
        near_amount: Balance,
        linear_amount: Balance,
        transfer_succeeded: bool,
    ) -> (r: Result<(), BondError>)
        ensures
            transfer_succeeded ==> r is Ok && *final(self) == *old(self),
            !transfer_succeeded ==> {
                &&& r is Ok <==> old(self).treasury_pool_near_amount + near_amount <= u128::MAX
                    && old(self).linear_balance + linear_amount <= u128::MAX
                &&& r is Err ==> r->Err_0 == BondError::Overflow && *final(self) == *old(self)
                &&& r is Ok ==> *final(self) == (PhoenixBonds {
                    treasury_pool_near_amount: (old(self).treasury_pool_near_amount
                        + near_amount) as u128,
                    linear_balance: (old(self).linear_balance + linear_amount) as u128,
                    ..*old(self)
                })
            },
    {
        if transfer_succeeded {
            return Ok(());
        }
        if near_amount > u128::MAX - self.treasury_pool_near_amount || linear_amount > u128::MAX
            - self.linear_balance {
            return Err(BondError::Overflow);
        }
        self.treasury_pool_near_amount = self.treasury_pool_near_amount + near_amount;
        self.linear_balance = self.linear_balance + linear_amount;
        Ok(())
    }

    // ======== bonding with the staked asset ========

    /// Why a transfer of `amount` of `token_account_id`'s token to bond is
    /// rejected, if it is.
    pub open spec fn ft_on_transfer_error(&self, prepaid_gas: int, token: Seq<char>, amount: int) -> Option<
        BondError,
    > {
        if prepaid_gas < GAS_FT_ON_TRANSFER {
            Some(BondError::InsufficientBudget)
        } else if token != self.linear_address@ {
            Some(BondError::WrongToken)
        } else if amount < MINIMUM_BOND_LINEAR_AMOUNT {
            Some(BondError::BondTooSmall)
        } else {
            None
        }
    }

    /// Validates a bond paid in the staked asset before the price query.
    pub fn ft_on_transfer(&self, prepaid_gas: u64, token_account_id: &String, amount: Balance) -> (r:
        Result<(), BondError>)
        ensures
            r is Ok <==> self.ft_on_transfer_error(prepaid_gas as int, token_account_id@, amount as int)
                is None,
            r is Err ==> r->Err_0 == self.ft_on_transfer_error(
                prepaid_gas as int,
                token_account_id@,
                amount as int,
            )->0,
    {
        if prepaid_gas < GAS_FT_ON_TRANSFER {
            return Err(BondError::InsufficientBudget);
        }
        if *token_account_id != self.linear_address {
            return Err(BondError::WrongToken);
        }
        if amount < MINIMUM_BOND_LINEAR_AMOUNT {
            return Err(BondError::BondTooSmall);
        }
        Ok(())
    }

    /// The principal and the staked amount of a bond paid as `linear_amount`
    /// of the staked asset at `price`: its worth less the storage deposit,
    /// and that principal's worth in the staked asset.
    pub open spec fn linear_bond_amounts(&self, linear_amount: int, price: Option<u128>) -> Result<
        (int, int),
        BondError,
    > {
        if price is None {
            Err(BondError::PriceUnavailable)
        } else {
            match scaled(linear_amount, price->0 as int, PRICE_SCALE as int) {
                None => Err(BondError::Overflow),
                Some(near) => if near < BOND_STORAGE_DEPOSIT {
                    Err(BondError::BondTooSmall)
                } else {
                    match scaled(near - BOND_STORAGE_DEPOSIT, PRICE_SCALE as int, price->0 as int) {
                        None => Err(BondError::Overflow),
                        Some(linear) => Ok((near - BOND_STORAGE_DEPOSIT, linear)),
                    }
                },
            }
        }
    }

    /// Resumes a bond paid in the staked asset with the price query's
    /// result, and records it; returns the new note's id. What was paid
    /// beyond the bond's worth stays in the holdings of no pool.
    pub fn on_get_linear_price_for_linear_bond(
        &mut self,
        user_id: &String,
        linear_amount: Balance,
        linear_price: Option<Balance>,
        now: Timestamp,
    ) -> (r: Result<u32, BondError>)
        requires
            old(self).wf(),
        ensures
            final(self).wf(),
            r is Err ==> *final(self) == *old(self),
            old(self).linear_bond_amounts(linear_amount as int, linear_price) is Err ==> r
                == Err::<u32, BondError>(
                old(self).linear_bond_amounts(linear_amount as int, linear_price)->Err_0,
            ),
            old(self).linear_bond_amounts(linear_amount as int, linear_price) is Ok ==> {
                let (bond, linear) = old(self).linear_bond_amounts(
                    linear_amount as int,
                    linear_price,
                )->Ok_0;
                let err = old(self).create_bond_error(user_id@, bond, linear, now as int);
                &&& r is Ok <==> err is None
                &&& r is Err ==> r->Err_0 == err->0
                &&& r is Ok ==> r->Ok_0 == old(self).bond_notes.notes_of(user_id@).len() && old(
                    self,
                ).bond_created(&*final(self), user_id@, bond, linear, now as int)
            },
    {
        let price = match linear_price {
            Some(p) => p,
            None => {
                return Err(BondError::PriceUnavailable);
            },
        };
        let near_amount = match linear2near(linear_amount, price) {
            Some(x) => x,
            None => {
                return Err(BondError::Overflow);
            },
        };
        if near_amount < BOND_STORAGE_DEPOSIT {
            return Err(BondError::BondTooSmall);
        }
        let bond_amount = near_amount - BOND_STORAGE_DEPOSIT;
        // staking the principal at the same price keeps the claim-token
        // price unchanged
        let linear_for_bond = match near2linear(bond_amount, price) {
            Some(x) => x,
            None => {
                return Err(BondError::Overflow);
            },
        };
        self.internal_create_bond(user_id, bond_amount, linear_for_bond, now)
    }
}

/// An amount whose transfer failed is owed to the account in full, and is
/// handed out exactly once: the claim returns everything owed, including
/// that amount, and a second claim finds nothing.
pub proof fn lemma_lost_and_found_claimed_once(
    s0: PhoenixBonds,
    s1: PhoenixBonds,
    s2: PhoenixBonds,
    user: Seq<char>,
    amount: int,
    gas: int,
)
    requires
        s0.wf(),
        s0.transfer_failed(&s1, user, amount, Ok(0)),
        s1.claim_result(gas, user) is Ok,
        s1.claimed(&s2, user),
    ensures
        s1.linear_lost_and_found.amount_of(user) == s0.linear_lost_and_found.amount_of(user)
            + amount,
        s1.claim_result(gas, user) == Ok::<int, BondError>(
            s0.linear_lost_and_found.amount_of(user) + amount,
        ),
        s2.claim_result(gas, user) == Err::<int, BondError>(BondError::NothingToClaim),
        s2.linear_lost_and_found.total_spec() == s0.linear_lost_and_found.total_spec()
            - s0.linear_lost_and_found.amount_of(user),
{
}

/// No redemption takes the claim-token supply down to one whole token or
/// less: where the balance suffices but the supply would fall that low, both
/// the validation and the resumption fail with `SupplyFloorViolation`,
/// before anything is burnt.
pub proof fn lemma_supply_floor(
    s: PhoenixBonds,
    gas: int,
    now: int,
    price: Option<u128>,
    balance: int,
    supply: int,
    amount: int,
)
    requires
        balance >= amount,
        supply - amount <= ONE_PNEAR,
    ensures
        s.redeem_error(gas, now, balance, supply, amount) is Some,
        !(gas < GAS_REDEEM + GAS_GET_LINEAR_PRICE + GAS_REDEEM_CALLBACK) && !s.paused && now
            >= s.bootstrap_ends_at ==> s.redeem_error(gas, now, balance, supply, amount) == Some(
            BondError::SupplyFloorViolation,
        ),
        price is Some ==> s.redeem_outcome(amount, price, balance, supply) == Err::<int, BondError>(
            BondError::SupplyFloorViolation,
        ),
{
}

/// A note leaves the pending status at most once: once committed or
/// cancelled, every later cancellation or commit of it fails with
/// `InvalidNoteState`, at validation and at resumption alike.
pub proof fn lemma_settled_note_final(
    s: PhoenixBonds,
    user: Seq<char>,
    note_id: int,
    gas: int,
    price: Option<u128>,
    supply: int,
    now: int,
)
    requires
        0 <= note_id < s.bond_notes.notes_of(user).len(),
        s.bond_notes.notes_of(user)[note_id].status != BondStatus::Pending,
    ensures
        price is Some ==> s.cancel_outcome(user, note_id, price, now) == Err::<int, BondError>(
            BondError::InvalidNoteState,
        ),
        price is Some ==> s.commit_outcome(user, note_id, price, supply, now) == Err::<
            (int, int, int),
            BondError,
        >(BondError::InvalidNoteState),
        s.cancel_error(gas, user, note_id) is Some,
        s.commit_error(gas, now, user, note_id) is Some,
        gas >= GAS_CANCEL + GAS_GET_LINEAR_PRICE + GAS_CANCEL_CALLBACK && !s.paused ==> s.cancel_error(
            gas,
            user,
            note_id,
        ) == Some(BondError::InvalidNoteState),
        gas >= GAS_COMMIT + GAS_GET_LINEAR_PRICE + GAS_COMMIT_CALLBACK && !s.paused && now
            >= s.bootstrap_ends_at ==> s.commit_error(gas, now, user, note_id) == Some(
            BondError::InvalidNoteState,
        ),
{
}

} // verus!
