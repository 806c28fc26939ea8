use vstd::prelude::*;
use vstd::arithmetic::div_mod::{
    lemma_div_by_multiple, lemma_div_is_ordered, lemma_fundamental_div_mod,
    lemma_hoist_over_denominator,
};
use vstd::arithmetic::mul::lemma_mul_inequality;
use crate::events::{AdminChangedEvent, Event, TokensClaimedEvent, UpgradedEvent, VestingCreatedEvent};
use crate::host::{auths_after, Invocation, Transfer};
use crate::identity::Identity;
use crate::table::{
    distinct_keys, index_by, lemma_distinct_push, lemma_index_by_at, lemma_index_by_dom,
    lemma_index_by_push, lemma_index_by_update,
};

verus! {

/// Failures of the vesting wallet, each with a stable code.
#[derive(Clone, Copy, Debug, PartialEq, Eq, Structural)]
pub enum VestingError {
    NotInitialized,
    AlreadyInitialized,
    Unauthorized,
    InvalidAmount,
    InvalidDuration,
    InvalidStartTime,
    VestingNotFound,
    NothingToClaim,
}

impl VestingError {
    pub fn code(&self) -> (r: u32)
        ensures
            r == match *self {
                VestingError::NotInitialized => 1u32,
                VestingError::AlreadyInitialized => 2,
                VestingError::Unauthorized => 3,
                VestingError::InvalidAmount => 4,
                VestingError::InvalidDuration => 5,
                VestingError::InvalidStartTime => 6,
                VestingError::VestingNotFound => 7,
                VestingError::NothingToClaim => 8,
            },
    {
        match self {
            VestingError::NotInitialized => 1,
            VestingError::AlreadyInitialized => 2,
            VestingError::Unauthorized => 3,
            VestingError::InvalidAmount => 4,
            VestingError::InvalidDuration => 5,
            VestingError::InvalidStartTime => 6,
            VestingError::VestingNotFound => 7,
            VestingError::NothingToClaim => 8,
        }
    }
}

/// A linear vesting schedule of one beneficiary.
#[derive(Debug)]
pub struct VestingData {
    pub beneficiary: Identity,
    pub total_amount: i128,
    pub start_time: u64,
    pub duration: u64,
    pub claimed_amount: i128,
}

impl Clone for VestingData {
    fn clone(&self) -> (r: VestingData)
        ensures
            r == *self,
    {
        VestingData {
            beneficiary: self.beneficiary.clone(),
            total_amount: self.total_amount,
            start_time: self.start_time,
            duration: self.duration,
            claimed_amount: self.claimed_amount,
        }
    }
}

impl VestingData {
    /// A positive amount over a positive duration, of which between none and
    /// all has been claimed.
    pub open spec fn wf(self) -> bool {
        &&& self.total_amount > 0
        &&& self.duration > 0
        &&& 0 <= self.claimed_amount <= self.total_amount
    }
}

/// The amount of `v` vested at time `t`: nothing before the start, all of it
/// once the duration has passed, and in between the share of the total that
/// the elapsed time is of the duration, rounded down.
pub open spec fn vested(v: VestingData, t: u64) -> int {
    if t < v.start_time {
        0
    } else if t - v.start_time >= v.duration {
        v.total_amount as int
    } else {
        (v.total_amount * (t - v.start_time)) / (v.duration as int)
    }
}

/// What the beneficiary of `v` can claim at time `t`.
pub open spec fn available(v: VestingData, t: u64) -> int {
    vested(v, t) - v.claimed_amount
}

/// The vesting wallet's storage: admin and token slots, and the schedules
/// keyed by beneficiary.
pub struct VestingState {
    pub admin: Option<Identity>,
    pub token: Option<Identity>,
    pub vestings: Map<Seq<char>, VestingData>,
}

impl VestingState {
    /// The token is bound exactly when there is an admin, and each schedule is
    /// well formed and stored under its beneficiary.
    pub open spec fn wf(self) -> bool {
        &&& (self.admin is Some <==> self.token is Some)
        &&& forall|k: Seq<char>| #[trigger]
            self.vestings.contains_key(k) ==> self.vestings[k].beneficiary@ == k
                && self.vestings[k].wf()
    }
}

pub open spec fn admin_check(s: VestingState, caller: Identity) -> Result<(), VestingError> {
    match s.admin {
        None => Err(VestingError::NotInitialized),
        Some(a) => if a@ == caller@ {
            Ok(())
        } else {
            Err(VestingError::Unauthorized)
        },
    }
}

pub open spec fn initialize_spec(s: VestingState, admin: Identity, token: Identity) -> (VestingState, Result<(), VestingError>) {
    if s.admin is Some {
        (s, Err(VestingError::AlreadyInitialized))
    } else {
        (VestingState { admin: Some(admin), token: Some(token), ..s }, Ok(()))
    }
}

pub open spec fn create_vesting_spec(
    s: VestingState,
    now: u64,
    admin: Identity,
    beneficiary: Identity,
    amount: i128,
    start_time: u64,
    duration: u64,
) -> (VestingState, Result<(), VestingError>) {
    if admin_check(s, admin) is Err {
        (s, admin_check(s, admin))
    } else if amount <= 0 {
        (s, Err(VestingError::InvalidAmount))
    } else if duration == 0 {
        (s, Err(VestingError::InvalidDuration))
    } else if start_time < now {
        (s, Err(VestingError::InvalidStartTime))
    } else if s.token is None {
        (s, Err(VestingError::NotInitialized))
    } else {
        let v = VestingData {
            beneficiary,
            total_amount: amount,
            start_time,
            duration,
            claimed_amount: 0,
        };
        (VestingState { vestings: s.vestings.insert(beneficiary@, v), ..s }, Ok(()))
    }
}

/// What a schedule that replaces the one of `beneficiary` hands back to the
/// admin: its unclaimed remainder, if any.
pub open spec fn refund_of(s: VestingState, beneficiary: Seq<char>) -> int {
    if s.vestings.contains_key(beneficiary) {
        let v = s.vestings[beneficiary];
        if v.total_amount - v.claimed_amount > 0 {
            v.total_amount - v.claimed_amount
        } else {
            0
        }
    } else {
        0
    }
}

/// The transfers of a successful `create_vesting`: the refund of the replaced
/// schedule, if any, then the funding of the new one.
pub open spec fn create_vesting_transfers(
    s: VestingState,
    contract: Identity,
    admin: Identity,
    beneficiary: Identity,
    amount: i128,
) -> Seq<Transfer> {
    let token = s.token->0;
    let fund = Transfer { token, from: admin, to: contract, amount };
    if refund_of(s, beneficiary@) > 0 {
        seq![
            Transfer { token, from: contract, to: admin, amount: refund_of(s, beneficiary@) as i128 },
            fund,
        ]
    } else {
        seq![fund]
    }
}

/// What a read of the claimable amount of `beneficiary` at time `now`
/// returns.
pub open spec fn claimable_spec(s: VestingState, now: u64, beneficiary: Seq<char>) -> Result<i128, VestingError> {
    if s.vestings.contains_key(beneficiary) {
        Ok(available(s.vestings[beneficiary], now) as i128)
    } else {
        Err(VestingError::VestingNotFound)
    }
}

pub open spec fn claim_spec(s: VestingState, now: u64, beneficiary: Identity) -> (VestingState, Result<i128, VestingError>) {
    if s.admin is None {
        (s, Err(VestingError::NotInitialized))
    } else if !s.vestings.contains_key(beneficiary@) {
        (s, Err(VestingError::VestingNotFound))
    } else {
        let v = s.vestings[beneficiary@];
        let a = available(v, now);
        if a <= 0 {
            (s, Err(VestingError::NothingToClaim))
        } else if s.token is None {
            (s, Err(VestingError::NotInitialized))
        } else {
            let claimed = VestingData { claimed_amount: (v.claimed_amount + a) as i128, ..v };
            (VestingState { vestings: s.vestings.insert(beneficiary@, claimed), ..s }, Ok(a as i128))
        }
    }
}

pub open spec fn set_admin_spec(s: VestingState, current_admin: Identity, new_admin: Identity) -> (VestingState, Result<(), VestingError>) {
    if admin_check(s, current_admin) is Err {
        (s, admin_check(s, current_admin))
    } else {
        (VestingState { admin: Some(new_admin), ..s }, Ok(()))
    }
}

/// The floor of `total * elapsed / duration`, split so that each part fits.
proof fn lemma_linear_share(total: int, elapsed: int, duration: int)
    requires
        total >= 0,
        0 <= elapsed < duration,
    ensures
        (total * elapsed) / duration == (total / duration) * elapsed + ((total % duration)
            * elapsed) / duration,
        0 <= (total / duration) * elapsed <= total,
        0 <= (total % duration) * elapsed < duration * duration,
        0 <= (total * elapsed) / duration <= total,
{
    let q = total / duration;
    let r = total % duration;
    lemma_fundamental_div_mod(total, duration);
    assert(0 <= r < duration);
    assert(q >= 0) by {
        lemma_div_is_ordered(0, total, duration);
    }
    assert(total * elapsed == r * elapsed + (q * elapsed) * duration) by (nonlinear_arith)
        requires
            total == duration * q + r,
    ;
    lemma_hoist_over_denominator(r * elapsed, q * elapsed, duration as nat);
    lemma_mul_inequality(elapsed, duration, q);
    assert(q * duration <= total) by (nonlinear_arith)
        requires
            total == duration * q + r,
            r >= 0,
    ;
    assert(0 <= q * elapsed) by (nonlinear_arith)
        requires
            q >= 0,
            elapsed >= 0,
    ;
    assert(0 <= r * elapsed < duration * duration) by (nonlinear_arith)
        requires
            0 <= r < duration,
            0 <= elapsed < duration,
    ;
    lemma_mul_inequality(elapsed, duration, total);
    assert(0 <= total * elapsed) by (nonlinear_arith)
        requires
            total >= 0,
            elapsed >= 0,
    ;
    lemma_div_is_ordered(total * elapsed, total * duration, duration);
    assert(total * duration == duration * total) by (nonlinear_arith);
    lemma_div_by_multiple(total, duration);
    lemma_div_is_ordered(0, total * elapsed, duration);
}

/// The vested amount never decreases as time goes on.
pub proof fn lemma_vested_monotonic(v: VestingData, t1: u64, t2: u64)
    requires
        v.wf(),
        t1 <= t2,
    ensures
        0 <= vested(v, t1) <= vested(v, t2) <= v.total_amount,
{
    if t1 >= v.start_time && t1 - v.start_time < v.duration {
        lemma_linear_share(v.total_amount as int, t1 - v.start_time, v.duration as int);
    }
    if t2 >= v.start_time && t2 - v.start_time < v.duration {
        lemma_linear_share(v.total_amount as int, t2 - v.start_time, v.duration as int);
        if t1 >= v.start_time {
            lemma_mul_inequality(
                (t1 - v.start_time) as int,
                (t2 - v.start_time) as int,
                v.total_amount as int,
            );
            assert(v.total_amount * (t1 - v.start_time) == (t1 - v.start_time) * v.total_amount)
                by (nonlinear_arith);
            assert(v.total_amount * (t2 - v.start_time) == (t2 - v.start_time) * v.total_amount)
                by (nonlinear_arith);
            lemma_div_is_ordered(
                v.total_amount * (t1 - v.start_time),
                v.total_amount * (t2 - v.start_time),
                v.duration as int,
            );
        }
    }
}

pub open spec fn vesting_key() -> spec_fn(VestingData) -> Seq<char> {
    |v: VestingData| v.beneficiary@
}

/// The vesting wallet: per-beneficiary linear schedules of one token, funded
/// by the admin.
pub struct VestingWalletContract {
    admin: Option<Identity>,
    token: Option<Identity>,
    vestings: Vec<VestingData>,
}

impl View for VestingWalletContract {
    type V = VestingState;

    closed spec fn view(&self) -> VestingState {
        VestingState {
            admin: self.admin,
            token: self.token,
            vestings: index_by(self.vestings@, vesting_key()),
        }
    }
}

impl VestingWalletContract {
    /// The amount `vesting` makes claimable at `current_time`: what has vested
    /// by then, less what was claimed.
    pub fn calculate_claimable_amount(current_time: u64, vesting: &VestingData) -> (r: i128)
        requires
            vesting.wf(),
        ensures
            r == available(*vesting, current_time),
    {
        if current_time < vesting.start_time {
            0 - vesting.claimed_amount
        } else if current_time - vesting.start_time >= vesting.duration {
            vesting.total_amount - vesting.claimed_amount
        } else {
            let elapsed = (current_time - vesting.start_time) as u128;
            let total = vesting.total_amount as u128;
            let duration = vesting.duration as u128;
            proof {
                lemma_linear_share(total as int, elapsed as int, duration as int);
                assert(duration * duration <= u64::MAX * u64::MAX) by (nonlinear_arith)
                    requires
                        duration <= u64::MAX,
                ;
            }
            let whole = (total / duration) * elapsed;
            let part = ((total % duration) * elapsed) / duration;
            let total_vested = (whole + part) as i128;
            total_vested - vesting.claimed_amount
        }
    }

    pub closed spec fn wf(&self) -> bool {
        &&& distinct_keys(self.vestings@, vesting_key())
        &&& self@.wf()
    }

    /// A wallet with empty storage, not yet initialized.
    pub fn new() -> (r: VestingWalletContract)
        ensures
            r.wf(),
            r@.admin is None,
            r@.token is None,
            r@.vestings.is_empty(),
    {
        let r = VestingWalletContract { admin: None, token: None, vestings: Vec::new() };
        assert(r@.vestings =~= Map::empty());
        r
    }

    /// The wallet as one invocation loads it from storage: the admin and token
    /// slots and, if stored, the schedule that the invocation concerns. `None`
    /// when these do not form a well-formed wallet.
    pub fn from_storage(admin: Option<Identity>, token: Option<Identity>, vesting: Option<VestingData>) -> (r: Option<VestingWalletContract>)
        ensures
            r is Some <==> (admin is Some <==> token is Some) && match vesting {
                Some(v) => v.wf(),
                None => true,
            },
            r matches Some(w) ==> {
                &&& w.wf()
                &&& w@.admin == admin
                &&& w@.token == token
                &&& w@.vestings == match vesting {
                    Some(v) => Map::<Seq<char>, VestingData>::empty().insert(v.beneficiary@, v),
                    None => Map::empty(),
                }
            },
    {
        if admin.is_some() != token.is_some() {
            return None;
        }
        let mut r = VestingWalletContract::new();
        r.admin = admin;
        r.token = token;
        match vesting {
            Some(v) => {
                if v.total_amount <= 0 || v.duration == 0 || v.claimed_amount < 0
                    || v.claimed_amount > v.total_amount {
                    return None;
                }
                proof {
                    lemma_index_by_push(r.vestings@, vesting_key(), v);
                    lemma_distinct_push(r.vestings@, vesting_key(), v);
                }
                r.vestings.push(v);
            },
            None => {},
        }
        Some(r)
    }

    fn find(&self, beneficiary: &Identity) -> (r: Option<usize>)
        requires
            self.wf(),
        ensures
            match r {
                Some(i) => {
                    &&& i < self.vestings@.len()
                    &&& self@.vestings.contains_key(beneficiary@)
                    &&& self@.vestings[beneficiary@] == self.vestings@[i as int]
                },
                None => !self@.vestings.contains_key(beneficiary@),
            },
    {
        let mut i: usize = 0;
        while i < self.vestings.len()
            invariant
                self.wf(),
                i <= self.vestings@.len(),
                forall|j: int| 0 <= j < i ==> self.vestings@[j].beneficiary@ != beneficiary@,
            decreases self.vestings@.len() - i,
        {
            if self.vestings[i].beneficiary == *beneficiary {
                proof {
                    lemma_index_by_at(self.vestings@, vesting_key(), i as int);
                }
                return Some(i);
            }
            i += 1;
        }
        proof {
            lemma_index_by_dom(self.vestings@, vesting_key(), beneficiary@);
        }
        None
    }

    /// Sets the admin and binds the token of a fresh wallet; `admin` must
    /// authorize it.
    pub fn initialize(&mut self, inv: &mut Invocation, admin: Identity, token: Identity) -> (r: Result<(), VestingError>)
        requires
            old(self).wf(),
        ensures
            final(self).wf(),
            (final(self)@, r) == initialize_spec(old(self)@, admin, token),
            final(inv).auths@ == auths_after(old(inv).auths@, old(self)@.admin is None, admin),
            final(inv).same_but_auths(old(inv)),
    {
        if self.admin.is_some() {
            return Err(VestingError::AlreadyInitialized);
        }
        inv.require_auth(&admin);
        self.admin = Some(admin);
        self.token = Some(token);
        assert(self@.vestings == old(self)@.vestings);
        Ok(())
    }

    /// Installs a schedule of `amount` for `beneficiary`, funded by the admin,
    /// who must authorize it. A schedule it replaces first hands its unclaimed
    /// remainder back to the admin.
    pub fn create_vesting(
        &mut self,
        inv: &mut Invocation,
        admin: Identity,
        beneficiary: Identity,
        amount: i128,
        start_time: u64,
        duration: u64,
    ) -> (r: Result<(), VestingError>)
        requires
            old(self).wf(),
        ensures
            final(self).wf(),
            (final(self)@, r) == create_vesting_spec(
                old(self)@,
                old(inv).now,
                admin,
                beneficiary,
                amount,
                start_time,
                duration,
            ),
            final(inv).auths@ == auths_after(old(inv).auths@, admin_check(old(self)@, admin) is Ok, admin),
            final(inv).now == old(inv).now,
            final(inv).contract == old(inv).contract,
            final(inv).code_update == old(inv).code_update,
            final(inv).transfers@ == if r is Ok {
                old(inv).transfers@ + create_vesting_transfers(
                    old(self)@,
                    old(inv).contract,
                    admin,
                    beneficiary,
                    amount,
                )
            } else {
                old(inv).transfers@
            },
            final(inv).events@ == if r is Ok {
                old(inv).events@.push(
                    Event::VestingCreated(
                        VestingCreatedEvent { beneficiary, amount, start_time, duration },
                    ),
                )
            } else {
                old(inv).events@
            },
    {
        match &self.admin {
            None => return Err(VestingError::NotInitialized),
            Some(a) => if *a != admin {
                return Err(VestingError::Unauthorized);
            },
        }
        inv.require_auth(&admin);
        if amount <= 0 {
            return Err(VestingError::InvalidAmount);
        }
        if duration == 0 {
            return Err(VestingError::InvalidDuration);
        }
        if start_time < inv.now {
            return Err(VestingError::InvalidStartTime);
        }
        let token = match &self.token {
            None => return Err(VestingError::NotInitialized),
            Some(t) => t.clone(),
        };
        let contract = inv.contract.clone();
        let ghost transfers0 = inv.transfers@;
        let found = self.find(&beneficiary);
        match found {
            Some(i) => {
                let existing = &self.vestings[i];
                let remaining = existing.total_amount - existing.claimed_amount;
                if remaining > 0 {
                    inv.transfer(&token, &contract, &admin, remaining);
                }
            },
            None => {},
        }
        inv.transfer(&token, &admin, &contract, amount);
        let vesting = VestingData {
            beneficiary: beneficiary.clone(),
            total_amount: amount,
            start_time,
            duration,
            claimed_amount: 0,
        };
        match found {
            Some(i) => {
                proof {
                    lemma_index_by_update(self.vestings@, vesting_key(), i as int, vesting);
                }
                self.vestings.set(i, vesting);
            },
            None => {
                proof {
                    lemma_distinct_push(self.vestings@, vesting_key(), vesting);
                    lemma_index_by_push(self.vestings@, vesting_key(), vesting);
                }
                self.vestings.push(vesting);
            },
        }
        assert(inv.transfers@ =~= transfers0 + create_vesting_transfers(
            old(self)@,
            old(inv).contract,
            admin,
            beneficiary,
            amount,
        ));
        inv.emit(
            Event::VestingCreated(VestingCreatedEvent { beneficiary, amount, start_time, duration }),
        );
        Ok(())
    }

    /// Pays out to `beneficiary`, who must authorize it, what has vested and
    /// not yet been claimed, and returns that amount.
    pub fn claim(&mut self, inv: &mut Invocation, beneficiary: Identity) -> (r: Result<i128, VestingError>)
        requires
            old(self).wf(),
        ensures
            final(self).wf(),
            (final(self)@, r) == claim_spec(old(self)@, old(inv).now, beneficiary),
            final(inv).auths@ == auths_after(old(inv).auths@, old(self)@.admin is Some, beneficiary),
            final(inv).now == old(inv).now,
            final(inv).contract == old(inv).contract,
            final(inv).code_update == old(inv).code_update,
            final(inv).transfers@ == match r {
                Ok(a) => old(inv).transfers@.push(
                    (Transfer {
                        token: old(self)@.token->0,
                        from: old(inv).contract,
                        to: beneficiary,
                        amount: a,
                    }),
                ),
                Err(_) => old(inv).transfers@,
            },
            final(inv).events@ == match r {
                Ok(a) => old(inv).events@.push(
                    Event::TokensClaimed(
                        TokensClaimedEvent {
                            beneficiary: old(self)@.vestings[beneficiary@].beneficiary,
                            amount_claimed: a,
                            remaining: (final(self)@.vestings[beneficiary@].total_amount
                                - final(self)@.vestings[beneficiary@].claimed_amount) as i128,
                        },
                    ),
                ),
                Err(_) => old(inv).events@,
            },
    {
        if self.admin.is_none() {
            return Err(VestingError::NotInitialized);
        }
        inv.require_auth(&beneficiary);
        let i = match self.find(&beneficiary) {
            None => return Err(VestingError::VestingNotFound),
            Some(i) => i,
        };
        let current = &self.vestings[i];
        let available_amount = Self::calculate_claimable_amount(inv.now, current);
        if available_amount <= 0 {
            return Err(VestingError::NothingToClaim);
        }
        let token = match &self.token {
            None => return Err(VestingError::NotInitialized),
            Some(t) => t.clone(),
        };
        proof {
            lemma_vested_monotonic(*current, inv.now, inv.now);
        }
        let contract = inv.contract.clone();
        inv.transfer(&token, &contract, &beneficiary, available_amount);
        let updated = VestingData {
            beneficiary: current.beneficiary.clone(),
            total_amount: current.total_amount,
            start_time: current.start_time,
            duration: current.duration,
            claimed_amount: current.claimed_amount + available_amount,
        };
        let remaining = updated.total_amount - updated.claimed_amount;
        let event = TokensClaimedEvent {
            beneficiary: updated.beneficiary.clone(),
            amount_claimed: available_amount,
            remaining,
        };
        proof {
            lemma_index_by_update(self.vestings@, vesting_key(), i as int, updated);
        }
        self.vestings.set(i, updated);
        proof {
            lemma_index_by_at(self.vestings@, vesting_key(), i as int);
        }
        inv.emit(Event::TokensClaimed(event));
        Ok(available_amount)
    }

    /// What `beneficiary` could claim now, without claiming it.
    pub fn get_claimable(&self, inv: &Invocation, beneficiary: &Identity) -> (r: Result<i128, VestingError>)
        requires
            self.wf(),
        ensures
            r == claimable_spec(self@, inv.now, beneficiary@),
    {
        match self.find(beneficiary) {
            None => Err(VestingError::VestingNotFound),
            Some(i) => Ok(Self::calculate_claimable_amount(inv.now, &self.vestings[i])),
        }
    }

    pub fn get_vesting(&self, beneficiary: &Identity) -> (r: Result<VestingData, VestingError>)
        requires
            self.wf(),
        ensures
            r == if self@.vestings.contains_key(beneficiary@) {
                Ok(self@.vestings[beneficiary@])
            } else {
                Err(VestingError::VestingNotFound)
            },
    {
        match self.find(beneficiary) {
            None => Err(VestingError::VestingNotFound),
            Some(i) => Ok(self.vestings[i].clone()),
        }
    }

    /// What `beneficiary` could claim now; the same as [`Self::get_claimable`].
    pub fn get_available_amount(&self, inv: &Invocation, beneficiary: &Identity) -> (r: Result<i128, VestingError>)
        requires
            self.wf(),
        ensures
            r == claimable_spec(self@, inv.now, beneficiary@),
    {
        match self.find(beneficiary) {
            None => Err(VestingError::VestingNotFound),
            Some(i) => Ok(Self::calculate_claimable_amount(inv.now, &self.vestings[i])),
        }
    }

    pub fn get_admin(&self) -> (r: Result<Identity, VestingError>)
        ensures
            r == match self@.admin {
                Some(a) => Ok(a),
                None => Err(VestingError::NotInitialized),
            },
    {
        match &self.admin {
            Some(a) => Ok(a.clone()),
            None => Err(VestingError::NotInitialized),
        }
    }

    pub fn get_token(&self) -> (r: Result<Identity, VestingError>)
        ensures
            r == match self@.token {
                Some(t) => Ok(t),
                None => Err(VestingError::NotInitialized),
            },
    {
        match &self.token {
            Some(t) => Ok(t.clone()),
            None => Err(VestingError::NotInitialized),
        }
    }

    /// Replaces the contract code by the code with hash `new_wasm_hash`; only
    /// the admin may, and must authorize it. Storage is kept.
    pub fn upgrade(&self, inv: &mut Invocation, caller: Identity, new_wasm_hash: [u8; 32]) -> (r: Result<(), VestingError>)
        ensures
            r == admin_check(self@, caller),
            final(inv).auths@ == auths_after(old(inv).auths@, r is Ok, caller),
            final(inv).now == old(inv).now,
            final(inv).contract == old(inv).contract,
            final(inv).transfers == old(inv).transfers,
            final(inv).code_update == if r is Ok { Some(new_wasm_hash) } else { old(inv).code_update },
            final(inv).events@ == if r is Ok {
                old(inv).events@.push(Event::Upgraded(UpgradedEvent { admin: caller, new_wasm_hash }))
            } else {
                old(inv).events@
            },
    {
        match &self.admin {
            None => return Err(VestingError::NotInitialized),
            Some(a) => if *a != caller {
                return Err(VestingError::Unauthorized);
            },
        }
        inv.require_auth(&caller);
        inv.update_code(new_wasm_hash);
        inv.emit(Event::Upgraded(UpgradedEvent { admin: caller, new_wasm_hash }));
        Ok(())
    }

    /// Passes the admin role from `current_admin`, who must hold it and
    /// authorize this, to `new_admin`.
    pub fn set_admin(&mut self, inv: &mut Invocation, current_admin: Identity, new_admin: Identity) -> (r: Result<(), VestingError>)
        requires
            old(self).wf(),
        ensures
            final(self).wf(),
            (final(self)@, r) == set_admin_spec(old(self)@, current_admin, new_admin),
            final(inv).auths@ == auths_after(old(inv).auths@, r is Ok, current_admin),
            final(inv).now == old(inv).now,
            final(inv).contract == old(inv).contract,
            final(inv).transfers == old(inv).transfers,
            final(inv).code_update == old(inv).code_update,
            final(inv).events@ == if r is Ok {
                old(inv).events@.push(
                    Event::AdminChanged(AdminChangedEvent { old_admin: current_admin, new_admin }),
                )
            } else {
                old(inv).events@
            },
    {
        match &self.admin {
            None => return Err(VestingError::NotInitialized),
            Some(a) => if *a != current_admin {
                return Err(VestingError::Unauthorized);
            },
        }
        inv.require_auth(&current_admin);
        self.admin = Some(new_admin.clone());
        assert(self@.vestings == old(self)@.vestings);
        inv.emit(Event::AdminChanged(AdminChangedEvent { old_admin: current_admin, new_admin }));
        Ok(())
    }
}

/// A claim pays exactly what `get_claimable` and `get_available_amount`,
/// which both return [`claimable_spec`], report at that moment, and succeeds
/// exactly when that is positive.
pub proof fn lemma_claim_pays_claimable(s: VestingState, now: u64, beneficiary: Identity)
    requires
        s.wf(),
        s.admin is Some,
        s.vestings.contains_key(beneficiary@),
    ensures
        claim_spec(s, now, beneficiary).1 is Ok <==> available(s.vestings[beneficiary@], now) > 0,
        claim_spec(s, now, beneficiary).1 is Ok ==> claim_spec(s, now, beneficiary).1
            == claimable_spec(s, now, beneficiary@),
{
}

/// After a claim at time `t` the claimed amount is what has vested by `t`; it
/// has not gone down; and at any later time it is at most what has vested
/// then. The wallet stays well formed.
pub proof fn lemma_claimed_within_vested(s: VestingState, beneficiary: Identity, t: u64, later: u64)
    requires
        s.wf(),
        s.vestings.contains_key(beneficiary@),
        claim_spec(s, t, beneficiary).1 is Ok,
        t <= later,
    ensures
        ({
            let v = s.vestings[beneficiary@];
            let w = claim_spec(s, t, beneficiary).0.vestings[beneficiary@];
            &&& w.claimed_amount == vested(v, t)
            &&& v.claimed_amount <= w.claimed_amount <= vested(w, later)
        }),
        claim_spec(s, t, beneficiary).0.wf(),
{
    let v = s.vestings[beneficiary@];
    lemma_vested_monotonic(v, t, later);
    let w = claim_spec(s, t, beneficiary).0.vestings[beneficiary@];
    assert(vested(w, later) == vested(v, later));
}

/// The wallet after a run of `claim` calls by `beneficiary` at the given
/// times, and the sum of what the successful ones paid.
pub open spec fn claim_run(s: VestingState, beneficiary: Identity, times: Seq<u64>) -> (VestingState, int)
    decreases times.len(),
{
    if times.len() == 0 {
        (s, 0)
    } else {
        let (before, paid) = claim_run(s, beneficiary, times.drop_last());
        let (after, r) = claim_spec(before, times.last(), beneficiary);
        match r {
            Ok(a) => (after, paid + a),
            Err(_) => (after, paid),
        }
    }
}

/// Over a run of claims at times that do not go back, starting from a
/// schedule with nothing claimed, the payments add up to the claimed amount in
/// storage, which is what has vested by the time of the last claim.
pub proof fn lemma_claims_add_up(s: VestingState, beneficiary: Identity, times: Seq<u64>)
    requires
        s.wf(),
        s.admin is Some,
        s.vestings.contains_key(beneficiary@),
        s.vestings[beneficiary@].claimed_amount == 0,
        times.len() > 0,
        forall|i: int, j: int| 0 <= i <= j < times.len() ==> times[i] <= times[j],
    ensures
        ({
            let (after, paid) = claim_run(s, beneficiary, times);
            let v = after.vestings[beneficiary@];
            &&& after.wf()
            &&& after.admin == s.admin
            &&& after.vestings.contains_key(beneficiary@)
            &&& v.claimed_amount == paid
            &&& v.claimed_amount == vested(s.vestings[beneficiary@], times.last())
            &&& v.total_amount == s.vestings[beneficiary@].total_amount
            &&& v.start_time == s.vestings[beneficiary@].start_time
            &&& v.duration == s.vestings[beneficiary@].duration
        }),
    decreases times.len(),
{
    let v0 = s.vestings[beneficiary@];
    let t = times.last();
    let (before, paid) = claim_run(s, beneficiary, times.drop_last());
    if times.len() == 1 {
        assert(times.drop_last().len() == 0);
        assert(before == s);
        lemma_vested_monotonic(v0, t, t);
    } else {
        let d = times.drop_last();
        assert forall|i: int, j: int| 0 <= i <= j < d.len() implies d[i] <= d[j] by {
            assert(d[i] == times[i] && d[j] == times[j]);
        }
        lemma_claims_add_up(s, beneficiary, d);
        assert(d.last() == times[times.len() - 2]);
        lemma_vested_monotonic(v0, d.last(), t);
    }
    let v = before.vestings[beneficiary@];
    assert(vested(v, t) == vested(v0, t));
    lemma_vested_monotonic(v, t, t);
}

/// After the admin role passes from `current_admin` to `new_admin`, the admin
/// check, and with it every admin-only operation, admits `new_admin` and no
/// one else: the previous admin is refused as `Unauthorized`.
pub proof fn lemma_rotation_hands_over(
    s: VestingState,
    current_admin: Identity,
    new_admin: Identity,
    caller: Identity,
    beneficiary: Identity,
    amount: i128,
    start_time: u64,
    duration: u64,
    now: u64,
)
    requires
        set_admin_spec(s, current_admin, new_admin).1 is Ok,
    ensures
        ({
            let rotated = set_admin_spec(s, current_admin, new_admin).0;
            &&& admin_check(rotated, caller) is Ok <==> caller@ == new_admin@
            &&& caller@ != new_admin@ ==> {
                &&& admin_check(rotated, caller) == Err::<(), VestingError>(VestingError::Unauthorized)
                &&& create_vesting_spec(rotated, now, caller, beneficiary, amount, start_time, duration) == (
                    rotated,
                    Err::<(), VestingError>(VestingError::Unauthorized),
                )
                &&& set_admin_spec(rotated, caller, new_admin) == (
                    rotated,
                    Err::<(), VestingError>(VestingError::Unauthorized),
                )
            }
        }),
{
}

} // verus!
