use vstd::prelude::*;
use crate::events::{AdminChangedEvent, Event, UpgradedEvent};
use crate::host::{auths_after, Invocation};
use crate::identity::Identity;
use crate::table::{
    distinct_keys, index_by, lemma_distinct_push, lemma_index_by_at, lemma_index_by_dom,
    lemma_index_by_push, lemma_index_by_update,
};

verus! {

/// Failures of the contributor registry, each with a stable code.
#[derive(Clone, Copy, Debug, PartialEq, Eq, Structural)]
pub enum ContributorError {
    NotInitialized,
    AlreadyInitialized,
    Unauthorized,
    ContributorNotFound,
    ContributorAlreadyExists,
    InvalidGitHubHandle,
    ReputationOverflow,
}

impl ContributorError {
    pub fn code(&self) -> (r: u32)
        ensures
            r == match *self {
                ContributorError::NotInitialized => 1u32,
                ContributorError::AlreadyInitialized => 2,
                ContributorError::Unauthorized => 3,
                ContributorError::ContributorNotFound => 4,
                ContributorError::ContributorAlreadyExists => 5,
                ContributorError::InvalidGitHubHandle => 6,
                ContributorError::ReputationOverflow => 7,
            },
    {
        match self {
            ContributorError::NotInitialized => 1,
            ContributorError::AlreadyInitialized => 2,
            ContributorError::Unauthorized => 3,
            ContributorError::ContributorNotFound => 4,
            ContributorError::ContributorAlreadyExists => 5,
            ContributorError::InvalidGitHubHandle => 6,
            ContributorError::ReputationOverflow => 7,
        }
    }
}

/// The profile of a registered contributor.
#[derive(Debug)]
pub struct ContributorData {
    pub address: Identity,
    pub github_handle: String,
    pub reputation_score: u64,
    pub registered_timestamp: u64,
}

impl Clone for ContributorData {
    fn clone(&self) -> (r: ContributorData)
        ensures
            r == *self,
    {
        ContributorData {
            address: self.address.clone(),
            github_handle: self.github_handle.clone(),
            reputation_score: self.reputation_score,
            registered_timestamp: self.registered_timestamp,
        }
    }
}

/// The registry's storage: the admin slot and the profiles keyed by address.
pub struct RegistryState {
    pub admin: Option<Identity>,
    pub contributors: Map<Seq<char>, ContributorData>,
}

impl RegistryState {
    /// Each profile is stored under its own address.
    pub open spec fn wf(self) -> bool {
        forall|k: Seq<char>| #[trigger]
            self.contributors.contains_key(k) ==> self.contributors[k].address@ == k
    }
}

/// The reputation that `delta` gives to `score`: a positive delta is added and
/// fails on overflow; any other delta subtracts its magnitude, down to 0 at
/// least. The magnitude of `i64::MIN`, which has no `i64` counterpart, counts
/// as 0.
pub open spec fn adjusted_reputation(score: u64, delta: i64) -> Option<u64> {
    if delta > 0 {
        if score + delta <= u64::MAX {
            Some((score + delta) as u64)
        } else {
            None
        }
    } else {
        let magnitude: int = if delta == i64::MIN {
            0
        } else {
            -delta
        };
        Some(
            if score >= magnitude {
                (score - magnitude) as u64
            } else {
                0
            },
        )
    }
}

pub open spec fn initialize_spec(s: RegistryState, admin: Identity) -> (RegistryState, Result<(), ContributorError>) {
    if s.admin is Some {
        (s, Err(ContributorError::AlreadyInitialized))
    } else {
        (RegistryState { admin: Some(admin), ..s }, Ok(()))
    }
}

pub open spec fn register_contributor_spec(
    s: RegistryState,
    now: u64,
    address: Identity,
    github_handle: String,
) -> (RegistryState, Result<(), ContributorError>) {
    if s.admin is None {
        (s, Err(ContributorError::NotInitialized))
    } else if github_handle@.len() == 0 {
        (s, Err(ContributorError::InvalidGitHubHandle))
    } else if s.contributors.contains_key(address@) {
        (s, Err(ContributorError::ContributorAlreadyExists))
    } else {
        let record = ContributorData {
            address,
            github_handle,
            reputation_score: 0,
            registered_timestamp: now,
        };
        (RegistryState { contributors: s.contributors.insert(address@, record), ..s }, Ok(()))
    }
}

/// The admin identity check: the slot must be filled, with `caller`.
pub open spec fn admin_check(s: RegistryState, caller: Identity) -> Result<(), ContributorError> {
    match s.admin {
        None => Err(ContributorError::NotInitialized),
        Some(a) => if a@ == caller@ {
            Ok(())
        } else {
            Err(ContributorError::Unauthorized)
        },
    }
}

pub open spec fn update_reputation_spec(
    s: RegistryState,
    admin: Identity,
    contributor_address: Identity,
    delta: i64,
) -> (RegistryState, Result<(), ContributorError>) {
    if admin_check(s, admin) is Err {
        (s, admin_check(s, admin))
    } else if !s.contributors.contains_key(contributor_address@) {
        (s, Err(ContributorError::ContributorNotFound))
    } else {
        let c = s.contributors[contributor_address@];
        match adjusted_reputation(c.reputation_score, delta) {
            None => (s, Err(ContributorError::ReputationOverflow)),
            Some(n) => (
                RegistryState {
                    contributors: s.contributors.insert(
                        contributor_address@,
                        ContributorData { reputation_score: n, ..c },
                    ),
                    ..s
                },
                Ok(()),
            ),
        }
    }
}

pub open spec fn set_admin_spec(s: RegistryState, current_admin: Identity, new_admin: Identity) -> (RegistryState, Result<(), ContributorError>) {
    if admin_check(s, current_admin) is Err {
        (s, admin_check(s, current_admin))
    } else {
        (RegistryState { admin: Some(new_admin), ..s }, Ok(()))
    }
}

pub open spec fn contributor_key() -> spec_fn(ContributorData) -> Seq<char> {
    |c: ContributorData| c.address@
}

/// Applies a reputation delta as [`adjusted_reputation`] describes.
pub fn adjust_reputation(score: u64, delta: i64) -> (r: Option<u64>)
    ensures
        r == adjusted_reputation(score, delta),
{
    if delta > 0 {
        score.checked_add(delta as u64)
    } else {
        let magnitude: u64 = if delta == i64::MIN {
            0
        } else {
            (-delta) as u64
        };
        Some(score.saturating_sub(magnitude))
    }
}

/// The contributor registry: identities, handles and admin-governed reputation.
pub struct ContributorRegistryContract {
    admin: Option<Identity>,
    contributors: Vec<ContributorData>,
}

impl View for ContributorRegistryContract {
    type V = RegistryState;

    closed spec fn view(&self) -> RegistryState {
        RegistryState { admin: self.admin, contributors: index_by(self.contributors@, contributor_key()) }
    }
}

impl ContributorRegistryContract {
    pub closed spec fn wf(&self) -> bool {
        &&& distinct_keys(self.contributors@, contributor_key())
        &&& self@.wf()
    }

    /// A registry with empty storage, not yet initialized.
    pub fn new() -> (r: ContributorRegistryContract)
        ensures
            r.wf(),
            r@.admin is None,
            r@.contributors.is_empty(),
    {
        let r = ContributorRegistryContract { admin: None, contributors: Vec::new() };
        assert(r@.contributors =~= Map::empty());
        r
    }

    /// The registry as one invocation loads it from storage: the admin slot
    /// and, if stored, the profile that the invocation concerns.
    pub fn from_storage(admin: Option<Identity>, contributor: Option<ContributorData>) -> (r: ContributorRegistryContract)
        ensures
            r.wf(),
            r@.admin == admin,
            r@.contributors == match contributor {
                Some(c) => Map::<Seq<char>, ContributorData>::empty().insert(c.address@, c),
                None => Map::empty(),
            },
    {
        let mut r = ContributorRegistryContract::new();
        r.admin = admin;
        match contributor {
            Some(c) => {
                proof {
                    lemma_index_by_push(r.contributors@, contributor_key(), c);
                    lemma_distinct_push(r.contributors@, contributor_key(), c);
                }
                r.contributors.push(c);
            },
            None => {},
        }
        r
    }

    /// Where the profile of `address` is stored, if anywhere.
    fn find(&self, address: &Identity) -> (r: Option<usize>)
        requires
            self.wf(),
        ensures
            match r {
                Some(i) => {
                    &&& i < self.contributors@.len()
                    &&& self@.contributors.contains_key(address@)
                    &&& self@.contributors[address@] == self.contributors@[i as int]
                },
                None => !self@.contributors.contains_key(address@),
            },
    {
        let mut i: usize = 0;
        while i < self.contributors.len()
            invariant
                self.wf(),
                i <= self.contributors@.len(),
                forall|j: int| 0 <= j < i ==> self.contributors@[j].address@ != address@,
            decreases self.contributors@.len() - i,
        {
            if self.contributors[i].address == *address {
                proof {
                    lemma_index_by_at(self.contributors@, contributor_key(), i as int);
                }
                return Some(i);
            }
            i += 1;
        }
        proof {
            lemma_index_by_dom(self.contributors@, contributor_key(), address@);
        }
        None
    }

    /// Sets the admin of a fresh registry; `admin` must authorize it.
    pub fn initialize(&mut self, inv: &mut Invocation, admin: Identity) -> (r: Result<(), ContributorError>)
        requires
            old(self).wf(),
        ensures
            final(self).wf(),
            (final(self)@, r) == initialize_spec(old(self)@, admin),
            final(inv).auths@ == auths_after(old(inv).auths@, old(self)@.admin is None, admin),
            final(inv).same_but_auths(old(inv)),
    {
        if self.admin.is_some() {
            return Err(ContributorError::AlreadyInitialized);
        }
        inv.require_auth(&admin);
        self.admin = Some(admin);
        assert(self@.contributors == old(self)@.contributors);
        Ok(())
    }

    /// Registers `address` under `github_handle`, with reputation 0 and the
    /// current time; `address` must authorize it.
    pub fn register_contributor(
        &mut self,
        inv: &mut Invocation,
        address: Identity,
        github_handle: String,
    ) -> (r: Result<(), ContributorError>)
        requires
            old(self).wf(),
        ensures
            final(self).wf(),
            (final(self)@, r) == register_contributor_spec(old(self)@, old(inv).now, address, github_handle),
            final(inv).auths@ == auths_after(old(inv).auths@, old(self)@.admin is Some, address),
            final(inv).same_but_auths(old(inv)),
    {
        if self.admin.is_none() {
            return Err(ContributorError::NotInitialized);
        }
        inv.require_auth(&address);
        if github_handle.as_str().is_empty() {
            return Err(ContributorError::InvalidGitHubHandle);
        }
        if self.find(&address).is_some() {
            return Err(ContributorError::ContributorAlreadyExists);
        }
        let record = ContributorData {
            address,
            github_handle,
            reputation_score: 0,
            registered_timestamp: inv.now,
        };
        proof {
            lemma_distinct_push(self.contributors@, contributor_key(), record);
            lemma_index_by_push(self.contributors@, contributor_key(), record);
        }
        self.contributors.push(record);
        Ok(())
    }

    /// Adjusts the reputation of `contributor_address` by `delta`; only the
    /// admin may, and must authorize it.
    pub fn update_reputation(
        &mut self,
        inv: &mut Invocation,
        admin: Identity,
        contributor_address: Identity,
        delta: i64,
    ) -> (r: Result<(), ContributorError>)
        requires
            old(self).wf(),
        ensures
            final(self).wf(),
            (final(self)@, r) == update_reputation_spec(old(self)@, admin, contributor_address, delta),
            final(inv).auths@ == auths_after(old(inv).auths@, admin_check(old(self)@, admin) is Ok, admin),
            final(inv).same_but_auths(old(inv)),
    {
        match &self.admin {
            None => return Err(ContributorError::NotInitialized),
            Some(a) => if *a != admin {
                return Err(ContributorError::Unauthorized);
            },
        }
        inv.require_auth(&admin);
        let i = match self.find(&contributor_address) {
            None => return Err(ContributorError::ContributorNotFound),
            Some(i) => i,
        };
        let current = &self.contributors[i];
        let score = match adjust_reputation(current.reputation_score, delta) {
            None => return Err(ContributorError::ReputationOverflow),
            Some(n) => n,
        };
        let updated = ContributorData {
            address: current.address.clone(),
            github_handle: current.github_handle.clone(),
            reputation_score: score,
            registered_timestamp: current.registered_timestamp,
        };
        proof {
            lemma_index_by_update(self.contributors@, contributor_key(), i as int, updated);
        }
        self.contributors.set(i, updated);
        Ok(())
    }

    pub fn get_reputation(&self, contributor: &Identity) -> (r: Result<u64, ContributorError>)
        requires
            self.wf(),
        ensures
            r == if self@.contributors.contains_key(contributor@) {
                Ok(self@.contributors[contributor@].reputation_score)
            } else {
                Err(ContributorError::ContributorNotFound)
            },
    {
        let data = self.get_contributor(contributor)?;
        Ok(data.reputation_score)
    }

    pub fn get_contributor(&self, address: &Identity) -> (r: Result<ContributorData, ContributorError>)
        requires
            self.wf(),
        ensures
            r == if self@.contributors.contains_key(address@) {
                Ok(self@.contributors[address@])
            } else {
                Err(ContributorError::ContributorNotFound)
            },
    {
        match self.find(address) {
            None => Err(ContributorError::ContributorNotFound),
            Some(i) => Ok(self.contributors[i].clone()),
        }
    }

    pub fn get_admin(&self) -> (r: Result<Identity, ContributorError>)
        ensures
            r == match self@.admin {
                Some(a) => Ok(a),
                None => Err(ContributorError::NotInitialized),
            },
    {
        match &self.admin {
            Some(a) => Ok(a.clone()),
            None => Err(ContributorError::NotInitialized),
        }
    }

    /// Replaces the contract code by the code with hash `new_wasm_hash`; only
    /// the admin may, and must authorize it. Storage is kept.
    pub fn upgrade(&self, inv: &mut Invocation, caller: Identity, new_wasm_hash: [u8; 32]) -> (r: Result<(), ContributorError>)
        ensures
            r == admin_check(self@, caller),
            final(inv).auths@ == auths_after(old(inv).auths@, r is Ok, caller),
            final(inv).now == old(inv).now,
            final(inv).contract == old(inv).contract,
            final(inv).transfers == old(inv).transfers,
            final(inv).code_update == if r is Ok { Some(new_wasm_hash) } else { old(inv).code_update },
            final(inv).events@ == if r is Ok {
                old(inv).events@.push(Event::Upgraded(UpgradedEvent { admin: caller, new_wasm_hash }))
            } else {
                old(inv).events@
            },
    {
        match &self.admin {
            None => return Err(ContributorError::NotInitialized),
            Some(a) => if *a != caller {
                return Err(ContributorError::Unauthorized);
            },
        }
        inv.require_auth(&caller);
        inv.update_code(new_wasm_hash);
        inv.emit(Event::Upgraded(UpgradedEvent { admin: caller, new_wasm_hash }));
        Ok(())
    }

    /// Passes the admin role from `current_admin`, who must hold it and
    /// authorize this, to `new_admin`.
    pub fn set_admin(&mut self, inv: &mut Invocation, current_admin: Identity, new_admin: Identity) -> (r: Result<(), ContributorError>)
        requires
            old(self).wf(),
        ensures
            final(self).wf(),
            (final(self)@, r) == set_admin_spec(old(self)@, current_admin, new_admin),
            final(inv).auths@ == auths_after(old(inv).auths@, r is Ok, current_admin),
            final(inv).now == old(inv).now,
            final(inv).contract == old(inv).contract,
            final(inv).transfers == old(inv).transfers,
            final(inv).code_update == old(inv).code_update,
            final(inv).events@ == if r is Ok {
                old(inv).events@.push(
                    Event::AdminChanged(AdminChangedEvent { old_admin: current_admin, new_admin }),
                )
            } else {
                old(inv).events@
            },
    {
        match &self.admin {
            None => return Err(ContributorError::NotInitialized),
            Some(a) => if *a != current_admin {
                return Err(ContributorError::Unauthorized);
            },
        }
        inv.require_auth(&current_admin);
        self.admin = Some(new_admin.clone());
        assert(self@.contributors == old(self)@.contributors);
        inv.emit(Event::AdminChanged(AdminChangedEvent { old_admin: current_admin, new_admin }));
        Ok(())
    }
}

/// Once an address is registered, registering it again fails with
/// `ContributorAlreadyExists` and changes nothing, whatever non-empty handle
/// is given (an empty handle is refused first, as `InvalidGitHubHandle`).
pub proof fn lemma_second_registration_fails(
    s: RegistryState,
    now: u64,
    later: u64,
    address: Identity,
    again: Identity,
    first_handle: String,
    second_handle: String,
)
    requires
        s.wf(),
        register_contributor_spec(s, now, address, first_handle).1 is Ok,
        again@ == address@,
        second_handle@.len() > 0,
    ensures
        ({
            let registered = register_contributor_spec(s, now, address, first_handle).0;
            register_contributor_spec(registered, later, again, second_handle) == (
                registered,
                Err::<(), ContributorError>(ContributorError::ContributorAlreadyExists),
            )
        }),
{
}

/// After the admin role passes from `current_admin` to `new_admin`, the admin
/// check, and with it every admin-only operation, admits `new_admin` and no
/// one else: the previous admin is refused as `Unauthorized`.
pub proof fn lemma_rotation_hands_over(
    s: RegistryState,
    current_admin: Identity,
    new_admin: Identity,
    caller: Identity,
    contributor: Identity,
    delta: i64,
)
    requires
        set_admin_spec(s, current_admin, new_admin).1 is Ok,
    ensures
        ({
            let rotated = set_admin_spec(s, current_admin, new_admin).0;
            &&& admin_check(rotated, caller) is Ok <==> caller@ == new_admin@
            &&& caller@ != new_admin@ ==> {
                &&& admin_check(rotated, caller) == Err::<(), ContributorError>(
                    ContributorError::Unauthorized,
                )
                &&& update_reputation_spec(rotated, caller, contributor, delta) == (
                    rotated,
                    Err::<(), ContributorError>(ContributorError::Unauthorized),
                )
                &&& set_admin_spec(rotated, caller, new_admin) == (
                    rotated,
                    Err::<(), ContributorError>(ContributorError::Unauthorized),
                )
            }
        }),
{
}

/// The registry after the admin role is passed on, by whoever holds it at
/// each step, to each of `new_admins` in turn.
pub open spec fn rotate_admins(s: RegistryState, new_admins: Seq<Identity>) -> RegistryState
    decreases new_admins.len(),
{
    if new_admins.len() == 0 {
        s
    } else {
        let before = rotate_admins(s, new_admins.drop_last());
        set_admin_spec(before, before.admin->0, new_admins.last()).0
    }
}

/// After any number of rotations, only the last admin set passes the admin
/// check; every earlier admin that differs from it is refused.
pub proof fn lemma_rotations_leave_last_admin(s: RegistryState, new_admins: Seq<Identity>, caller: Identity)
    requires
        s.admin is Some,
        new_admins.len() > 0,
    ensures
        rotate_admins(s, new_admins).admin == Some(new_admins.last()),
        admin_check(rotate_admins(s, new_admins), caller) is Ok <==> caller@ == new_admins.last()@,
    decreases new_admins.len(),
{
    let before = rotate_admins(s, new_admins.drop_last());
    if new_admins.len() > 1 {
        lemma_rotations_leave_last_admin(s, new_admins.drop_last(), caller);
    } else {
        assert(new_admins.drop_last().len() == 0);
        assert(before == s);
    }
    assert(before.admin is Some);
    assert(admin_check(before, before.admin->0) is Ok);
}

/// A positive delta, when accepted, raises the reputation; any other delta is
/// always accepted, and lowers the reputation by its magnitude, down to 0.
pub proof fn lemma_reputation_direction(
    s: RegistryState,
    admin: Identity,
    contributor: Identity,
    delta: i64,
)
    requires
        s.wf(),
        admin_check(s, admin) is Ok,
        s.contributors.contains_key(contributor@),
    ensures
        ({
            let (after, r) = update_reputation_spec(s, admin, contributor, delta);
            let before = s.contributors[contributor@].reputation_score;
            &&& delta > 0 && r is Ok ==> after.contributors[contributor@].reputation_score > before
            &&& delta <= 0 ==> r is Ok && after.contributors[contributor@].reputation_score
                <= before
            &&& delta <= 0 && delta != i64::MIN && before <= -delta ==> after.contributors[contributor@].reputation_score
                == 0
        }),
{
}

} // verus!
