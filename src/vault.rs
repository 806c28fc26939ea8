use vstd::prelude::*;
use crate::events::{
    AdminChangedEvent, DepositEvent, Event, InitializedEvent, MilestoneApprovedEvent,
    ProjectCreatedEvent, UpgradedEvent, WithdrawEvent,
};
use crate::host::{auths_after, Invocation, Transfer};
use crate::identity::Identity;
use crate::table::{
    distinct_keys, index_by, lemma_distinct_push, lemma_index_by_at, lemma_index_by_dom,
    lemma_index_by_push, lemma_index_by_update,
};

verus! {

/// Failures of the crowdfund vault, each with a stable code.
#[derive(Clone, Copy, Debug, PartialEq, Eq, Structural)]
pub enum CrowdfundError {
    NotInitialized,
    AlreadyInitialized,
    Unauthorized,
    ProjectNotFound,
    ProjectNotActive,
    InvalidAmount,
    MilestoneNotApproved,
    InsufficientBalance,
}

impl CrowdfundError {
    pub fn code(&self) -> (r: u32)
        ensures
            r == match *self {
                CrowdfundError::NotInitialized => 1u32,
                CrowdfundError::AlreadyInitialized => 2,
                CrowdfundError::Unauthorized => 3,
                CrowdfundError::ProjectNotFound => 4,
                CrowdfundError::ProjectNotActive => 5,
                CrowdfundError::InvalidAmount => 6,
                CrowdfundError::MilestoneNotApproved => 7,
                CrowdfundError::InsufficientBalance => 8,
            },
    {
        match self {
            CrowdfundError::NotInitialized => 1,
            CrowdfundError::AlreadyInitialized => 2,
            CrowdfundError::Unauthorized => 3,
            CrowdfundError::ProjectNotFound => 4,
            CrowdfundError::ProjectNotActive => 5,
            CrowdfundError::InvalidAmount => 6,
            CrowdfundError::MilestoneNotApproved => 7,
            CrowdfundError::InsufficientBalance => 8,
        }
    }
}

/// The keys under which the vault's storage lives: the admin and the next
/// project id in instance storage; per project its data, its escrowed balance
/// of the project's token, and its milestone flag.
#[derive(Debug)]
pub enum DataKey {
    Admin,
    Project(u64),
    ProjectBalance(u64, Identity),
    MilestoneApproved(u64),
    NextProjectId,
}

/// A crowdfunding project.
#[derive(Debug)]
pub struct ProjectData {
    pub id: u64,
    pub owner: Identity,
    pub name: String,
    pub target_amount: i128,
    pub token_address: Identity,
    pub total_deposited: i128,
    pub total_withdrawn: i128,
    pub is_active: bool,
}

impl Clone for ProjectData {
    fn clone(&self) -> (r: ProjectData)
        ensures
            r == *self,
    {
        ProjectData {
            id: self.id,
            owner: self.owner.clone(),
            name: self.name.clone(),
            target_amount: self.target_amount,
            token_address: self.token_address.clone(),
            total_deposited: self.total_deposited,
            total_withdrawn: self.total_withdrawn,
            is_active: self.is_active,
        }
    }
}

/// What the vault stores of one project: its data, the balance it holds in
/// escrow, and whether its milestone is approved.
#[derive(Debug)]
pub struct ProjectRecord {
    pub project: ProjectData,
    pub balance: i128,
    pub milestone_approved: bool,
}

impl ProjectRecord {
    /// The escrowed balance is what was deposited less what was withdrawn,
    /// and neither total is negative nor the second above the first.
    pub open spec fn wf(self) -> bool {
        &&& self.project.target_amount > 0
        &&& 0 <= self.project.total_withdrawn <= self.project.total_deposited
        &&& self.balance == self.project.total_deposited - self.project.total_withdrawn
    }
}

/// The vault's storage: the admin slot, the next project id, and the projects
/// keyed by id.
pub struct VaultState {
    pub admin: Option<Identity>,
    pub next_project_id: u64,
    pub projects: Map<u64, ProjectRecord>,
}

impl VaultState {
    /// Each project is well formed, stored under its own id, and has an id
    /// below the next one to be handed out; a vault without admin holds no
    /// project.
    pub open spec fn wf(self) -> bool {
        &&& (self.admin is None ==> self.projects.is_empty())
        &&& forall|pid: u64| #[trigger]
            self.projects.contains_key(pid) ==> {
                &&& self.projects[pid].wf()
                &&& self.projects[pid].project.id == pid
                &&& pid < self.next_project_id
            }
    }
}

pub open spec fn admin_check(s: VaultState, caller: Identity) -> Result<(), CrowdfundError> {
    match s.admin {
        None => Err(CrowdfundError::NotInitialized),
        Some(a) => if a@ == caller@ {
            Ok(())
        } else {
            Err(CrowdfundError::Unauthorized)
        },
    }
}

pub open spec fn initialize_spec(s: VaultState, admin: Identity) -> (VaultState, Result<(), CrowdfundError>) {
    if s.admin is Some {
        (s, Err(CrowdfundError::AlreadyInitialized))
    } else {
        (VaultState { admin: Some(admin), next_project_id: 0, ..s }, Ok(()))
    }
}

pub open spec fn create_project_spec(
    s: VaultState,
    owner: Identity,
    name: String,
    target_amount: i128,
    token_address: Identity,
) -> (VaultState, Result<u64, CrowdfundError>) {
    if s.admin is None {
        (s, Err(CrowdfundError::NotInitialized))
    } else if target_amount <= 0 {
        (s, Err(CrowdfundError::InvalidAmount))
    } else {
        let pid = s.next_project_id;
        let project = ProjectData {
            id: pid,
            owner,
            name,
            target_amount,
            token_address,
            total_deposited: 0,
            total_withdrawn: 0,
            is_active: true,
        };
        let record = ProjectRecord { project, balance: 0, milestone_approved: false };
        (
            VaultState {
                next_project_id: (pid + 1) as u64,
                projects: s.projects.insert(pid, record),
                ..s
            },
            Ok(pid),
        )
    }
}

pub open spec fn deposit_spec(s: VaultState, project_id: u64, amount: i128) -> (VaultState, Result<(), CrowdfundError>) {
    if s.admin is None {
        (s, Err(CrowdfundError::NotInitialized))
    } else if amount <= 0 {
        (s, Err(CrowdfundError::InvalidAmount))
    } else if !s.projects.contains_key(project_id) {
        (s, Err(CrowdfundError::ProjectNotFound))
    } else if !s.projects[project_id].project.is_active {
        (s, Err(CrowdfundError::ProjectNotActive))
    } else if s.projects[project_id].project.total_deposited + amount > i128::MAX {
        (s, Err(CrowdfundError::InvalidAmount))
    } else {
        let r = s.projects[project_id];
        let project = ProjectData {
            total_deposited: (r.project.total_deposited + amount) as i128,
            ..r.project
        };
        let record = ProjectRecord { project, balance: (r.balance + amount) as i128, ..r };
        (VaultState { projects: s.projects.insert(project_id, record), ..s }, Ok(()))
    }
}

pub open spec fn approve_milestone_spec(s: VaultState, admin: Identity, project_id: u64) -> (VaultState, Result<(), CrowdfundError>) {
    if admin_check(s, admin) is Err {
        (s, admin_check(s, admin))
    } else if !s.projects.contains_key(project_id) {
        (s, Err(CrowdfundError::ProjectNotFound))
    } else {
        let record = ProjectRecord { milestone_approved: true, ..s.projects[project_id] };
        (VaultState { projects: s.projects.insert(project_id, record), ..s }, Ok(()))
    }
}

pub open spec fn withdraw_spec(s: VaultState, project_id: u64, amount: i128) -> (VaultState, Result<(), CrowdfundError>) {
    if s.admin is None {
        (s, Err(CrowdfundError::NotInitialized))
    } else if !s.projects.contains_key(project_id) {
        (s, Err(CrowdfundError::ProjectNotFound))
    } else if !s.projects[project_id].project.is_active {
        (s, Err(CrowdfundError::ProjectNotActive))
    } else if amount <= 0 {
        (s, Err(CrowdfundError::InvalidAmount))
    } else if !s.projects[project_id].milestone_approved {
        (s, Err(CrowdfundError::MilestoneNotApproved))
    } else if s.projects[project_id].balance < amount {
        (s, Err(CrowdfundError::InsufficientBalance))
    } else {
        let r = s.projects[project_id];
        let project = ProjectData {
            total_withdrawn: (r.project.total_withdrawn + amount) as i128,
            ..r.project
        };
        let record = ProjectRecord { project, balance: (r.balance - amount) as i128, ..r };
        (VaultState { projects: s.projects.insert(project_id, record), ..s }, Ok(()))
    }
}

pub open spec fn set_admin_spec(s: VaultState, current_admin: Identity, new_admin: Identity) -> (VaultState, Result<(), CrowdfundError>) {
    if admin_check(s, current_admin) is Err {
        (s, admin_check(s, current_admin))
    } else {
        (VaultState { admin: Some(new_admin), ..s }, Ok(()))
    }
}

pub open spec fn project_key() -> spec_fn(ProjectRecord) -> u64 {
    |r: ProjectRecord| r.project.id
}

/// The crowdfund vault: per-project escrow, released to the project owner
/// once the admin has approved the project's milestone.
pub struct CrowdfundVaultContract {
    admin: Option<Identity>,
    next_project_id: u64,
    projects: Vec<ProjectRecord>,
}

impl View for CrowdfundVaultContract {
    type V = VaultState;

    closed spec fn view(&self) -> VaultState {
        VaultState {
            admin: self.admin,
            next_project_id: self.next_project_id,
            projects: index_by(self.projects@, project_key()),
        }
    }
}

impl CrowdfundVaultContract {
    pub closed spec fn wf(&self) -> bool {
        &&& distinct_keys(self.projects@, project_key())
        &&& self@.wf()
    }

    /// A vault with empty storage, not yet initialized.
    pub fn new() -> (r: CrowdfundVaultContract)
        ensures
            r.wf(),
            r@.admin is None,
            r@.next_project_id == 0,
            r@.projects.is_empty(),
    {
        let r = CrowdfundVaultContract { admin: None, next_project_id: 0, projects: Vec::new() };
        assert(r@.projects =~= Map::empty());
        r
    }

    /// The vault as one invocation loads it from storage: the admin slot, the
    /// next project id and, if stored, the project that the invocation
    /// concerns. `None` when these do not form a well-formed vault.
    pub fn from_storage(admin: Option<Identity>, next_project_id: u64, record: Option<ProjectRecord>) -> (r: Option<CrowdfundVaultContract>)
        ensures
            r is Some <==> match record {
                Some(p) => admin is Some && p.wf() && p.project.id < next_project_id,
                None => true,
            },
            r matches Some(v) ==> {
                &&& v.wf()
                &&& v@.admin == admin
                &&& v@.next_project_id == next_project_id
                &&& v@.projects == match record {
                    Some(p) => Map::<u64, ProjectRecord>::empty().insert(p.project.id, p),
                    None => Map::empty(),
                }
            },
    {
        let mut r = CrowdfundVaultContract::new();
        r.next_project_id = next_project_id;
        match record {
            Some(p) => {
                if admin.is_none() || p.project.target_amount <= 0 || p.project.total_withdrawn < 0
                    || p.project.total_withdrawn > p.project.total_deposited
                    || p.balance != p.project.total_deposited - p.project.total_withdrawn
                    || p.project.id >= next_project_id {
                    return None;
                }
                proof {
                    lemma_index_by_push(r.projects@, project_key(), p);
                    lemma_distinct_push(r.projects@, project_key(), p);
                }
                r.projects.push(p);
            },
            None => {},
        }
        r.admin = admin;
        Some(r)
    }

    /// The id that the next project created will get.
    pub fn next_project_id(&self) -> (r: u64)
        ensures
            r == self@.next_project_id,
    {
        self.next_project_id
    }

    fn find(&self, project_id: u64) -> (r: Option<usize>)
        requires
            self.wf(),
        ensures
            match r {
                Some(i) => {
                    &&& i < self.projects@.len()
                    &&& self@.projects.contains_key(project_id)
                    &&& self@.projects[project_id] == self.projects@[i as int]
                },
                None => !self@.projects.contains_key(project_id),
            },
    {
        let mut i: usize = 0;
        while i < self.projects.len()
            invariant
                self.wf(),
                i <= self.projects@.len(),
                forall|j: int| 0 <= j < i ==> self.projects@[j].project.id != project_id,
            decreases self.projects@.len() - i,
        {
            if self.projects[i].project.id == project_id {
                proof {
                    lemma_index_by_at(self.projects@, project_key(), i as int);
                }
                return Some(i);
            }
            i += 1;
        }
        proof {
            lemma_index_by_dom(self.projects@, project_key(), project_id);
        }
        None
    }

    /// Sets the admin of a fresh vault and starts project ids at 0; `admin`
    /// must authorize it.
    pub fn initialize(&mut self, inv: &mut Invocation, admin: Identity) -> (r: Result<(), CrowdfundError>)
        requires
            old(self).wf(),
        ensures
            final(self).wf(),
            (final(self)@, r) == initialize_spec(old(self)@, admin),
            final(inv).auths@ == auths_after(old(inv).auths@, old(self)@.admin is None, admin),
            final(inv).now == old(inv).now,
            final(inv).contract == old(inv).contract,
            final(inv).transfers == old(inv).transfers,
            final(inv).code_update == old(inv).code_update,
            final(inv).events@ == if r is Ok {
                old(inv).events@.push(Event::Initialized(InitializedEvent { admin }))
            } else {
                old(inv).events@
            },
    {
        if self.admin.is_some() {
            return Err(CrowdfundError::AlreadyInitialized);
        }
        inv.require_auth(&admin);
        self.admin = Some(admin.clone());
        self.next_project_id = 0;
        assert(self@.projects == old(self)@.projects);
        inv.emit(Event::Initialized(InitializedEvent { admin }));
        Ok(())
    }

    /// Opens a project of `owner`, who must authorize it, with a positive
    /// funding target in `token_address`, and returns its id.
    pub fn create_project(
        &mut self,
        inv: &mut Invocation,
        owner: Identity,
        name: String,
        target_amount: i128,
        token_address: Identity,
    ) -> (r: Result<u64, CrowdfundError>)
        requires
            old(self).wf(),
            old(self)@.next_project_id < u64::MAX,
        ensures
            final(self).wf(),
            (final(self)@, r) == create_project_spec(old(self)@, owner, name, target_amount, token_address),
            final(inv).auths@ == auths_after(old(inv).auths@, old(self)@.admin is Some, owner),
            final(inv).now == old(inv).now,
            final(inv).contract == old(inv).contract,
            final(inv).transfers == old(inv).transfers,
            final(inv).code_update == old(inv).code_update,
            final(inv).events@ == match r {
                Ok(pid) => old(inv).events@.push(
                    Event::ProjectCreated(
                        ProjectCreatedEvent { owner, token_address, project_id: pid },
                    ),
                ),
                Err(_) => old(inv).events@,
            },
    {
        if self.admin.is_none() {
            return Err(CrowdfundError::NotInitialized);
        }
        inv.require_auth(&owner);
        if target_amount <= 0 {
            return Err(CrowdfundError::InvalidAmount);
        }
        let project_id = self.next_project_id;
        let event = ProjectCreatedEvent {
            owner: owner.clone(),
            token_address: token_address.clone(),
            project_id,
        };
        let project = ProjectData {
            id: project_id,
            owner,
            name,
            target_amount,
            token_address,
            total_deposited: 0,
            total_withdrawn: 0,
            is_active: true,
        };
        let record = ProjectRecord { project, balance: 0, milestone_approved: false };
        assert(!self@.projects.contains_key(project_id));
        proof {
            lemma_distinct_push(self.projects@, project_key(), record);
            lemma_index_by_push(self.projects@, project_key(), record);
        }
        self.projects.push(record);
        self.next_project_id = project_id + 1;
        inv.emit(Event::ProjectCreated(event));
        Ok(project_id)
    }

    /// Moves `amount` of the project's token from `user`, who must authorize
    /// it, into the escrow of project `project_id`.
    pub fn deposit(&mut self, inv: &mut Invocation, user: Identity, project_id: u64, amount: i128) -> (r: Result<(), CrowdfundError>)
        requires
            old(self).wf(),
        ensures
            final(self).wf(),
            (final(self)@, r) == deposit_spec(old(self)@, project_id, amount),
            final(inv).auths@ == auths_after(old(inv).auths@, old(self)@.admin is Some, user),
            final(inv).now == old(inv).now,
            final(inv).contract == old(inv).contract,
            final(inv).code_update == old(inv).code_update,
            final(inv).transfers@ == if r is Ok {
                old(inv).transfers@.push(
                    (Transfer {
                        token: old(self)@.projects[project_id].project.token_address,
                        from: user,
                        to: old(inv).contract,
                        amount,
                    }),
                )
            } else {
                old(inv).transfers@
            },
            final(inv).events@ == if r is Ok {
                old(inv).events@.push(Event::Deposit(DepositEvent { user, project_id, amount }))
            } else {
                old(inv).events@
            },
    {
        if self.admin.is_none() {
            return Err(CrowdfundError::NotInitialized);
        }
        inv.require_auth(&user);
        if amount <= 0 {
            return Err(CrowdfundError::InvalidAmount);
        }
        let i = match self.find(project_id) {
            None => return Err(CrowdfundError::ProjectNotFound),
            Some(i) => i,
        };
        let current = &self.projects[i];
        if !current.project.is_active {
            return Err(CrowdfundError::ProjectNotActive);
        }
        let total_deposited = match current.project.total_deposited.checked_add(amount) {
            None => return Err(CrowdfundError::InvalidAmount),
            Some(t) => t,
        };
        let contract = inv.contract.clone();
        inv.transfer(&current.project.token_address, &user, &contract, amount);
        let project = ProjectData {
            id: current.project.id,
            owner: current.project.owner.clone(),
            name: current.project.name.clone(),
            target_amount: current.project.target_amount,
            token_address: current.project.token_address.clone(),
            total_deposited,
            total_withdrawn: current.project.total_withdrawn,
            is_active: current.project.is_active,
        };
        let record = ProjectRecord {
            project,
            balance: current.balance + amount,
            milestone_approved: current.milestone_approved,
        };
        proof {
            lemma_index_by_update(self.projects@, project_key(), i as int, record);
        }
        self.projects.set(i, record);
        inv.emit(Event::Deposit(DepositEvent { user, project_id, amount }));
        Ok(())
    }

    /// Approves the milestone of project `project_id`; only the admin may, and
    /// must authorize it. Approving twice changes nothing.
    pub fn approve_milestone(&mut self, inv: &mut Invocation, admin: Identity, project_id: u64) -> (r: Result<(), CrowdfundError>)
        requires
            old(self).wf(),
        ensures
            final(self).wf(),
            (final(self)@, r) == approve_milestone_spec(old(self)@, admin, project_id),
            final(inv).auths@ == auths_after(old(inv).auths@, admin_check(old(self)@, admin) is Ok, admin),
            final(inv).now == old(inv).now,
            final(inv).contract == old(inv).contract,
            final(inv).transfers == old(inv).transfers,
            final(inv).code_update == old(inv).code_update,
            final(inv).events@ == if r is Ok {
                old(inv).events@.push(
                    Event::MilestoneApproved(MilestoneApprovedEvent { admin, project_id }),
                )
            } else {
                old(inv).events@
            },
    {
        match &self.admin {
            None => return Err(CrowdfundError::NotInitialized),
            Some(a) => if *a != admin {
                return Err(CrowdfundError::Unauthorized);
            },
        }
        inv.require_auth(&admin);
        let i = match self.find(project_id) {
            None => return Err(CrowdfundError::ProjectNotFound),
            Some(i) => i,
        };
        let current = &self.projects[i];
        let record = ProjectRecord {
            project: current.project.clone(),
            balance: current.balance,
            milestone_approved: true,
        };
        proof {
            lemma_index_by_update(self.projects@, project_key(), i as int, record);
        }
        self.projects.set(i, record);
        inv.emit(Event::MilestoneApproved(MilestoneApprovedEvent { admin, project_id }));
        Ok(())
    }

    /// Pays `amount` out of the escrow of project `project_id` to its owner,
    /// who must authorize it; only once the milestone is approved, and not
    /// beyond the balance.
    pub fn withdraw(&mut self, inv: &mut Invocation, project_id: u64, amount: i128) -> (r: Result<(), CrowdfundError>)
        requires
            old(self).wf(),
        ensures
            final(self).wf(),
            (final(self)@, r) == withdraw_spec(old(self)@, project_id, amount),
            final(inv).auths@ == auths_after(
                old(inv).auths@,
                old(self)@.admin is Some && old(self)@.projects.contains_key(project_id),
                old(self)@.projects[project_id].project.owner,
            ),
            final(inv).now == old(inv).now,
            final(inv).contract == old(inv).contract,
            final(inv).code_update == old(inv).code_update,
            final(inv).transfers@ == if r is Ok {
                old(inv).transfers@.push(
                    (Transfer {
                        token: old(self)@.projects[project_id].project.token_address,
                        from: old(inv).contract,
                        to: old(self)@.projects[project_id].project.owner,
                        amount,
                    }),
                )
            } else {
                old(inv).transfers@
            },
            final(inv).events@ == if r is Ok {
                old(inv).events@.push(
                    Event::Withdraw(
                        WithdrawEvent {
                            owner: old(self)@.projects[project_id].project.owner,
                            project_id,
                            amount,
                        },
                    ),
                )
            } else {
                old(inv).events@
            },
    {
        if self.admin.is_none() {
            return Err(CrowdfundError::NotInitialized);
        }
        let i = match self.find(project_id) {
            None => return Err(CrowdfundError::ProjectNotFound),
            Some(i) => i,
        };
        let current = &self.projects[i];
        inv.require_auth(&current.project.owner);
        if !current.project.is_active {
            return Err(CrowdfundError::ProjectNotActive);
        }
        if amount <= 0 {
            return Err(CrowdfundError::InvalidAmount);
        }
        if !current.milestone_approved {
            return Err(CrowdfundError::MilestoneNotApproved);
        }
        if current.balance < amount {
            return Err(CrowdfundError::InsufficientBalance);
        }
        let contract = inv.contract.clone();
        inv.transfer(&current.project.token_address, &contract, &current.project.owner, amount);
        let project = ProjectData {
            id: current.project.id,
            owner: current.project.owner.clone(),
            name: current.project.name.clone(),
            target_amount: current.project.target_amount,
            token_address: current.project.token_address.clone(),
            total_deposited: current.project.total_deposited,
            total_withdrawn: current.project.total_withdrawn + amount,
            is_active: current.project.is_active,
        };
        let event = WithdrawEvent { owner: current.project.owner.clone(), project_id, amount };
        let record = ProjectRecord {
            project,
            balance: current.balance - amount,
            milestone_approved: current.milestone_approved,
        };
        proof {
            lemma_index_by_update(self.projects@, project_key(), i as int, record);
        }
        self.projects.set(i, record);
        inv.emit(Event::Withdraw(event));
        Ok(())
    }

    pub fn get_project(&self, project_id: u64) -> (r: Result<ProjectData, CrowdfundError>)
        requires
            self.wf(),
        ensures
            r == if self@.projects.contains_key(project_id) {
                Ok(self@.projects[project_id].project)
            } else {
                Err(CrowdfundError::ProjectNotFound)
            },
    {
        match self.find(project_id) {
            None => Err(CrowdfundError::ProjectNotFound),
            Some(i) => Ok(self.projects[i].project.clone()),
        }
    }

    /// The balance that project `project_id` holds in escrow.
    pub fn get_balance(&self, project_id: u64) -> (r: Result<i128, CrowdfundError>)
        requires
            self.wf(),
        ensures
            r == if self@.projects.contains_key(project_id) {
                Ok(self@.projects[project_id].balance)
            } else {
                Err(CrowdfundError::ProjectNotFound)
            },
    {
        match self.find(project_id) {
            None => Err(CrowdfundError::ProjectNotFound),
            Some(i) => Ok(self.projects[i].balance),
        }
    }

    pub fn is_milestone_approved(&self, project_id: u64) -> (r: Result<bool, CrowdfundError>)
        requires
            self.wf(),
        ensures
            r == if self@.projects.contains_key(project_id) {
                Ok(self@.projects[project_id].milestone_approved)
            } else {
                Err(CrowdfundError::ProjectNotFound)
            },
    {
        match self.find(project_id) {
            None => Err(CrowdfundError::ProjectNotFound),
            Some(i) => Ok(self.projects[i].milestone_approved),
        }
    }

    pub fn get_admin(&self) -> (r: Result<Identity, CrowdfundError>)
        ensures
            r == match self@.admin {
                Some(a) => Ok(a),
                None => Err(CrowdfundError::NotInitialized),
            },
    {
        match &self.admin {
            Some(a) => Ok(a.clone()),
            None => Err(CrowdfundError::NotInitialized),
        }
    }

    /// Replaces the contract code by the code with hash `new_wasm_hash`; only
    /// the admin may, and must authorize it. Storage is kept.
    pub fn upgrade(&self, inv: &mut Invocation, caller: Identity, new_wasm_hash: [u8; 32]) -> (r: Result<(), CrowdfundError>)
        ensures
            r == admin_check(self@, caller),
            final(inv).auths@ == auths_after(old(inv).auths@, r is Ok, caller),
            final(inv).now == old(inv).now,
            final(inv).contract == old(inv).contract,
            final(inv).transfers == old(inv).transfers,
            final(inv).code_update == if r is Ok { Some(new_wasm_hash) } else { old(inv).code_update },
            final(inv).events@ == if r is Ok {
                old(inv).events@.push(Event::Upgraded(UpgradedEvent { admin: caller, new_wasm_hash }))
            } else {
                old(inv).events@
            },
    {
        match &self.admin {
            None => return Err(CrowdfundError::NotInitialized),
            Some(a) => if *a != caller {
                return Err(CrowdfundError::Unauthorized);
            },
        }
        inv.require_auth(&caller);
        inv.update_code(new_wasm_hash);
        inv.emit(Event::Upgraded(UpgradedEvent { admin: caller, new_wasm_hash }));
        Ok(())
    }

    /// Passes the admin role from `current_admin`, who must hold it and
    /// authorize this, to `new_admin`.
    pub fn set_admin(&mut self, inv: &mut Invocation, current_admin: Identity, new_admin: Identity) -> (r: Result<(), CrowdfundError>)
        requires
            old(self).wf(),
        ensures
            final(self).wf(),
            (final(self)@, r) == set_admin_spec(old(self)@, current_admin, new_admin),
            final(inv).auths@ == auths_after(old(inv).auths@, r is Ok, current_admin),
            final(inv).now == old(inv).now,
            final(inv).contract == old(inv).contract,
            final(inv).transfers == old(inv).transfers,
            final(inv).code_update == old(inv).code_update,
            final(inv).events@ == if r is Ok {
                old(inv).events@.push(
                    Event::AdminChanged(AdminChangedEvent { old_admin: current_admin, new_admin }),
                )
            } else {
                old(inv).events@
            },
    {
        match &self.admin {
            None => return Err(CrowdfundError::NotInitialized),
            Some(a) => if *a != current_admin {
                return Err(CrowdfundError::Unauthorized);
            },
        }
        inv.require_auth(&current_admin);
        self.admin = Some(new_admin.clone());
        assert(self@.projects == old(self)@.projects);
        inv.emit(Event::AdminChanged(AdminChangedEvent { old_admin: current_admin, new_admin }));
        Ok(())
    }
}

/// Every vault operation keeps the vault well formed, so that after any
/// sequence of operations each project's escrowed balance is what was
/// deposited into it less what was withdrawn from it, and is not negative.
pub proof fn lemma_escrow_accounting(
    s: VaultState,
    caller: Identity,
    other: Identity,
    name: String,
    project_id: u64,
    amount: i128,
)
    requires
        s.wf(),
        s.next_project_id < u64::MAX,
    ensures
        initialize_spec(s, caller).0.wf(),
        create_project_spec(s, caller, name, amount, other).0.wf(),
        deposit_spec(s, project_id, amount).0.wf(),
        approve_milestone_spec(s, caller, project_id).0.wf(),
        withdraw_spec(s, project_id, amount).0.wf(),
        set_admin_spec(s, caller, other).0.wf(),
        s.projects.contains_key(project_id) ==> {
            let r = s.projects[project_id];
            &&& r.balance == r.project.total_deposited - r.project.total_withdrawn
            &&& r.balance >= 0
        },
{
    let c = create_project_spec(s, caller, name, amount, other).0;
    if s.admin is Some && amount > 0 {
        assert(!s.projects.contains_key(s.next_project_id));
        assert forall|pid: u64| #[trigger] c.projects.contains_key(pid) implies {
            &&& c.projects[pid].wf()
            &&& c.projects[pid].project.id == pid
            &&& pid < c.next_project_id
        } by {
            if pid != s.next_project_id {
                assert(s.projects.contains_key(pid));
            }
        }
    }
}

/// No withdrawal succeeds before the project's milestone is approved, nor
/// beyond its escrowed balance; and an approved milestone stays approved
/// through every operation.
pub proof fn lemma_withdrawal_gate(
    s: VaultState,
    caller: Identity,
    other: Identity,
    name: String,
    project_id: u64,
    pid: u64,
    amount: i128,
)
    requires
        s.wf(),
    ensures
        withdraw_spec(s, project_id, amount).1 is Ok ==> {
            &&& s.projects[project_id].milestone_approved
            &&& amount <= s.projects[project_id].balance
        },
        s.projects.contains_key(pid) ==> s.projects[pid].project.total_withdrawn
            <= s.projects[pid].project.total_deposited,
        s.projects.contains_key(pid) && s.projects[pid].milestone_approved ==> {
            &&& create_project_spec(s, caller, name, amount, other).0.projects[pid].milestone_approved
            &&& deposit_spec(s, project_id, amount).0.projects[pid].milestone_approved
            &&& approve_milestone_spec(s, caller, project_id).0.projects[pid].milestone_approved
            &&& withdraw_spec(s, project_id, amount).0.projects[pid].milestone_approved
            &&& set_admin_spec(s, caller, other).0.projects[pid].milestone_approved
        },
{
    if s.projects.contains_key(pid) {
        assert(pid < s.next_project_id);
    }
}

/// The ids that a run of `create_project` calls hands out, in order, and the
/// vault it leaves; each call is given owner, name, target and token.
pub open spec fn create_project_run(
    s: VaultState,
    calls: Seq<(Identity, String, i128, Identity)>,
) -> (VaultState, Seq<u64>)
    decreases calls.len(),
{
    if calls.len() == 0 {
        (s, Seq::empty())
    } else {
        let (before, ids) = create_project_run(s, calls.drop_last());
        let c = calls.last();
        let (after, r) = create_project_spec(before, c.0, c.1, c.2, c.3);
        match r {
            Ok(pid) => (after, ids.push(pid)),
            Err(_) => (after, ids),
        }
    }
}

/// Over any run of `create_project` calls the next project id grows by the
/// number of successful calls, and these are handed the ids that follow one
/// another from where the vault stood: 0, 1, 2, ... on a fresh vault.
pub proof fn lemma_project_ids_dense(s: VaultState, calls: Seq<(Identity, String, i128, Identity)>)
    requires
        s.next_project_id + calls.len() <= u64::MAX,
    ensures
        ({
            let (after, ids) = create_project_run(s, calls);
            &&& after.next_project_id == s.next_project_id + ids.len()
            &&& forall|i: int| 0 <= i < ids.len() ==> #[trigger] ids[i] == s.next_project_id + i
        }),
    decreases calls.len(),
{
    if calls.len() > 0 {
        lemma_project_ids_dense(s, calls.drop_last());
        let (before, ids) = create_project_run(s, calls.drop_last());
        let c = calls.last();
        let (after, r) = create_project_spec(before, c.0, c.1, c.2, c.3);
        assert(ids.len() <= calls.len() - 1) by {
            lemma_run_ids_bounded(s, calls.drop_last());
        }
        if r is Ok {
            let all = ids.push(r->Ok_0);
            assert forall|i: int| 0 <= i < all.len() implies #[trigger] all[i] == s.next_project_id + i by {
                if i < ids.len() {
                    assert(all[i] == ids[i]);
                }
            }
        }
    }
}

proof fn lemma_run_ids_bounded(s: VaultState, calls: Seq<(Identity, String, i128, Identity)>)
    ensures
        create_project_run(s, calls).1.len() <= calls.len(),
    decreases calls.len(),
{
    if calls.len() > 0 {
        lemma_run_ids_bounded(s, calls.drop_last());
    }
}

/// After the admin role passes from `current_admin` to `new_admin`, the admin
/// check, and with it every admin-only operation, admits `new_admin` and no
/// one else: the previous admin is refused as `Unauthorized`.
pub proof fn lemma_rotation_hands_over(
    s: VaultState,
    current_admin: Identity,
    new_admin: Identity,
    caller: Identity,
    project_id: u64,
)
    requires
        set_admin_spec(s, current_admin, new_admin).1 is Ok,
    ensures
        ({
            let rotated = set_admin_spec(s, current_admin, new_admin).0;
            &&& admin_check(rotated, caller) is Ok <==> caller@ == new_admin@
            &&& caller@ != new_admin@ ==> {
                &&& admin_check(rotated, caller) == Err::<(), CrowdfundError>(CrowdfundError::Unauthorized)
                &&& approve_milestone_spec(rotated, caller, project_id) == (
                    rotated,
                    Err::<(), CrowdfundError>(CrowdfundError::Unauthorized),
                )
                &&& set_admin_spec(rotated, caller, new_admin) == (
                    rotated,
                    Err::<(), CrowdfundError>(CrowdfundError::Unauthorized),
                )
            }
        }),
{
}

} // verus!
