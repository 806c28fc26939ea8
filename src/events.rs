use vstd::prelude::*;
use crate::identity::Identity;

verus! {

/// The contract code was replaced by the code with hash `new_wasm_hash`.
#[derive(Debug)]
pub struct UpgradedEvent {
    pub admin: Identity,
    pub new_wasm_hash: [u8; 32],
}

/// The admin role passed from `old_admin` to `new_admin`.
#[derive(Debug)]
pub struct AdminChangedEvent {
    pub old_admin: Identity,
    pub new_admin: Identity,
}

#[derive(Debug)]
pub struct InitializedEvent {
    pub admin: Identity,
}

#[derive(Debug)]
pub struct ProjectCreatedEvent {
    pub owner: Identity,
    pub token_address: Identity,
    pub project_id: u64,
}

#[derive(Debug)]
pub struct DepositEvent {
    pub user: Identity,
    pub project_id: u64,
    pub amount: i128,
}

#[derive(Debug)]
pub struct MilestoneApprovedEvent {
    pub admin: Identity,
    pub project_id: u64,
}

#[derive(Debug)]
pub struct WithdrawEvent {
    pub owner: Identity,
    pub project_id: u64,
    pub amount: i128,
}

#[derive(Debug)]
pub struct ContributorRegisteredEvent {
    pub contributor: Identity,
}

#[derive(Debug)]
pub struct ReputationUpdatedEvent {
    pub contributor: Identity,
    pub old_reputation: i128,
    pub new_reputation: i128,
}

#[derive(Debug)]
pub struct ContractPauseEvent {
    pub admin: Identity,
    pub paused: bool,
    pub timestamp: u64,
}

#[derive(Debug)]
pub struct ContractUnpauseEvent {
    pub admin: Identity,
    pub paused: bool,
    pub timestamp: u64,
}

#[derive(Debug)]
pub struct ProjectCanceledEvent {
    pub project_id: u64,
    pub caller: Identity,
}

#[derive(Debug)]
pub struct ContributionRefundedEvent {
    pub project_id: u64,
    pub contributor: Identity,
    pub amount: i128,
}

#[derive(Debug)]
pub struct VestingCreatedEvent {
    pub beneficiary: Identity,
    pub amount: i128,
    pub start_time: u64,
    pub duration: u64,
}

#[derive(Debug)]
pub struct TokensClaimedEvent {
    pub beneficiary: Identity,
    pub amount_claimed: i128,
    pub remaining: i128,
}

/// An event published by one of the contracts.
#[derive(Debug)]
pub enum Event {
    Upgraded(UpgradedEvent),
    AdminChanged(AdminChangedEvent),
    Initialized(InitializedEvent),
    ProjectCreated(ProjectCreatedEvent),
    Deposit(DepositEvent),
    MilestoneApproved(MilestoneApprovedEvent),
    Withdraw(WithdrawEvent),
    ContributorRegistered(ContributorRegisteredEvent),
    ReputationUpdated(ReputationUpdatedEvent),
    ContractPause(ContractPauseEvent),
    ContractUnpause(ContractUnpauseEvent),
    ProjectCanceled(ProjectCanceledEvent),
    ContributionRefunded(ContributionRefundedEvent),
    VestingCreated(VestingCreatedEvent),
    TokensClaimed(TokensClaimedEvent),
}

} // verus!
