//! Grant and crowdfunding protocol: a contributor registry, a crowdfund vault
//! with milestone-gated withdrawals, and a linear vesting wallet.
//!
//! Each contract is a state machine over its own storage. An entry point reads
//! and writes that storage and records in an [`Invocation`] what it asks of the
//! host: the identities whose authorization it demands, token transfers,
//! events, and a replacement of the contract code. A failed call leaves the
//! storage as it was and records no transfer, event or code change.
//!
//! Each contract module states its entry points against spec functions over
//! the contract's view, and proves its laws over those spec functions.

mod identity;
mod host;
mod table;
pub mod events;
pub mod registry;
pub mod vault;
pub mod vesting;

pub use identity::Identity;
pub use host::{Invocation, Transfer};
pub use events::Event;
pub use registry::{
    adjust_reputation, ContributorData, ContributorError, ContributorRegistryContract,
};
pub use vault::{CrowdfundError, CrowdfundVaultContract, DataKey, ProjectData, ProjectRecord};
pub use vesting::{VestingData, VestingError, VestingWalletContract};
