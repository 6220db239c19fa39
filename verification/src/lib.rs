//! State-transition core of a hybrid proof-of-work / proof-of-stake reward
//! ledger: discoveries, mining sessions, validator stake and the two reward
//! balances, each transition stated over a mathematical model of the ledger.

pub mod bytes;
pub mod digest;
pub mod genesis;
pub mod laws;
pub mod ledger;
pub mod model;
pub mod registry;
pub mod reward;
pub mod store;
pub mod types;

pub use genesis::genesis_label;
pub use ledger::Ledger;
pub use reward::{calculate_pos_reward, calculate_pow_reward, validation_reward};
pub use types::{
    AccountId, BlockNumber, Config, Discovery, DiscoveryId, Error, Event, InsufficientFunds,
    MiningSession, Params, Reservation, StakeInfo,
};
