//! Storage-deposit accounting and token registration for a token factory: a
//! ledger of prepaid storage credit, a deterministic cost model, and the
//! creation transaction that ties them to an append-only registry.

pub mod config;
pub mod cost;
pub mod deployment;
pub mod description;
pub mod error;
pub mod factory;
pub mod identifier;
pub mod laws;
pub mod ledger;
pub mod provisioning;
pub mod record;
pub mod registry;

pub use config::{CreationPlan, FactoryConfig};
pub use deployment::Deployment;
pub use description::TokenDescription;
pub use error::FactoryError;
pub use factory::TokenFactory;
pub use identifier::{is_valid_account_id, is_valid_token_id};
pub use ledger::Ledger;
pub use provisioning::ProvisioningRequest;
pub use record::{TokenArgs, TokenMetadata};
pub use registry::Registry;
