//! A verified in-memory repository for relayer records.
//!
//! The library models a keyed collection of relayer entities with
//! create/read/update/delete operations, pagination, and relayer-specific
//! partial mutations. Every operation carries a contract describing exactly
//! how it changes the store and what it returns; the distinct-key invariant
//! is stated and preserved by every mutation.

pub mod errors;
pub mod laws;
pub mod models;
pub mod pagination;
pub mod store;

pub use errors::RepositoryError;
pub use models::{
    NetworkType, RelayerEvmPolicy, RelayerNetworkPolicy, RelayerRepoModel, RelayerSolanaPolicy,
    RelayerStellarPolicy, RelayerUpdateRequest,
};
pub use pagination::{PaginatedResult, PaginationQuery};
pub use store::InMemoryRelayerRepository;
