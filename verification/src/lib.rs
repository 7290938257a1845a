//! Ledger-backed matching for a social-discovery service.
//!
//! Accounts register, verify interests, buy boosts that last for some days,
//! and are ranked against one another: by how rare their shared interests
//! are, by how near they live, and by their boost.
//!
//! Every service is a plain value that is handed to each operation. The
//! caller, the payment and the time are arguments, and so are the answers of
//! other services; events and transfers come back as results.

pub mod access;
pub mod address;
pub mod boost_manager;
pub mod main_contract;
pub mod poap_verifier;
pub mod ranking;
pub mod scoring;
pub mod table;
pub mod uint;

pub use boost_manager::BoostManager;
pub use main_contract::MainContract;
pub use poap_verifier::POAPVerifier;
