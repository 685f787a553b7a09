//! The decisions behind a link to a Solana cluster: who pays and how much, what is
//! asked of a client and how its answers are read, which transactions are sent
//! again, and when they count as confirmed.
pub mod accounts;
pub mod async_client;
pub mod errors;
pub mod fees;
pub mod guarantees;
pub mod link;
pub mod promises;
pub mod session;
pub mod status;
pub mod text;
pub mod transaction;
pub mod types;

pub use link::OrbitLink;
