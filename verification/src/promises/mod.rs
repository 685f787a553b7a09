//! What the operations promise, said of what goes into a call and what comes out of
//! it.
pub mod accounts;
pub mod clients;
pub mod fees;
pub mod links;
pub mod sessions;
pub mod statuses;
