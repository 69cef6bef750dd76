//! Order sequencing and delegated execution in front of a constant-product
//! AMM engine: a global sequence counter, a registry of pools held in custody,
//! a pending-order ledger with submit / execute / cancel, an immediate path, and
//! the byte-exact forwarding calls issued under a pool's delegated authority.
pub mod address;
pub mod error;
pub mod wire;
pub mod forward;
pub mod state;
pub mod engine;
pub mod laws;
