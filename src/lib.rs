//! A subnet registry with an attached constant-product liquidity pool per subnet,
//! a rate-limited and cost-scaled registration, an emission start gate, and a
//! read-only query facade over the registry and pool state.
pub mod fixed;
pub mod identity;
pub mod lifecycle;
pub mod lock;
pub mod market;
pub mod pool;
pub mod precompile;
pub mod registry;
