//! A two-outcome (YES/NO) prediction-market exchange: a constant-product
//! automated market maker over a pair of outcome-token reserves, together
//! with a market lifecycle that moves from open trading to a resolved
//! terminal outcome.
//!
//! The library is the pure core: pricing and quoting math with explicit
//! overflow detection, the lifecycle state machine, and the exchange
//! operations over a market record. Moving the actual tokens between
//! accounts is the job of an external ledger; the operations here compute
//! the amounts the ledger must move and mutate the record only when every
//! check has passed.

pub mod amm;
pub mod market;
pub mod ops;
