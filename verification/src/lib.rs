//! Skeleton of an on-chain program: an entrypoint that receives an
//! instruction together with the ordered account list supplied by a
//! transaction, checks the accounts against declared per-slot constraints,
//! dispatches on the instruction discriminator, and returns success or a
//! typed failure.
//!
//! The two components are the account context validator, which turns an
//! untrusted account list into a validated context or fails closed on the
//! first violated constraint, and the instruction dispatcher, which decodes
//! the discriminator and payload, runs the validator, and invokes the
//! registered handler.

pub mod account;
pub mod constraint;
pub mod pda;
pub mod validator;
pub mod log;
pub mod dispatch;
pub mod program;
