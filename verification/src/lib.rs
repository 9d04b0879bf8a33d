//! Transactional stage-gated write engine for a multi-step customer
//! onboarding workflow.
//!
//! The engine enforces two protocols:
//!
//! * the *transaction lifecycle*: every write runs inside a transaction that
//!   is either committed exactly once or rolled back on every other exit
//!   path, so no code path can leave an open transaction on a pooled
//!   connection (see [`connection`]);
//! * the *stage-gating rule*: each onboarding step applies only when the record's
//!   persisted stage is at the step's precondition, so steps cannot be
//!   skipped, and the write-once steps cannot be re-applied (see [`stage`]).

pub mod auth_service;
pub mod connection;
pub mod crypto;
pub mod envelope;
pub mod file_service;
pub mod generic_service;
pub mod jwt_session;
pub mod model;
pub mod option_service;
pub mod stage;
pub mod user_service;
pub mod validation_service;
