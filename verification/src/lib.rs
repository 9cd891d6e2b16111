//! A tamper-evident, compliance-gated event ledger.
//!
//! Candidate events are screened by a rule engine before admission; every
//! admitted record is linked to its predecessor through a digest over a
//! canonical encoding of its content, so that altering, reordering or
//! removing an earlier record is detectable afterwards.

pub mod chain;
pub mod clock;
pub mod digest;
pub mod encode;
pub mod event;
pub mod ledger;
pub mod merkle;
pub mod record;
pub mod rules;
pub mod validator;
pub mod strutil;

pub use strutil::str_eq;
