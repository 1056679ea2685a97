//! A transfer-gating policy engine.
//!
//! Given a proposed value transfer between two accounts, the engine decides
//! allow or deny from an administrator-controlled whitelist, per-account risk
//! scores, two threshold tiers with distinct amount limits, and a global
//! emergency pause. Administrative mutators configure the policy store; the
//! decision function is a pure read over it. The hosting environment supplies
//! the caller identity and keeps the store durable; both are passed in as
//! plain values here.

pub mod account;
pub mod amount;
pub mod laws;
pub mod policy;
pub mod store;
