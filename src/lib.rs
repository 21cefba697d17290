//! Exact, verified decision logic of a substep rigid-body (XPBD) chain
//! simulation: the per-tick schedule of integrate / solve / reconstruct
//! passes, body-handle resolution for joints, the deferred-sleep policy,
//! keyboard-to-command mapping and the live settings state machine.
pub mod config;
pub mod schedule;
pub mod handles;
pub mod sleep;
pub mod event;
pub mod setting;
