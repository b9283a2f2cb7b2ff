//! Interactive terminal front-end core for browsing a version-control
//! repository: the interaction state machine, the per-panel viewport engine,
//! and the event dispatcher that decides, for every abstract input action,
//! which state transition or viewport mutation occurs.
//!
//! Repository access, rendering and raw input decoding are collaborators that
//! live outside this crate; the dispatcher only hands out requests for them
//! (see [`events::Effect`]) and consumes their results as plain values.

pub mod app_state;
pub mod events;
pub mod viewport;
