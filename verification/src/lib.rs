//! Process bootstrap and capability-composition layer of a hybrid
//! native/webview application.
//!
//! The library models and decides every step of the startup sequence:
//! installing the process-wide cryptographic provider, building the typed
//! command/event bridge, gating the binding-artifact export, composing the
//! platform-dependent plugin list, and sequencing plugin attachment up to the
//! run loop. The host executable performs the outside work (file writes,
//! windowing, the blocking run loop) and feeds the outcomes back in.

pub mod bindings;
pub mod boot;
pub mod bridge;
pub mod crypto;
pub mod plugins;
