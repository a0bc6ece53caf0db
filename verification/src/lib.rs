//! Detection of analysis environments: debuggers, sandboxes and virtualised
//! guests.
//!
//! Every probe inspects one signal and answers with a [`ProbeResult`]. The
//! probes are pure functions of what was observed; the functions that observe
//! the machine hand their observations to them. The decision engine combines
//! the probes' answers, in a fixed order, into one verdict.

pub mod result;
pub mod engine;
pub mod signatures;
pub mod system;
pub mod process;
pub mod sandbox;
pub mod files;
pub mod mac;
pub mod debugger;
pub mod gate;
pub mod timing;
pub mod machine;
pub mod laws;

pub use result::ProbeResult;
pub use engine::{detected, detected_thorough, Probe};
