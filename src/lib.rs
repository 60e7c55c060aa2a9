//! Startup supervision of a bundled helper process.
//!
//! The library decides; the embedding application acts. `target` selects the
//! bundled helper binary for the running platform, and `startup` is the
//! startup sequence as a state machine from events to actions.

mod target;
mod startup;

pub use target::{HelperDescriptor, Target, supported_targets};
pub use startup::{Action, Event, HelperHandle, Phase, StartupError, Supervisor, launch};
