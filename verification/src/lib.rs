//! A dice-roll telemetry service, verified.
//!
//! The library models the whole behaviour of the service as plain data with
//! contracts: the resource descriptor that tags every metric, the
//! installation of the process-wide meter provider, the gauge instrument
//! that routes to the installed provider, and the emission step that rolls a
//! die, renders the printed line and fixes the recorded value. The outside
//! telemetry and randomness calls stand behind small trusted wrappers; all
//! decisions around them are verified.

pub mod decimal;
pub mod emission;
pub mod metrics;
pub mod providers;
