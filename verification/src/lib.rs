//! Ground-station telemetry receiver core: a lock-protected attitude store,
//! the telemetry server's framed-message policy, a bounded ordered frame
//! channel, and the recording worker's subprocess state machine.
//!
//! The host owns every socket, thread, window and subprocess; this library
//! owns every decision about them: what a message stores or ends, what the
//! channel admits and yields, and in what order the encoder is fed,
//! finalized and terminated.

pub mod attitude;
pub mod frames;
pub mod recorder;
pub mod screens;
pub mod server;
pub mod telemetry;
