//! Lid-reaction engine for a backlight daemon: device selection, the
//! dim/restore state machine, error classification, and the reconnect
//! backoff policy, all on plain values so that the surrounding process
//! only performs I/O and feeds the results back in.

pub mod accessor;
pub mod backoff;
pub mod device;
pub mod engine;
pub mod errors;
pub mod names;
pub mod reconnect;
