//! The decision logic of two Matrix synchronisation loops.
//!
//! * [`to_device`]: a loop that fetches to-device messages and encryption keys
//!   over sliding sync, remembering the server's tokens between runs;
//!   [`to_device_runs`] leads through its steps and states what holds of every run,
//!   [`shared_loop`] what holds when several synchronisations share a loop.
//! * [`notifications`]: a stream of notification updates that takes turns with
//!   other processes on the encryption store; [`notification_runs`] leads through
//!   its steps and states what holds of every run.
//! * [`notification_sync`]: the embedding application's view of the notification
//!   stream, with a listener told when the stream is over.
//!
//! [`to_device_laws`] and [`notification_laws`] state what the models of these amount
//! to in plain values.
//!
//! Nothing here talks to the network, to a store or to a clock. Each loop is a
//! sequence of steps: a function returns what has to be done next, the caller
//! does it, and hands what came of it to the function that continues from there.
pub mod notification_laws;
pub mod notification_runs;
pub mod notification_sync;
pub mod notifications;
pub mod shared_loop;
pub mod sliding_sync;
pub mod to_device;
pub mod to_device_laws;
pub mod to_device_runs;
