//! Cross-thread bridge between a thread-affine native window loop and a worker thread.
//!
//! The native loop and every window it creates live on one thread, which runs the loop
//! forever. Application logic runs on a worker thread and reaches the windows only by
//! sending requests over a channel; native events travel back over a second channel.
//! This crate holds the rules of that exchange: what each side does with each message,
//! which windows are registered, and what is guaranteed about the order of replies and
//! events.
//!
//! - [`event_loop`]: the proxy on the worker thread and the drain loop on the
//!   native-loop thread, each as a state machine.
//! - [`request`]: what the worker sends.
//! - [`registry`]: the windows that exist.
//! - [`protocol`]: the two ends and the channels taken together, with the guarantees
//!   that hold of every run.
//! - [`ops`]: what the public operations decide before and after the native call.
//! - [`window`], [`create_window_args`]: options for a new window.
//! - [`input`], [`device_ids`], [`serialize_device_id`]: values that events carry.
//! - [`surface`]: presentation surfaces.
//! - [`version`]: version strings.
//!
//! The channels, the threads and the native calls themselves are left to the program
//! that uses the crate.

pub mod create_window_args;
pub mod device_ids;
pub mod event_loop;
pub mod input;
pub mod ops;
pub mod protocol;
pub mod registry;
pub mod request;
pub mod serialize_device_id;
pub mod surface;
pub mod version;
pub mod window;
