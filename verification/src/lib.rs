//! Character-device and pseudo-filesystem I/O layer of a monolithic kernel.
//!
//! The crate holds the rules of the layer: terminal control state and its
//! ioctl dispatcher, the cooperative blocking-read protocol, the console
//! line-ending normaliser, the `/proc/self` pseudo-nodes and the generator
//! behind `getrandom`. Hardware transport, scheduling, locking and
//! user-memory access are performed by the caller, which hands plain values
//! in and out and carries out the actions that the crate decides on.

pub mod blocking;
pub mod console;
pub mod devfs;
pub mod error;
pub mod procfs;
pub mod random;
pub mod stdio;
pub mod termios;
pub mod tty;
pub mod tty_state;
pub mod vfs;
