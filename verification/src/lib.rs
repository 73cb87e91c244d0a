//! A terminal pass-through harness library.
//!
//! The library holds the verified core of a harness that relays bytes
//! between a terminal and a child process: the byte translation rule
//! applied to keystrokes, the rendering rule for child output, the
//! input-relay state machine with its transcript model, the usage
//! guard for the command line, and the raw-terminal session protocol.
//! The surrounding program performs the actual reads, writes and
//! process management and consults these functions for every decision.

pub mod args;
pub mod relay;
pub mod render;
pub mod session;
pub mod translate;
