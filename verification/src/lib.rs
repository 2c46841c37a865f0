//! Verified core of a disposable-mailbox mail-ingestion service.
//!
//! The library holds the logic of a line-oriented mail-transfer (SMTP) engine:
//! the command classifier, the dot-transparency codec, the session state
//! machine, recipient resolution, message assembly, and the small rules used
//! by the address generator and the HTTP-facing handlers.  Network and
//! database I/O live outside the library and drive these functions.

pub mod api;
pub mod ascii;
pub mod codec;
pub mod command;
pub mod delivery;
pub mod directory;
pub mod generator;
pub mod provision;
pub mod session;
pub mod webhook;
