//! Verified core of an end-to-end encrypted peer-to-peer chat and file
//! streaming tool: session cryptography, the wire format of its messages,
//! file-transfer bookkeeping, the terminal UI state and the command line.

pub mod text;
pub mod wire;
pub mod crypto;
pub mod transfer;
pub mod ui;
pub mod cli;
