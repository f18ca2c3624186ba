//! Automation engine for driving remote interactive shells: a prompt-detection
//! output scanner, a chunked file-transfer engine with progress reporting, the
//! per-session command protocol and lifecycle, and the console state printers.
//!
//! Everything here is pure logic: the surrounding program performs the actual
//! transport, file and terminal I/O and feeds the results into these types.

pub mod connection;
pub mod printer;
pub mod prompt;
pub mod registry;
pub mod scan;
pub mod session;
pub mod text;
pub mod transfer;
