//! A printer transport gateway: stateless command handlers that deliver a
//! caller-supplied ESC/POS byte stream to a receipt printer over a TCP
//! socket, a serial port, or the operating system's print spooler, and an
//! enumerator for the serial devices available on the machine.
//!
//! The modules here hold every decision the gateway makes: how a payload is
//! chunked for a serial device, how enumerated devices are classified and
//! ordered, how spooler printer names are validated and sanitised, the
//! handle lifecycle of a spooler job, and the exact wording of every error.
//! The surrounding process performs the actual socket, device and spooler
//! calls and feeds their outcomes back in as plain values.

pub mod errors;
pub mod ports;
pub mod serial;
pub mod sorting;
pub mod spooler;
pub mod tcp;
pub mod text;

