//! The gateway's error taxonomy. Every failure a transport can report is one
//! variant here, carrying the context its human-readable message needs; the
//! rendering of that message is specified exactly, character by character.

use vstd::prelude::*;

use crate::text::dec_rep;

verus! {

/// What failed when a transport tried to open its device or queue.
#[derive(Debug, Clone, PartialEq)]
pub enum OpenFailure {
    /// A serial device could not be opened (absent or busy).
    Serial { port: String, cause: String },
    /// The spooler could not resolve a printer name to a printer object.
    Printer { name: String },
}

/// What failed while a transport was writing the payload.
#[derive(Debug, Clone, PartialEq)]
pub enum WriteFailure {
    /// A TCP write did not complete before the timeout or the peer reset.
    Tcp { cause: String },
    /// A serial chunk write failed.
    Serial { port: String, cause: String },
    /// The spooler accepted fewer bytes than the payload holds; a short
    /// write is a hard failure even when the call itself reported success.
    Spooler { written: u32, expected: u32 },
}

/// A terminal failure of one gateway operation. No variant is ever retried;
/// each is surfaced to the caller as a descriptive message.
#[derive(Debug, Clone, PartialEq)]
pub enum TransportError {
    /// Host resolution failed (`cause`) or yielded no address (no cause).
    ResolutionError { cause: Option<String> },
    /// The TCP connection timed out or was refused.
    ConnectError { cause: String },
    /// A device or printer queue could not be opened.
    OpenError(OpenFailure),
    /// The payload could not be written in full.
    WriteError(WriteFailure),
    /// The serial flush after the last chunk failed.
    FlushError { port: String, cause: String },
    /// Device enumeration failed (`cause` for the serial enumerator, none
    /// for the spooler enumerator).
    EnumerationError { cause: Option<String> },
    /// The printer name was rejected before anything was opened.
    ValidationError,
    /// The spooler refused to start a raw document.
    JobStartError,
    /// The spooler refused to start the page within the job.
    PageStartError,
    /// Ending the page or the document failed after the write.
    FinalizeError,
    /// The spooler transport does not exist on this platform.
    UnsupportedPlatformError,
}

/// The exact message each error renders to.
pub open spec fn spec_message(e: TransportError) -> Seq<char> {
    match e {
        TransportError::ResolutionError { cause: Option::None } => "Unable to resolve host"@,
        TransportError::ResolutionError { cause: Option::Some(c) } => "Unable to resolve host: "@
            + c@,
        TransportError::ConnectError { cause } => "TCP connect failed: "@ + cause@,
        TransportError::OpenError(OpenFailure::Serial { port, cause }) =>
            "Unable to open serial port "@ + port@ + ": "@ + cause@,
        TransportError::OpenError(OpenFailure::Printer { name }) => "Failed to open printer '"@
            + name@ + "'"@,
        TransportError::WriteError(WriteFailure::Tcp { cause }) => "TCP write failed: "@ + cause@,
        TransportError::WriteError(WriteFailure::Serial { port, cause }) =>
            "Serial write failed ("@ + port@ + "): "@ + cause@,
        TransportError::WriteError(WriteFailure::Spooler { written, expected }) =>
            "WritePrinter failed (written "@ + dec_rep(written as nat) + "/"@ + dec_rep(
            expected as nat,
        ) + " bytes)"@,
        TransportError::FlushError { port, cause } => "Serial flush failed ("@ + port@ + "): "@
            + cause@,
        TransportError::EnumerationError { cause: Option::None } =>
            "Failed to enumerate windows printers"@,
        TransportError::EnumerationError { cause: Option::Some(c) } =>
            "Unable to list serial ports: "@ + c@,
        TransportError::ValidationError => "Printer name is required"@,
        TransportError::JobStartError => "StartDocPrinter failed"@,
        TransportError::PageStartError => "StartPagePrinter failed"@,
        TransportError::FinalizeError => "Failed to finalize print job"@,
        TransportError::UnsupportedPlatformError =>
            "Windows spooler transport is only available on Windows builds"@,
    }
}

impl TransportError {
    /// Renders the error as the human-readable string surfaced to the
    /// caller.
    pub fn message(&self) -> (r: String)
        ensures
            r@ == spec_message(*self),
    {
        match self {
            TransportError::ResolutionError { cause } => match cause {
                Option::None => String::from_str("Unable to resolve host"),
                Option::Some(c) => String::from_str("Unable to resolve host: ").concat(c.as_str()),
            },
            TransportError::ConnectError { cause } => String::from_str(
                "TCP connect failed: ",
            ).concat(cause.as_str()),
            TransportError::OpenError(OpenFailure::Serial { port, cause }) => String::from_str(
                "Unable to open serial port ",
            ).concat(port.as_str()).concat(": ").concat(cause.as_str()),
            TransportError::OpenError(OpenFailure::Printer { name }) => String::from_str(
                "Failed to open printer '",
            ).concat(name.as_str()).concat("'"),
            TransportError::WriteError(WriteFailure::Tcp { cause }) => String::from_str(
                "TCP write failed: ",
            ).concat(cause.as_str()),
            TransportError::WriteError(WriteFailure::Serial { port, cause }) => String::from_str(
                "Serial write failed (",
            ).concat(port.as_str()).concat("): ").concat(cause.as_str()),
            TransportError::WriteError(WriteFailure::Spooler { written, expected }) => {
                let w = crate::text::u32_dec(*written);
                let x = crate::text::u32_dec(*expected);
                String::from_str("WritePrinter failed (written ").concat(w.as_str()).concat(
                    "/",
                ).concat(x.as_str()).concat(" bytes)")
            },
            TransportError::FlushError { port, cause } => String::from_str(
                "Serial flush failed (",
            ).concat(port.as_str()).concat("): ").concat(cause.as_str()),
            TransportError::EnumerationError { cause } => match cause {
                Option::None => String::from_str("Failed to enumerate windows printers"),
                Option::Some(c) => String::from_str("Unable to list serial ports: ").concat(
                    c.as_str(),
                ),
            },
            TransportError::ValidationError => String::from_str("Printer name is required"),
            TransportError::JobStartError => String::from_str("StartDocPrinter failed"),
            TransportError::PageStartError => String::from_str("StartPagePrinter failed"),
            TransportError::FinalizeError => String::from_str("Failed to finalize print job"),
            TransportError::UnsupportedPlatformError => String::from_str(
                "Windows spooler transport is only available on Windows builds",
            ),
        }
    }
}

} // verus!
