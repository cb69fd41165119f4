use printer_gateway::errors::{OpenFailure, TransportError, WriteFailure};
use printer_gateway::serial::{
    plan_chunks, serial_step, SerialAction, SerialEvent, SerialState,
};
use printer_gateway::spooler::{
    list_windows_printers, spool_doc_name, spool_raw_data_type, spooler_begin,
    spooler_print_raw, spooler_step, SpoolerAction, SpoolerEvent, SpoolerState,
};
use printer_gateway::tcp::{tcp_step, TcpAction, TcpEvent, TcpState};

#[test]
fn tcp_happy_path_delivers_and_ignores_flush_outcome() {
    let (s, a) = tcp_step(TcpState::Resolving, TcpEvent::ResolvedSome);
    assert_eq!(s, TcpState::Connecting);
    assert!(matches!(a, TcpAction::Connect));
    let (s, a) = tcp_step(s, TcpEvent::Connected);
    assert_eq!(s, TcpState::Writing);
    assert!(matches!(a, TcpAction::Write));
    let (s, a) = tcp_step(s, TcpEvent::Wrote);
    assert_eq!(s, TcpState::Flushing);
    assert!(matches!(a, TcpAction::Flush));
    let (s, a) = tcp_step(s, TcpEvent::Flushed(false));
    assert_eq!(s, TcpState::Done);
    assert!(matches!(a, TcpAction::Finish(Ok(()))));
}

#[test]
fn tcp_refused_connection_is_a_connect_error() {
    let (s, a) = tcp_step(TcpState::Resolving, TcpEvent::ResolvedSome);
    assert_eq!(s, TcpState::Connecting);
    let _ = a;
    let (s, a) = tcp_step(s, TcpEvent::ConnectFailed("connection refused".to_string()));
    assert_eq!(s, TcpState::Done);
    match a {
        TcpAction::Finish(Err(e)) => {
            assert!(matches!(e, TransportError::ConnectError { .. }));
            let msg = e.message();
            assert_eq!(msg, "TCP connect failed: connection refused");
        }
        other => panic!("unexpected action: {other:?}"),
    }
}

#[test]
fn tcp_resolution_failures_are_resolution_errors() {
    let (_, a) = tcp_step(
        TcpState::Resolving,
        TcpEvent::ResolveFailed("no such host".to_string()),
    );
    match a {
        TcpAction::Finish(Err(e)) => {
            assert_eq!(e.message(), "Unable to resolve host: no such host");
        }
        other => panic!("unexpected action: {other:?}"),
    }
    let (_, a) = tcp_step(TcpState::Resolving, TcpEvent::ResolvedNone);
    match a {
        TcpAction::Finish(Err(e)) => {
            assert_eq!(e.message(), "Unable to resolve host");
        }
        other => panic!("unexpected action: {other:?}"),
    }
}

#[test]
fn tcp_write_failure_is_a_write_error() {
    let (_, a) = tcp_step(TcpState::Writing, TcpEvent::WriteFailed("broken pipe".to_string()));
    match a {
        TcpAction::Finish(Err(e)) => {
            assert_eq!(e.message(), "TCP write failed: broken pipe");
        }
        other => panic!("unexpected action: {other:?}"),
    }
}

#[test]
fn missing_serial_device_is_an_open_error_naming_it() {
    let port = "NONEXISTENT".to_string();
    let data = vec![0x1Bu8, 0x40];
    let n_chunks = plan_chunks(&data).len();
    let (s, a) = serial_step(
        &port,
        n_chunks,
        SerialState::Opening,
        SerialEvent::OpenFailed("No such file or directory".to_string()),
    );
    assert_eq!(s, SerialState::Done);
    match a {
        SerialAction::Finish(Err(e)) => {
            assert!(matches!(
                e,
                TransportError::OpenError(OpenFailure::Serial { .. })
            ));
            let msg = e.message();
            assert!(msg.contains("NONEXISTENT"));
            assert_eq!(
                msg,
                "Unable to open serial port NONEXISTENT: No such file or directory"
            );
        }
        other => panic!("unexpected action: {other:?}"),
    }
}

#[test]
fn serial_job_writes_chunks_in_order_then_flushes() {
    let port = "ttyUSB0".to_string();
    let data: Vec<u8> = vec![9u8; 1025];
    let chunks = plan_chunks(&data);
    let n = chunks.len();
    assert_eq!(n, 3);

    let mut written: Vec<usize> = Vec::new();
    let (mut state, mut action) = serial_step(&port, n, SerialState::Opening, SerialEvent::Opened);
    loop {
        match action {
            SerialAction::WriteChunk(i) => {
                written.push(i);
                let (s, a) = serial_step(&port, n, state, SerialEvent::ChunkWritten);
                state = s;
                action = a;
            }
            SerialAction::Flush => {
                let (s, a) = serial_step(&port, n, state, SerialEvent::Flushed);
                state = s;
                action = a;
            }
            SerialAction::Finish(outcome) => {
                assert!(outcome.is_ok());
                break;
            }
        }
    }
    assert_eq!(state, SerialState::Done);
    assert_eq!(written, vec![0, 1, 2]);
    let total: usize = written.iter().map(|&i| chunks[i].len()).sum();
    assert_eq!(total, data.len());
}

#[test]
fn serial_flush_failure_is_a_hard_error() {
    let port = "ttyS1".to_string();
    let (s, a) = serial_step(
        &port,
        0,
        SerialState::Flushing,
        SerialEvent::FlushFailed("input/output error".to_string()),
    );
    assert_eq!(s, SerialState::Done);
    match a {
        SerialAction::Finish(Err(e)) => {
            assert_eq!(e.message(), "Serial flush failed (ttyS1): input/output error");
        }
        other => panic!("unexpected action: {other:?}"),
    }
}

#[test]
fn serial_chunk_failure_aborts_the_job() {
    let port = "ttyACM0".to_string();
    let (s, a) = serial_step(
        &port,
        4,
        SerialState::Writing { next: 2 },
        SerialEvent::ChunkFailed("device reports readiness to read but returned no data".to_string()),
    );
    assert_eq!(s, SerialState::Done);
    match a {
        SerialAction::Finish(Err(e)) => {
            assert!(matches!(
                e,
                TransportError::WriteError(WriteFailure::Serial { .. })
            ));
            assert!(e.message().starts_with("Serial write failed (ttyACM0): "));
        }
        other => panic!("unexpected action: {other:?}"),
    }
}

#[test]
fn blank_printer_name_is_rejected_before_anything_opens() {
    for name in ["", " ", "\t \r\n"] {
        match spooler_begin(name) {
            Err(TransportError::ValidationError) => {}
            other => panic!("unexpected: {other:?}"),
        }
    }
    assert_eq!(spooler_begin("Receipt"), Ok(SpoolerState::Opening));
}

#[test]
fn validation_error_message_matches() {
    let e = TransportError::ValidationError;
    assert_eq!(e.message(), "Printer name is required");
}

#[test]
fn unknown_printer_fails_to_open_and_is_named() {
    let name = "No Such Printer".to_string();
    let (s, a) = spooler_step(&name, 0, SpoolerState::Opening, SpoolerEvent::Opened(false));
    assert_eq!(s, SpoolerState::Done);
    match a {
        SpoolerAction::Finish(Err(e)) => {
            assert_eq!(e.message(), "Failed to open printer 'No Such Printer'");
        }
        other => panic!("unexpected action: {other:?}"),
    }
}

#[test]
fn spooler_happy_path_reports_success_after_close() {
    let name = "Receipt".to_string();
    let data_len = 20u32;
    let (s, a) = spooler_step(&name, data_len, SpoolerState::Opening, SpoolerEvent::Opened(true));
    assert_eq!(s, SpoolerState::StartingDoc);
    assert!(matches!(a, SpoolerAction::StartDoc));
    let (s, a) = spooler_step(&name, data_len, s, SpoolerEvent::DocStarted(7));
    assert_eq!(s, SpoolerState::StartingPage);
    assert!(matches!(a, SpoolerAction::StartPage));
    let (s, a) = spooler_step(&name, data_len, s, SpoolerEvent::PageStarted(true));
    assert_eq!(s, SpoolerState::Writing);
    assert!(matches!(a, SpoolerAction::Write));
    let (s, a) = spooler_step(&name, data_len, s, SpoolerEvent::Written { ok: true, written: 20 });
    assert!(matches!(a, SpoolerAction::EndPage));
    let (s, a) = spooler_step(&name, data_len, s, SpoolerEvent::PageEnded(true));
    assert!(matches!(a, SpoolerAction::EndDoc));
    let (s, a) = spooler_step(&name, data_len, s, SpoolerEvent::DocEnded(true));
    assert!(matches!(a, SpoolerAction::Close));
    let (s, a) = spooler_step(&name, data_len, s, SpoolerEvent::Closed);
    assert_eq!(s, SpoolerState::Done);
    assert!(matches!(a, SpoolerAction::Finish(Ok(()))));
}

#[test]
fn short_spooler_write_fails_with_both_counts_after_close() {
    let name = "Receipt".to_string();
    let data_len = 20u32;
    let (s, _) = spooler_step(&name, data_len, SpoolerState::Opening, SpoolerEvent::Opened(true));
    let (s, _) = spooler_step(&name, data_len, s, SpoolerEvent::DocStarted(3));
    let (s, _) = spooler_step(&name, data_len, s, SpoolerEvent::PageStarted(true));
    let (s, a) = spooler_step(&name, data_len, s, SpoolerEvent::Written { ok: true, written: 10 });
    // the page and the document are still ended, and the handle closed,
    // before the failure is reported
    assert!(matches!(a, SpoolerAction::EndPage));
    let (s, a) = spooler_step(&name, data_len, s, SpoolerEvent::PageEnded(true));
    assert!(matches!(a, SpoolerAction::EndDoc));
    let (s, a) = spooler_step(&name, data_len, s, SpoolerEvent::DocEnded(true));
    assert!(matches!(a, SpoolerAction::Close));
    let (s, a) = spooler_step(&name, data_len, s, SpoolerEvent::Closed);
    assert_eq!(s, SpoolerState::Done);
    match a {
        SpoolerAction::Finish(Err(TransportError::WriteError(WriteFailure::Spooler {
            written,
            expected,
        }))) => {
            assert_eq!(written, 10);
            assert_eq!(expected, 20);
            let e = TransportError::WriteError(WriteFailure::Spooler { written, expected });
            let msg = e.message();
            assert!(msg.contains("10/20"));
            assert_eq!(msg, "WritePrinter failed (written 10/20 bytes)");
        }
        other => panic!("unexpected action: {other:?}"),
    }
}

#[test]
fn refused_document_closes_the_handle_then_reports() {
    let name = "Receipt".to_string();
    let (s, a) = spooler_step(&name, 5, SpoolerState::Opening, SpoolerEvent::Opened(true));
    let _ = a;
    let (s, a) = spooler_step(&name, 5, s, SpoolerEvent::DocStarted(0));
    assert_eq!(s, SpoolerState::ClosingAfterDocRefused);
    assert!(matches!(a, SpoolerAction::Close));
    let (s, a) = spooler_step(&name, 5, s, SpoolerEvent::Closed);
    assert_eq!(s, SpoolerState::Done);
    match a {
        SpoolerAction::Finish(Err(e)) => assert_eq!(e.message(), "StartDocPrinter failed"),
        other => panic!("unexpected action: {other:?}"),
    }
}

#[test]
fn refused_page_still_ends_document_and_closes() {
    let name = "Receipt".to_string();
    let (s, _) = spooler_step(&name, 5, SpoolerState::Opening, SpoolerEvent::Opened(true));
    let (s, _) = spooler_step(&name, 5, s, SpoolerEvent::DocStarted(1));
    let (s, a) = spooler_step(&name, 5, s, SpoolerEvent::PageStarted(false));
    assert_eq!(s, SpoolerState::EndingDocAfterPageRefused);
    assert!(matches!(a, SpoolerAction::EndDoc));
    let (s, a) = spooler_step(&name, 5, s, SpoolerEvent::DocEnded(true));
    assert_eq!(s, SpoolerState::ClosingAfterPageRefused);
    assert!(matches!(a, SpoolerAction::Close));
    let (s, a) = spooler_step(&name, 5, s, SpoolerEvent::Closed);
    assert_eq!(s, SpoolerState::Done);
    match a {
        SpoolerAction::Finish(Err(e)) => assert_eq!(e.message(), "StartPagePrinter failed"),
        other => panic!("unexpected action: {other:?}"),
    }
}

#[test]
fn failed_finalization_is_reported_after_a_full_write() {
    let name = "Receipt".to_string();
    let (s, a) = spooler_step(
        &name,
        8,
        SpoolerState::Closing { write_ok: true, written: 8, page_ok: false, doc_ok: true },
        SpoolerEvent::Closed,
    );
    assert_eq!(s, SpoolerState::Done);
    match a {
        SpoolerAction::Finish(Err(e)) => {
            assert_eq!(e.message(), "Failed to finalize print job");
        }
        other => panic!("unexpected action: {other:?}"),
    }
}

#[test]
fn raw_job_parameters_are_fixed() {
    assert_eq!(spool_doc_name(), "BinanceXI Receipt");
    assert_eq!(spool_raw_data_type(), "RAW");
}

#[test]
fn without_a_spooler_listing_is_empty_and_printing_is_refused() {
    let listed = list_windows_printers().unwrap();
    assert!(listed.is_empty());
    let r = spooler_print_raw("Any Printer".to_string(), vec![1, 2, 3]);
    match r {
        Err(TransportError::UnsupportedPlatformError) => {}
        other => panic!("unexpected: {other:?}"),
    }
    assert_eq!(
        TransportError::UnsupportedPlatformError.message(),
        "Windows spooler transport is only available on Windows builds"
    );
}

#[test]
fn enumeration_failures_render_their_cause() {
    let serial = TransportError::EnumerationError { cause: Some("udev unavailable".to_string()) };
    assert_eq!(serial.message(), "Unable to list serial ports: udev unavailable");
    let spool = TransportError::EnumerationError { cause: None };
    assert_eq!(spool.message(), "Failed to enumerate windows printers");
}

#[test]
fn byte_counts_render_in_decimal() {
    let e = TransportError::WriteError(WriteFailure::Spooler { written: 0, expected: 4294967295 });
    assert_eq!(e.message(), "WritePrinter failed (written 0/4294967295 bytes)");
    let e = TransportError::WriteError(WriteFailure::Spooler { written: 507, expected: 1025 });
    assert_eq!(e.message(), "WritePrinter failed (written 507/1025 bytes)");
}
