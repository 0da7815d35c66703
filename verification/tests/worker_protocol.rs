use std::path::PathBuf;
use super_duper::worker::{
    check_frame, decode_frame, validate_envelope, ActiveWork, HelloParameters, RequestEnvelope, Route,
    WorkerError, WorkerOptions, WorkerSession,
};
use super_duper::failure::{DetailValue, ProtocolFailure};

#[test]
fn worker_status_database_defaults_beside_product_database_and_can_be_overridden() {
    let product = PathBuf::from("state").join("product.db");
    let options = WorkerOptions::new(product.to_str().unwrap());
    assert_eq!(
        PathBuf::from(&options.status_database_path),
        PathBuf::from("state/scan_status.db")
    );

    let overridden = options.with_status_database_path("diagnostics/custom-status.db");
    assert_eq!(
        PathBuf::from(&overridden.status_database_path),
        PathBuf::from("diagnostics/custom-status.db")
    );
}

#[test]
fn status_database_of_a_bare_file_name_sits_in_the_working_directory() {
    let options = WorkerOptions::new("product.db");
    assert_eq!(options.status_database_path, "scan_status.db");
    let options = WorkerOptions::new("/");
    assert_eq!(options.status_database_path, "./scan_status.db");
    assert_eq!(options.database_path, "/");
    assert!(options.diagnostic_log_path.is_none());
}

#[test]
fn diagnostic_log_path_is_kept_beside_the_other_paths() {
    let options = WorkerOptions::new("state/product.db").with_diagnostic_log_path("logs/worker.log");
    assert_eq!(options.diagnostic_log_path.as_deref(), Some("logs/worker.log"));
    assert_eq!(options.database_path, "state/product.db");
    assert_eq!(options.status_database_path, "state/scan_status.db");
}

fn hello(versions: Vec<u32>, name: &str, version: &str) -> Result<HelloParameters, ProtocolFailure> {
    Ok(HelloParameters { protocol_versions: versions, client_name: name.to_owned(), client_version: version.to_owned() })
}

#[test]
fn hello_and_handshake_requirement_are_correlated() {
    let mut session = WorkerSession::new();
    match session.route("app.status") {
        Route::Refused(failure) => assert_eq!(failure.code, "handshake_required"),
        other => panic!("unexpected route {other:?}"),
    }
    assert!(matches!(session.route("hello"), Route::Hello));
    assert_eq!(session.handle_hello(hello(vec![1], "protocol-test", "1.0.0")).unwrap(), 1);
    assert_eq!(session.negotiated_protocol(), Some(1));
    assert!(matches!(session.route("app.status"), Route::Dispatch));
}

#[test]
fn a_second_hello_is_refused_and_keeps_the_agreed_version() {
    let mut session = WorkerSession::new();
    session.handle_hello(hello(vec![1, 2], "client", "2.0")).unwrap();
    let failure = session.handle_hello(hello(vec![1], "client", "2.0")).unwrap_err();
    assert_eq!(failure.code, "invalid_state");
    assert_eq!(failure.message, "hello has already completed");
    assert_eq!(session.negotiated_protocol(), Some(1));
}

#[test]
fn hello_rejects_bad_parameters_and_foreign_versions() {
    let mut session = WorkerSession::new();
    for bad in [hello(vec![], "c", "1"), hello(vec![0, 1], "c", "1"), hello(vec![1], "  ", "1"), hello(vec![1], "c", "\t")] {
        let failure = session.handle_hello(bad).unwrap_err();
        assert_eq!(failure.code, "invalid_request");
        assert_eq!(session.negotiated_protocol(), None);
    }
    let failure = session.handle_hello(hello(vec![2, 3], "c", "1")).unwrap_err();
    assert_eq!(failure.code, "unsupported_protocol");
    assert_eq!(failure.details.len(), 1);
    assert_eq!(failure.details[0].key, "workerProtocolVersions");
    assert!(matches!(&failure.details[0].value, DetailValue::Integers(v) if v == &vec![1]));
    let parse_failure = ProtocolFailure::new("invalid_request", "Invalid hello parameters");
    let failure = session.handle_hello(Err(parse_failure)).unwrap_err();
    assert_eq!(failure.message, "Invalid hello parameters");
    assert_eq!(session.negotiated_protocol(), None);
}

fn fatal_message(e: WorkerError) -> String {
    match e {
        WorkerError::FatalProtocol(m) => m,
        other => panic!("unexpected error {other:?}"),
    }
}

#[test]
fn frames_are_lines_within_the_limit() {
    assert!(decode_frame(Vec::new()).unwrap().is_none());
    assert_eq!(decode_frame(b"{\"a\":1}\n".to_vec()).unwrap().unwrap(), "{\"a\":1}");
    assert_eq!(decode_frame(b"abc\r\n".to_vec()).unwrap().unwrap(), "abc");
    assert_eq!(decode_frame(b"\n".to_vec()).unwrap().unwrap(), "");
    assert_eq!(
        fatal_message(decode_frame(b"partial".to_vec()).unwrap_err()),
        "input ended with a partial protocol frame"
    );
    let mut long = vec![b'x'; 1_048_577];
    long.push(b'\n');
    assert_eq!(fatal_message(decode_frame(long).unwrap_err()), "input frame exceeds 1048576 bytes");
    let mut exact = vec![b'x'; 1_048_576];
    exact.push(b'\n');
    assert_eq!(decode_frame(exact).unwrap().unwrap().len(), 1_048_576);
    let message = fatal_message(decode_frame(vec![0xff, b'\n']).unwrap_err());
    assert!(message.starts_with("input frame is not valid UTF-8: "));
    assert!(message.len() > "input frame is not valid UTF-8: ".len());
}

#[test]
fn empty_and_oversized_lines_are_fatal() {
    assert_eq!(fatal_message(check_frame("").unwrap_err()), "received an empty protocol frame");
    assert!(check_frame("{}").is_ok());
    let long = "é".repeat(524_289);
    assert_eq!(fatal_message(check_frame(&long).unwrap_err()), "input frame exceeds 1048576 bytes");
    assert!(check_frame(&"é".repeat(524_288)).is_ok());
}

#[test]
fn envelopes_need_type_id_method_and_object_params() {
    let good = RequestEnvelope {
        message_type: "request".to_owned(),
        id: "1".to_owned(),
        method: "app.status".to_owned(),
        params_is_object: true,
    };
    assert!(validate_envelope(&good).is_ok());
    for bad in [
        RequestEnvelope { message_type: "event".to_owned(), ..good.clone() },
        RequestEnvelope { id: String::new(), ..good.clone() },
        RequestEnvelope { method: String::new(), ..good.clone() },
        RequestEnvelope { params_is_object: false, ..good.clone() },
    ] {
        let failure = validate_envelope(&bad).unwrap_err();
        assert_eq!(failure.code, "invalid_request");
        assert_eq!(failure.message, "Expected a request with non-empty id/method and object params");
    }
}

#[test]
fn one_scan_or_one_preflight_holds_the_filesystem() {
    let mut work = ActiveWork::new();
    assert!(work.check_run_slot().is_ok());
    work.occupy_run(7);
    assert_eq!(work.active_run_id(), Some(7));
    let busy = work.check_run_slot().unwrap_err();
    assert_eq!((busy.code.as_str(), busy.message.as_str(), busy.retryable), ("scan_busy", "A scan is already running", true));
    assert!(matches!(busy.details[0].value, DetailValue::Integer(7)));
    let busy = work.check_preflight_slot().unwrap_err();
    assert_eq!((busy.code.as_str(), busy.message.as_str()), ("preflight_busy", "A scan is already using the filesystem"));
    assert!(!work.finish_active(8));
    assert_eq!(work.active_run_id(), Some(7));
    assert!(work.finish_active(7));
    assert_eq!(work.active_run_id(), None);
    work.occupy_preflight(3);
    assert_eq!(work.active_preflight_id(), Some(3));
    let busy = work.check_run_slot().unwrap_err();
    assert_eq!((busy.code.as_str(), busy.message.as_str()), ("scan_busy", "A preflight is already using the filesystem"));
    let busy = work.check_preflight_slot().unwrap_err();
    assert_eq!((busy.code.as_str(), busy.message.as_str()), ("preflight_busy", "A preflight is already running"));
    assert!(!work.finish_active_preflight(4));
    assert!(work.finish_active_preflight(3));
    assert_eq!(work.active_preflight_id(), None);
}

#[test]
fn worker_errors_read_as_their_messages() {
    assert_eq!(WorkerError::FatalProtocol("bad frame".to_owned()).message(), "bad frame");
    assert_eq!(WorkerError::Startup("no database".to_owned()).message(), "no database");
    let io = WorkerError::Io(std::io::Error::new(std::io::ErrorKind::BrokenPipe, "closed"));
    assert_eq!(io.message(), "I/O error: closed");
}

#[test]
fn encoded_frames_decode_to_the_same_line() {
    let line = "{\"id\":\"r1\",\"note\":\"caf\u{e9}\"}";
    let bytes = super_duper::worker::encode_frame(line);
    assert_eq!(bytes.last(), Some(&b'\n'));
    assert_eq!(decode_frame(bytes).unwrap().unwrap(), line);
}
