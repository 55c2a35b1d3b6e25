use mitoxide::proto::message::RequestKind;
use mitoxide::{
    ErrorCode, ErrorDetails, Message, ProtocolError, Request, Response, StringMap,
};
use uuid::Uuid;

#[test]
fn test_request_creation() {
    let req = Request::process_exec(
        vec!["echo".to_string(), "hello".to_string()],
        StringMap::new(),
        None,
        None,
        Some(30),
    );

    match req {
        Request::ProcessExec { command, timeout, .. } => {
            assert_eq!(command, vec!["echo", "hello"]);
            assert_eq!(timeout, Some(30));
        }
        _ => panic!("Expected ProcessExec request"),
    }
}

#[test]
fn message_test_response_creation() {
    let request_id = Uuid::new_v4().as_u128();
    let resp = Response::error(
        request_id,
        ErrorDetails::new(ErrorCode::FileNotFound, "File not found"),
    );

    match resp {
        Response::Error { request_id: resp_id, error } => {
            assert_eq!(resp_id, request_id);
            assert_eq!(error.code, ErrorCode::FileNotFound);
            assert_eq!(error.message, "File not found");
        }
        _ => panic!("Expected Error response"),
    }
}

#[test]
fn test_message_request_id() {
    let req = Request::ping();
    let req_id = req.id();
    let msg = Message::request(req);

    assert_eq!(msg.request_id(), Some(req_id));
}

#[test]
fn test_error_details_with_context() {
    let error = ErrorDetails::new(ErrorCode::ProcessFailed, "Command failed")
        .with_context("command", "ls")
        .with_context("exit_code", "1");

    assert_eq!(error.code, ErrorCode::ProcessFailed);
    assert_eq!(error.message, "Command failed");
    assert_eq!(error.context.get("command"), Some(&"ls".to_string()));
    assert_eq!(error.context.get("exit_code"), Some(&"1".to_string()));
}

#[test]
fn test_request_id_consistency() {
    for (n, timeout) in [(1usize, None), (2, Some(1u64)), (4, Some(3599))] {
        let command: Vec<String> = (0..n).map(|i| format!("arg{}", i)).collect();
        let req = Request::process_exec(command, StringMap::new(), None, None, timeout);
        let id1 = req.id();
        let id2 = req.id();
        assert_eq!(id1, id2);
    }
}

#[test]
fn new_requests_get_different_ids() {
    let a = Request::file_get("/tmp/a".to_string(), None);
    let b = Request::file_get("/tmp/a".to_string(), None);
    assert_ne!(a.id(), b.id());
    let c = Request::file_put("/tmp/a".to_string(), vec![1, 2], Some(0o644), true);
    match c {
        Request::FilePut { path, content, mode, create_dirs, .. } => {
            assert_eq!(path, "/tmp/a");
            assert_eq!(content, vec![1, 2]);
            assert_eq!(mode, Some(0o644));
            assert!(create_dirs);
        }
        _ => panic!("expected FilePut"),
    }
}

#[test]
fn every_kind_has_its_tag() {
    let id = 7u128;
    let requests = vec![
        (
            Request::ProcessExec {
                id,
                command: vec![],
                env: StringMap::new(),
                cwd: None,
                stdin: None,
                timeout: None,
            },
            RequestKind::ProcessExec,
            "process_exec",
        ),
        (
            Request::FileGet { id, path: String::new(), range: None },
            RequestKind::FileGet,
            "file_get",
        ),
        (
            Request::FilePut {
                id,
                path: String::new(),
                content: vec![],
                mode: None,
                create_dirs: false,
            },
            RequestKind::FilePut,
            "file_put",
        ),
        (
            Request::DirList {
                id,
                path: String::new(),
                include_hidden: false,
                recursive: false,
            },
            RequestKind::DirList,
            "dir_list",
        ),
        (
            Request::WasmExec { id, module: vec![], input: vec![], timeout: None },
            RequestKind::WasmExec,
            "wasm_exec",
        ),
        (
            Request::JsonCall { id, method: String::new(), params: vec![] },
            RequestKind::JsonCall,
            "json_call",
        ),
        (Request::Ping { id, timestamp: 0 }, RequestKind::Ping, "ping"),
        (
            Request::PtyExec {
                id,
                command: vec![],
                env: StringMap::new(),
                cwd: None,
                privilege: None,
                timeout: None,
            },
            RequestKind::PtyExec,
            "pty_exec",
        ),
    ];
    for (request, kind, tag) in requests {
        assert_eq!(request.id(), 7);
        assert_eq!(request.kind(), kind);
        assert_eq!(request.kind().tag(), tag);
    }
}

#[test]
fn every_response_names_its_request() {
    let id = 99u128;
    let meta = mitoxide::FileMetadata {
        size: 0,
        mode: 0,
        modified: 0,
        is_dir: false,
        is_symlink: false,
    };
    let responses = vec![
        Response::ProcessResult {
            request_id: id,
            exit_code: 0,
            stdout: vec![],
            stderr: vec![],
            duration_ms: 0,
        },
        Response::FileContent { request_id: id, content: vec![], metadata: meta },
        Response::FilePutResult { request_id: id, bytes_written: 0 },
        Response::DirListing { request_id: id, entries: vec![] },
        Response::WasmResult { request_id: id, output: vec![], duration_ms: 0 },
        Response::JsonResult { request_id: id, result: vec![] },
        Response::pong_at(id, 1, 2),
        Response::PtyResult { request_id: id, exit_code: 0, output: vec![], duration_ms: 0 },
        Response::failure(id, ErrorCode::Timeout, "late"),
    ];
    for response in responses {
        assert_eq!(response.request_id(), id);
        assert_eq!(Message::response(response).request_id(), Some(id));
    }
}

#[test]
fn pong_echoes_the_timestamp() {
    match Response::pong_at(5, 12345, 20000) {
        Response::Pong { request_id, timestamp, response_timestamp } => {
            assert_eq!((request_id, timestamp, response_timestamp), (5, 12345, 20000));
        }
        _ => panic!("expected Pong"),
    }
    match Response::pong(5, 12345) {
        Response::Pong { request_id, timestamp, response_timestamp } => {
            assert_eq!((request_id, timestamp), (5, 12345));
            assert!(response_timestamp >= 12345);
        }
        _ => panic!("expected Pong"),
    }
}

#[test]
fn with_context_replaces_an_earlier_value() {
    let error = ErrorDetails::new(ErrorCode::InternalError, "x")
        .with_context("k", "a")
        .with_context("k", "b");
    assert_eq!(error.context.len(), 1);
    assert_eq!(error.context.get("k"), Some(&"b".to_string()));
    assert_eq!(error.context.get("other"), None);
}

#[test]
fn protocol_errors_have_their_texts() {
    assert_eq!(
        ProtocolError::Serialization("bad".to_string()).describe(),
        "Serialization error: bad"
    );
    assert_eq!(ProtocolError::InvalidFrame.describe(), "Invalid frame format");
    assert_eq!(
        ProtocolError::FrameTooLarge { size: 17000000, max: 16777216 }.describe(),
        "Frame too large: 17000000 bytes (max: 16777216)"
    );
    assert_eq!(ProtocolError::StreamClosed.describe(), "Stream closed");
    assert_eq!(ProtocolError::InvalidStreamId(999).describe(), "Invalid stream ID: 999");
    assert_eq!(ProtocolError::InvalidStreamId(0).describe(), "Invalid stream ID: 0");
    assert_eq!(
        ProtocolError::FlowControlViolation.describe(),
        "Flow control violation"
    );
}

#[test]
fn protocol_errors_become_error_records() {
    let cases = vec![
        (ProtocolError::Serialization("bad".to_string()), ErrorCode::InvalidRequest, "bad"),
        (ProtocolError::InvalidFrame, ErrorCode::InvalidRequest, "Invalid frame format"),
        (
            ProtocolError::FrameTooLarge { size: 5, max: 4 },
            ErrorCode::ResourceExhausted,
            "Frame too large: 5 bytes (max: 4)",
        ),
        (ProtocolError::StreamClosed, ErrorCode::InternalError, "Stream closed"),
        (ProtocolError::InvalidStreamId(3), ErrorCode::InvalidRequest, "Invalid stream ID: 3"),
        (
            ProtocolError::FlowControlViolation,
            ErrorCode::InternalError,
            "Flow control violation",
        ),
    ];
    for (error, code, message) in cases {
        let details = error.into_details();
        assert_eq!(details.code, code);
        assert_eq!(details.message, message);
        assert!(details.context.is_empty());
    }
}

#[test]
fn error_records_become_protocol_errors() {
    assert!(matches!(
        ProtocolError::from_details(ErrorDetails::new(ErrorCode::InvalidRequest, "x")),
        ProtocolError::InvalidFrame
    ));
    match ProtocolError::from_details(ErrorDetails::new(ErrorCode::Timeout, "late")) {
        ProtocolError::Serialization(m) => assert_eq!(m, "late"),
        other => panic!("unexpected {:?}", other),
    }
}

#[test]
fn conversions_go_through_from() {
    let details: ErrorDetails = ProtocolError::InvalidStreamId(3).into();
    assert_eq!(details.code, ErrorCode::InvalidRequest);
    assert_eq!(details.message, "Invalid stream ID: 3");
    let error: ProtocolError = ErrorDetails::new(ErrorCode::InvalidRequest, "x").into();
    assert!(matches!(error, ProtocolError::InvalidFrame));
    let error: mitoxide::MitoxideError =
        mitoxide::TransportError::Bootstrap("no shell".to_string()).into();
    assert!(matches!(error, mitoxide::MitoxideError::Agent(m) if m == "no shell"));
}
