//! Framing, addresses and the client's side of a connection.

use nostdb_server::client::{
    frame_length, parse_server_address, read_frame, write_frame, Client, ClientError, ClientFrame,
    ClientRequest, ClientRole, ErrorCode, IoFailure, ServerFrame, ServerResponse,
    DATABASE_PROTOCOL_VERSION, MAX_FRAME_BYTES, SNAPSHOT_CHUNK_BYTES,
};

fn protocol(message: &str) -> ClientError {
    ClientError::Protocol(message.to_owned())
}

#[test]
fn framing_round_trips_and_rejects_unbounded_lengths() {
    let payload = br#"{"request_id":9,"type":"ping"}"#;
    let bytes = write_frame(payload).expect("frame encodes");
    assert_eq!(
        read_frame(bytes.as_slice()).expect("frame decodes"),
        payload.to_vec()
    );

    let mut oversized = ((MAX_FRAME_BYTES as u32) + 1).to_be_bytes().to_vec();
    oversized.extend_from_slice(b"{}");
    assert!(matches!(
        read_frame(oversized.as_slice()),
        Err(ClientError::Protocol(_))
    ));
}

#[test]
fn server_address_requires_the_database_scheme_and_no_path() {
    assert_eq!(
        parse_server_address("nostdb://127.0.0.1:7878").expect("address parses"),
        "127.0.0.1:7878"
    );
    for invalid in [
        "127.0.0.1:7878",
        "nostdb://127.0.0.1:7878/path",
        "nostdb://user@127.0.0.1:7878",
    ] {
        assert!(parse_server_address(invalid).is_err(), "{invalid}");
    }
}

#[test]
fn frames_are_prefixed_with_a_big_endian_length() {
    assert_eq!(write_frame(b"ab"), Ok(vec![0, 0, 0, 2, b'a', b'b']));
    let long = vec![7_u8; 0x01_02_03];
    let frame = write_frame(&long).expect("frame encodes");
    assert_eq!(&frame[..4], &[0, 1, 2, 3]);
    assert_eq!(frame_length(&[0, 1, 2, 3]), Ok(0x01_02_03));
    assert_eq!(frame_length(&[0, 16, 0, 0]), Ok(MAX_FRAME_BYTES));
    assert_eq!(frame_length(&[0, 0, 0, 0]), Err(0));
    assert_eq!(frame_length(&[255, 255, 255, 255]), Err(u32::MAX));
}

#[test]
fn frame_bounds_are_reported() {
    assert_eq!(
        write_frame(b""),
        Err(protocol("encoded frame size 0 is outside 1..=1048576"))
    );
    assert_eq!(
        write_frame(&vec![0_u8; MAX_FRAME_BYTES + 1]),
        Err(protocol("encoded frame size 1048577 is outside 1..=1048576"))
    );
    assert!(write_frame(&vec![0_u8; MAX_FRAME_BYTES]).is_ok());
    assert_eq!(
        read_frame(&[0, 0, 0, 0, 1]),
        Err(protocol("received frame size 0 is outside 1..=1048576"))
    );
    let short = ClientError::Io(IoFailure {
        message: "failed to fill whole buffer".to_owned(),
    });
    assert_eq!(read_frame(&[0, 0, 0]), Err(short));
    let cut = read_frame(&[0, 0, 0, 3, b'a', b'b']).expect_err("payload is cut");
    assert_eq!(
        cut.text(),
        "database connection failed: failed to fill whole buffer"
    );
}

#[test]
fn reading_leaves_what_follows_a_frame() {
    let mut bytes = write_frame(b"first").expect("frame encodes");
    bytes.extend_from_slice(&write_frame(b"second").expect("frame encodes"));
    assert_eq!(read_frame(&bytes), Ok(b"first".to_vec()));
    assert_eq!(read_frame(&bytes[9..]), Ok(b"second".to_vec()));
}

#[test]
fn addresses_are_bare_hosts_and_ports() {
    assert_eq!(parse_server_address("nostdb://[::1]:7878"), Ok("[::1]:7878".to_owned()));
    assert_eq!(parse_server_address("nostdb://localhost:1"), Ok("localhost:1".to_owned()));
    for scheme in ["", "nostdb:/", "http://localhost:1", "NOSTDB://localhost:1"] {
        assert_eq!(
            parse_server_address(scheme),
            Err(protocol("server address must start with nostdb://"))
        );
    }
    for address in [
        "nostdb://",
        "nostdb://host",
        "nostdb://host:",
        "nostdb://:7878",
        "nostdb://host:port",
        "nostdb://host:78a",
        "nostdb://[::1]",
        "nostdb://[::1]:",
        "nostdb://h:1?q",
        "nostdb://h:1#f",
    ] {
        assert_eq!(
            parse_server_address(address),
            Err(protocol("server address must contain only HOST:PORT"))
        );
    }
}

#[test]
fn constants_state_the_wire_contract() {
    assert_eq!(DATABASE_PROTOCOL_VERSION, 1);
    assert_eq!(MAX_FRAME_BYTES, 1024 * 1024);
    assert_eq!(SNAPSHOT_CHUNK_BYTES, 256 * 1024);
}

fn hello(version: u32, frame_bytes: u64) -> ServerResponse {
    ServerResponse::Hello {
        protocol_version: version,
        server_version: "0.1.0".to_owned(),
        role: ClientRole::Admin,
        max_frame_bytes: frame_bytes,
    }
}

#[test]
fn a_client_negotiates_and_numbers_its_requests() {
    let mut client = Client::new();
    let first = client
        .send(Client::hello("secret".to_owned(), "test".to_owned()))
        .expect("hello is numbered");
    assert_eq!(
        first,
        ClientFrame {
            request_id: 1,
            request: ClientRequest::Hello {
                protocol_version: 1,
                credential: "secret".to_owned(),
                client_name: "test".to_owned(),
            },
        }
    );
    assert_eq!(client.connect(hello(1, 1_048_576)), Ok(()));
    assert_eq!(client.role(), ClientRole::Admin);
    assert_eq!(client.send(ClientRequest::Ping).expect("ping is numbered").request_id, 2);

    client.next_request_id = u64::MAX;
    assert_eq!(
        client.send(ClientRequest::Ping),
        Err(protocol("request identifier exhausted"))
    );
}

#[test]
fn a_client_refuses_another_contract() {
    let mut client = Client::new();
    for response in [hello(2, 1_048_576), hello(1, 5)] {
        assert_eq!(
            client.connect(response),
            Err(protocol("server negotiated an incompatible framing contract"))
        );
    }
    assert_eq!(
        client.connect(ServerResponse::Pong),
        Err(protocol("server did not answer hello with hello"))
    );
    assert_eq!(client.role(), ClientRole::Query);
}

#[test]
fn a_response_answers_its_request() {
    let frame = ServerFrame { request_id: 4, response: ServerResponse::Pong };
    assert_eq!(Client::request(4, frame), Ok(ServerResponse::Pong));
    let frame = ServerFrame { request_id: 5, response: ServerResponse::Pong };
    assert_eq!(
        Client::request(12, frame),
        Err(protocol("expected response 12, received 5"))
    );
    let frame = ServerFrame {
        request_id: 6,
        response: ServerResponse::Error {
            code: ErrorCode::DatabaseBusy,
            message: "try later".to_owned(),
            retryable: true,
        },
    };
    let error = Client::request(6, frame).expect_err("the server refused");
    assert_eq!(error.text(), "database_busy: try later");
    assert!(matches!(error, ClientError::Server { retryable: true, .. }));
}

#[test]
fn every_error_code_has_a_stable_name() {
    let codes = [
        (ErrorCode::UnsupportedProtocol, "unsupported_protocol"),
        (ErrorCode::AuthenticationFailed, "authentication_failed"),
        (ErrorCode::ProtocolViolation, "protocol_violation"),
        (ErrorCode::PermissionDenied, "permission_denied"),
        (ErrorCode::DatabaseNotSelected, "database_not_selected"),
        (ErrorCode::DatabaseNotFound, "database_not_found"),
        (ErrorCode::DatabaseAlreadyExists, "database_already_exists"),
        (ErrorCode::InvalidDatabaseName, "invalid_database_name"),
        (ErrorCode::DatabaseBusy, "database_busy"),
        (ErrorCode::QueryError, "query_error"),
        (ErrorCode::ResourceLimit, "resource_limit"),
        (ErrorCode::Cancelled, "cancelled"),
        (ErrorCode::TransactionAlreadyActive, "transaction_already_active"),
        (ErrorCode::NoTransaction, "no_transaction"),
        (ErrorCode::RequestTooLarge, "request_too_large"),
        (ErrorCode::SnapshotIncompatible, "snapshot_incompatible"),
        (ErrorCode::RecoveryRequired, "recovery_required"),
        (ErrorCode::InternalError, "internal_error"),
    ];
    for (code, name) in codes {
        assert_eq!(code.as_text(), name);
    }
    assert_eq!(
        ClientError::Protocol("bad".to_owned()).text(),
        "database protocol error: bad"
    );
}
