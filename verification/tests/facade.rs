use pq_status::connection::{Connection, Reported, Status};
use pq_status::errors::{NoActiveSocket, ProtocolMismatch};
use pq_status::ssl::Attribute;
use pq_status::transaction;

fn buffer(text: &str) -> Option<Vec<u8>> {
    let mut bytes = text.as_bytes().to_vec();
    bytes.push(0);
    Some(bytes)
}

fn named(name: &str, value: Option<Vec<u8>>) -> Reported {
    Reported { name: name.to_string(), value }
}

fn simulated() -> Connection {
    Connection {
        db: buffer("app_db"),
        user: buffer("svc_user"),
        pass: None,
        host: buffer("db.internal"),
        port: buffer("5432"),
        tty: None,
        options: None,
        status: 0,
        transaction_status: 0,
        parameters: vec![
            named("server_encoding", buffer("UTF8")),
            named("TimeZone", buffer("Etc/UTC")),
        ],
        protocol_version: 3,
        server_version: 150003,
        error_message: None,
        socket: 7,
        backend_pid: 4711,
        needs_password: 0,
        used_password: 0,
        ssl_in_use: 1,
        ssl_attributes: vec![named("protocol", buffer("TLSv1.3")), named("cipher", None)],
        ssl_attribute_names: Some(vec![buffer("protocol"), buffer("cipher"), None]),
    }
}

#[test]
fn simulated_connection_round_trip() {
    let conn = simulated();
    assert_eq!(conn.db(), "app_db");
    assert_eq!(conn.user(), "svc_user");
    assert_eq!(conn.pass(), None);
    assert_eq!(conn.status(), Ok(Status::Okay));
    assert_eq!(conn.transaction_status(), Ok(transaction::Status::Idle));
    assert_eq!(conn.protocol_version(), 3);
    assert_eq!(conn.server_version(), 150003);
    assert_eq!(conn.socket(), Ok(7));
    assert_eq!(conn.ssl_attribute_names(), vec![Attribute::Protocol, Attribute::Cipher]);
    assert_eq!(conn.ssl_attribute(Attribute::Protocol), Some("TLSv1.3".to_string()));
    assert_eq!(conn.ssl_attribute(Attribute::Cipher), None);
}

#[test]
fn returned_text_does_not_follow_the_connection() {
    let mut conn = simulated();
    let db = conn.db();
    let user = conn.user();
    let host = conn.host();
    let port = conn.port();
    let encoding = conn.parameter_status("server_encoding");
    conn.db = buffer("other_db");
    conn.user = None;
    if let Some(bytes) = conn.host.as_mut() {
        bytes.clear();
    }
    conn.port = buffer("6543");
    conn.parameters.clear();
    assert_eq!(db, "app_db");
    assert_eq!(user, "svc_user");
    assert_eq!(host, "db.internal");
    assert_eq!(port, "5432");
    assert_eq!(encoding, "UTF8");
    assert_eq!(conn.db(), "other_db");
    drop(conn);
    assert_eq!(db, "app_db");
    assert_eq!(user, "svc_user");
    assert_eq!(host, "db.internal");
    assert_eq!(port, "5432");
    assert_eq!(encoding, "UTF8");
}

#[test]
fn required_texts_may_be_empty() {
    let conn = Connection { db: Some(vec![0]), user: Some(Vec::new()), ..simulated() };
    assert_eq!(conn.db(), "");
    assert_eq!(conn.user(), "");
}

#[test]
fn host_may_be_a_socket_directory() {
    let conn = Connection { host: buffer("/var/run/postgresql"), ..simulated() };
    let host = conn.host();
    assert_eq!(host, "/var/run/postgresql");
    assert!(host.starts_with('/'));
}

#[test]
fn port_is_text() {
    let conn = Connection { port: buffer("05432"), ..simulated() };
    assert_eq!(conn.port(), "05432");
}

#[test]
fn optional_texts_are_absent_for_a_null_reference() {
    let conn = Connection {
        pass: None,
        tty: None,
        options: None,
        error_message: None,
        ..simulated()
    };
    assert_eq!(conn.pass(), None);
    assert_eq!(conn.tty(), None);
    assert_eq!(conn.options(), None);
    assert_eq!(conn.error_message(), None);
}

#[test]
fn optional_texts_are_empty_for_an_empty_buffer() {
    let conn = Connection {
        pass: Some(vec![0]),
        tty: Some(vec![0]),
        options: Some(Vec::new()),
        error_message: Some(vec![0]),
        ..simulated()
    };
    assert_eq!(conn.pass(), Some(String::new()));
    assert_eq!(conn.tty(), Some(String::new()));
    assert_eq!(conn.options(), Some(String::new()));
    assert_eq!(conn.error_message(), Some(String::new()));
}

#[test]
fn optional_texts_are_copied() {
    let conn = Connection {
        pass: buffer("hunter2"),
        tty: buffer("/dev/pts/3"),
        options: buffer("-c geqo=off"),
        error_message: buffer("FATAL:  role \"nobody\" does not exist\n"),
        ..simulated()
    };
    assert_eq!(conn.pass(), Some("hunter2".to_string()));
    assert_eq!(conn.tty(), Some("/dev/pts/3".to_string()));
    assert_eq!(conn.options(), Some("-c geqo=off".to_string()));
    assert_eq!(
        conn.error_message(),
        Some("FATAL:  role \"nobody\" does not exist\n".to_string())
    );
}

#[test]
fn status_is_read_from_the_code() {
    let bad = Connection { status: 1, ..simulated() };
    assert_eq!(bad.status(), Ok(Status::Bad));
    let negotiating = Connection { status: 7, ..simulated() };
    assert_eq!(negotiating.status(), Ok(Status::SslStartup));
    let writable = Connection { status: 9, ..simulated() };
    assert_eq!(writable.status(), Ok(Status::CheckWritable));
}

#[test]
fn status_rejects_an_unknown_code() {
    let conn = Connection { status: 16, ..simulated() };
    assert_eq!(conn.status(), Err(ProtocolMismatch { code: 16 }));
    let conn = Connection { status: -3, ..simulated() };
    assert_eq!(conn.status(), Err(ProtocolMismatch { code: -3 }));
}

#[test]
fn transaction_status_is_read_from_the_code() {
    let open = Connection { transaction_status: 2, ..simulated() };
    assert_eq!(open.transaction_status(), Ok(transaction::Status::InTrans));
    let failed = Connection { transaction_status: 3, ..simulated() };
    assert_eq!(failed.transaction_status(), Ok(transaction::Status::InError));
    let busy = Connection { transaction_status: 1, ..simulated() };
    assert_eq!(busy.transaction_status(), Ok(transaction::Status::Active));
    let unknown = Connection { transaction_status: 4, ..simulated() };
    assert_eq!(unknown.transaction_status(), Ok(transaction::Status::Unknown));
}

#[test]
fn transaction_status_rejects_an_unknown_code() {
    let conn = Connection { transaction_status: 5, ..simulated() };
    assert_eq!(conn.transaction_status(), Err(ProtocolMismatch { code: 5 }));
}

#[test]
fn parameter_status_finds_the_parameter() {
    let conn = simulated();
    assert_eq!(conn.parameter_status("server_encoding"), "UTF8");
    assert_eq!(conn.parameter_status("TimeZone"), "Etc/UTC");
}

#[test]
fn parameter_status_takes_the_first_of_two() {
    let conn = Connection {
        parameters: vec![
            named("DateStyle", buffer("ISO, MDY")),
            named("DateStyle", buffer("German")),
        ],
        ..simulated()
    };
    assert_eq!(conn.parameter_status("DateStyle"), "ISO, MDY");
}

#[test]
fn versions_pass_through() {
    let conn = Connection { protocol_version: 0, server_version: 90605, ..simulated() };
    assert_eq!(conn.protocol_version(), 0);
    assert_eq!(conn.server_version(), 90605);
}

#[test]
fn socket_at_the_boundary() {
    let zero = Connection { socket: 0, ..simulated() };
    assert_eq!(zero.socket(), Ok(0));
    let closed = Connection { socket: -1, ..simulated() };
    assert_eq!(closed.socket(), Err(NoActiveSocket));
}

#[test]
fn socket_for_every_sign() {
    for raw in [i32::MIN, -4096, -2, -1] {
        let conn = Connection { socket: raw, ..simulated() };
        assert_eq!(conn.socket(), Err(NoActiveSocket));
    }
    for raw in [0, 1, 7, 1023, i32::MAX] {
        let conn = Connection { socket: raw, ..simulated() };
        assert_eq!(conn.socket(), Ok(raw));
    }
}

#[test]
fn backend_pid_is_unsigned() {
    let conn = simulated();
    assert_eq!(conn.backend_pid(), 4711);
    let zero = Connection { backend_pid: 0, ..simulated() };
    assert_eq!(zero.backend_pid(), 0);
    let largest = Connection { backend_pid: i32::MAX, ..simulated() };
    assert_eq!(largest.backend_pid(), 2147483647);
    let minus_one = Connection { backend_pid: -1, ..simulated() };
    assert_eq!(minus_one.backend_pid(), 4294967295);
    let smallest = Connection { backend_pid: i32::MIN, ..simulated() };
    assert_eq!(smallest.backend_pid(), 2147483648);
}

#[test]
fn flags_compare_with_one() {
    for (raw, expected) in [(1, true), (0, false), (2, false), (-1, false), (i32::MAX, false)] {
        let conn = Connection {
            needs_password: raw,
            used_password: raw,
            ssl_in_use: raw,
            ..simulated()
        };
        assert_eq!(conn.needs_password(), expected);
        assert_eq!(conn.used_password(), expected);
        assert_eq!(conn.ssl_in_use(), expected);
    }
}

#[test]
fn flags_are_read_one_by_one() {
    let conn = Connection { needs_password: 1, used_password: 0, ssl_in_use: 1, ..simulated() };
    assert!(conn.needs_password());
    assert!(!conn.used_password());
    assert!(conn.ssl_in_use());
}

#[test]
fn attribute_names_of_a_null_array_are_empty() {
    let conn = Connection { ssl_attribute_names: None, ..simulated() };
    assert_eq!(conn.ssl_attribute_names(), Vec::<Attribute>::new());
}

#[test]
fn attribute_names_keep_unknown_names() {
    let conn = Connection {
        ssl_attribute_names: Some(vec![
            buffer("library"),
            buffer("session_reused"),
            buffer("alpn"),
            buffer("key_bits"),
            buffer("compression"),
            None,
        ]),
        ..simulated()
    };
    assert_eq!(
        conn.ssl_attribute_names(),
        vec![
            Attribute::Library,
            Attribute::Other("session_reused".to_string()),
            Attribute::Alpn,
            Attribute::KeyBits,
            Attribute::Compression,
        ]
    );
}

#[test]
fn attribute_that_is_not_listed_is_absent() {
    let conn = simulated();
    assert_eq!(conn.ssl_attribute(Attribute::Compression), None);
    assert_eq!(conn.ssl_attribute(Attribute::Other("session_reused".to_string())), None);
}

#[test]
fn attribute_with_an_empty_value_is_present() {
    let conn = Connection { ssl_attributes: vec![named("alpn", Some(vec![0]))], ..simulated() };
    assert_eq!(conn.ssl_attribute(Attribute::Alpn), Some(String::new()));
}

#[test]
fn attribute_is_asked_for_by_its_name() {
    let conn = Connection {
        ssl_attributes: vec![
            named("library", buffer("OpenSSL")),
            named("key_bits", buffer("256")),
            named("compression", buffer("off")),
            named("session_reused", buffer("no")),
            named("key_bits", buffer("128")),
        ],
        ..simulated()
    };
    assert_eq!(conn.ssl_attribute(Attribute::Library), Some("OpenSSL".to_string()));
    assert_eq!(conn.ssl_attribute(Attribute::KeyBits), Some("256".to_string()));
    assert_eq!(conn.ssl_attribute(Attribute::Compression), Some("off".to_string()));
    assert_eq!(
        conn.ssl_attribute(Attribute::Other("session_reused".to_string())),
        Some("no".to_string())
    );
    assert_eq!(conn.ssl_attribute(Attribute::Other("key_bits".to_string())), Some("256".to_string()));
    assert_eq!(conn.ssl_attribute(Attribute::Protocol), None);
}

#[test]
fn every_listed_attribute_can_be_asked_for() {
    let conn = simulated();
    let values: Vec<Option<String>> =
        conn.ssl_attribute_names().into_iter().map(|name| conn.ssl_attribute(name)).collect();
    assert_eq!(values, vec![Some("TLSv1.3".to_string()), None]);
}
