//! The session negotiator: headers, the token handshake, and the catalog.

use transmission_rpc::error::{DaemonError, DeserializeError, Error};
use transmission_rpc::session::{Exchange, Step, Transmission};
use transmission_rpc::torrent::{Torrent, TorrentField};
use transmission_rpc::priority::Priority as BuilderPriority;
use transmission_rpc::types::{Priority, Status};

#[test]
fn default_connection_sends_only_the_content_type() {
    let tr = Transmission::new();
    assert_eq!(tr.url, "http://127.0.0.1:9091/transmission/rpc");
    let hs = tr.request_headers();
    assert_eq!(
        hs,
        vec![(
            "Content-Type".to_string(),
            "application/json; charset=utf-8".to_string()
        )]
    );
}

#[test]
fn configured_connection_sends_token_and_credentials() {
    let mut tr = Transmission::new();
    tr.set_url("http://daemon.example:9091/rpc".to_string());
    assert_eq!(tr.url, "http://daemon.example:9091/rpc");
    tr.set_auth("admin".to_string(), "secret".to_string());
    tr.session = Some("tok55".to_string());
    let hs = tr.request_headers();
    assert_eq!(
        hs,
        vec![
            (
                "Content-Type".to_string(),
                "application/json; charset=utf-8".to_string()
            ),
            ("X-Transmission-Session-Id".to_string(), "tok55".to_string()),
            (
                "Authorization".to_string(),
                "Basic YWRtaW46c2VjcmV0".to_string()
            ),
        ]
    );
}

#[test]
fn session_retry_happens_exactly_once() {
    let mut tr = Transmission::new();
    let mut ex = Exchange::new();
    // first exchange: rejected with a fresh token
    let s = ex.step(&mut tr, 409, Some("abc123".to_string()));
    assert!(matches!(s, Step::Resend));
    assert_eq!(tr.session, Some("abc123".to_string()));
    // the resent exchange is rejected again: no third exchange is asked for
    let s = ex.step(&mut tr, 409, Some("def456".to_string()));
    match s {
        Step::Fail(e) => assert_eq!(e, Error::Daemon(DaemonError::StatusCode(409))),
        _ => panic!("a second rejection must finish the call"),
    }
    assert_eq!(tr.session, Some("abc123".to_string()));
}

#[test]
fn rejection_without_a_token_is_a_transport_failure() {
    let mut tr = Transmission::new();
    let mut ex = Exchange::new();
    let s = ex.step(&mut tr, 409, None);
    match s {
        Step::Fail(e) => assert!(matches!(e, Error::Http(_))),
        _ => panic!("a rejection without a token cannot be retried"),
    }
    assert_eq!(tr.session, None);
}

#[test]
fn success_delivers_and_other_statuses_fail() {
    let mut tr = Transmission::new();
    let mut ex = Exchange::new();
    assert!(matches!(ex.step(&mut tr, 200, None), Step::Deliver));
    let s = ex.step(&mut tr, 500, None);
    match s {
        Step::Fail(e) => assert_eq!(e, Error::Daemon(DaemonError::StatusCode(500))),
        _ => panic!("a failure status must fail the call"),
    }
}

#[test]
fn error_messages_name_the_cause() {
    let e = Error::Daemon(DaemonError::StatusCode(404));
    assert_eq!(
        e.message(),
        "daemon returned an error: non-success HTTP status code: 404"
    );
    let e = Error::Daemon(DaemonError::Message("oops".to_string()));
    assert_eq!(
        e.message(),
        "daemon returned an error: daemon returned an error: oops"
    );
    let e = Error::Deserialize(DeserializeError::InvalidType(
        "number".to_string(),
        "id".to_string(),
    ));
    assert_eq!(
        e.message(),
        "deserializing error: invalid field type 'number' for field 'id'"
    );
    let e = Error::Deserialize(DeserializeError::MissingField("arguments".to_string()));
    assert_eq!(e.message(), "deserializing error: missing field 'arguments'");
    let e = Error::Http("connection refused".to_string());
    assert_eq!(e.message(), "HTTP error: connection refused");
    let e = Error::Io("file not found".to_string());
    assert_eq!(e.message(), "IO error: file not found");
}

#[test]
fn catalog_maps_fields_to_wire_keys() {
    assert_eq!(TorrentField::Id.wire_key(), "id");
    assert_eq!(TorrentField::AddedDate.wire_key(), "addedDate");
    assert_eq!(TorrentField::HashString.wire_key(), "hashString");
    assert_eq!(TorrentField::PeersFrom.wire_key(), "peersFrom");
    assert_eq!(TorrentField::IsPrivate.wire_key(), "isPrivate");
    let all = TorrentField::all();
    assert_eq!(all.len(), 20);
    assert_eq!(all[0], TorrentField::ActivityDate);
    assert_eq!(all[19], TorrentField::Webseeds);
    // the catalog is duplicate-free
    for i in 0..all.len() {
        for j in (i + 1)..all.len() {
            assert_ne!(all[i].wire_key(), all[j].wire_key());
        }
    }
}

#[test]
fn default_record_is_all_absent() {
    let t = Torrent::default();
    assert_eq!(t.id, None);
    assert_eq!(t.name, None);
    assert_eq!(t.added_date, None);
    assert_eq!(t.status, None);
    assert_eq!(t.files, None);
    assert_eq!(t.webseeds, None);
}

#[test]
fn wire_numbers_round_trip() {
    assert_eq!(Status::from_i64(0), Some(Status::Stopped));
    assert_eq!(Status::from_i64(6), Some(Status::Seed));
    assert_eq!(Status::from_i64(7), None);
    assert_eq!(Status::Download.as_i64(), 4);
    assert_eq!(Priority::from_i64(-1), Some(Priority::Low));
    assert_eq!(Priority::from_i64(2), None);
    assert_eq!(Priority::High.as_i64(), 1);
    assert_eq!(BuilderPriority::from_i32(0), Some(BuilderPriority::Normal));
    assert_eq!(BuilderPriority::from_i32(5), None);
    assert_eq!(BuilderPriority::Low.as_i8(), -1);
}
