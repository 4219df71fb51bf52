//! Request builders, payload omission, and the outbound envelope.

use transmission_rpc::base64::base64_encode;
use transmission_rpc::json::Json;
use transmission_rpc::requests::{
    ActionTarget, ActionType, AddTorrent, GetTorrent, TorrentAction, TorrentSet,
};
use transmission_rpc::requests::Request;
use transmission_rpc::requests::{request_text, to_value};
use transmission_rpc::ser::to_text;
use transmission_rpc::torrent::TorrentField;
use transmission_rpc::types::Priority;

#[test]
fn base64_standard_vectors() {
    let enc = |s: &str| base64_encode(&s.as_bytes().to_vec());
    assert_eq!(enc(""), "");
    assert_eq!(enc("f"), "Zg==");
    assert_eq!(enc("fo"), "Zm8=");
    assert_eq!(enc("foo"), "Zm9v");
    assert_eq!(enc("foob"), "Zm9vYg==");
    assert_eq!(enc("fooba"), "Zm9vYmE=");
    assert_eq!(enc("foobar"), "Zm9vYmFy");
    assert_eq!(enc("user:pass"), "dXNlcjpwYXNz");
}

#[test]
fn get_torrent_payload_is_selective() {
    // no restriction at all: an empty payload
    assert_eq!(to_text(&GetTorrent::new().arguments()), "{}");
    // only fields
    let q = GetTorrent::new().field(TorrentField::Id).field(TorrentField::Name);
    assert_eq!(to_text(&q.arguments()), "{\"fields\":[\"id\",\"name\"]}");
    // fields and ids
    let q = GetTorrent::new().id(7).field(TorrentField::AddedDate);
    assert_eq!(
        to_text(&q.arguments()),
        "{\"fields\":[\"addedDate\"],\"ids\":[7]}"
    );
    // setting whole lists equals adding one by one
    let a = GetTorrent::new().ids(vec![1, 2]).fields(vec![TorrentField::Id]);
    let b = GetTorrent::new().id(1).id(2).field(TorrentField::Id);
    assert_eq!(to_text(&a.arguments()), to_text(&b.arguments()));
}

#[test]
fn get_torrent_envelope() {
    let q = GetTorrent::new().field(TorrentField::Id);
    assert_eq!(q.method_name(), "torrent-get");
    assert_eq!(
        request_text(&q),
        "{\"arguments\":{\"fields\":[\"id\"]},\"method\":\"torrent-get\"}"
    );
}

#[test]
fn add_torrent_payload_omits_unset_fields() {
    let a = AddTorrent::from_source("http://example.com/x.torrent".to_string());
    assert_eq!(
        to_text(&a.arguments()),
        "{\"filename\":\"http://example.com/x.torrent\"}"
    );
    let b = AddTorrent::from_source("x".to_string())
        .paused(true)
        .download_dir("/tmp/dl".to_string());
    assert_eq!(
        to_text(&b.arguments()),
        "{\"download_dir\":\"/tmp/dl\",\"filename\":\"x\",\"paused\":true}"
    );
}

#[test]
fn add_torrent_payload_is_order_independent() {
    let a = AddTorrent::from_source("x".to_string())
        .paused(false)
        .peer_limit(9)
        .download_dir("/d".to_string());
    let b = AddTorrent::from_source("x".to_string())
        .download_dir("/d".to_string())
        .peer_limit(9)
        .paused(false);
    assert_eq!(to_text(&a.arguments()), to_text(&b.arguments()));
}

#[test]
fn add_torrent_from_metainfo_encodes_base64() {
    let a = AddTorrent::from_metainfo(&b"foobar".to_vec());
    assert_eq!(to_text(&a.arguments()), "{\"metainfo\":\"Zm9vYmFy\"}");
    assert_eq!(a.method_name(), "torrent-add");
}

#[test]
fn torrent_set_payload() {
    let s = TorrentSet::new().id(3);
    assert_eq!(to_text(&s.arguments()), "{\"ids\":[3]}");
    let s = TorrentSet::new()
        .id(1)
        .set_upload_limited(true)
        .set_bandwidth_priority(Priority::Low)
        .set_location("/data".to_string());
    assert_eq!(
        to_text(&s.arguments()),
        "{\"bandwidth_priority\":-1,\"ids\":[1],\"location\":\"/data\",\"upload_limited\":true}"
    );
    assert_eq!(s.method_name(), "torrent-set");
}

#[test]
fn torrent_set_payload_is_order_independent() {
    let a = TorrentSet::new().id(1).set_download_limit(80).set_peer_limit(4);
    let b = TorrentSet::new().set_peer_limit(4).set_download_limit(80).id(1);
    assert_eq!(to_text(&a.arguments()), to_text(&b.arguments()));
}

#[test]
fn torrent_action_methods_and_payloads() {
    let start = TorrentAction::new(ActionType::Start, ActionTarget::All);
    assert_eq!(start.method_name(), "torrent-start");
    assert_eq!(to_text(&start.arguments()), "{}");

    let stop = TorrentAction::new(ActionType::Stop, ActionTarget::Single { id: 4 });
    assert_eq!(stop.method_name(), "torrent-stop");
    assert_eq!(to_text(&stop.arguments()), "{\"id\":4}");

    let verify = TorrentAction::new(
        ActionType::Verify,
        ActionTarget::List {
            ids: vec![1, 2],
            hashes: vec!["abc".to_string()],
        },
    );
    assert_eq!(verify.method_name(), "torrent-verify");
    assert_eq!(to_text(&verify.arguments()), "{\"id\":[1,2,\"abc\"]}");

    let re = TorrentAction::new(ActionType::Reannounce, ActionTarget::RecentlyActive);
    assert_eq!(re.method_name(), "torrent-reannounce");
    assert_eq!(to_text(&re.arguments()), "{\"id\":\"recently-active\"}");
}

#[test]
fn envelope_orders_arguments_before_method() {
    let s = TorrentSet::new();
    let v = to_value(&s);
    match v {
        Json::Obj(entries) => {
            assert_eq!(entries.len(), 2);
            assert_eq!(entries[0].0, "arguments");
            assert_eq!(entries[1].0, "method");
            assert!(matches!(&entries[1].1, Json::Str(m) if m == "torrent-set"));
        }
        _ => panic!("the envelope must be an object"),
    }
}
