//! Reply interpretation: the envelope split and the typed decoders.

use transmission_rpc::error::{DaemonError, DeserializeError, Error};
use transmission_rpc::json::Json;
use transmission_rpc::parse::parse_document;
use transmission_rpc::responses::{reply_arguments, AddTorrent, GetTorrent, TorrentAction};
use transmission_rpc::requests::TorrentSetResponse;
use transmission_rpc::ser::to_text;
use transmission_rpc::types::{Priority, Status};

fn args_of(body: &str) -> Json {
    reply_arguments(body).expect("the reply should carry arguments")
}

#[test]
fn success_reply_yields_arguments() {
    let a = args_of("{\"arguments\":{\"torrents\":[]},\"result\":\"success\"}");
    assert_eq!(to_text(&a), "{\"torrents\":[]}");
}

#[test]
fn daemon_failure_is_reported_verbatim() {
    let r = reply_arguments("{\"result\":\"no such torrent\"}");
    match r {
        Err(e) => assert_eq!(
            e,
            Error::Daemon(DaemonError::Message("no such torrent".to_string()))
        ),
        Ok(_) => panic!("a daemon failure must not decode as success"),
    }
}

#[test]
fn absent_result_is_lenient_success() {
    let a = args_of("{\"arguments\":{}}");
    assert_eq!(to_text(&a), "{}");
}

#[test]
fn missing_arguments_is_a_decode_failure() {
    let r = reply_arguments("{\"result\":\"success\"}");
    match r {
        Err(e) => assert_eq!(
            e,
            Error::Deserialize(DeserializeError::MissingField("arguments".to_string()))
        ),
        Ok(_) => panic!("a reply without arguments must not decode"),
    }
}

#[test]
fn malformed_body_is_a_json_failure() {
    let r = reply_arguments("{\"result\":");
    assert!(matches!(
        r,
        Err(Error::Deserialize(DeserializeError::Json(_)))
    ));
}

#[test]
fn selective_reply_populates_exactly_the_sent_fields() {
    let a = args_of(
        "{\"result\":\"success\",\"arguments\":{\"torrents\":[\
         {\"id\":1,\"name\":\"alpha\"},{\"id\":2,\"name\":\"beta\"}]}}",
    );
    let g = GetTorrent::from_value(&a).expect("the reply should decode");
    assert_eq!(g.torrents.len(), 2);
    let t = &g.torrents[0];
    assert_eq!(t.id, Some(1));
    assert_eq!(t.name, Some("alpha".to_string()));
    assert_eq!(t.added_date, None);
    assert_eq!(t.status, None);
    assert_eq!(t.hash_string, None);
    assert_eq!(t.files, None);
    assert_eq!(t.peers_from, None);
    assert_eq!(g.torrents[1].name, Some("beta".to_string()));
}

#[test]
fn wrong_kind_attribute_is_an_invalid_type() {
    let a = args_of(
        "{\"result\":\"success\",\"arguments\":{\"torrents\":[{\"id\":\"not-a-number\"}]}}",
    );
    let r = GetTorrent::from_value(&a);
    assert_eq!(
        r,
        Err(DeserializeError::InvalidType(
            "number".to_string(),
            "id".to_string()
        ))
    );
}

#[test]
fn decoding_twice_yields_equal_records() {
    let a = args_of(
        "{\"result\":\"success\",\"arguments\":{\"torrents\":[\
         {\"id\":9,\"name\":\"x\",\"totalSize\":100,\"isPrivate\":true,\"status\":4}]}}",
    );
    let one = GetTorrent::from_value(&a).unwrap();
    let two = GetTorrent::from_value(&a).unwrap();
    assert_eq!(one, two);
    assert_eq!(one.torrents[0].status, Some(Status::Download));
}

#[test]
fn rich_record_decodes_nested_values() {
    let a = args_of(
        "{\"result\":\"success\",\"arguments\":{\"torrents\":[{\
         \"id\":3,\
         \"addedDate\":1700000000,\
         \"bandwidthPriority\":1,\
         \"comment\":\"c\",\
         \"error\":0,\
         \"files\":[{\"bytesCompleted\":10,\"length\":20,\"name\":\"f1\"}],\
         \"fileStats\":[{\"bytesCompleted\":10,\"wanted\":true,\"priority\":-1}],\
         \"trackers\":[{\"announce\":\"http://t\",\"scrape\":\"http://s\",\"tier\":0}],\
         \"peersFrom\":{\"fromCache\":1,\"fromIncoming\":2,\"fromPex\":3,\"fromTracker\":4},\
         \"wanted\":[true,false],\
         \"webseeds\":[\"http://w\"]\
         }]}}",
    );
    let g = GetTorrent::from_value(&a).unwrap();
    let t = &g.torrents[0];
    assert_eq!(t.added_date, Some(1700000000));
    assert_eq!(t.bandwidth_priority, Some(Priority::High));
    let files = t.files.as_ref().unwrap();
    assert_eq!(files.len(), 1);
    assert_eq!(files[0].length, 20);
    assert_eq!(files[0].name, "f1");
    let stats = t.file_stats.as_ref().unwrap();
    assert_eq!(stats[0].priority, Priority::Low);
    let trackers = t.trackers.as_ref().unwrap();
    assert_eq!(trackers[0].tier, 0);
    let pf = t.peers_from.as_ref().unwrap();
    assert_eq!(pf.from_pex, 3);
    assert_eq!(t.wanted, Some(vec![true, false]));
    assert_eq!(t.webseeds, Some(vec!["http://w".to_string()]));
}

#[test]
fn unknown_status_and_priority_numbers_are_refused() {
    let a = args_of("{\"arguments\":{\"torrents\":[{\"status\":9}]}}");
    assert_eq!(
        GetTorrent::from_value(&a),
        Err(DeserializeError::InvalidType(
            "status".to_string(),
            "status".to_string()
        ))
    );
    let a = args_of("{\"arguments\":{\"torrents\":[{\"bandwidthPriority\":5}]}}");
    assert_eq!(
        GetTorrent::from_value(&a),
        Err(DeserializeError::InvalidType(
            "priority".to_string(),
            "bandwidthPriority".to_string()
        ))
    );
}

#[test]
fn missing_torrents_key_is_reported() {
    let a = args_of("{\"arguments\":{}}");
    assert_eq!(
        GetTorrent::from_value(&a),
        Err(DeserializeError::MissingField("torrents".to_string()))
    );
    let a = args_of("{\"arguments\":{\"torrents\":5}}");
    assert_eq!(
        GetTorrent::from_value(&a),
        Err(DeserializeError::InvalidType(
            "array".to_string(),
            "torrents".to_string()
        ))
    );
}

#[test]
fn added_torrent_decodes_under_the_primary_key() {
    let a = args_of(
        "{\"result\":\"success\",\"arguments\":{\"torrent-added\":\
         {\"id\":5,\"name\":\"n\",\"hashString\":\"h\"}}}",
    );
    let r = AddTorrent::from_value(&a).unwrap();
    assert_eq!(r.id, 5);
    assert_eq!(r.name, "n");
    assert_eq!(r.hash_string, "h");
    assert!(!r.was_duplicate);
}

#[test]
fn duplicate_torrent_decodes_with_the_flag_set() {
    let a = args_of(
        "{\"result\":\"success\",\"arguments\":{\"torrent-duplicate\":\
         {\"id\":5,\"name\":\"n\",\"hashString\":\"h\"}}}",
    );
    let r = AddTorrent::from_value(&a).unwrap();
    assert_eq!(r.id, 5);
    assert_eq!(r.name, "n");
    assert_eq!(r.hash_string, "h");
    assert!(r.was_duplicate);
}

#[test]
fn add_reply_without_either_key_names_the_primary_one() {
    let a = args_of("{\"arguments\":{}}");
    assert_eq!(
        AddTorrent::from_value(&a),
        Err(DeserializeError::MissingField("torrent-added".to_string()))
    );
    let a = args_of("{\"arguments\":{\"torrent-added\":3}}");
    assert_eq!(
        AddTorrent::from_value(&a),
        Err(DeserializeError::InvalidType(
            "object".to_string(),
            "torrent-added".to_string()
        ))
    );
    let a = args_of("{\"arguments\":{\"torrent-added\":{\"id\":5,\"name\":\"n\"}}}");
    assert_eq!(
        AddTorrent::from_value(&a),
        Err(DeserializeError::MissingField("hashString".to_string()))
    );
}

#[test]
fn acknowledgement_replies_accept_any_arguments() {
    let a = args_of("{\"result\":\"success\",\"arguments\":{}}");
    assert!(TorrentAction::from_value(&a).is_ok());
    assert!(TorrentSetResponse::from_value(&a).is_ok());
    assert!(TorrentAction::from_value(&Json::Null).is_ok());
}

#[test]
fn non_object_reply_reports_missing_arguments() {
    let r = reply_arguments("[1,2,3]");
    match r {
        Err(e) => assert_eq!(
            e,
            Error::Deserialize(DeserializeError::MissingField("arguments".to_string()))
        ),
        Ok(_) => panic!("a reply that is no object carries no arguments"),
    }
}

#[test]
fn non_string_result_is_ignored() {
    let a = args_of("{\"result\":7,\"arguments\":{}}");
    assert_eq!(to_text(&a), "{}");
}

#[test]
fn torrents_come_back_in_reply_order() {
    let a = args_of(
        "{\"arguments\":{\"torrents\":[{\"id\":3},{\"id\":1},{\"id\":2}]}}",
    );
    let g = GetTorrent::from_value(&a).unwrap();
    let ids: Vec<Option<u64>> = g.torrents().into_iter().map(|t| t.id).collect();
    assert_eq!(ids, vec![Some(3), Some(1), Some(2)]);
}

#[test]
fn parse_document_reads_utf8_content() {
    let v = parse_document("{\"name\":\"r\\u00e9sum\\u00e9\"}").unwrap();
    assert_eq!(to_text(&v), "{\"name\":\"résumé\"}");
}
