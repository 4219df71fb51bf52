//! Typed replies and the inbound envelope split.
//!
//! [`reply_arguments`] interprets a reply body: it parses the generic value
//! tree, checks the `result` marker, and hands out the `arguments` value,
//! which each response type's decoder then turns into typed domain values.

pub mod add_torrent;
pub mod get_torrent;
pub mod torrent_action;

pub use self::add_torrent::AddTorrent;
pub use self::get_torrent::GetTorrent;
pub use self::torrent_action::TorrentAction;

use vstd::prelude::*;
use crate::error::{DaemonError, DaemonErrorV, DeserializeErrorV, Error, ErrorV};
use crate::json::{Json, Jv, obj_find, obj_get, obj_lookup, str_eq};
use crate::parse::{document, parse_document};

verus! {

/// The entries of a reply envelope; a reply that is no object has none.
pub open spec fn reply_entries(v: Jv) -> Seq<(Seq<char>, Jv)> {
    match v {
        Jv::Obj(m) => m,
        _ => Seq::empty(),
    }
}

/// The arguments of an envelope, owed whenever the result marker accepts.
pub open spec fn arguments_of(m: Seq<(Seq<char>, Jv)>) -> Result<Jv, ErrorV> {
    match obj_get(m, "arguments"@) {
        Some(a) => Ok(a),
        None => Err(ErrorV::Deserialize(DeserializeErrorV::MissingField("arguments"@))),
    }
}

/// What a reply body yields: the arguments value of a well-formed envelope
/// whose result, when present as a string, is the success literal; the
/// result text as a daemon failure otherwise.  An absent or non-string
/// result is lenient success, since the daemon omits it for some methods.
pub open spec fn reply_arguments_of(s: Seq<char>) -> Result<Jv, ErrorV> {
    match document(s) {
        None => Err(
            ErrorV::Deserialize(DeserializeErrorV::Json("the body is not well-formed JSON"@)),
        ),
        Some(v) => {
            let m = reply_entries(v);
            match obj_get(m, "result"@) {
                Some(Jv::Str(msg)) => if msg == "success"@ {
                    arguments_of(m)
                } else {
                    Err(ErrorV::Daemon(DaemonErrorV::Message(msg)))
                },
                _ => arguments_of(m),
            }
        },
    }
}

/// Interprets a reply body, yielding its arguments value or the failure the
/// envelope reports.
pub fn reply_arguments(body: &str) -> (r: Result<Json, Error>)
    ensures
        match r {
            Ok(a) => reply_arguments_of(body@) == Ok::<_, ErrorV>(a@),
            Err(e) => reply_arguments_of(body@) == Err::<Jv, _>(e@),
        },
{
    let v = match parse_document(body) {
        Some(v) => v,
        None => {
            return Err(
                Error::Deserialize(
                    crate::error::DeserializeError::Json(
                        String::from_str("the body is not well-formed JSON"),
                    ),
                ),
            );
        },
    };
    let mut ms = match v {
        Json::Obj(ms) => ms,
        _ => {
            proof {
                assert(obj_get(Seq::<(Seq<char>, Jv)>::empty(), "result"@) is None);
                assert(obj_get(Seq::<(Seq<char>, Jv)>::empty(), "arguments"@) is None);
            }
            return Err(Error::Deserialize(crate::decode::missing("arguments")));
        },
    };
    match obj_lookup(&ms, "result") {
        Some(j) => match j {
            Json::Str(msg) => {
                if !str_eq(msg.as_str(), "success") {
                    return Err(Error::Daemon(DaemonError::Message(msg.clone())));
                }
            },
            _ => {},
        },
        None => {},
    }
    match obj_find(&ms, "arguments") {
        Some(i) => {
            let entry = ms.remove(i);
            Ok(entry.1)
        },
        None => Err(Error::Deserialize(crate::decode::missing("arguments"))),
    }
}

} // verus!
