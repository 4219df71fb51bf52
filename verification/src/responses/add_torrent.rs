//! The reply to an add request: the created or already-present record.

use vstd::prelude::*;
use crate::decode::{get_string, get_u64, missing, u64_field, string_field};
use crate::error::{DeserializeError, DeserializeErrorV};
use crate::json::{Json, Jv, obj_get, obj_lookup};
use crate::torrent::req;

verus! {

/// A reply to an add request.
#[derive(Clone, Debug, PartialEq)]
pub struct AddTorrent {
    /// The id of the torrent.
    pub id: u64,
    /// The name of the torrent.
    pub name: String,
    /// The hash string of the torrent.
    pub hash_string: String,
    /// True when the daemon already had the torrent and returned the old
    /// record instead of creating a duplicate.
    pub was_duplicate: bool,
}

/// Mathematical model of an add reply.
pub struct AddTorrentV {
    pub id: u64,
    pub name: Seq<char>,
    pub hash_string: Seq<char>,
    pub was_duplicate: bool,
}

impl View for AddTorrent {
    type V = AddTorrentV;

    open spec fn view(&self) -> AddTorrentV {
        AddTorrentV {
            id: self.id,
            name: self.name@,
            hash_string: self.hash_string@,
            was_duplicate: self.was_duplicate,
        }
    }
}

/// The record the info value under an alternative key decodes to: id, name
/// and hash string are required, and the value must be an object.
pub open spec fn add_info_of(info: Jv, dup: bool, key: Seq<char>) -> Result<
    AddTorrentV,
    DeserializeErrorV,
> {
    match info {
        Jv::Obj(m) => match req(u64_field(m, "id"@), "id"@) {
            Err(e) => Err(e),
            Ok(id) => match req(string_field(m, "name"@), "name"@) {
                Err(e) => Err(e),
                Ok(name) => match req(string_field(m, "hashString"@), "hashString"@) {
                    Err(e) => Err(e),
                    Ok(hash_string) => Ok(
                        AddTorrentV { id, name, hash_string, was_duplicate: dup },
                    ),
                },
            },
        },
        _ => Err(DeserializeErrorV::InvalidType("object"@, key)),
    }
}

/// The record an arguments value decodes to: the alternative keys checked in
/// fixed priority order, the matched one recorded as the duplicate flag, and
/// the first-priority key named when neither is present.
pub open spec fn add_torrent_of(v: Jv) -> Result<AddTorrentV, DeserializeErrorV> {
    match v {
        Jv::Obj(m) => match obj_get(m, "torrent-added"@) {
            Some(info) => add_info_of(info, false, "torrent-added"@),
            None => match obj_get(m, "torrent-duplicate"@) {
                Some(info) => add_info_of(info, true, "torrent-duplicate"@),
                None => Err(DeserializeErrorV::MissingField("torrent-added"@)),
            },
        },
        _ => Err(DeserializeErrorV::MissingField("torrent-added"@)),
    }
}

impl AddTorrent {
    /// Decodes an add reply from its arguments value.
    pub fn from_value(v: &Json) -> (r: Result<AddTorrent, DeserializeError>)
        ensures
            match r {
                Ok(a) => add_torrent_of(v@) == Ok::<_, DeserializeErrorV>(a@),
                Err(e) => add_torrent_of(v@) == Err::<AddTorrentV, _>(e@),
            },
    {
        let ms = match v {
            Json::Obj(ms) => ms,
            _ => {
                return Err(missing("torrent-added"));
            },
        };
        let was_duplicate: bool;
        let info: &Json;
        match obj_lookup(ms, "torrent-added") {
            Some(j) => {
                info = j;
                was_duplicate = false;
            },
            None => match obj_lookup(ms, "torrent-duplicate") {
                Some(j) => {
                    info = j;
                    was_duplicate = true;
                },
                None => {
                    return Err(missing("torrent-added"));
                },
            },
        }
        let entries = match info {
            Json::Obj(entries) => entries,
            _ => {
                return Err(
                    crate::decode::invalid(
                        "object",
                        if was_duplicate {
                            "torrent-duplicate"
                        } else {
                            "torrent-added"
                        },
                    ),
                );
            },
        };
        let id = match get_u64(entries, "id") {
            Ok(Some(x)) => x,
            Ok(None) => {
                return Err(missing("id"));
            },
            Err(e) => {
                return Err(e);
            },
        };
        let name = match get_string(entries, "name") {
            Ok(Some(x)) => x,
            Ok(None) => {
                return Err(missing("name"));
            },
            Err(e) => {
                return Err(e);
            },
        };
        let hash_string = match get_string(entries, "hashString") {
            Ok(Some(x)) => x,
            Ok(None) => {
                return Err(missing("hashString"));
            },
            Err(e) => {
                return Err(e);
            },
        };
        Ok(AddTorrent { id, name, hash_string, was_duplicate })
    }
}

} // verus!
