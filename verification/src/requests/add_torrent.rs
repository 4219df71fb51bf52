//! A request to add a torrent, from metainfo or from a source the daemon
//! fetches itself.

use vstd::prelude::*;
use super::Request;
use crate::base64::{base64_encode, base64_text};
use crate::json::{Json, Jv, jv_of, jv_of_entries, lemma_jv_of_entries_push};

verus! {

broadcast use vstd::std_specs::vec::group_vec_axioms, vstd::seq::group_seq_axioms;

/// A request to add a torrent.  The torrent can be added from metainfo held
/// in its file's bytes or from a URL or daemon-side path where the daemon
/// can fetch the metainfo.
#[derive(Clone, Debug)]
pub struct AddTorrent {
    /// A URL or daemon-side file path to fetch the metainfo from.
    pub filename: Option<String>,
    /// The metainfo of the torrent, base64-encoded.
    pub metainfo: Option<String>,
    /// The daemon-side directory to download the content to.
    pub download_dir: Option<String>,
    /// The initial state of the torrent.
    pub paused: Option<bool>,
    /// The peer limit of the torrent.
    pub peer_limit: Option<u32>,
}

/// One payload entry for a set string field, none for an unset one.
pub open spec fn str_entry(key: Seq<char>, o: Option<Seq<char>>) -> Seq<(Seq<char>, Jv)> {
    match o {
        Some(s) => seq![(key, Jv::Str(s))],
        None => Seq::empty(),
    }
}

/// One payload entry for a set boolean field, none for an unset one.
pub open spec fn bool_entry(key: Seq<char>, o: Option<bool>) -> Seq<(Seq<char>, Jv)> {
    match o {
        Some(b) => seq![(key, Jv::Bool(b))],
        None => Seq::empty(),
    }
}

/// One payload entry for a set count field, none for an unset one.
pub open spec fn u32_entry(key: Seq<char>, o: Option<u32>) -> Seq<(Seq<char>, Jv)> {
    match o {
        Some(x) => seq![(key, Jv::Int(x as int))],
        None => Seq::empty(),
    }
}

/// The model of an optional string field.
pub open spec fn opt_str(o: Option<String>) -> Option<Seq<char>> {
    match o {
        Some(s) => Some(s@),
        None => None,
    }
}

/// The argument payload of an add request: exactly the set fields, keys in
/// wire order.
pub open spec fn add_torrent_args(
    download_dir: Option<Seq<char>>,
    filename: Option<Seq<char>>,
    metainfo: Option<Seq<char>>,
    paused: Option<bool>,
    peer_limit: Option<u32>,
) -> Jv {
    Jv::Obj(
        str_entry("download_dir"@, download_dir) + str_entry("filename"@, filename) + str_entry(
            "metainfo"@,
            metainfo,
        ) + bool_entry("paused"@, paused) + u32_entry("peer_limit"@, peer_limit),
    )
}

/// Appends the entry of a set string field, nothing for an unset one.
pub(crate) fn push_str_entry(ms: &mut Vec<(String, Json)>, key: &str, o: &Option<String>)
    ensures
        jv_of_entries(final(ms)@) == jv_of_entries(old(ms)@) + str_entry(key@, opt_str(*o)),
{
    match o {
        Some(s) => {
            let k = String::from_str(key);
            let v = Json::Str(s.clone());
            proof {
                lemma_jv_of_entries_push(ms@, k, v);
                assert(jv_of_entries(ms@).push((k@, jv_of(v))) =~= jv_of_entries(ms@) + str_entry(
                    key@,
                    opt_str(*o),
                ));
            }
            ms.push((k, v));
        },
        None => {
            proof {
                assert(jv_of_entries(ms@) + str_entry(key@, opt_str(*o)) =~= jv_of_entries(ms@));
            }
        },
    }
}

/// Appends the entry of a set boolean field, nothing for an unset one.
pub(crate) fn push_bool_entry(ms: &mut Vec<(String, Json)>, key: &str, o: Option<bool>)
    ensures
        jv_of_entries(final(ms)@) == jv_of_entries(old(ms)@) + bool_entry(key@, o),
{
    match o {
        Some(b) => {
            let k = String::from_str(key);
            let v = Json::Bool(b);
            proof {
                lemma_jv_of_entries_push(ms@, k, v);
                assert(jv_of_entries(ms@).push((k@, jv_of(v))) =~= jv_of_entries(ms@) + bool_entry(
                    key@,
                    o,
                ));
            }
            ms.push((k, v));
        },
        None => {
            proof {
                assert(jv_of_entries(ms@) + bool_entry(key@, o) =~= jv_of_entries(ms@));
            }
        },
    }
}

/// Appends the entry of a set count field, nothing for an unset one.
pub(crate) fn push_u32_entry(ms: &mut Vec<(String, Json)>, key: &str, o: Option<u32>)
    ensures
        jv_of_entries(final(ms)@) == jv_of_entries(old(ms)@) + u32_entry(key@, o),
{
    match o {
        Some(x) => {
            let k = String::from_str(key);
            let v = Json::Int(x as i64);
            proof {
                lemma_jv_of_entries_push(ms@, k, v);
                assert(jv_of_entries(ms@).push((k@, jv_of(v))) =~= jv_of_entries(ms@) + u32_entry(
                    key@,
                    o,
                ));
            }
            ms.push((k, v));
        },
        None => {
            proof {
                assert(jv_of_entries(ms@) + u32_entry(key@, o) =~= jv_of_entries(ms@));
            }
        },
    }
}

impl AddTorrent {
    /// Creates a request that hands the daemon the given metainfo bytes,
    /// base64-encoded.
    pub fn from_metainfo(data: &Vec<u8>) -> (r: AddTorrent)
        ensures
            r.filename is None,
            r.metainfo matches Some(m) && m@ == base64_text(data@),
            r.download_dir is None,
            r.paused is None,
            r.peer_limit is None,
    {
        AddTorrent {
            filename: None,
            metainfo: Some(base64_encode(data)),
            download_dir: None,
            paused: None,
            peer_limit: None,
        }
    }

    /// Creates a request that passes the given URL or daemon-side file path
    /// to the daemon, which fetches the metainfo from there itself.
    pub fn from_source(source: String) -> (r: AddTorrent)
        ensures
            r.filename matches Some(f) && f@ == source@,
            r.metainfo is None,
            r.download_dir is None,
            r.paused is None,
            r.peer_limit is None,
    {
        AddTorrent {
            filename: Some(source),
            metainfo: None,
            download_dir: None,
            paused: None,
            peer_limit: None,
        }
    }

    /// Sets the daemon-side directory the content is downloaded to.
    pub fn download_dir(self, path: String) -> (r: Self)
        ensures
            r.download_dir matches Some(p) && p@ == path@,
            r.filename == self.filename,
            r.metainfo == self.metainfo,
            r.paused == self.paused,
            r.peer_limit == self.peer_limit,
    {
        AddTorrent { download_dir: Some(path), ..self }
    }

    /// Sets the initial state of the torrent.
    pub fn paused(self, paused: bool) -> (r: Self)
        ensures
            r.paused == Some(paused),
            r.filename == self.filename,
            r.metainfo == self.metainfo,
            r.download_dir == self.download_dir,
            r.peer_limit == self.peer_limit,
    {
        AddTorrent { paused: Some(paused), ..self }
    }

    /// Sets the peer limit of the torrent.
    pub fn peer_limit(self, limit: u32) -> (r: Self)
        ensures
            r.peer_limit == Some(limit),
            r.filename == self.filename,
            r.metainfo == self.metainfo,
            r.download_dir == self.download_dir,
            r.paused == self.paused,
    {
        AddTorrent { peer_limit: Some(limit), ..self }
    }
}

impl Request for AddTorrent {
    open spec fn method_view(&self) -> Seq<char> {
        "torrent-add"@
    }

    open spec fn args_view(&self) -> Jv {
        add_torrent_args(
            opt_str(self.download_dir),
            opt_str(self.filename),
            opt_str(self.metainfo),
            self.paused,
            self.peer_limit,
        )
    }

    open spec fn args_wf(&self) -> bool {
        true
    }

    fn method_name(&self) -> (r: &'static str) {
        "torrent-add"
    }

    fn args_ok(&self) -> (r: bool) {
        true
    }

    fn arguments(&self) -> (r: Json) {
        let mut ms: Vec<(String, Json)> = Vec::new();
        push_str_entry(&mut ms, "download_dir", &self.download_dir);
        push_str_entry(&mut ms, "filename", &self.filename);
        push_str_entry(&mut ms, "metainfo", &self.metainfo);
        push_bool_entry(&mut ms, "paused", self.paused);
        push_u32_entry(&mut ms, "peer_limit", self.peer_limit);
        proof {
            assert(jv_of_entries(Seq::<(String, Json)>::empty()) + str_entry(
                "download_dir"@,
                opt_str(self.download_dir),
            ) =~= str_entry("download_dir"@, opt_str(self.download_dir)));
        }
        Json::Obj(ms)
    }
}

} // verus!
