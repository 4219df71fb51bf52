//! A request to change settings of torrents, and its acknowledgement reply.

use vstd::prelude::*;
use super::Request;
use super::add_torrent::{bool_entry, str_entry, u32_entry, opt_str, push_bool_entry, push_str_entry, push_u32_entry};
use crate::error::DeserializeError;
use crate::json::{Json, Jv, jv_of, jv_of_seq, jv_of_entries, lemma_jv_of_entries_push, lemma_jv_of_seq_push};
use crate::types::{Priority, priority_wire};

verus! {

broadcast use vstd::std_specs::vec::group_vec_axioms, vstd::seq::group_seq_axioms;

/// A request to change settings of the given torrents.  Each setting is
/// independently optional; an unset one is left as the daemon has it.
#[derive(Clone, Debug)]
pub struct TorrentSet {
    /// The torrents to change, by id.
    pub ids: Vec<u64>,
    /// The transfer priority of the torrents.
    pub bandwidth_priority: Option<Priority>,
    /// The download limit, in kilobytes per second.
    pub download_limit: Option<u32>,
    /// Whether the download limit is honored.
    pub download_limited: Option<bool>,
    /// Whether the session's transfer limits are honored.
    pub honors_session_limits: Option<bool>,
    /// The new daemon-side location of the torrents' content.
    pub location: Option<String>,
    /// The peer limit of the torrents.
    pub peer_limit: Option<u32>,
    /// The position in the download queue.
    pub queue_position: Option<u32>,
    /// The seeding inactivity limit, in minutes.
    pub seed_idle_limit: Option<u32>,
    /// The upload limit, in kilobytes per second.
    pub upload_limit: Option<u32>,
    /// Whether the upload limit is honored.
    pub upload_limited: Option<bool>,
}

/// One payload entry for a set priority field, none for an unset one.
pub open spec fn priority_entry(key: Seq<char>, o: Option<Priority>) -> Seq<(Seq<char>, Jv)> {
    match o {
        Some(p) => seq![(key, Jv::Int(priority_wire(p)))],
        None => Seq::empty(),
    }
}

/// The argument payload of a settings change: exactly the set fields plus
/// the id list, keys in wire order.
pub open spec fn torrent_set_args(s: TorrentSet) -> Jv {
    Jv::Obj(
        priority_entry("bandwidth_priority"@, s.bandwidth_priority) + u32_entry(
            "download_limit"@,
            s.download_limit,
        ) + bool_entry("download_limited"@, s.download_limited) + bool_entry(
            "honors_session_limits"@,
            s.honors_session_limits,
        ) + seq![("ids"@, Jv::Arr(s.ids@.map_values(|x: u64| Jv::Int(x as int))))] + str_entry(
            "location"@,
            opt_str(s.location),
        ) + u32_entry("peer_limit"@, s.peer_limit) + u32_entry("queue_position"@, s.queue_position)
            + u32_entry("seed_idle_limit"@, s.seed_idle_limit) + u32_entry(
            "upload_limit"@,
            s.upload_limit,
        ) + bool_entry("upload_limited"@, s.upload_limited),
    )
}

/// Appends the entry of a set priority field, nothing for an unset one.
fn push_priority_entry(ms: &mut Vec<(String, Json)>, key: &str, o: Option<Priority>)
    ensures
        jv_of_entries(final(ms)@) == jv_of_entries(old(ms)@) + priority_entry(key@, o),
{
    match o {
        Some(p) => {
            let k = String::from_str(key);
            let v = Json::Int(p.as_i64());
            proof {
                lemma_jv_of_entries_push(ms@, k, v);
                assert(jv_of_entries(ms@).push((k@, jv_of(v))) =~= jv_of_entries(ms@)
                    + priority_entry(key@, o));
            }
            ms.push((k, v));
        },
        None => {
            proof {
                assert(jv_of_entries(ms@) + priority_entry(key@, o) =~= jv_of_entries(ms@));
            }
        },
    }
}

impl TorrentSet {
    /// Creates a settings change with no torrents targeted and nothing set.
    pub fn new() -> (r: TorrentSet)
        ensures
            r.ids@ =~= Seq::<u64>::empty(),
            r.bandwidth_priority is None,
            r.download_limit is None,
            r.download_limited is None,
            r.honors_session_limits is None,
            r.location is None,
            r.peer_limit is None,
            r.queue_position is None,
            r.seed_idle_limit is None,
            r.upload_limit is None,
            r.upload_limited is None,
    {
        TorrentSet {
            ids: Vec::new(),
            bandwidth_priority: None,
            download_limit: None,
            download_limited: None,
            honors_session_limits: None,
            location: None,
            peer_limit: None,
            queue_position: None,
            seed_idle_limit: None,
            upload_limit: None,
            upload_limited: None,
        }
    }

    /// Adds one torrent, by id, to those that are changed.
    pub fn id(self, id: u64) -> (r: Self)
        ensures
            r == (TorrentSet { ids: r.ids, ..self }),
            r.ids@ == self.ids@.push(id),
    {
        let mut ids = self.ids;
        ids.push(id);
        TorrentSet { ids, ..self }
    }

    /// Sets the list of torrent ids that are changed.
    pub fn ids(self, ids: Vec<u64>) -> (r: Self)
        ensures
            r == (TorrentSet { ids: r.ids, ..self }),
            r.ids@ == ids@,
    {
        TorrentSet { ids, ..self }
    }

    /// Sets the transfer priority.
    pub fn set_bandwidth_priority(self, p: Priority) -> (r: Self)
        ensures
            r == (TorrentSet { bandwidth_priority: Some(p), ..self }),
    {
        TorrentSet { bandwidth_priority: Some(p), ..self }
    }

    /// Sets the download limit, in kilobytes per second.
    pub fn set_download_limit(self, v: u32) -> (r: Self)
        ensures
            r == (TorrentSet { download_limit: Some(v), ..self }),
    {
        TorrentSet { download_limit: Some(v), ..self }
    }

    /// Sets whether the download limit is honored.
    pub fn set_download_limited(self, v: bool) -> (r: Self)
        ensures
            r == (TorrentSet { download_limited: Some(v), ..self }),
    {
        TorrentSet { download_limited: Some(v), ..self }
    }

    /// Sets whether the session's transfer limits are honored.
    pub fn set_honors_session_limits(self, v: bool) -> (r: Self)
        ensures
            r == (TorrentSet { honors_session_limits: Some(v), ..self }),
    {
        TorrentSet { honors_session_limits: Some(v), ..self }
    }

    /// Sets the new daemon-side location of the torrents' content.
    pub fn set_location(self, v: String) -> (r: Self)
        ensures
            r == (TorrentSet { location: Some(v), ..self }),
    {
        TorrentSet { location: Some(v), ..self }
    }

    /// Sets the peer limit.
    pub fn set_peer_limit(self, v: u32) -> (r: Self)
        ensures
            r == (TorrentSet { peer_limit: Some(v), ..self }),
    {
        TorrentSet { peer_limit: Some(v), ..self }
    }

    /// Sets the position in the download queue.
    pub fn set_queue_position(self, v: u32) -> (r: Self)
        ensures
            r == (TorrentSet { queue_position: Some(v), ..self }),
    {
        TorrentSet { queue_position: Some(v), ..self }
    }

    /// Sets the seeding inactivity limit, in minutes.
    pub fn set_seed_idle_limit(self, v: u32) -> (r: Self)
        ensures
            r == (TorrentSet { seed_idle_limit: Some(v), ..self }),
    {
        TorrentSet { seed_idle_limit: Some(v), ..self }
    }

    /// Sets the upload limit, in kilobytes per second.
    pub fn set_upload_limit(self, v: u32) -> (r: Self)
        ensures
            r == (TorrentSet { upload_limit: Some(v), ..self }),
    {
        TorrentSet { upload_limit: Some(v), ..self }
    }

    /// Sets whether the upload limit is honored.
    pub fn set_upload_limited(self, v: bool) -> (r: Self)
        ensures
            r == (TorrentSet { upload_limited: Some(v), ..self }),
    {
        TorrentSet { upload_limited: Some(v), ..self }
    }
}

impl Request for TorrentSet {
    open spec fn method_view(&self) -> Seq<char> {
        "torrent-set"@
    }

    open spec fn args_view(&self) -> Jv {
        torrent_set_args(*self)
    }

    open spec fn args_wf(&self) -> bool {
        forall|i: int| 0 <= i < self.ids@.len() ==> self.ids@[i] <= i64::MAX
    }

    fn method_name(&self) -> (r: &'static str) {
        "torrent-set"
    }

    fn args_ok(&self) -> (r: bool) {
        let mut i: usize = 0;
        while i < self.ids.len()
            invariant
                i <= self.ids@.len(),
                forall|j: int| 0 <= j < i ==> self.ids@[j] <= i64::MAX,
            decreases self.ids@.len() - i,
        {
            if self.ids[i] > 0x7fff_ffff_ffff_ffffu64 {
                return false;
            }
            i += 1;
        }
        true
    }

    fn arguments(&self) -> (r: Json) {
        let mut ms: Vec<(String, Json)> = Vec::new();
        push_priority_entry(&mut ms, "bandwidth_priority", self.bandwidth_priority);
        push_u32_entry(&mut ms, "download_limit", self.download_limit);
        push_bool_entry(&mut ms, "download_limited", self.download_limited);
        push_bool_entry(&mut ms, "honors_session_limits", self.honors_session_limits);
        let ghost imap = self.ids@.map_values(|x: u64| Jv::Int(x as int));
        let mut arr: Vec<Json> = Vec::new();
        let mut i: usize = 0;
        while i < self.ids.len()
            invariant
                self.args_wf(),
                i <= self.ids@.len(),
                imap == self.ids@.map_values(|x: u64| Jv::Int(x as int)),
                jv_of_seq(arr@) == imap.take(i as int),
            decreases self.ids@.len() - i,
        {
            let id = self.ids[i];
            proof {
                lemma_jv_of_seq_push(arr@, Json::Int(id as i64));
                assert(imap.take(i as int).push(Jv::Int(id as int)) =~= imap.take(i as int + 1));
            }
            arr.push(Json::Int(id as i64));
            i += 1;
        }
        proof {
            assert(imap.take(self.ids@.len() as int) =~= imap);
        }
        let k = String::from_str("ids");
        let v = Json::Arr(arr);
        proof {
            lemma_jv_of_entries_push(ms@, k, v);
            assert(jv_of_entries(ms@).push((k@, jv_of(v))) =~= jv_of_entries(ms@) + seq![
                ("ids"@, Jv::Arr(imap)),
            ]);
        }
        ms.push((k, v));
        push_str_entry(&mut ms, "location", &self.location);
        push_u32_entry(&mut ms, "peer_limit", self.peer_limit);
        push_u32_entry(&mut ms, "queue_position", self.queue_position);
        push_u32_entry(&mut ms, "seed_idle_limit", self.seed_idle_limit);
        push_u32_entry(&mut ms, "upload_limit", self.upload_limit);
        push_bool_entry(&mut ms, "upload_limited", self.upload_limited);
        proof {
            assert(jv_of_entries(Seq::<(String, Json)>::empty()) + priority_entry(
                "bandwidth_priority"@,
                self.bandwidth_priority,
            ) =~= priority_entry("bandwidth_priority"@, self.bandwidth_priority));
        }
        Json::Obj(ms)
    }
}

/// The acknowledgement reply to a settings change: it carries no data.
#[derive(Clone, Copy, Debug, PartialEq, Eq, Structural)]
pub struct TorrentSetResponse;

impl TorrentSetResponse {
    /// Decodes the acknowledgement: any arguments value acknowledges.
    pub fn from_value(v: &Json) -> (r: Result<TorrentSetResponse, DeserializeError>)
        ensures
            r == Ok::<_, DeserializeError>(TorrentSetResponse),
    {
        let _ = v;
        Ok(TorrentSetResponse)
    }
}

} // verus!
