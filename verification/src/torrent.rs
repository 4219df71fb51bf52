//! The decoded domain entity and its field catalog.
//!
//! A torrent record is a flat aggregate of independently optional
//! attributes: absence in a reply means "not requested or not reported",
//! never an error.  [`TorrentField`] is the static catalog mapping each
//! attribute to its wire key, used both to restrict a query and to drive
//! decoding.

use vstd::prelude::*;
use crate::decode::{
    bool_field, get_bool, get_i64, get_priority, get_status, get_string, get_u64, i64_field,
    missing, priority_field, status_field, string_field, u64_field,
};
use crate::error::{DeserializeError, DeserializeErrorV};
use crate::json::{
    Json, Jv, jv_of, jv_of_seq, jv_of_entries, lemma_jv_of_seq, obj_get, obj_lookup,
};
use crate::types::{Priority, Status};

verus! {

broadcast use vstd::std_specs::vec::group_vec_axioms, vstd::seq::group_seq_axioms;

/// A required field of a sub-record: absence is a missing-field failure.
pub open spec fn req<T>(r: Result<Option<T>, DeserializeErrorV>, key: Seq<char>) -> Result<
    T,
    DeserializeErrorV,
> {
    match r {
        Ok(Some(x)) => Ok(x),
        Ok(None) => Err(DeserializeErrorV::MissingField(key)),
        Err(e) => Err(e),
    }
}

/// Mathematical model of a [`File`].
pub struct FileV {
    pub bytes_completed: u64,
    pub length: u64,
    pub name: Seq<char>,
}

/// Contains information about a file on the disk.
#[derive(Clone, Debug, PartialEq, Eq)]
pub struct File {
    pub bytes_completed: u64,
    pub length: u64,
    pub name: String,
}

impl View for File {
    type V = FileV;

    open spec fn view(&self) -> FileV {
        FileV { bytes_completed: self.bytes_completed, length: self.length, name: self.name@ }
    }
}

/// The file record a reply object decodes to: all three fields required.
pub open spec fn file_of(m: Seq<(Seq<char>, Jv)>) -> Result<FileV, DeserializeErrorV> {
    match req(u64_field(m, "bytesCompleted"@), "bytesCompleted"@) {
        Err(e) => Err(e),
        Ok(bytes_completed) => match req(u64_field(m, "length"@), "length"@) {
            Err(e) => Err(e),
            Ok(length) => match req(string_field(m, "name"@), "name"@) {
                Err(e) => Err(e),
                Ok(name) => Ok(FileV { bytes_completed, length, name }),
            },
        },
    }
}

impl File {
    /// Decodes a file record from a reply object's entries.
    pub fn from_object(ms: &Vec<(String, Json)>) -> (r: Result<File, DeserializeError>)
        ensures
            match r {
                Ok(f) => file_of(jv_of_entries(ms@)) == Ok::<_, DeserializeErrorV>(f@),
                Err(e) => file_of(jv_of_entries(ms@)) == Err::<FileV, _>(e@),
            },
    {
        let bytes_completed = match get_u64(ms, "bytesCompleted") {
            Ok(Some(x)) => x,
            Ok(None) => {
                return Err(missing("bytesCompleted"));
            },
            Err(e) => {
                return Err(e);
            },
        };
        let length = match get_u64(ms, "length") {
            Ok(Some(x)) => x,
            Ok(None) => {
                return Err(missing("length"));
            },
            Err(e) => {
                return Err(e);
            },
        };
        let name = match get_string(ms, "name") {
            Ok(Some(x)) => x,
            Ok(None) => {
                return Err(missing("name"));
            },
            Err(e) => {
                return Err(e);
            },
        };
        Ok(File { bytes_completed, length, name })
    }
}

/// Mathematical model of a [`FileStat`].
pub struct FileStatV {
    pub bytes_completed: u64,
    pub wanted: bool,
    pub priority: Priority,
}

/// Contains the daemon's state regarding a file.
#[derive(Clone, Debug, PartialEq, Eq)]
pub struct FileStat {
    pub bytes_completed: u64,
    pub wanted: bool,
    pub priority: Priority,
}

impl View for FileStat {
    type V = FileStatV;

    open spec fn view(&self) -> FileStatV {
        FileStatV {
            bytes_completed: self.bytes_completed,
            wanted: self.wanted,
            priority: self.priority,
        }
    }
}

/// The file-state record a reply object decodes to.
pub open spec fn file_stat_of(m: Seq<(Seq<char>, Jv)>) -> Result<FileStatV, DeserializeErrorV> {
    match req(u64_field(m, "bytesCompleted"@), "bytesCompleted"@) {
        Err(e) => Err(e),
        Ok(bytes_completed) => match req(bool_field(m, "wanted"@), "wanted"@) {
            Err(e) => Err(e),
            Ok(wanted) => match req(priority_field(m, "priority"@), "priority"@) {
                Err(e) => Err(e),
                Ok(priority) => Ok(FileStatV { bytes_completed, wanted, priority }),
            },
        },
    }
}

impl FileStat {
    /// Decodes a file-state record from a reply object's entries.
    pub fn from_object(ms: &Vec<(String, Json)>) -> (r: Result<FileStat, DeserializeError>)
        ensures
            match r {
                Ok(f) => file_stat_of(jv_of_entries(ms@)) == Ok::<_, DeserializeErrorV>(f@),
                Err(e) => file_stat_of(jv_of_entries(ms@)) == Err::<FileStatV, _>(e@),
            },
    {
        let bytes_completed = match get_u64(ms, "bytesCompleted") {
            Ok(Some(x)) => x,
            Ok(None) => {
                return Err(missing("bytesCompleted"));
            },
            Err(e) => {
                return Err(e);
            },
        };
        let wanted = match get_bool(ms, "wanted") {
            Ok(Some(x)) => x,
            Ok(None) => {
                return Err(missing("wanted"));
            },
            Err(e) => {
                return Err(e);
            },
        };
        let priority = match get_priority(ms, "priority") {
            Ok(Some(x)) => x,
            Ok(None) => {
                return Err(missing("priority"));
            },
            Err(e) => {
                return Err(e);
            },
        };
        Ok(FileStat { bytes_completed, wanted, priority })
    }
}

/// Mathematical model of a [`Tracker`].
pub struct TrackerV {
    pub announce: Seq<char>,
    pub scrape: Seq<char>,
    pub tier: u64,
}

/// Contains information about one tracker.
#[derive(Clone, Debug, PartialEq, Eq)]
pub struct Tracker {
    pub announce: String,
    pub scrape: String,
    pub tier: u64,
}

impl View for Tracker {
    type V = TrackerV;

    open spec fn view(&self) -> TrackerV {
        TrackerV { announce: self.announce@, scrape: self.scrape@, tier: self.tier }
    }
}

/// The tracker record a reply object decodes to.
pub open spec fn tracker_of(m: Seq<(Seq<char>, Jv)>) -> Result<TrackerV, DeserializeErrorV> {
    match req(string_field(m, "announce"@), "announce"@) {
        Err(e) => Err(e),
        Ok(announce) => match req(string_field(m, "scrape"@), "scrape"@) {
            Err(e) => Err(e),
            Ok(scrape) => match req(u64_field(m, "tier"@), "tier"@) {
                Err(e) => Err(e),
                Ok(tier) => Ok(TrackerV { announce, scrape, tier }),
            },
        },
    }
}

impl Tracker {
    /// Decodes a tracker record from a reply object's entries.
    pub fn from_object(ms: &Vec<(String, Json)>) -> (r: Result<Tracker, DeserializeError>)
        ensures
            match r {
                Ok(t) => tracker_of(jv_of_entries(ms@)) == Ok::<_, DeserializeErrorV>(t@),
                Err(e) => tracker_of(jv_of_entries(ms@)) == Err::<TrackerV, _>(e@),
            },
    {
        let announce = match get_string(ms, "announce") {
            Ok(Some(x)) => x,
            Ok(None) => {
                return Err(missing("announce"));
            },
            Err(e) => {
                return Err(e);
            },
        };
        let scrape = match get_string(ms, "scrape") {
            Ok(Some(x)) => x,
            Ok(None) => {
                return Err(missing("scrape"));
            },
            Err(e) => {
                return Err(e);
            },
        };
        let tier = match get_u64(ms, "tier") {
            Ok(Some(x)) => x,
            Ok(None) => {
                return Err(missing("tier"));
            },
            Err(e) => {
                return Err(e);
            },
        };
        Ok(Tracker { announce, scrape, tier })
    }
}

/// Mathematical model of a [`PeersFrom`].
pub struct PeersFromV {
    pub from_cache: u64,
    pub from_incoming: u64,
    pub from_pex: u64,
    pub from_tracker: u64,
}

/// Contains statistics about the sources of peers.
#[derive(Clone, Debug, PartialEq, Eq)]
pub struct PeersFrom {
    pub from_cache: u64,
    pub from_incoming: u64,
    pub from_pex: u64,
    pub from_tracker: u64,
}

impl View for PeersFrom {
    type V = PeersFromV;

    open spec fn view(&self) -> PeersFromV {
        PeersFromV {
            from_cache: self.from_cache,
            from_incoming: self.from_incoming,
            from_pex: self.from_pex,
            from_tracker: self.from_tracker,
        }
    }
}

/// The peer-source record a reply object decodes to.
pub open spec fn peers_from_of(m: Seq<(Seq<char>, Jv)>) -> Result<PeersFromV, DeserializeErrorV> {
    match req(u64_field(m, "fromCache"@), "fromCache"@) {
        Err(e) => Err(e),
        Ok(from_cache) => match req(u64_field(m, "fromIncoming"@), "fromIncoming"@) {
            Err(e) => Err(e),
            Ok(from_incoming) => match req(u64_field(m, "fromPex"@), "fromPex"@) {
                Err(e) => Err(e),
                Ok(from_pex) => match req(u64_field(m, "fromTracker"@), "fromTracker"@) {
                    Err(e) => Err(e),
                    Ok(from_tracker) => Ok(
                        PeersFromV { from_cache, from_incoming, from_pex, from_tracker },
                    ),
                },
            },
        },
    }
}

impl PeersFrom {
    /// Decodes a peer-source record from a reply object's entries.
    pub fn from_object(ms: &Vec<(String, Json)>) -> (r: Result<PeersFrom, DeserializeError>)
        ensures
            match r {
                Ok(p) => peers_from_of(jv_of_entries(ms@)) == Ok::<_, DeserializeErrorV>(p@),
                Err(e) => peers_from_of(jv_of_entries(ms@)) == Err::<PeersFromV, _>(e@),
            },
    {
        let from_cache = match get_u64(ms, "fromCache") {
            Ok(Some(x)) => x,
            Ok(None) => {
                return Err(missing("fromCache"));
            },
            Err(e) => {
                return Err(e);
            },
        };
        let from_incoming = match get_u64(ms, "fromIncoming") {
            Ok(Some(x)) => x,
            Ok(None) => {
                return Err(missing("fromIncoming"));
            },
            Err(e) => {
                return Err(e);
            },
        };
        let from_pex = match get_u64(ms, "fromPex") {
            Ok(Some(x)) => x,
            Ok(None) => {
                return Err(missing("fromPex"));
            },
            Err(e) => {
                return Err(e);
            },
        };
        let from_tracker = match get_u64(ms, "fromTracker") {
            Ok(Some(x)) => x,
            Ok(None) => {
                return Err(missing("fromTracker"));
            },
            Err(e) => {
                return Err(e);
            },
        };
        Ok(PeersFrom { from_cache, from_incoming, from_pex, from_tracker })
    }
}


/// The models of a sequence of files.
pub open spec fn files_view(v: Seq<File>) -> Seq<FileV> {
    Seq::new(v.len(), |i: int| v[i]@)
}

/// The models of a sequence of file states.
pub open spec fn file_stats_view(v: Seq<FileStat>) -> Seq<FileStatV> {
    Seq::new(v.len(), |i: int| v[i]@)
}

/// The models of a sequence of trackers.
pub open spec fn trackers_view(v: Seq<Tracker>) -> Seq<TrackerV> {
    Seq::new(v.len(), |i: int| v[i]@)
}

/// The models of a sequence of strings.
pub open spec fn strings_view(v: Seq<String>) -> Seq<Seq<char>> {
    Seq::new(v.len(), |i: int| v[i]@)
}

/// The file records the elements from position `i` on decode to, each
/// element a reply object.
pub open spec fn files_from(els: Seq<Jv>, i: int) -> Result<Seq<FileV>, DeserializeErrorV>
    decreases els.len() - i,
{
    if i < 0 || i >= els.len() {
        Ok(Seq::empty())
    } else {
        match els[i] {
            Jv::Obj(entries) => match file_of(entries) {
                Ok(f) => match files_from(els, i + 1) {
                    Ok(rest) => Ok(seq![f] + rest),
                    Err(e) => Err(e),
                },
                Err(e) => Err(e),
            },
            _ => Err(DeserializeErrorV::InvalidType("object"@, "files"@)),
        }
    }
}

/// The file-state records the elements from position `i` on decode to.
pub open spec fn file_stats_from(els: Seq<Jv>, i: int) -> Result<Seq<FileStatV>, DeserializeErrorV>
    decreases els.len() - i,
{
    if i < 0 || i >= els.len() {
        Ok(Seq::empty())
    } else {
        match els[i] {
            Jv::Obj(entries) => match file_stat_of(entries) {
                Ok(f) => match file_stats_from(els, i + 1) {
                    Ok(rest) => Ok(seq![f] + rest),
                    Err(e) => Err(e),
                },
                Err(e) => Err(e),
            },
            _ => Err(DeserializeErrorV::InvalidType("object"@, "fileStats"@)),
        }
    }
}

/// The tracker records the elements from position `i` on decode to.
pub open spec fn trackers_from(els: Seq<Jv>, i: int) -> Result<Seq<TrackerV>, DeserializeErrorV>
    decreases els.len() - i,
{
    if i < 0 || i >= els.len() {
        Ok(Seq::empty())
    } else {
        match els[i] {
            Jv::Obj(entries) => match tracker_of(entries) {
                Ok(t) => match trackers_from(els, i + 1) {
                    Ok(rest) => Ok(seq![t] + rest),
                    Err(e) => Err(e),
                },
                Err(e) => Err(e),
            },
            _ => Err(DeserializeErrorV::InvalidType("object"@, "trackers"@)),
        }
    }
}

/// The booleans the elements from position `i` on decode to.
pub open spec fn bools_from(els: Seq<Jv>, i: int) -> Result<Seq<bool>, DeserializeErrorV>
    decreases els.len() - i,
{
    if i < 0 || i >= els.len() {
        Ok(Seq::empty())
    } else {
        match els[i] {
            Jv::Bool(b) => match bools_from(els, i + 1) {
                Ok(rest) => Ok(seq![b] + rest),
                Err(e) => Err(e),
            },
            _ => Err(DeserializeErrorV::InvalidType("boolean"@, "wanted"@)),
        }
    }
}

/// The strings the elements from position `i` on decode to.
pub open spec fn strings_from(els: Seq<Jv>, i: int) -> Result<Seq<Seq<char>>, DeserializeErrorV>
    decreases els.len() - i,
{
    if i < 0 || i >= els.len() {
        Ok(Seq::empty())
    } else {
        match els[i] {
            Jv::Str(s) => match strings_from(els, i + 1) {
                Ok(rest) => Ok(seq![s] + rest),
                Err(e) => Err(e),
            },
            _ => Err(DeserializeErrorV::InvalidType("string"@, "webseeds"@)),
        }
    }
}

/// The file list under `files`, if present: an array of file records.
pub open spec fn files_field(m: Seq<(Seq<char>, Jv)>) -> Result<
    Option<Seq<FileV>>,
    DeserializeErrorV,
> {
    match obj_get(m, "files"@) {
        None => Ok(None),
        Some(v) => match v {
            Jv::Arr(els) => match files_from(els, 0) {
                Ok(fs) => Ok(Some(fs)),
                Err(e) => Err(e),
            },
            _ => Err(DeserializeErrorV::InvalidType("array"@, "files"@)),
        },
    }
}

/// The file-state list under `fileStats`, if present.
pub open spec fn file_stats_field(m: Seq<(Seq<char>, Jv)>) -> Result<
    Option<Seq<FileStatV>>,
    DeserializeErrorV,
> {
    match obj_get(m, "fileStats"@) {
        None => Ok(None),
        Some(v) => match v {
            Jv::Arr(els) => match file_stats_from(els, 0) {
                Ok(fs) => Ok(Some(fs)),
                Err(e) => Err(e),
            },
            _ => Err(DeserializeErrorV::InvalidType("array"@, "fileStats"@)),
        },
    }
}

/// The tracker list under `trackers`, if present.
pub open spec fn trackers_field(m: Seq<(Seq<char>, Jv)>) -> Result<
    Option<Seq<TrackerV>>,
    DeserializeErrorV,
> {
    match obj_get(m, "trackers"@) {
        None => Ok(None),
        Some(v) => match v {
            Jv::Arr(els) => match trackers_from(els, 0) {
                Ok(ts) => Ok(Some(ts)),
                Err(e) => Err(e),
            },
            _ => Err(DeserializeErrorV::InvalidType("array"@, "trackers"@)),
        },
    }
}

/// The wanted flags under `wanted`, if present.
pub open spec fn wanted_field(m: Seq<(Seq<char>, Jv)>) -> Result<
    Option<Seq<bool>>,
    DeserializeErrorV,
> {
    match obj_get(m, "wanted"@) {
        None => Ok(None),
        Some(v) => match v {
            Jv::Arr(els) => match bools_from(els, 0) {
                Ok(bs) => Ok(Some(bs)),
                Err(e) => Err(e),
            },
            _ => Err(DeserializeErrorV::InvalidType("array"@, "wanted"@)),
        },
    }
}

/// The web seed list under `webseeds`, if present.
pub open spec fn webseeds_field(m: Seq<(Seq<char>, Jv)>) -> Result<
    Option<Seq<Seq<char>>>,
    DeserializeErrorV,
> {
    match obj_get(m, "webseeds"@) {
        None => Ok(None),
        Some(v) => match v {
            Jv::Arr(els) => match strings_from(els, 0) {
                Ok(ss) => Ok(Some(ss)),
                Err(e) => Err(e),
            },
            _ => Err(DeserializeErrorV::InvalidType("array"@, "webseeds"@)),
        },
    }
}

/// The peer-source record under `peersFrom`, if present.
pub open spec fn peers_from_field(m: Seq<(Seq<char>, Jv)>) -> Result<
    Option<PeersFromV>,
    DeserializeErrorV,
> {
    match obj_get(m, "peersFrom"@) {
        None => Ok(None),
        Some(v) => match v {
            Jv::Obj(entries) => match peers_from_of(entries) {
                Ok(p) => Ok(Some(p)),
                Err(e) => Err(e),
            },
            _ => Err(DeserializeErrorV::InvalidType("object"@, "peersFrom"@)),
        },
    }
}


/// Extracts the file list under `files`, if present.
fn decode_files(ms: &Vec<(String, Json)>) -> (r: Result<Option<Vec<File>>, DeserializeError>)
    ensures
        match r {
            Ok(o) => files_field(jv_of_entries(ms@)) == Ok::<_, DeserializeErrorV>(
                match o {
                    Some(v) => Some(files_view(v@)),
                    None => None,
                },
            ),
            Err(e) => files_field(jv_of_entries(ms@)) == Err::<Option<Seq<FileV>>, _>(e@),
        },
{
    let j = match obj_lookup(ms, "files") {
        None => {
            return Ok(None);
        },
        Some(j) => j,
    };
    let els = match j {
        Json::Arr(els) => els,
        _ => {
            return Err(crate::decode::invalid("array", "files"));
        },
    };
    let ghost m = jv_of_entries(ms@);
    let ghost evs = jv_of_seq(els@);
    proof {
        lemma_jv_of_seq(els@);
    }
    let mut out: Vec<File> = Vec::new();
    let mut i: usize = 0;
    while i < els.len()
        invariant
            i <= els@.len(),
            m == jv_of_entries(ms@),
            obj_get(m, "files"@) == Some(Jv::Arr(evs)),
            evs == jv_of_seq(els@),
            evs.len() == els@.len(),
            forall|k: int| 0 <= k < els@.len() ==> evs[k] == jv_of(els@[k]),
            files_from(evs, 0) == (match files_from(evs, i as int) {
                Ok(rest) => Ok::<_, DeserializeErrorV>(files_view(out@) + rest),
                Err(e) => Err(e),
            }),
        decreases els@.len() - i,
    {
        match &els[i] {
            Json::Obj(entries) => {
                proof {
                    assert(els@[i as int] == Json::Obj(*entries));
                }
                match File::from_object(entries) {
                    Ok(f) => {
                        proof {
                            match files_from(evs, i as int + 1) {
                                Ok(rest) => {
                                    assert(files_view(out@) + (seq![f@] + rest) =~= files_view(
                                        out@.push(f),
                                    ) + rest);
                                },
                                Err(_) => {},
                            }
                        }
                        out.push(f);
                    },
                    Err(e) => {
                        return Err(e);
                    },
                }
            },
            _ => {
                return Err(crate::decode::invalid("object", "files"));
            },
        }
        i += 1;
    }
    proof {
        assert(files_view(out@) + Seq::<FileV>::empty() =~= files_view(out@));
    }
    Ok(Some(out))
}


/// Extracts the file-state list under `fileStats`, if present.
fn decode_file_stats(ms: &Vec<(String, Json)>) -> (r: Result<Option<Vec<FileStat>>, DeserializeError>)
    ensures
        match r {
            Ok(o) => file_stats_field(jv_of_entries(ms@)) == Ok::<_, DeserializeErrorV>(
                match o {
                    Some(v) => Some(file_stats_view(v@)),
                    None => None,
                },
            ),
            Err(e) => file_stats_field(jv_of_entries(ms@)) == Err::<Option<Seq<FileStatV>>, _>(e@),
        },
{
    let j = match obj_lookup(ms, "fileStats") {
        None => {
            return Ok(None);
        },
        Some(j) => j,
    };
    let els = match j {
        Json::Arr(els) => els,
        _ => {
            return Err(crate::decode::invalid("array", "fileStats"));
        },
    };
    let ghost m = jv_of_entries(ms@);
    let ghost evs = jv_of_seq(els@);
    proof {
        lemma_jv_of_seq(els@);
    }
    let mut out: Vec<FileStat> = Vec::new();
    let mut i: usize = 0;
    while i < els.len()
        invariant
            i <= els@.len(),
            m == jv_of_entries(ms@),
            obj_get(m, "fileStats"@) == Some(Jv::Arr(evs)),
            evs == jv_of_seq(els@),
            evs.len() == els@.len(),
            forall|k: int| 0 <= k < els@.len() ==> evs[k] == jv_of(els@[k]),
            file_stats_from(evs, 0) == (match file_stats_from(evs, i as int) {
                Ok(rest) => Ok::<_, DeserializeErrorV>(file_stats_view(out@) + rest),
                Err(e) => Err(e),
            }),
        decreases els@.len() - i,
    {
        match &els[i] {
            Json::Obj(entries) => {
                proof {
                    assert(els@[i as int] == Json::Obj(*entries));
                }
                match FileStat::from_object(entries) {
                    Ok(f) => {
                        proof {
                            match file_stats_from(evs, i as int + 1) {
                                Ok(rest) => {
                                    assert(file_stats_view(out@) + (seq![f@] + rest) =~= file_stats_view(out@.push(f)) + rest);
                                },
                                Err(_) => {},
                            }
                        }
                        out.push(f);
                    },
                    Err(e) => {
                        return Err(e);
                    },
                }
            },
            _ => {
                return Err(crate::decode::invalid("object", "fileStats"));
            },
        }
        i += 1;
    }
    proof {
        assert(file_stats_view(out@) + Seq::<FileStatV>::empty() =~= file_stats_view(out@));
    }
    Ok(Some(out))
}


/// Extracts the tracker list under `trackers`, if present.
fn decode_trackers(ms: &Vec<(String, Json)>) -> (r: Result<Option<Vec<Tracker>>, DeserializeError>)
    ensures
        match r {
            Ok(o) => trackers_field(jv_of_entries(ms@)) == Ok::<_, DeserializeErrorV>(
                match o {
                    Some(v) => Some(trackers_view(v@)),
                    None => None,
                },
            ),
            Err(e) => trackers_field(jv_of_entries(ms@)) == Err::<Option<Seq<TrackerV>>, _>(e@),
        },
{
    let j = match obj_lookup(ms, "trackers") {
        None => {
            return Ok(None);
        },
        Some(j) => j,
    };
    let els = match j {
        Json::Arr(els) => els,
        _ => {
            return Err(crate::decode::invalid("array", "trackers"));
        },
    };
    let ghost m = jv_of_entries(ms@);
    let ghost evs = jv_of_seq(els@);
    proof {
        lemma_jv_of_seq(els@);
    }
    let mut out: Vec<Tracker> = Vec::new();
    let mut i: usize = 0;
    while i < els.len()
        invariant
            i <= els@.len(),
            m == jv_of_entries(ms@),
            obj_get(m, "trackers"@) == Some(Jv::Arr(evs)),
            evs == jv_of_seq(els@),
            evs.len() == els@.len(),
            forall|k: int| 0 <= k < els@.len() ==> evs[k] == jv_of(els@[k]),
            trackers_from(evs, 0) == (match trackers_from(evs, i as int) {
                Ok(rest) => Ok::<_, DeserializeErrorV>(trackers_view(out@) + rest),
                Err(e) => Err(e),
            }),
        decreases els@.len() - i,
    {
        match &els[i] {
            Json::Obj(entries) => {
                proof {
                    assert(els@[i as int] == Json::Obj(*entries));
                }
                match Tracker::from_object(entries) {
                    Ok(f) => {
                        proof {
                            match trackers_from(evs, i as int + 1) {
                                Ok(rest) => {
                                    assert(trackers_view(out@) + (seq![f@] + rest) =~= trackers_view(out@.push(f)) + rest);
                                },
                                Err(_) => {},
                            }
                        }
                        out.push(f);
                    },
                    Err(e) => {
                        return Err(e);
                    },
                }
            },
            _ => {
                return Err(crate::decode::invalid("object", "trackers"));
            },
        }
        i += 1;
    }
    proof {
        assert(trackers_view(out@) + Seq::<TrackerV>::empty() =~= trackers_view(out@));
    }
    Ok(Some(out))
}


/// Extracts the wanted flags under `wanted`, if present.
fn decode_wanted(ms: &Vec<(String, Json)>) -> (r: Result<Option<Vec<bool>>, DeserializeError>)
    ensures
        match r {
            Ok(o) => wanted_field(jv_of_entries(ms@)) == Ok::<_, DeserializeErrorV>(
                match o {
                    Some(v) => Some(v@),
                    None => None,
                },
            ),
            Err(e) => wanted_field(jv_of_entries(ms@)) == Err::<Option<Seq<bool>>, _>(e@),
        },
{
    let j = match obj_lookup(ms, "wanted") {
        None => {
            return Ok(None);
        },
        Some(j) => j,
    };
    let els = match j {
        Json::Arr(els) => els,
        _ => {
            return Err(crate::decode::invalid("array", "wanted"));
        },
    };
    let ghost m = jv_of_entries(ms@);
    let ghost evs = jv_of_seq(els@);
    proof {
        lemma_jv_of_seq(els@);
    }
    let mut out: Vec<bool> = Vec::new();
    let mut i: usize = 0;
    while i < els.len()
        invariant
            i <= els@.len(),
            m == jv_of_entries(ms@),
            obj_get(m, "wanted"@) == Some(Jv::Arr(evs)),
            evs == jv_of_seq(els@),
            evs.len() == els@.len(),
            forall|k: int| 0 <= k < els@.len() ==> evs[k] == jv_of(els@[k]),
            bools_from(evs, 0) == (match bools_from(evs, i as int) {
                Ok(rest) => Ok::<_, DeserializeErrorV>(out@ + rest),
                Err(e) => Err(e),
            }),
        decreases els@.len() - i,
    {
        match &els[i] {
            Json::Bool(b) => {
                proof {
                    assert(els@[i as int] == Json::Bool(*b));
                    match bools_from(evs, i as int + 1) {
                        Ok(rest) => {
                            assert(out@ + (seq![*b] + rest) =~= out@.push(*b) + rest);
                        },
                        Err(_) => {},
                    }
                }
                let bv = *b;
                out.push(bv);
            },
            _ => {
                return Err(crate::decode::invalid("boolean", "wanted"));
            },
        }
        i += 1;
    }
    proof {
        assert(out@ + Seq::<bool>::empty() =~= out@);
    }
    Ok(Some(out))
}


/// Extracts the web seed list under `webseeds`, if present.
fn decode_webseeds(ms: &Vec<(String, Json)>) -> (r: Result<Option<Vec<String>>, DeserializeError>)
    ensures
        match r {
            Ok(o) => webseeds_field(jv_of_entries(ms@)) == Ok::<_, DeserializeErrorV>(
                match o {
                    Some(v) => Some(strings_view(v@)),
                    None => None,
                },
            ),
            Err(e) => webseeds_field(jv_of_entries(ms@)) == Err::<Option<Seq<Seq<char>>>, _>(e@),
        },
{
    let j = match obj_lookup(ms, "webseeds") {
        None => {
            return Ok(None);
        },
        Some(j) => j,
    };
    let els = match j {
        Json::Arr(els) => els,
        _ => {
            return Err(crate::decode::invalid("array", "webseeds"));
        },
    };
    let ghost m = jv_of_entries(ms@);
    let ghost evs = jv_of_seq(els@);
    proof {
        lemma_jv_of_seq(els@);
    }
    let mut out: Vec<String> = Vec::new();
    let mut i: usize = 0;
    while i < els.len()
        invariant
            i <= els@.len(),
            m == jv_of_entries(ms@),
            obj_get(m, "webseeds"@) == Some(Jv::Arr(evs)),
            evs == jv_of_seq(els@),
            evs.len() == els@.len(),
            forall|k: int| 0 <= k < els@.len() ==> evs[k] == jv_of(els@[k]),
            strings_from(evs, 0) == (match strings_from(evs, i as int) {
                Ok(rest) => Ok::<_, DeserializeErrorV>(strings_view(out@) + rest),
                Err(e) => Err(e),
            }),
        decreases els@.len() - i,
    {
        match &els[i] {
            Json::Str(t) => {
                proof {
                    assert(els@[i as int] == Json::Str(*t));
                }
                let tv = t.clone();
                proof {
                    match strings_from(evs, i as int + 1) {
                        Ok(rest) => {
                            assert(strings_view(out@) + (seq![tv@] + rest) =~= strings_view(out@.push(tv))
                                + rest);
                        },
                        Err(_) => {},
                    }
                }
                out.push(tv);
            },
            _ => {
                return Err(crate::decode::invalid("string", "webseeds"));
            },
        }
        i += 1;
    }
    proof {
        assert(strings_view(out@) + Seq::<Seq<char>>::empty() =~= strings_view(out@));
    }
    Ok(Some(out))
}


/// Extracts the peer-source record under `peersFrom`, if present.
fn decode_peers_from(ms: &Vec<(String, Json)>) -> (r: Result<Option<PeersFrom>, DeserializeError>)
    ensures
        match r {
            Ok(o) => peers_from_field(jv_of_entries(ms@)) == Ok::<_, DeserializeErrorV>(
                match o {
                    Some(p) => Some(p@),
                    None => None,
                },
            ),
            Err(e) => peers_from_field(jv_of_entries(ms@)) == Err::<Option<PeersFromV>, _>(e@),
        },
{
    let j = match obj_lookup(ms, "peersFrom") {
        None => {
            return Ok(None);
        },
        Some(j) => j,
    };
    match j {
        Json::Obj(entries) => match PeersFrom::from_object(entries) {
            Ok(p) => Ok(Some(p)),
            Err(e) => Err(e),
        },
        _ => Err(crate::decode::invalid("object", "peersFrom")),
    }
}

/// An identifier of one attribute of [`Torrent`]: the static field catalog.
#[derive(Clone, Copy, Debug, PartialEq, Eq, Structural)]
pub enum TorrentField {
    ActivityDate,
    AddedDate,
    BandwidthPriority,
    Comment,
    DownloadDir,
    Error,
    ErrorString,
    Files,
    FileStats,
    HashString,
    Id,
    IsPrivate,
    Name,
    PeersFrom,
    Status,
    TotalSize,
    Trackers,
    UploadLimit,
    Wanted,
    Webseeds,
}

/// The wire key of a field: its identifier in lower camel case.
pub open spec fn field_key(f: TorrentField) -> Seq<char> {
    match f {
        TorrentField::ActivityDate => "activityDate"@,
        TorrentField::AddedDate => "addedDate"@,
        TorrentField::BandwidthPriority => "bandwidthPriority"@,
        TorrentField::Comment => "comment"@,
        TorrentField::DownloadDir => "downloadDir"@,
        TorrentField::Error => "error"@,
        TorrentField::ErrorString => "errorString"@,
        TorrentField::Files => "files"@,
        TorrentField::FileStats => "fileStats"@,
        TorrentField::HashString => "hashString"@,
        TorrentField::Id => "id"@,
        TorrentField::IsPrivate => "isPrivate"@,
        TorrentField::Name => "name"@,
        TorrentField::PeersFrom => "peersFrom"@,
        TorrentField::Status => "status"@,
        TorrentField::TotalSize => "totalSize"@,
        TorrentField::Trackers => "trackers"@,
        TorrentField::UploadLimit => "uploadLimit"@,
        TorrentField::Wanted => "wanted"@,
        TorrentField::Webseeds => "webseeds"@,
    }
}

/// All known fields, in catalog order.
pub open spec fn all_fields() -> Seq<TorrentField> {
    seq![
        TorrentField::ActivityDate,
        TorrentField::AddedDate,
        TorrentField::BandwidthPriority,
        TorrentField::Comment,
        TorrentField::DownloadDir,
        TorrentField::Error,
        TorrentField::ErrorString,
        TorrentField::Files,
        TorrentField::FileStats,
        TorrentField::HashString,
        TorrentField::Id,
        TorrentField::IsPrivate,
        TorrentField::Name,
        TorrentField::PeersFrom,
        TorrentField::Status,
        TorrentField::TotalSize,
        TorrentField::Trackers,
        TorrentField::UploadLimit,
        TorrentField::Wanted,
        TorrentField::Webseeds,
    ]
}

impl TorrentField {
    /// The wire key of this field.
    pub fn wire_key(&self) -> (r: &'static str)
        ensures
            r@ == field_key(*self),
    {
        match self {
            TorrentField::ActivityDate => "activityDate",
            TorrentField::AddedDate => "addedDate",
            TorrentField::BandwidthPriority => "bandwidthPriority",
            TorrentField::Comment => "comment",
            TorrentField::DownloadDir => "downloadDir",
            TorrentField::Error => "error",
            TorrentField::ErrorString => "errorString",
            TorrentField::Files => "files",
            TorrentField::FileStats => "fileStats",
            TorrentField::HashString => "hashString",
            TorrentField::Id => "id",
            TorrentField::IsPrivate => "isPrivate",
            TorrentField::Name => "name",
            TorrentField::PeersFrom => "peersFrom",
            TorrentField::Status => "status",
            TorrentField::TotalSize => "totalSize",
            TorrentField::Trackers => "trackers",
            TorrentField::UploadLimit => "uploadLimit",
            TorrentField::Wanted => "wanted",
            TorrentField::Webseeds => "webseeds",
        }
    }

    /// The full ordered catalog of known fields.
    pub fn all() -> (r: Vec<TorrentField>)
        ensures
            r@ == all_fields(),
    {
        let r = vec![
            TorrentField::ActivityDate,
            TorrentField::AddedDate,
            TorrentField::BandwidthPriority,
            TorrentField::Comment,
            TorrentField::DownloadDir,
            TorrentField::Error,
            TorrentField::ErrorString,
            TorrentField::Files,
            TorrentField::FileStats,
            TorrentField::HashString,
            TorrentField::Id,
            TorrentField::IsPrivate,
            TorrentField::Name,
            TorrentField::PeersFrom,
            TorrentField::Status,
            TorrentField::TotalSize,
            TorrentField::Trackers,
            TorrentField::UploadLimit,
            TorrentField::Wanted,
            TorrentField::Webseeds,
        ];
        proof {
            assert(r@ =~= all_fields());
        }
        r
    }
}

/// Mathematical model of a [`Torrent`].
pub struct TorrentV {
    pub activity_date: Option<i64>,
    pub added_date: Option<i64>,
    pub bandwidth_priority: Option<Priority>,
    pub comment: Option<Seq<char>>,
    pub download_dir: Option<Seq<char>>,
    pub error: Option<u64>,
    pub error_string: Option<Seq<char>>,
    pub files: Option<Seq<FileV>>,
    pub file_stats: Option<Seq<FileStatV>>,
    pub hash_string: Option<Seq<char>>,
    pub id: Option<u64>,
    pub is_private: Option<bool>,
    pub name: Option<Seq<char>>,
    pub peers_from: Option<PeersFromV>,
    pub status: Option<Status>,
    pub total_size: Option<u64>,
    pub trackers: Option<Seq<TrackerV>>,
    pub upload_limit: Option<u64>,
    pub wanted: Option<Seq<bool>>,
    pub webseeds: Option<Seq<Seq<char>>>,
}

/// Information about one torrent: every attribute independently optional,
/// absent when not requested or not reported.
#[derive(Clone, Debug, PartialEq)]
pub struct Torrent {
    pub activity_date: Option<i64>,
    pub added_date: Option<i64>,
    pub bandwidth_priority: Option<Priority>,
    pub comment: Option<String>,
    pub download_dir: Option<String>,
    pub error: Option<u64>,
    pub error_string: Option<String>,
    pub files: Option<Vec<File>>,
    pub file_stats: Option<Vec<FileStat>>,
    pub hash_string: Option<String>,
    pub id: Option<u64>,
    pub is_private: Option<bool>,
    pub name: Option<String>,
    pub peers_from: Option<PeersFrom>,
    pub status: Option<Status>,
    pub total_size: Option<u64>,
    pub trackers: Option<Vec<Tracker>>,
    pub upload_limit: Option<u64>,
    pub wanted: Option<Vec<bool>>,
    pub webseeds: Option<Vec<String>>,
}

impl View for Torrent {
    type V = TorrentV;

    open spec fn view(&self) -> TorrentV {
        TorrentV {
            activity_date: self.activity_date,
            added_date: self.added_date,
            bandwidth_priority: self.bandwidth_priority,
            comment: (match self.comment { Some(s) => Some(s@), None => None }),
            download_dir: (match self.download_dir { Some(s) => Some(s@), None => None }),
            error: self.error,
            error_string: (match self.error_string { Some(s) => Some(s@), None => None }),
            files: (match self.files { Some(v) => Some(files_view(v@)), None => None }),
            file_stats: (match self.file_stats { Some(v) => Some(file_stats_view(v@)), None => None }),
            hash_string: (match self.hash_string { Some(s) => Some(s@), None => None }),
            id: self.id,
            is_private: self.is_private,
            name: (match self.name { Some(s) => Some(s@), None => None }),
            peers_from: (match self.peers_from { Some(p) => Some(p@), None => None }),
            status: self.status,
            total_size: self.total_size,
            trackers: (match self.trackers { Some(v) => Some(trackers_view(v@)), None => None }),
            upload_limit: self.upload_limit,
            wanted: (match self.wanted { Some(v) => Some(v@), None => None }),
            webseeds: (match self.webseeds { Some(v) => Some(strings_view(v@)), None => None }),
        }
    }
}

/// The record an arguments object decodes to: each catalog field in order,
/// the first wrong-kind failure reported.
pub open spec fn torrent_of(m: Seq<(Seq<char>, Jv)>) -> Result<TorrentV, DeserializeErrorV> {
    match i64_field(m, "activityDate"@) {
        Err(e) => Err(e),
        Ok(activity_date) =>
        match i64_field(m, "addedDate"@) {
            Err(e) => Err(e),
            Ok(added_date) =>
            match priority_field(m, "bandwidthPriority"@) {
                Err(e) => Err(e),
                Ok(bandwidth_priority) =>
                match string_field(m, "comment"@) {
                    Err(e) => Err(e),
                    Ok(comment) =>
                    match string_field(m, "downloadDir"@) {
                        Err(e) => Err(e),
                        Ok(download_dir) =>
                        match u64_field(m, "error"@) {
                            Err(e) => Err(e),
                            Ok(error) =>
                            match string_field(m, "errorString"@) {
                                Err(e) => Err(e),
                                Ok(error_string) =>
                                match files_field(m) {
                                    Err(e) => Err(e),
                                    Ok(files) =>
                                    match file_stats_field(m) {
                                        Err(e) => Err(e),
                                        Ok(file_stats) =>
                                        match string_field(m, "hashString"@) {
                                            Err(e) => Err(e),
                                            Ok(hash_string) =>
                                            match u64_field(m, "id"@) {
                                                Err(e) => Err(e),
                                                Ok(id) =>
                                                match bool_field(m, "isPrivate"@) {
                                                    Err(e) => Err(e),
                                                    Ok(is_private) =>
                                                    match string_field(m, "name"@) {
                                                        Err(e) => Err(e),
                                                        Ok(name) =>
                                                        match peers_from_field(m) {
                                                            Err(e) => Err(e),
                                                            Ok(peers_from) =>
                                                            match status_field(m, "status"@) {
                                                                Err(e) => Err(e),
                                                                Ok(status) =>
                                                                match u64_field(m, "totalSize"@) {
                                                                    Err(e) => Err(e),
                                                                    Ok(total_size) =>
                                                                    match trackers_field(m) {
                                                                        Err(e) => Err(e),
                                                                        Ok(trackers) =>
                                                                        match u64_field(m, "uploadLimit"@) {
                                                                            Err(e) => Err(e),
                                                                            Ok(upload_limit) =>
                                                                            match wanted_field(m) {
                                                                                Err(e) => Err(e),
                                                                                Ok(wanted) =>
                                                                                match webseeds_field(m) {
                                                                                    Err(e) => Err(e),
                                                                                    Ok(webseeds) =>
                                                                                    Ok(
                                                                                     TorrentV {
                                                                                        activity_date,
                                                                                        added_date,
                                                                                        bandwidth_priority,
                                                                                        comment,
                                                                                        download_dir,
                                                                                        error,
                                                                                        error_string,
                                                                                        files,
                                                                                        file_stats,
                                                                                        hash_string,
                                                                                        id,
                                                                                        is_private,
                                                                                        name,
                                                                                        peers_from,
                                                                                        status,
                                                                                        total_size,
                                                                                        trackers,
                                                                                        upload_limit,
                                                                                        wanted,
                                                                                        webseeds,
                                                                                    })
                                                                                },
                                                                            },
                                                                        },
                                                                    },
                                                                },
                                                            },
                                                        },
                                                    },
                                                },
                                            },
                                        },
                                    },
                                },
                            },
                        },
                    },
                },
            },
        },
    }
}

impl Torrent {
    /// Decodes one torrent record from a reply object's entries.
    pub fn from_object(ms: &Vec<(String, Json)>) -> (r: Result<Torrent, DeserializeError>)
        ensures
            match r {
                Ok(t) => torrent_of(jv_of_entries(ms@)) == Ok::<_, DeserializeErrorV>(t@),
                Err(e) => torrent_of(jv_of_entries(ms@)) == Err::<TorrentV, _>(e@),
            },
    {
        let activity_date = match get_i64(ms, "activityDate") {
            Ok(o) => o,
            Err(e) => {
                return Err(e);
            },
        };
        let added_date = match get_i64(ms, "addedDate") {
            Ok(o) => o,
            Err(e) => {
                return Err(e);
            },
        };
        let bandwidth_priority = match get_priority(ms, "bandwidthPriority") {
            Ok(o) => o,
            Err(e) => {
                return Err(e);
            },
        };
        let comment = match get_string(ms, "comment") {
            Ok(o) => o,
            Err(e) => {
                return Err(e);
            },
        };
        let download_dir = match get_string(ms, "downloadDir") {
            Ok(o) => o,
            Err(e) => {
                return Err(e);
            },
        };
        let error = match get_u64(ms, "error") {
            Ok(o) => o,
            Err(e) => {
                return Err(e);
            },
        };
        let error_string = match get_string(ms, "errorString") {
            Ok(o) => o,
            Err(e) => {
                return Err(e);
            },
        };
        let files = match decode_files(ms) {
            Ok(o) => o,
            Err(e) => {
                return Err(e);
            },
        };
        let file_stats = match decode_file_stats(ms) {
            Ok(o) => o,
            Err(e) => {
                return Err(e);
            },
        };
        let hash_string = match get_string(ms, "hashString") {
            Ok(o) => o,
            Err(e) => {
                return Err(e);
            },
        };
        let id = match get_u64(ms, "id") {
            Ok(o) => o,
            Err(e) => {
                return Err(e);
            },
        };
        let is_private = match get_bool(ms, "isPrivate") {
            Ok(o) => o,
            Err(e) => {
                return Err(e);
            },
        };
        let name = match get_string(ms, "name") {
            Ok(o) => o,
            Err(e) => {
                return Err(e);
            },
        };
        let peers_from = match decode_peers_from(ms) {
            Ok(o) => o,
            Err(e) => {
                return Err(e);
            },
        };
        let status = match get_status(ms, "status") {
            Ok(o) => o,
            Err(e) => {
                return Err(e);
            },
        };
        let total_size = match get_u64(ms, "totalSize") {
            Ok(o) => o,
            Err(e) => {
                return Err(e);
            },
        };
        let trackers = match decode_trackers(ms) {
            Ok(o) => o,
            Err(e) => {
                return Err(e);
            },
        };
        let upload_limit = match get_u64(ms, "uploadLimit") {
            Ok(o) => o,
            Err(e) => {
                return Err(e);
            },
        };
        let wanted = match decode_wanted(ms) {
            Ok(o) => o,
            Err(e) => {
                return Err(e);
            },
        };
        let webseeds = match decode_webseeds(ms) {
            Ok(o) => o,
            Err(e) => {
                return Err(e);
            },
        };
        Ok(Torrent {
            activity_date,
            added_date,
            bandwidth_priority,
            comment,
            download_dir,
            error,
            error_string,
            files,
            file_stats,
            hash_string,
            id,
            is_private,
            name,
            peers_from,
            status,
            total_size,
            trackers,
            upload_limit,
            wanted,
            webseeds,
        })
    }
}

impl Default for Torrent {
    /// The all-absent record.
    fn default() -> (r: Torrent)
        ensures
            r.activity_date is None,
            r.added_date is None,
            r.bandwidth_priority is None,
            r.comment is None,
            r.download_dir is None,
            r.error is None,
            r.error_string is None,
            r.files is None,
            r.file_stats is None,
            r.hash_string is None,
            r.id is None,
            r.is_private is None,
            r.name is None,
            r.peers_from is None,
            r.status is None,
            r.total_size is None,
            r.trackers is None,
            r.upload_limit is None,
            r.wanted is None,
            r.webseeds is None,
    {
        Torrent {
            activity_date: None,
            added_date: None,
            bandwidth_priority: None,
            comment: None,
            download_dir: None,
            error: None,
            error_string: None,
            files: None,
            file_stats: None,
            hash_string: None,
            id: None,
            is_private: None,
            name: None,
            peers_from: None,
            status: None,
            total_size: None,
            trackers: None,
            upload_limit: None,
            wanted: None,
            webseeds: None,
        }
    }
}

} // verus!
