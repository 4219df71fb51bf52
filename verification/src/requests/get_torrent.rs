//! A selective query for information about torrents.

use vstd::prelude::*;
use super::Request;
use crate::json::{Json, Jv, jv_of_seq, jv_of_entries, lemma_jv_of_entries, lemma_jv_of_seq_push};
use crate::torrent::{TorrentField, field_key};

verus! {

broadcast use vstd::std_specs::vec::group_vec_axioms, vstd::seq::group_seq_axioms;

/// A request to fetch information about the requested torrents.
///
/// An empty list of torrent ids fetches all torrents; an empty list of
/// fields fetches all fields.  Both lists are then omitted from the payload.
#[derive(Clone, Debug)]
pub struct GetTorrent {
    /// The torrents to fetch, by id; empty means all.
    pub ids: Vec<u32>,
    /// The fields to fetch; empty means all.
    pub fields: Vec<TorrentField>,
}

/// The argument payload of a query: each restriction present exactly when it
/// is non-empty, keys in wire order.
pub open spec fn get_torrent_args(ids: Seq<u32>, fields: Seq<TorrentField>) -> Jv {
    Jv::Obj(
        (if fields.len() > 0 {
            seq![("fields"@, Jv::Arr(fields.map_values(|f: TorrentField| Jv::Str(field_key(f)))))]
        } else {
            Seq::empty()
        }) + (if ids.len() > 0 {
            seq![("ids"@, Jv::Arr(ids.map_values(|x: u32| Jv::Int(x as int))))]
        } else {
            Seq::empty()
        }),
    )
}

impl GetTorrent {
    /// Creates a query for all available information of all torrents.
    pub fn new() -> (r: GetTorrent)
        ensures
            r.ids@ =~= Seq::<u32>::empty(),
            r.fields@ =~= Seq::<TorrentField>::empty(),
    {
        GetTorrent { ids: Vec::new(), fields: Vec::new() }
    }

    /// Adds one torrent, by id, to those whose information is fetched.
    pub fn id(self, id: u32) -> (r: Self)
        ensures
            r.ids@ == self.ids@.push(id),
            r.fields@ == self.fields@,
    {
        let mut ids = self.ids;
        ids.push(id);
        GetTorrent { ids, fields: self.fields }
    }

    /// Sets the list of torrent ids to fetch.
    pub fn ids(self, ids: Vec<u32>) -> (r: Self)
        ensures
            r.ids@ == ids@,
            r.fields@ == self.fields@,
    {
        GetTorrent { ids, fields: self.fields }
    }

    /// Adds one field to those that are requested.
    pub fn field(self, field: TorrentField) -> (r: Self)
        ensures
            r.ids@ == self.ids@,
            r.fields@ == self.fields@.push(field),
    {
        let mut fields = self.fields;
        fields.push(field);
        GetTorrent { ids: self.ids, fields }
    }

    /// Sets the list of fields that are requested.
    pub fn fields(self, fields: Vec<TorrentField>) -> (r: Self)
        ensures
            r.ids@ == self.ids@,
            r.fields@ == fields@,
    {
        GetTorrent { ids: self.ids, fields }
    }
}

impl Request for GetTorrent {
    open spec fn method_view(&self) -> Seq<char> {
        "torrent-get"@
    }

    open spec fn args_view(&self) -> Jv {
        get_torrent_args(self.ids@, self.fields@)
    }

    open spec fn args_wf(&self) -> bool {
        true
    }

    fn method_name(&self) -> (r: &'static str) {
        "torrent-get"
    }

    fn args_ok(&self) -> (r: bool) {
        true
    }

    fn arguments(&self) -> (r: Json) {
        let mut ms: Vec<(String, Json)> = Vec::new();
        if self.fields.len() > 0 {
            let ghost fmap = self.fields@.map_values(|f: TorrentField| Jv::Str(field_key(f)));
            let mut arr: Vec<Json> = Vec::new();
            let mut i: usize = 0;
            while i < self.fields.len()
                invariant
                    i <= self.fields@.len(),
                    fmap == self.fields@.map_values(|f: TorrentField| Jv::Str(field_key(f))),
                    jv_of_seq(arr@) == fmap.take(i as int),
                decreases self.fields@.len() - i,
            {
                let key = String::from_str(self.fields[i].wire_key());
                proof {
                    lemma_jv_of_seq_push(arr@, Json::Str(key));
                    assert(fmap.take(i as int).push(Jv::Str(key@)) =~= fmap.take(i as int + 1));
                }
                arr.push(Json::Str(key));
                i += 1;
            }
            proof {
                assert(fmap.take(self.fields@.len() as int) =~= fmap);
            }
            ms.push((String::from_str("fields"), Json::Arr(arr)));
        }
        if self.ids.len() > 0 {
            let ghost imap = self.ids@.map_values(|x: u32| Jv::Int(x as int));
            let mut arr: Vec<Json> = Vec::new();
            let mut i: usize = 0;
            while i < self.ids.len()
                invariant
                    i <= self.ids@.len(),
                    imap == self.ids@.map_values(|x: u32| Jv::Int(x as int)),
                    jv_of_seq(arr@) == imap.take(i as int),
                decreases self.ids@.len() - i,
            {
                let id = self.ids[i];
                proof {
                    lemma_jv_of_seq_push(arr@, Json::Int(id as i64));
                    assert(imap.take(i as int).push(Jv::Int(id as int)) =~= imap.take(
                        i as int + 1,
                    ));
                }
                arr.push(Json::Int(id as i64));
                i += 1;
            }
            proof {
                assert(imap.take(self.ids@.len() as int) =~= imap);
            }
            ms.push((String::from_str("ids"), Json::Arr(arr)));
        }
        proof {
            lemma_jv_of_entries(ms@);
        assert(jv_of_entries(ms@) =~= get_torrent_args(self.ids@, self.fields@)->Obj_0);
        }
        Json::Obj(ms)
    }
}

} // verus!
