//! The reply to a torrent query: the requested records, in reply order.

use vstd::prelude::*;
use crate::error::{DeserializeError, DeserializeErrorV};
use crate::json::{Json, Jv, jv_of, jv_of_seq, lemma_jv_of_seq, obj_get, obj_lookup};
use crate::torrent::{Torrent, TorrentV, torrent_of};

verus! {

broadcast use vstd::std_specs::vec::group_vec_axioms, vstd::seq::group_seq_axioms;

/// A reply to a torrent query.
#[derive(Clone, Debug, PartialEq)]
pub struct GetTorrent {
    /// The records the daemon returned, in the order received.
    pub torrents: Vec<Torrent>,
}

/// The models of a sequence of records.
pub open spec fn torrents_view(v: Seq<Torrent>) -> Seq<TorrentV> {
    Seq::new(v.len(), |i: int| v[i]@)
}

/// The records the elements from position `i` on decode to, each element a
/// reply object.
pub open spec fn torrents_from(els: Seq<Jv>, i: int) -> Result<Seq<TorrentV>, DeserializeErrorV>
    decreases els.len() - i,
{
    if i < 0 || i >= els.len() {
        Ok(Seq::empty())
    } else {
        match els[i] {
            Jv::Obj(entries) => match torrent_of(entries) {
                Ok(t) => match torrents_from(els, i + 1) {
                    Ok(rest) => Ok(seq![t] + rest),
                    Err(e) => Err(e),
                },
                Err(e) => Err(e),
            },
            _ => Err(DeserializeErrorV::InvalidType("object"@, "torrents"@)),
        }
    }
}

/// The record list an arguments value decodes to: the array under the
/// `torrents` wire key, each element decoded permissively, order kept.
pub open spec fn get_torrent_of(v: Jv) -> Result<Seq<TorrentV>, DeserializeErrorV> {
    match v {
        Jv::Obj(m) => match obj_get(m, "torrents"@) {
            None => Err(DeserializeErrorV::MissingField("torrents"@)),
            Some(c) => match c {
                Jv::Arr(els) => torrents_from(els, 0),
                _ => Err(DeserializeErrorV::InvalidType("array"@, "torrents"@)),
            },
        },
        _ => Err(DeserializeErrorV::MissingField("torrents"@)),
    }
}

impl GetTorrent {
    /// Decodes a query reply from its arguments value.
    pub fn from_value(v: &Json) -> (r: Result<GetTorrent, DeserializeError>)
        ensures
            match r {
                Ok(g) => get_torrent_of(v@) == Ok::<_, DeserializeErrorV>(
                    torrents_view(g.torrents@),
                ),
                Err(e) => get_torrent_of(v@) == Err::<Seq<TorrentV>, _>(e@),
            },
    {
        let ms = match v {
            Json::Obj(ms) => ms,
            _ => {
                return Err(crate::decode::missing("torrents"));
            },
        };
        let j = match obj_lookup(ms, "torrents") {
            None => {
                return Err(crate::decode::missing("torrents"));
            },
            Some(j) => j,
        };
        let els = match j {
            Json::Arr(els) => els,
            _ => {
                return Err(crate::decode::invalid("array", "torrents"));
            },
        };
        let ghost evs = jv_of_seq(els@);
        proof {
            lemma_jv_of_seq(els@);
        }
        let mut out: Vec<Torrent> = Vec::new();
        let mut i: usize = 0;
        while i < els.len()
            invariant
                get_torrent_of(v@) == torrents_from(evs, 0),
                i <= els@.len(),
                evs == jv_of_seq(els@),
                evs.len() == els@.len(),
                forall|k: int| 0 <= k < els@.len() ==> evs[k] == jv_of(els@[k]),
                torrents_from(evs, 0) == (match torrents_from(evs, i as int) {
                    Ok(rest) => Ok::<_, DeserializeErrorV>(torrents_view(out@) + rest),
                    Err(e) => Err(e),
                }),
            decreases els@.len() - i,
        {
            match &els[i] {
                Json::Obj(entries) => {
                    proof {
                        assert(els@[i as int] == Json::Obj(*entries));
                    }
                    match Torrent::from_object(entries) {
                        Ok(t) => {
                            proof {
                                match torrents_from(evs, i as int + 1) {
                                    Ok(rest) => {
                                        assert(torrents_view(out@) + (seq![t@] + rest)
                                            =~= torrents_view(out@.push(t)) + rest);
                                    },
                                    Err(_) => {},
                                }
                            }
                            out.push(t);
                        },
                        Err(e) => {
                            return Err(e);
                        },
                    }
                },
                _ => {
                    return Err(crate::decode::invalid("object", "torrents"));
                },
            }
            i += 1;
        }
        proof {
            assert(torrents_view(out@) + Seq::<TorrentV>::empty() =~= torrents_view(out@));
        }
        Ok(GetTorrent { torrents: out })
    }

    /// The received records, in reply order, yielded by value.
    pub fn torrents(self) -> (r: Vec<Torrent>)
        ensures
            r == self.torrents,
    {
        self.torrents
    }
}

} // verus!
