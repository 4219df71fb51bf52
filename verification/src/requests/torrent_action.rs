//! A request to start, stop, verify or reannounce torrents.

use vstd::prelude::*;
use super::Request;
use crate::json::{Json, Jv, jv_of_seq, jv_of_entries, lemma_jv_of_entries, lemma_jv_of_seq_push};

verus! {

broadcast use vstd::std_specs::vec::group_vec_axioms, vstd::seq::group_seq_axioms;

/// The action a request asks the daemon to perform.
#[derive(Clone, Copy, Debug, PartialEq, Eq, Structural)]
pub enum ActionType {
    Start,
    Stop,
    Verify,
    Reannounce,
}

/// Which torrents the action applies to.
#[derive(Clone, Debug)]
pub enum ActionTarget {
    /// One torrent, by id.
    Single { id: u64 },
    /// Every torrent the daemon has.
    All,
    /// The torrents with the given ids and hash strings.
    List { ids: Vec<u64>, hashes: Vec<String> },
    /// The torrents that were recently active.
    RecentlyActive,
}

/// A request to perform an action on the targeted torrents.
#[derive(Clone, Debug)]
pub struct TorrentAction {
    /// The action to perform.
    pub typ: ActionType,
    /// The torrents to perform it on.
    pub target: ActionTarget,
}

/// The method name of an action.
pub open spec fn action_method(t: ActionType) -> Seq<char> {
    match t {
        ActionType::Start => "torrent-start"@,
        ActionType::Stop => "torrent-stop"@,
        ActionType::Verify => "torrent-verify"@,
        ActionType::Reannounce => "torrent-reannounce"@,
    }
}

/// The argument payload of an action: the target's id selector, or nothing
/// for every torrent.
pub open spec fn action_args(target: ActionTarget) -> Jv {
    match target {
        ActionTarget::All => Jv::Obj(Seq::empty()),
        ActionTarget::List { ids, hashes } => Jv::Obj(
            seq![
                (
                    "id"@,
                    Jv::Arr(
                        ids@.map_values(|x: u64| Jv::Int(x as int)) + hashes@.map_values(
                            |h: String| Jv::Str(h@),
                        ),
                    ),
                ),
            ],
        ),
        ActionTarget::RecentlyActive => Jv::Obj(seq![("id"@, Jv::Str("recently-active"@))]),
        ActionTarget::Single { id } => Jv::Obj(seq![("id"@, Jv::Int(id as int))]),
    }
}

/// Whether every id of a target fits the wire's signed range.
pub open spec fn target_wf(target: ActionTarget) -> bool {
    match target {
        ActionTarget::Single { id } => id <= i64::MAX,
        ActionTarget::List { ids, hashes } => forall|i: int|
            0 <= i < ids@.len() ==> ids@[i] <= i64::MAX,
        _ => true,
    }
}

impl TorrentAction {
    /// Creates a request to perform the given action on the given target.
    pub fn new(typ: ActionType, target: ActionTarget) -> (r: TorrentAction)
        ensures
            r.typ == typ,
            r.target == target,
    {
        TorrentAction { typ, target }
    }
}

impl Request for TorrentAction {
    open spec fn method_view(&self) -> Seq<char> {
        action_method(self.typ)
    }

    open spec fn args_view(&self) -> Jv {
        action_args(self.target)
    }

    open spec fn args_wf(&self) -> bool {
        target_wf(self.target)
    }

    fn args_ok(&self) -> (r: bool) {
        match &self.target {
            ActionTarget::Single { id } => *id <= 0x7fff_ffff_ffff_ffffu64,
            ActionTarget::List { ids, .. } => {
                let mut i: usize = 0;
                while i < ids.len()
                    invariant
                        self.target matches ActionTarget::List { ids: tids, .. } && tids == *ids,
                        i <= ids@.len(),
                        forall|j: int| 0 <= j < i ==> ids@[j] <= i64::MAX,
                    decreases ids@.len() - i,
                {
                    if ids[i] > 0x7fff_ffff_ffff_ffffu64 {
                        return false;
                    }
                    i += 1;
                }
                true
            },
            _ => true,
        }
    }

    fn method_name(&self) -> (r: &'static str) {
        match self.typ {
            ActionType::Start => "torrent-start",
            ActionType::Stop => "torrent-stop",
            ActionType::Verify => "torrent-verify",
            ActionType::Reannounce => "torrent-reannounce",
        }
    }

    fn arguments(&self) -> (r: Json) {
        match &self.target {
            ActionTarget::All => {
                let ms: Vec<(String, Json)> = Vec::new();
                proof {
                    lemma_jv_of_entries(ms@);
        assert(jv_of_entries(ms@) =~= Seq::<(Seq<char>, Jv)>::empty());
                }
                Json::Obj(ms)
            },
            ActionTarget::List { ids, hashes } => {
                let ghost imap = ids@.map_values(|x: u64| Jv::Int(x as int));
                let ghost hmap = hashes@.map_values(|h: String| Jv::Str(h@));
                let mut arr: Vec<Json> = Vec::new();
                let mut i: usize = 0;
                while i < ids.len()
                    invariant
                        self.target matches ActionTarget::List { ids: tids, hashes: ths } && tids
                            == *ids && ths == *hashes,
                        target_wf(self.target),
                        i <= ids@.len(),
                        imap == ids@.map_values(|x: u64| Jv::Int(x as int)),
                        jv_of_seq(arr@) == imap.take(i as int),
                    decreases ids@.len() - i,
                {
                    let id = ids[i];
                    proof {
                        lemma_jv_of_seq_push(arr@, Json::Int(id as i64));
                        assert(imap.take(i as int).push(Jv::Int(id as int)) =~= imap.take(
                            i as int + 1,
                        ));
                    }
                    arr.push(Json::Int(id as i64));
                    i += 1;
                }
                proof {
                    assert(imap.take(ids@.len() as int) =~= imap);
                }
                let mut i: usize = 0;
                while i < hashes.len()
                    invariant
                        i <= hashes@.len(),
                        hmap == hashes@.map_values(|h: String| Jv::Str(h@)),
                        jv_of_seq(arr@) == imap + hmap.take(i as int),
                    decreases hashes@.len() - i,
                {
                    let h = hashes[i].clone();
                    proof {
                        lemma_jv_of_seq_push(arr@, Json::Str(h));
                        assert((imap + hmap.take(i as int)).push(Jv::Str(h@)) =~= imap + hmap.take(
                            i as int + 1,
                        ));
                    }
                    arr.push(Json::Str(h));
                    i += 1;
                }
                proof {
                    assert(imap + hmap.take(hashes@.len() as int) =~= imap + hmap);
                }
                let mut ms: Vec<(String, Json)> = Vec::new();
                ms.push((String::from_str("id"), Json::Arr(arr)));
                proof {
                    lemma_jv_of_entries(ms@);
        assert(jv_of_entries(ms@) =~= seq![("id"@, Jv::Arr(imap + hmap))]);
                }
                Json::Obj(ms)
            },
            ActionTarget::RecentlyActive => {
                let mut ms: Vec<(String, Json)> = Vec::new();
                ms.push((String::from_str("id"), Json::Str(String::from_str("recently-active"))));
                proof {
                    lemma_jv_of_entries(ms@);
        assert(jv_of_entries(ms@) =~= seq![("id"@, Jv::Str("recently-active"@))]);
                }
                Json::Obj(ms)
            },
            ActionTarget::Single { id } => {
                let mut ms: Vec<(String, Json)> = Vec::new();
                ms.push((String::from_str("id"), Json::Int(*id as i64)));
                proof {
                    lemma_jv_of_entries(ms@);
        assert(jv_of_entries(ms@) =~= seq![("id"@, Jv::Int(*id as int))]);
                }
                Json::Obj(ms)
            },
        }
    }
}

} // verus!
