//! Proved properties that relate the library's pieces: what every payload
//! holds, how selective decoding mirrors a reply's keys, that decoding is a
//! pure function of the arguments value, and that the wire text the codec
//! emits parses back to exactly the value it came from.

use vstd::prelude::*;
use crate::error::DeserializeErrorV;
use crate::json::{Jv, has_key, obj_get, lemma_obj_get_append};
use crate::parse::{
    digits_end, digits_val, document, elements_at, hex_quad, hex_val, is_digit, is_ws, members_at,
    number_at, string_at, string_tail, value_at, ws_after,
};
use crate::ser::{
    arr_text, dec_digits, digit_char, entry_text, esc_char, esc_str, hex_char, int_text, obj_text,
    text_of,
};
use crate::requests::add_torrent::{AddTorrent, add_torrent_args, opt_str, str_entry, bool_entry, u32_entry};
use crate::requests::get_torrent::get_torrent_args;
use crate::requests::torrent_action::{ActionTarget, action_args};
use crate::requests::torrent_set::{TorrentSet, torrent_set_args, priority_entry};
use crate::responses::add_torrent::{add_info_of, add_torrent_of};
use crate::responses::get_torrent::get_torrent_of;
use crate::torrent::{TorrentField, TorrentV, field_key, torrent_of};
use crate::types::priority_wire;

verus! {

broadcast use vstd::seq::group_seq_axioms, vstd::string::group_string_axioms;

/// Lookup in a one-entry object finds exactly that entry's key.
proof fn lemma_obj_get_singleton(key: Seq<char>, v: Jv, k: Seq<char>)
    ensures
        obj_get(seq![(key, v)], k) == (if k == key {
            Some(v)
        } else {
            None::<Jv>
        }),
{
    let s = seq![(key, v)];
    assert(s.len() == 1);
    assert(s[0] == (key, v));
    assert(s.drop_first() =~= Seq::<(Seq<char>, Jv)>::empty());
    assert(obj_get(s.drop_first(), k) == None::<Jv>);
}

/// The entries of an add-request payload.
pub open spec fn add_args_entries(a: AddTorrent) -> Seq<(Seq<char>, Jv)> {
    add_torrent_args(
        opt_str(a.download_dir),
        opt_str(a.filename),
        opt_str(a.metainfo),
        a.paused,
        a.peer_limit,
    )->Obj_0
}

/// The add-request payload holds exactly the fields the caller set, each
/// under its wire key with its set value, and no other key.  The payload is
/// a function of the final field state alone, and every builder method sets
/// exactly its own field, so the emitted payload does not depend on the
/// order in which builder methods were called.
pub proof fn lemma_add_torrent_payload(a: AddTorrent, k: Seq<char>)
    ensures
        has_key(add_args_entries(a), "download_dir"@) <==> a.download_dir is Some,
        has_key(add_args_entries(a), "filename"@) <==> a.filename is Some,
        has_key(add_args_entries(a), "metainfo"@) <==> a.metainfo is Some,
        has_key(add_args_entries(a), "paused"@) <==> a.paused is Some,
        has_key(add_args_entries(a), "peer_limit"@) <==> a.peer_limit is Some,
        a.download_dir matches Some(p) ==> obj_get(add_args_entries(a), "download_dir"@) == Some(
            Jv::Str(p@),
        ),
        a.filename matches Some(f) ==> obj_get(add_args_entries(a), "filename"@) == Some(
            Jv::Str(f@),
        ),
        a.metainfo matches Some(x) ==> obj_get(add_args_entries(a), "metainfo"@) == Some(
            Jv::Str(x@),
        ),
        a.paused matches Some(b) ==> obj_get(add_args_entries(a), "paused"@) == Some(Jv::Bool(b)),
        a.peer_limit matches Some(x) ==> obj_get(add_args_entries(a), "peer_limit"@) == Some(
            Jv::Int(x as int),
        ),
        !(k == "download_dir"@ || k == "filename"@ || k == "metainfo"@ || k == "paused"@ || k
            == "peer_limit"@) ==> !has_key(add_args_entries(a), k),
{
    reveal_strlit("download_dir");
    reveal_strlit("filename");
    reveal_strlit("metainfo");
    reveal_strlit("paused");
    reveal_strlit("peer_limit");
    assert("download_dir"@.len() == 12 && "filename"@.len() == 8 && "metainfo"@.len() == 8
        && "paused"@.len() == 6 && "peer_limit"@.len() == 10);
    assert("filename"@[0] == 'f' && "metainfo"@[0] == 'm');
    assert forall|q: Seq<char>| true implies obj_get(Seq::<(Seq<char>, Jv)>::empty(), q)
        == None::<Jv> by {
        assert(Seq::<(Seq<char>, Jv)>::empty().len() == 0);
    }
    let e1 = str_entry("download_dir"@, opt_str(a.download_dir));
    let e2 = str_entry("filename"@, opt_str(a.filename));
    let e3 = str_entry("metainfo"@, opt_str(a.metainfo));
    let e4 = bool_entry("paused"@, a.paused);
    let e5 = u32_entry("peer_limit"@, a.peer_limit);
    let m0 = e1 + e2 + e3 + e4 + e5;
    assert forall|q: Seq<char>| (#[trigger] obj_get(m0, q)) == (match obj_get(
        e1,
        q,
    ) {
        Some(v) => Some(v),
        None => match obj_get(e2, q) {
            Some(v) => Some(v),
            None => match obj_get(e3, q) {
                Some(v) => Some(v),
                None => match obj_get(e4, q) {
                    Some(v) => Some(v),
                    None => obj_get(e5, q),
                },
            },
        },
    }) by {
        lemma_obj_get_append(e1 + e2 + e3 + e4, e5, q);
        assert(e1 + e2 + e3 + e4 + e5 == m0);
        lemma_obj_get_append(e1 + e2 + e3, e4, q);
        lemma_obj_get_append(e1 + e2, e3, q);
        lemma_obj_get_append(e1, e2, q);
    }
    assert forall|key: Seq<char>, v: Jv, q: Seq<char>| (#[trigger] obj_get(seq![(key, v)], q))
        == (if q == key {
        Some(v)
    } else {
        None::<Jv>
    }) by {
        lemma_obj_get_singleton(key, v, q);
    }
}

/// The entries of a query payload.
pub open spec fn get_args_entries(ids: Seq<u32>, fields: Seq<TorrentField>) -> Seq<
    (Seq<char>, Jv),
> {
    get_torrent_args(ids, fields)->Obj_0
}

/// A selective query emits exactly its non-empty restrictions: the field
/// list as wire keys when fields were chosen, the id list when ids were
/// chosen, and nothing else.  An empty restriction is omitted entirely,
/// which the daemon reads as no restriction.
pub proof fn lemma_get_torrent_payload(ids: Seq<u32>, fields: Seq<TorrentField>, k: Seq<char>)
    ensures
        has_key(get_args_entries(ids, fields), "fields"@) <==> fields.len() > 0,
        has_key(get_args_entries(ids, fields), "ids"@) <==> ids.len() > 0,
        fields.len() > 0 ==> obj_get(get_args_entries(ids, fields), "fields"@) == Some(
            Jv::Arr(fields.map_values(|f: TorrentField| Jv::Str(field_key(f)))),
        ),
        ids.len() > 0 ==> obj_get(get_args_entries(ids, fields), "ids"@) == Some(
            Jv::Arr(ids.map_values(|x: u32| Jv::Int(x as int))),
        ),
        !(k == "fields"@ || k == "ids"@) ==> !has_key(get_args_entries(ids, fields), k),
{
    reveal_strlit("fields");
    reveal_strlit("ids");
    assert("fields"@.len() == 6 && "ids"@.len() == 3);
    assert forall|q: Seq<char>| true implies obj_get(Seq::<(Seq<char>, Jv)>::empty(), q)
        == None::<Jv> by {
        assert(Seq::<(Seq<char>, Jv)>::empty().len() == 0);
    }
    let e1 = if fields.len() > 0 {
        seq![("fields"@, Jv::Arr(fields.map_values(|f: TorrentField| Jv::Str(field_key(f)))))]
    } else {
        Seq::empty()
    };
    let e2 = if ids.len() > 0 {
        seq![("ids"@, Jv::Arr(ids.map_values(|x: u32| Jv::Int(x as int))))]
    } else {
        Seq::empty()
    };
    let m0 = e1 + e2;
    assert forall|q: Seq<char>| (#[trigger] obj_get(m0, q)) == (match obj_get(e1, q) {
        Some(v) => Some(v),
        None => obj_get(e2, q),
    }) by {
        lemma_obj_get_append(e1, e2, q);
    }
    assert forall|key: Seq<char>, v: Jv, q: Seq<char>| (#[trigger] obj_get(seq![(key, v)], q))
        == (if q == key {
        Some(v)
    } else {
        None::<Jv>
    }) by {
        lemma_obj_get_singleton(key, v, q);
    }
}

/// The entries of a settings-change payload.
pub open spec fn set_args_entries(s: TorrentSet) -> Seq<(Seq<char>, Jv)> {
    torrent_set_args(s)->Obj_0
}

/// A settings change emits exactly the settings the caller set, each under
/// its wire key with its set value, plus the id list always, and no other
/// key.  The payload is a function of the final field state alone, so it
/// does not depend on the order in which setters were called.
#[verifier::rlimit(100)]
pub proof fn lemma_torrent_set_payload(s: TorrentSet, k: Seq<char>)
    ensures
        has_key(set_args_entries(s), "bandwidth_priority"@) <==> s.bandwidth_priority is Some,
        has_key(set_args_entries(s), "download_limit"@) <==> s.download_limit is Some,
        has_key(set_args_entries(s), "download_limited"@) <==> s.download_limited is Some,
        has_key(set_args_entries(s), "honors_session_limits"@) <==> s.honors_session_limits
            is Some,
        has_key(set_args_entries(s), "ids"@),
        has_key(set_args_entries(s), "location"@) <==> s.location is Some,
        has_key(set_args_entries(s), "peer_limit"@) <==> s.peer_limit is Some,
        has_key(set_args_entries(s), "queue_position"@) <==> s.queue_position is Some,
        has_key(set_args_entries(s), "seed_idle_limit"@) <==> s.seed_idle_limit is Some,
        has_key(set_args_entries(s), "upload_limit"@) <==> s.upload_limit is Some,
        has_key(set_args_entries(s), "upload_limited"@) <==> s.upload_limited is Some,
        obj_get(set_args_entries(s), "ids"@) == Some(
            Jv::Arr(s.ids@.map_values(|x: u64| Jv::Int(x as int))),
        ),
        s.bandwidth_priority matches Some(p) ==> obj_get(set_args_entries(s),
        "bandwidth_priority"@) == Some(Jv::Int(priority_wire(p))),
        s.location matches Some(l) ==> obj_get(set_args_entries(s), "location"@) == Some(
            Jv::Str(l@),
        ),
        !(k == "bandwidth_priority"@ || k == "download_limit"@ || k == "download_limited"@ || k
            == "honors_session_limits"@ || k == "ids"@ || k == "location"@ || k == "peer_limit"@
            || k == "queue_position"@ || k == "seed_idle_limit"@ || k == "upload_limit"@ || k
            == "upload_limited"@) ==> !has_key(set_args_entries(s), k),
{
    reveal_strlit("bandwidth_priority");
    reveal_strlit("download_limit");
    reveal_strlit("download_limited");
    reveal_strlit("honors_session_limits");
    reveal_strlit("ids");
    reveal_strlit("location");
    reveal_strlit("peer_limit");
    reveal_strlit("queue_position");
    reveal_strlit("seed_idle_limit");
    reveal_strlit("upload_limit");
    reveal_strlit("upload_limited");
    assert("bandwidth_priority"@.len() == 18 && "download_limit"@.len() == 14
        && "download_limited"@.len() == 16 && "honors_session_limits"@.len() == 21
        && "ids"@.len() == 3 && "location"@.len() == 8 && "peer_limit"@.len() == 10
        && "queue_position"@.len() == 14 && "seed_idle_limit"@.len() == 15
        && "upload_limit"@.len() == 12 && "upload_limited"@.len() == 14);
    assert("download_limit"@[0] == 'd' && "queue_position"@[0] == 'q' && "upload_limited"@[0]
        == 'u');
    assert forall|q: Seq<char>| true implies obj_get(Seq::<(Seq<char>, Jv)>::empty(), q)
        == None::<Jv> by {
        assert(Seq::<(Seq<char>, Jv)>::empty().len() == 0);
    }
    let e1 = priority_entry("bandwidth_priority"@, s.bandwidth_priority);
    let e2 = u32_entry("download_limit"@, s.download_limit);
    let e3 = bool_entry("download_limited"@, s.download_limited);
    let e4 = bool_entry("honors_session_limits"@, s.honors_session_limits);
    let e5 = seq![("ids"@, Jv::Arr(s.ids@.map_values(|x: u64| Jv::Int(x as int))))];
    let e6 = str_entry("location"@, opt_str(s.location));
    let e7 = u32_entry("peer_limit"@, s.peer_limit);
    let e8 = u32_entry("queue_position"@, s.queue_position);
    let e9 = u32_entry("seed_idle_limit"@, s.seed_idle_limit);
    let e10 = u32_entry("upload_limit"@, s.upload_limit);
    let e11 = bool_entry("upload_limited"@, s.upload_limited);
    let m0 = e1 + e2 + e3 + e4 + e5 + e6 + e7 + e8 + e9 + e10 + e11;
    assert forall|q: Seq<char>| (#[trigger] obj_get(m0, q)) == (match obj_get(e1, q) {
        Some(v) => Some(v),
        None => match obj_get(e2, q) {
            Some(v) => Some(v),
            None => match obj_get(e3, q) {
                Some(v) => Some(v),
                None => match obj_get(e4, q) {
                    Some(v) => Some(v),
                    None => match obj_get(e5, q) {
                        Some(v) => Some(v),
                        None => match obj_get(e6, q) {
                            Some(v) => Some(v),
                            None => match obj_get(e7, q) {
                                Some(v) => Some(v),
                                None => match obj_get(e8, q) {
                                    Some(v) => Some(v),
                                    None => match obj_get(e9, q) {
                                        Some(v) => Some(v),
                                        None => match obj_get(e10, q) {
                                            Some(v) => Some(v),
                                            None => obj_get(e11, q),
                                        },
                                    },
                                },
                            },
                        },
                    },
                },
            },
        },
    }) by {
        lemma_obj_get_append(e1 + e2 + e3 + e4 + e5 + e6 + e7 + e8 + e9 + e10, e11, q);
        assert(e1 + e2 + e3 + e4 + e5 + e6 + e7 + e8 + e9 + e10 + e11 == m0);
        lemma_obj_get_append(e1 + e2 + e3 + e4 + e5 + e6 + e7 + e8 + e9, e10, q);
        lemma_obj_get_append(e1 + e2 + e3 + e4 + e5 + e6 + e7 + e8, e9, q);
        lemma_obj_get_append(e1 + e2 + e3 + e4 + e5 + e6 + e7, e8, q);
        lemma_obj_get_append(e1 + e2 + e3 + e4 + e5 + e6, e7, q);
        lemma_obj_get_append(e1 + e2 + e3 + e4 + e5, e6, q);
        lemma_obj_get_append(e1 + e2 + e3 + e4, e5, q);
        lemma_obj_get_append(e1 + e2 + e3, e4, q);
        lemma_obj_get_append(e1 + e2, e3, q);
        lemma_obj_get_append(e1, e2, q);
    }
    assert forall|key: Seq<char>, v: Jv, q: Seq<char>| (#[trigger] obj_get(seq![(key, v)], q))
        == (if q == key {
        Some(v)
    } else {
        None::<Jv>
    }) by {
        lemma_obj_get_singleton(key, v, q);
    }
}

/// An action's payload holds the id selector exactly when the target is
/// narrower than every torrent, and nothing else.
pub proof fn lemma_action_payload(target: ActionTarget, k: Seq<char>)
    ensures
        action_args(target) matches Jv::Obj(m) ==> {
            &&& has_key(m, "id"@) <==> !(target is All)
            &&& k != "id"@ ==> !has_key(m, k)
        },
{
    let m = action_args(target)->Obj_0;
    match target {
        ActionTarget::All => {
            assert(obj_get(m, k) is None);
            assert(obj_get(m, "id"@) is None);
        },
        ActionTarget::List { ids, hashes } => {
            lemma_obj_get_singleton(m[0].0, m[0].1, k);
            lemma_obj_get_singleton(m[0].0, m[0].1, "id"@);
            assert(m =~= seq![m[0]]);
        },
        ActionTarget::RecentlyActive => {
            lemma_obj_get_singleton(m[0].0, m[0].1, k);
            lemma_obj_get_singleton(m[0].0, m[0].1, "id"@);
            assert(m =~= seq![m[0]]);
        },
        ActionTarget::Single { id } => {
            lemma_obj_get_singleton(m[0].0, m[0].1, k);
            lemma_obj_get_singleton(m[0].0, m[0].1, "id"@);
            assert(m =~= seq![m[0]]);
        },
    }
}

/// A reply that holds `torrent-duplicate` and no `torrent-added` decodes by
/// the very same field-extraction rules as the primary key, with the
/// duplicate flag recorded true.
pub proof fn lemma_alternative_key(m: Seq<(Seq<char>, Jv)>, info: Jv)
    requires
        !has_key(m, "torrent-added"@),
        obj_get(m, "torrent-duplicate"@) == Some(info),
    ensures
        add_torrent_of(Jv::Obj(m)) == add_info_of(info, true, "torrent-duplicate"@),
        add_torrent_of(Jv::Obj(m)) matches Ok(a) ==> a.was_duplicate,
{
    match add_info_of(info, true, "torrent-duplicate"@) {
        Ok(a) => {
            assert(a.was_duplicate);
        },
        Err(_) => {},
    }
}

/// Selective decoding mirrors the reply's keys: a decoded record has an
/// attribute populated exactly when its wire key is present in the reply
/// object, so a query restricted to some fields yields records with exactly
/// those attributes set and all others absent.
#[verifier::rlimit(100)]
pub proof fn lemma_selective_decode(m: Seq<(Seq<char>, Jv)>, t: TorrentV)
    requires
        torrent_of(m) == Ok::<TorrentV, DeserializeErrorV>(t),
    ensures
        t.activity_date is Some <==> has_key(m, field_key(TorrentField::ActivityDate)),
        t.added_date is Some <==> has_key(m, field_key(TorrentField::AddedDate)),
        t.bandwidth_priority is Some <==> has_key(m, field_key(TorrentField::BandwidthPriority)),
        t.comment is Some <==> has_key(m, field_key(TorrentField::Comment)),
        t.download_dir is Some <==> has_key(m, field_key(TorrentField::DownloadDir)),
        t.error is Some <==> has_key(m, field_key(TorrentField::Error)),
        t.error_string is Some <==> has_key(m, field_key(TorrentField::ErrorString)),
        t.files is Some <==> has_key(m, field_key(TorrentField::Files)),
        t.file_stats is Some <==> has_key(m, field_key(TorrentField::FileStats)),
        t.hash_string is Some <==> has_key(m, field_key(TorrentField::HashString)),
        t.id is Some <==> has_key(m, field_key(TorrentField::Id)),
        t.is_private is Some <==> has_key(m, field_key(TorrentField::IsPrivate)),
        t.name is Some <==> has_key(m, field_key(TorrentField::Name)),
        t.peers_from is Some <==> has_key(m, field_key(TorrentField::PeersFrom)),
        t.status is Some <==> has_key(m, field_key(TorrentField::Status)),
        t.total_size is Some <==> has_key(m, field_key(TorrentField::TotalSize)),
        t.trackers is Some <==> has_key(m, field_key(TorrentField::Trackers)),
        t.upload_limit is Some <==> has_key(m, field_key(TorrentField::UploadLimit)),
        t.wanted is Some <==> has_key(m, field_key(TorrentField::Wanted)),
        t.webseeds is Some <==> has_key(m, field_key(TorrentField::Webseeds)),
{
}

/// Decoding is a pure function of the arguments value: two decodings of the
/// same well-formed value yield equal record lists, field for field.
pub proof fn lemma_decode_idempotent(
    v: Jv,
    r1: Result<Seq<TorrentV>, DeserializeErrorV>,
    r2: Result<Seq<TorrentV>, DeserializeErrorV>,
)
    requires
        r1 == get_torrent_of(v),
        r2 == get_torrent_of(v),
    ensures
        r1 == r2,
{
}

/// The wire-emittable values: integers within the signed wire range and no
/// kept number lexemes, at every depth.
pub open spec fn emittable(v: Jv) -> bool
    decreases v,
{
    match v {
        Jv::Null => true,
        Jv::Bool(_) => true,
        Jv::Int(i) => i64::MIN <= i <= i64::MAX,
        Jv::NumText(_) => false,
        Jv::Str(_) => true,
        Jv::Arr(els) => emittable_seq(els),
        Jv::Obj(ms) => emittable_entries(ms),
    }
}

/// Every element is emittable.
pub open spec fn emittable_seq(els: Seq<Jv>) -> bool
    decreases els,
{
    els.len() == 0 || (emittable(els[0]) && emittable_seq(els.drop_first()))
}

/// Every entry's value is emittable.
pub open spec fn emittable_entries(ms: Seq<(Seq<char>, Jv)>) -> bool
    decreases ms,
{
    ms.len() == 0 || (emittable(ms[0].1) && emittable_entries(ms.drop_first()))
}

/// Decimal digits are digit characters, at least one, with no leading zero
/// unless the value is zero itself.
proof fn lemma_dec_digits_shape(n: int)
    requires
        n >= 0,
    ensures
        dec_digits(n).len() >= 1,
        forall|k: int| 0 <= k < dec_digits(n).len() ==> is_digit(#[trigger] dec_digits(n)[k]),
        n >= 1 ==> dec_digits(n)[0] != '0',
        n == 0 ==> dec_digits(n) == seq![digit_char(0)],
    decreases n,
{
    if n < 10 {
        assert(dec_digits(n) == seq![digit_char(n)]);
        assert(digit_char(n) as u32 == 48 + n);
    } else {
        lemma_dec_digits_shape(n / 10);
        assert(digit_char(n % 10) as u32 == 48 + n % 10);
        assert(dec_digits(n) == dec_digits(n / 10).push(digit_char(n % 10)));
        assert(dec_digits(n)[0] == dec_digits(n / 10)[0]);
    }
}

/// A run of digits with a non-digit (or the end) after it ends exactly
/// there.
proof fn lemma_digits_end_run(s: Seq<char>, d: int, e: int)
    requires
        0 <= d <= e <= s.len(),
        forall|k: int| d <= k < e ==> is_digit(s[k]),
        e == s.len() || !is_digit(s[e]),
    ensures
        digits_end(s, d) == e,
    decreases e - d,
{
    if d < e {
        lemma_digits_end_run(s, d + 1, e);
    }
}

/// The value of a digit run that spells a number's decimal digits is that
/// number.
proof fn lemma_digits_val_of_text(s: Seq<char>, d: int, n: int)
    requires
        n >= 0,
        0 <= d,
        d + dec_digits(n).len() <= s.len(),
        s.subrange(d, d + dec_digits(n).len() as int) == dec_digits(n),
    ensures
        digits_val(s, d, d + dec_digits(n).len() as int) == n,
    decreases n,
{
    let l = dec_digits(n).len() as int;
    if n < 10 {
        assert(dec_digits(n) == seq![digit_char(n)]);
        assert(s[d] == dec_digits(n)[0]);
        assert(s[d] as u32 == 48 + n);
        assert(digits_val(s, d, d + 1) == digits_val(s, d, d) * 10 + (s[d] as u32 - 48));
    } else {
        assert(dec_digits(n) == dec_digits(n / 10).push(digit_char(n % 10)));
        let lh = dec_digits(n / 10).len() as int;
        assert(s.subrange(d, d + lh) =~= dec_digits(n / 10)) by {
            assert forall|k: int| 0 <= k < lh implies #[trigger] s.subrange(d, d + lh)[k]
                == dec_digits(n / 10)[k] by {
                assert(s.subrange(d, d + l)[k] == dec_digits(n)[k]);
            }
        }
        lemma_digits_val_of_text(s, d, n / 10);
        assert(s[d + l - 1] == dec_digits(n)[l - 1]);
        assert(s[d + l - 1] as u32 == 48 + n % 10);
        assert(digits_val(s, d, d + l) == digits_val(s, d, d + l - 1) * 10 + (s[d + l - 1] as u32
            - 48));
    }
}

/// The wire text of an in-range integer parses back to exactly that
/// integer, when what follows cannot extend the number.
proof fn lemma_number_round(s: Seq<char>, i: int, n: int)
    requires
        i64::MIN <= n <= i64::MAX,
        0 <= i,
        i + int_text(n).len() <= s.len(),
        s.subrange(i, i + int_text(n).len() as int) == int_text(n),
        ({
            let e = i + int_text(n).len() as int;
            e == s.len() || (!is_digit(s[e]) && s[e] != '.' && s[e] != 'e' && s[e] != 'E')
        }),
    ensures
        number_at(s, i) == Some((Jv::Int(n), i + int_text(n).len() as int)),
{
    let l = int_text(n).len() as int;
    let e = i + l;
    if n >= 0 {
        lemma_dec_digits_shape(n);
        assert(int_text(n) == dec_digits(n));
        assert forall|k: int| i <= k < e implies is_digit(s[k]) by {
            assert(s.subrange(i, e)[k - i] == dec_digits(n)[k - i]);
        }
        assert(s[i] == dec_digits(n)[0]);
        assert(s[i] != '-') by {
            assert(is_digit(s[i]));
        }
        lemma_digits_end_run(s, i, e);
        lemma_digits_val_of_text(s, i, n);
        if n >= 1 {
            assert(s[i] != '0');
        }
    } else {
        let m = -n;
        lemma_dec_digits_shape(m);
        assert(int_text(n) == seq!['-'] + dec_digits(m));
        assert(s[i] == int_text(n)[0]);
        assert(s[i] == '-');
        let d = i + 1;
        assert(s.subrange(d, e) =~= dec_digits(m)) by {
            assert forall|k: int| 0 <= k < e - d implies #[trigger] s.subrange(d, e)[k]
                == dec_digits(m)[k] by {
                assert(s.subrange(i, e)[k + 1] == int_text(n)[k + 1]);
            }
        }
        assert forall|k: int| d <= k < e implies is_digit(s[k]) by {
            assert(s.subrange(d, e)[k - d] == dec_digits(m)[k - d]);
        }
        assert(s[d] == dec_digits(m)[0]);
        lemma_digits_end_run(s, d, e);
        lemma_digits_val_of_text(s, d, m);
        assert(s[d] != '0');
    }
}

/// A hexadecimal digit character spells its value.
proof fn lemma_hex_char_val(d: int)
    requires
        0 <= d < 16,
    ensures
        hex_val(hex_char(d)) == Some(d),
{
    if d < 10 {
        assert(hex_char(d) as u32 == 48 + d);
    } else {
        assert(hex_char(d) as u32 == 87 + d);
    }
}

/// The escaped wire form of a string body parses back to exactly its
/// characters, consuming the closing quote.
#[verifier::rlimit(100)]
proof fn lemma_string_round(s: Seq<char>, i: int, content: Seq<char>)
    requires
        0 <= i,
        i + esc_str(content).len() + 1 <= s.len(),
        s.subrange(i, i + esc_str(content).len() as int + 1) == esc_str(content) + seq!['"'],
    ensures
        string_at(s, i) == Some((content, i + esc_str(content).len() as int + 1)),
    decreases content.len(),
{
    let el = esc_str(content).len() as int;
    let fin = i + el + 1;
    if content.len() == 0 {
        assert(esc_str(content) == Seq::<char>::empty());
        assert(s.subrange(i, fin)[0] == s[i]);
        assert(s[i] == '"');
    } else {
        let c = content[0];
        let e = esc_char(c);
        let rest = content.drop_first();
        let resc = esc_str(rest);
        assert(esc_str(content) == e + resc);
        let i2 = i + e.len() as int;
        assert(s.subrange(i2, fin) =~= resc + seq!['"']) by {
            assert forall|k: int| 0 <= k < resc.len() + 1 implies #[trigger] s.subrange(i2, fin)[k]
                == (resc + seq!['"'])[k] by {
                assert(s.subrange(i2, fin)[k] == s[i2 + k]);
                assert(s.subrange(i, fin)[e.len() + k] == s[i + (e.len() + k)]);
                assert(i2 + k == i + (e.len() + k));
            }
        }
        lemma_string_round(s, i2, rest);
        assert(seq![c] + rest =~= content);
        assert(s.subrange(i, fin)[0] == s[i]);
        assert(s.subrange(i, fin)[1] == s[i + 1]);
        if c == '"' || c == '\\' {
            assert(s[i] == '\\' && s[i + 1] == c);
            assert(string_at(s, i) == string_tail(s, i + 2, c));
        } else if c == '\u{8}' {
            assert(s[i] == '\\' && s[i + 1] == 'b');
            assert(string_at(s, i) == string_tail(s, i + 2, c));
        } else if c == '\u{c}' {
            assert(s[i] == '\\' && s[i + 1] == 'f');
            assert(string_at(s, i) == string_tail(s, i + 2, c));
        } else if c == '\n' {
            assert(s[i] == '\\' && s[i + 1] == 'n');
            assert(string_at(s, i) == string_tail(s, i + 2, c));
        } else if c == '\r' {
            assert(s[i] == '\\' && s[i + 1] == 'r');
            assert(string_at(s, i) == string_tail(s, i + 2, c));
        } else if c == '\t' {
            assert(s[i] == '\\' && s[i + 1] == 't');
            assert(string_at(s, i) == string_tail(s, i + 2, c));
        } else if (c as u32) < 0x20 {
            let u = c as u32;
            let hi = u as int / 16;
            let lo = u as int % 16;
            assert(e == seq!['\\', 'u', '0', '0', hex_char(hi), hex_char(lo)]);
            assert(s.subrange(i, fin)[2] == s[i + 2]);
            assert(s.subrange(i, fin)[3] == s[i + 3]);
            assert(s.subrange(i, fin)[4] == s[i + 4]);
            assert(s.subrange(i, fin)[5] == s[i + 5]);
            assert(s[i] == '\\' && s[i + 1] == 'u' && s[i + 2] == '0' && s[i + 3] == '0' && s[i
                + 4] == hex_char(hi) && s[i + 5] == hex_char(lo));
            lemma_hex_char_val(hi);
            lemma_hex_char_val(lo);
            assert(hex_val('0') == Some(0int)) by {
                assert('0' as u32 == 48);
            }
            assert(hex_quad(s, i + 2) == Some(hi * 16 + lo));
            assert(hi * 16 + lo == u);
            let cp = hi * 16 + lo;
            assert(cp < 0xD800);
            vstd::utf8::char_u32_cast(c, u);
            assert(((cp as u32) as char) == c);
            assert(string_at(s, i) == string_tail(s, i + 6, c));
        } else {
            assert(e == seq![c]);
            assert(s[i] == c);
            assert(c != '"' && c != '\\' && (c as u32) >= 0x20);
            assert(string_at(s, i) == string_tail(s, i + 1, c));
        }
    }
}

/// A window inside an established window equals the matching slice of its
/// text.
proof fn lemma_window(s: Seq<char>, i: int, t: Seq<char>, a: int, b: int)
    requires
        0 <= i,
        i + t.len() <= s.len(),
        s.subrange(i, i + t.len() as int) == t,
        0 <= a <= b <= t.len(),
    ensures
        s.subrange(i + a, i + b) == t.subrange(a, b),
{
    assert(s.subrange(i + a, i + b) =~= t.subrange(a, b)) by {
        assert forall|k: int| 0 <= k < b - a implies #[trigger] s.subrange(i + a, i + b)[k]
            == t.subrange(a, b)[k] by {
            assert(s.subrange(i + a, i + b)[k] == s[i + a + k]);
            assert(s.subrange(i, i + t.len() as int)[a + k] == s[i + (a + k)]);
            assert(i + a + k == i + (a + k));
        }
    }
}

/// One character of an established window.
proof fn lemma_char_at(s: Seq<char>, i: int, t: Seq<char>, k: int)
    requires
        0 <= i,
        i + t.len() <= s.len(),
        s.subrange(i, i + t.len() as int) == t,
        0 <= k < t.len(),
    ensures
        s[i + k] == t[k],
{
    assert(s.subrange(i, i + t.len() as int)[k] == s[i + k]);
}

/// The wire text of an emittable value is non-empty, and its first
/// character is neither whitespace nor a closing bracket.
proof fn lemma_text_first(v: Jv)
    requires
        emittable(v),
    ensures
        text_of(v).len() >= 1,
        !is_ws(text_of(v)[0]),
        text_of(v)[0] != ']',
        text_of(v)[0] != '}',
    decreases v,
{
    reveal_strlit("null");
    reveal_strlit("true");
    reveal_strlit("false");
    match v {
        Jv::Int(n) => {
            if n >= 0 {
                lemma_dec_digits_shape(n);
                assert(is_digit(text_of(v)[0]));
            } else {
                lemma_dec_digits_shape(-n);
                assert(text_of(v)[0] == '-');
            }
        },
        _ => {},
    }
}

/// Whether position `e` can follow a value: the end of the text, or a
/// separator or closing bracket.
pub open spec fn closes_value(s: Seq<char>, e: int) -> bool {
    e == s.len() || s[e] == ',' || s[e] == ']' || s[e] == '}'
}

/// The wire text of an emittable value parses back to exactly that value,
/// when what follows cannot extend it.
#[verifier::rlimit(100)]
proof fn lemma_value_round(s: Seq<char>, i: int, v: Jv)
    requires
        emittable(v),
        0 <= i,
        i + text_of(v).len() <= s.len(),
        s.subrange(i, i + text_of(v).len() as int) == text_of(v),
        closes_value(s, i + text_of(v).len() as int),
    ensures
        value_at(s, i) == Some((v, i + text_of(v).len() as int)),
    decreases v, 0int,
{
    let t = text_of(v);
    let fin = i + t.len() as int;
    lemma_text_first(v);
    lemma_char_at(s, i, t, 0);
    match v {
        Jv::Null => {
            reveal_strlit("null");
            assert(t.len() == 4);
            assert(s[i] == 'n');
        },
        Jv::Bool(b) => {
            reveal_strlit("true");
            reveal_strlit("false");
            if b {
                assert(s[i] == 't');
            } else {
                assert(s[i] == 'f');
            }
        },
        Jv::Int(n) => {
            lemma_number_round(s, i, n);
        },
        Jv::NumText(_) => {
            assert(false);
        },
        Jv::Str(content) => {
            assert(s[i] == '"');
            let esc = esc_str(content);
            lemma_window(s, i, t, 1, t.len() as int);
            assert(t.subrange(1, t.len() as int) =~= esc + seq!['"']);
            lemma_string_round(s, i + 1, content);
        },
        Jv::Arr(els) => {
            assert(s[i] == '[');
            let at = arr_text(els);
            if els.len() == 0 {
                assert(at == Seq::<char>::empty());
                assert(els =~= Seq::<Jv>::empty());
                assert(t.len() == 2);
                lemma_char_at(s, i, t, 1);
                assert(s[i + 1] == ']');
                assert(ws_after(s, i + 1) == i + 1);
            } else {
                assert(emittable(els[0]));
                lemma_text_first(els[0]);
                let t0 = text_of(els[0]);
                assert(at[0] == t0[0]) by {
                    if els.len() > 1 {
                        assert(at == t0 + seq![','] + arr_text(els.drop_first()));
                    }
                }
                lemma_char_at(s, i, t, 1);
                assert(s[i + 1] == at[0]);
                assert(ws_after(s, i + 1) == i + 1);
                assert(s[i + 1] != ']');
                lemma_window(s, i, t, 1, t.len() as int);
                assert(t.subrange(1, t.len() as int) =~= at + seq![']']);
                lemma_elements_round(s, i + 1, els);
            }
        },
        Jv::Obj(ms) => {
            assert(s[i] == '{');
            let ot = obj_text(ms);
            if ms.len() == 0 {
                assert(ot == Seq::<char>::empty());
                assert(ms =~= Seq::<(Seq<char>, Jv)>::empty());
                assert(t.len() == 2);
                lemma_char_at(s, i, t, 1);
                assert(s[i + 1] == '}');
                assert(ws_after(s, i + 1) == i + 1);
            } else {
                let entry = entry_text(ms[0]);
                assert(ot[0] == entry[0]) by {
                    if ms.len() > 1 {
                        assert(ot == entry + seq![','] + obj_text(ms.drop_first()));
                    }
                }
                assert(entry[0] == '"');
                lemma_char_at(s, i, t, 1);
                assert(s[i + 1] == '"');
                assert(ws_after(s, i + 1) == i + 1);
                assert(s[i + 1] != '}');
                lemma_window(s, i, t, 1, t.len() as int);
                assert(t.subrange(1, t.len() as int) =~= ot + seq!['}']);
                lemma_members_round(s, i + 1, ms);
            }
        },
    }
}

/// The joined wire texts of one or more array elements, closed by a
/// bracket, parse back to exactly those elements.
#[verifier::rlimit(100)]
proof fn lemma_elements_round(s: Seq<char>, i: int, els: Seq<Jv>)
    requires
        els.len() >= 1,
        emittable_seq(els),
        0 <= i,
        i + arr_text(els).len() + 1 <= s.len(),
        s.subrange(i, i + arr_text(els).len() as int + 1) == arr_text(els) + seq![']'],
    ensures
        elements_at(s, i) == Some((els, i + arr_text(els).len() as int + 1)),
    decreases els, 1int,
{
    let at = arr_text(els);
    let big = at + seq![']'];
    let fin = i + at.len() as int + 1;
    assert(emittable(els[0]));
    let t0 = text_of(els[0]);
    lemma_text_first(els[0]);
    if els.len() == 1 {
        assert(at == t0);
    } else {
        assert(at == t0 + seq![','] + arr_text(els.drop_first()));
    }
    lemma_window(s, i, big, 0, t0.len() as int);
    assert(big.subrange(0, t0.len() as int) =~= t0);
    lemma_char_at(s, i, big, t0.len() as int);
    let p = i + t0.len() as int;
    if els.len() == 1 {
        assert(s[p] == ']');
    } else {
        assert(s[p] == ',');
    }
    lemma_value_round(s, i, els[0]);
    assert(ws_after(s, p) == p);
    if els.len() == 1 {
        assert(elements_at(s, i) == Some((seq![els[0]], p + 1)));
        assert(seq![els[0]] =~= els);
    } else {
        let rest = els.drop_first();
        assert(emittable_seq(rest));
        assert(rest.len() >= 1);
        assert(emittable(rest[0]));
        lemma_text_first(rest[0]);
        let art = arr_text(rest);
        assert(art[0] == text_of(rest[0])[0]) by {
            if rest.len() > 1 {
                assert(art == text_of(rest[0]) + seq![','] + arr_text(rest.drop_first()));
            }
        }
        let m = p + 1;
        lemma_char_at(s, i, big, t0.len() as int + 1);
        assert(s[m] == art[0]);
        assert(ws_after(s, m) == m);
        lemma_window(s, i, big, t0.len() as int + 1, big.len() as int);
        assert(big.subrange(t0.len() as int + 1, big.len() as int) =~= art + seq![']']);
        lemma_elements_round(s, m, rest);
        assert(seq![els[0]] + rest =~= els);
    }
}

/// The joined wire texts of one or more object entries, closed by a brace,
/// parse back to exactly those entries.
#[verifier::rlimit(100)]
proof fn lemma_members_round(s: Seq<char>, i: int, ms: Seq<(Seq<char>, Jv)>)
    requires
        ms.len() >= 1,
        emittable_entries(ms),
        0 <= i,
        i + obj_text(ms).len() + 1 <= s.len(),
        s.subrange(i, i + obj_text(ms).len() as int + 1) == obj_text(ms) + seq!['}'],
    ensures
        members_at(s, i) == Some((ms, i + obj_text(ms).len() as int + 1)),
    decreases ms, 1int,
{
    let ot = obj_text(ms);
    let big = ot + seq!['}'];
    let fin = i + ot.len() as int + 1;
    let key = ms[0].0;
    let v0 = ms[0].1;
    assert(emittable(v0));
    lemma_text_first(v0);
    let entry = entry_text(ms[0]);
    let esc = esc_str(key);
    let t0 = text_of(v0);
    assert(entry == seq!['"'] + esc + seq!['"', ':'] + t0);
    if ms.len() == 1 {
        assert(ot == entry);
    } else {
        assert(ot == entry + seq![','] + obj_text(ms.drop_first()));
    }
    lemma_window(s, i, big, 0, entry.len() as int);
    assert(big.subrange(0, entry.len() as int) =~= entry);
    let ghost ew = s.subrange(i, i + entry.len() as int);
    assert(ew == entry);
    lemma_char_at(s, i, entry, 0);
    assert(s[i] == '"');
    lemma_window(s, i, entry, 1, esc.len() as int + 2);
    assert(entry.subrange(1, esc.len() as int + 2) =~= esc + seq!['"']);
    lemma_string_round(s, i + 1, key);
    let j = i + esc.len() as int + 2;
    lemma_char_at(s, i, entry, esc.len() as int + 2);
    assert(s[j] == ':');
    assert(ws_after(s, j) == j);
    let m = j + 1;
    lemma_char_at(s, i, entry, esc.len() as int + 3);
    assert(s[m] == t0[0]);
    assert(ws_after(s, m) == m);
    lemma_window(s, i, entry, esc.len() as int + 3, entry.len() as int);
    assert(entry.subrange(esc.len() as int + 3, entry.len() as int) =~= t0);
    let p = m + t0.len() as int;
    lemma_char_at(s, i, big, entry.len() as int);
    if ms.len() == 1 {
        assert(s[p] == '}');
    } else {
        assert(s[p] == ',');
    }
    lemma_value_round(s, m, v0);
    assert(ws_after(s, p) == p);
    if ms.len() == 1 {
        assert(members_at(s, i) == Some((seq![(key, v0)], p + 1)));
        assert(seq![(key, v0)] =~= ms);
    } else {
        let rest = ms.drop_first();
        assert(emittable_entries(rest));
        assert(rest.len() >= 1);
        let orest = obj_text(rest);
        assert(orest[0] == entry_text(rest[0])[0]) by {
            if rest.len() > 1 {
                assert(orest == entry_text(rest[0]) + seq![','] + obj_text(rest.drop_first()));
            }
        }
        assert(entry_text(rest[0])[0] == '"');
        let r = p + 1;
        lemma_char_at(s, i, big, entry.len() as int + 1);
        assert(s[r] == orest[0]);
        assert(ws_after(s, r) == r);
        lemma_window(s, i, big, entry.len() as int + 1, big.len() as int);
        assert(big.subrange(entry.len() as int + 1, big.len() as int) =~= orest + seq!['}']);
        lemma_members_round(s, r, rest);
        assert(seq![(key, v0)] + rest =~= ms);
    }
}

/// What the codec emits, the parser reads back: the wire text of any
/// emittable value parses as a document to exactly that value.
pub proof fn lemma_codec_round_trip(v: Jv)
    requires
        emittable(v),
    ensures
        document(text_of(v)) == Some(v),
{
    let s = text_of(v);
    lemma_text_first(v);
    assert(s.subrange(0, s.len() as int) =~= s);
    assert(ws_after(s, 0) == 0);
    lemma_value_round(s, 0, v);
    assert(ws_after(s, s.len() as int) == s.len() as int);
}

} // verus!
