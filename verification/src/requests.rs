//! Typed requests and the outbound wire envelope.
//!
//! A request supplies a stable method name and a serializable argument
//! payload; [`to_value`] frames the two as the `{arguments, method}` envelope
//! and [`request_text`] serializes it.  Builder methods are
//! immutable-by-return and each sets exactly one field, so the emitted
//! payload depends only on the final field state, never on call order.

pub mod add_torrent;
pub mod get_torrent;
pub mod torrent_action;
pub mod torrent_set;

pub use self::add_torrent::AddTorrent;
pub use self::get_torrent::GetTorrent;
pub use self::torrent_action::ActionTarget;
pub use self::torrent_action::ActionType;
pub use self::torrent_action::TorrentAction;
pub use self::torrent_set::TorrentSet;
pub use self::torrent_set::TorrentSetResponse;

use vstd::prelude::*;
use crate::json::{Json, Jv, jv_of_entries, lemma_jv_of_entries};
use crate::ser::{text_of, to_text};

verus! {

/// A request that can be sent to the daemon.
pub trait Request {
    /// The model of the method name.
    spec fn method_view(&self) -> Seq<char>;

    /// The model of the argument payload.
    spec fn args_view(&self) -> Jv;

    /// Whether every integer of the request fits the wire's signed range.
    spec fn args_wf(&self) -> bool;

    /// The stable method name of this request kind.
    fn method_name(&self) -> (r: &'static str)
        ensures
            r@ == self.method_view(),
    ;

    /// The argument payload of this request.
    fn arguments(&self) -> (r: Json)
        requires
            self.args_wf(),
        ensures
            r@ == self.args_view(),
    ;

    /// Whether the payload can be emitted: the executable test of
    /// [`Request::args_wf`], for callers outside the proofs.
    fn args_ok(&self) -> (r: bool)
        ensures
            r == self.args_wf(),
    ;
}

/// The envelope framing a method name and an argument payload.
pub open spec fn envelope_view(method: Seq<char>, args: Jv) -> Jv {
    Jv::Obj(seq![("arguments"@, args), ("method"@, Jv::Str(method))])
}

/// Frames a request as its wire envelope value.
pub fn to_value<R: Request>(req: &R) -> (r: Json)
    requires
        req.args_wf(),
    ensures
        r@ == envelope_view(req.method_view(), req.args_view()),
{
    let args = req.arguments();
    let method = String::from_str(req.method_name());
    let mut ms: Vec<(String, Json)> = Vec::new();
    ms.push((String::from_str("arguments"), args));
    ms.push((String::from_str("method"), Json::Str(method)));
    proof {
        lemma_jv_of_entries(ms@);
        assert(jv_of_entries(ms@) =~= envelope_view(req.method_view(), req.args_view())->Obj_0);
    }
    Json::Obj(ms)
}

/// Serializes a request as its wire envelope text.
pub fn request_text<R: Request>(req: &R) -> (r: String)
    requires
        req.args_wf(),
    ensures
        r@ == text_of(envelope_view(req.method_view(), req.args_view())),
{
    let v = to_value(req);
    to_text(&v)
}

} // verus!
