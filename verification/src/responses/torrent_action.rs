//! The reply to an action request: a bare acknowledgement.

use vstd::prelude::*;
use crate::error::DeserializeError;
use crate::json::Json;

verus! {

/// A reply to an action request; it carries no data.
#[derive(Clone, Copy, Debug, PartialEq, Eq, Structural)]
pub struct TorrentAction;

impl TorrentAction {
    /// Decodes the acknowledgement: any arguments value acknowledges.
    pub fn from_value(v: &Json) -> (r: Result<TorrentAction, DeserializeError>)
        ensures
            r == Ok::<_, DeserializeError>(TorrentAction),
    {
        let _ = v;
        Ok(TorrentAction)
    }
}

} // verus!
