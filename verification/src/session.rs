//! The session negotiator: connection settings, request headers, and the
//! send–reject–refresh–resend handshake.
//!
//! The caller's transport performs the HTTP exchanges; [`Exchange::step`]
//! decides, from each reply's status and session header, whether to resend
//! once with a refreshed token, deliver the body to the decoders, or fail.
//! At most two exchanges ever serve one logical call.

use vstd::prelude::*;
use vstd::string::StrSliceExecFns;
use vstd::utf8::encode_utf8;
use crate::base64::{base64_encode, base64_text};
use crate::error::{DaemonError, DaemonErrorV, Error, ErrorV};

verus! {

broadcast use vstd::std_specs::vec::group_vec_axioms, vstd::seq::group_seq_axioms;

/// Basic-authentication credentials.
#[derive(Clone, Debug)]
pub struct Auth {
    /// The user name.
    pub user: String,
    /// The password.
    pub pass: String,
}

/// The connection to the daemon: endpoint, credentials, and the cached
/// session token.  The token is absent before the first exchange, replaced
/// whenever the daemon signals rejection, and never persisted.
#[derive(Clone, Debug)]
pub struct Transmission {
    /// The endpoint the envelopes are posted to.
    pub url: String,
    /// The credentials, when the daemon requires them.
    pub auth: Option<Auth>,
    /// The cached session token, echoed back verbatim once known.
    pub session: Option<String>,
}

/// The default endpoint.
pub open spec fn default_url() -> Seq<char> {
    "http://127.0.0.1:9091/transmission/rpc"@
}

/// The value of the basic-authentication header for the given credentials.
pub open spec fn basic_auth_value(user: Seq<char>, pass: Seq<char>) -> Seq<char> {
    "Basic "@ + base64_text(encode_utf8(user + seq![':'] + pass))
}

/// The request headers a client state sends: the content type always, the
/// session header exactly when a token is cached, and basic authentication
/// exactly when credentials are configured.
pub open spec fn headers_of(t: Transmission) -> Seq<(Seq<char>, Seq<char>)> {
    seq![("Content-Type"@, "application/json; charset=utf-8"@)] + (match t.session {
        Some(tok) => seq![("X-Transmission-Session-Id"@, tok@)],
        None => Seq::empty(),
    }) + (match t.auth {
        Some(a) => seq![("Authorization"@, basic_auth_value(a.user@, a.pass@))],
        None => Seq::empty(),
    })
}

/// The models of a list of header pairs.
pub open spec fn pairs_view(v: Seq<(String, String)>) -> Seq<(Seq<char>, Seq<char>)> {
    Seq::new(v.len(), |i: int| (v[i].0@, v[i].1@))
}

impl Transmission {
    /// Creates a connection to the default endpoint, with no credentials
    /// and no cached token.
    pub fn new() -> (r: Transmission)
        ensures
            r.url@ == default_url(),
            r.auth is None,
            r.session is None,
    {
        Transmission {
            url: String::from_str("http://127.0.0.1:9091/transmission/rpc"),
            auth: None,
            session: None,
        }
    }

    /// Sets the endpoint used for future requests.
    pub fn set_url(&mut self, url: String)
        ensures
            final(self).url == url,
            final(self).auth == old(self).auth,
            final(self).session == old(self).session,
    {
        self.url = url;
    }

    /// Sets the credentials used for future requests.
    pub fn set_auth(&mut self, username: String, password: String)
        ensures
            final(self).auth matches Some(a) && a.user == username && a.pass == password,
            final(self).url == old(self).url,
            final(self).session == old(self).session,
    {
        self.auth = Some(Auth { user: username, pass: password });
    }

    /// The headers of the next exchange, for the current state.
    pub fn request_headers(&self) -> (r: Vec<(String, String)>)
        ensures
            pairs_view(r@) == headers_of(*self),
    {
        let mut hs: Vec<(String, String)> = Vec::new();
        hs.push(
            (
                String::from_str("Content-Type"),
                String::from_str("application/json; charset=utf-8"),
            ),
        );
        proof {
            assert(pairs_view(hs@) =~= seq![
                ("Content-Type"@, "application/json; charset=utf-8"@),
            ]);
        }
        if let Some(tok) = &self.session {
            hs.push((String::from_str("X-Transmission-Session-Id"), tok.clone()));
        }
        proof {
            assert(pairs_view(hs@) =~= seq![("Content-Type"@, "application/json; charset=utf-8"@)]
                + (match self.session {
                Some(tok) => seq![("X-Transmission-Session-Id"@, tok@)],
                None => Seq::empty(),
            }));
        }
        if let Some(a) = &self.auth {
            let mut joined = a.user.clone();
            joined.push(':');
            joined.append(a.pass.as_str());
            proof {
                assert(joined@ =~= a.user@ + seq![':'] + a.pass@);
            }
            let bytes = joined.as_str().as_bytes_vec();
            let b64 = base64_encode(&bytes);
            let mut val = String::from_str("Basic ");
            val.append(b64.as_str());
            hs.push((String::from_str("Authorization"), val));
        }
        proof {
            assert(pairs_view(hs@) =~= headers_of(*self));
        }
        hs
    }
}

/// What the negotiator asks the transport to do next.
pub enum Step {
    /// Re-issue the identical request once, with freshly built headers.
    Resend,
    /// The exchange succeeded: hand the body to the decoders.
    Deliver,
    /// The call failed; no further exchange is made.
    Fail(Error),
}

/// One logical call in flight: remembers whether its one permitted
/// renegotiation retry has been spent.
pub struct Exchange {
    /// Whether the one session-rejection retry has already happened.
    pub retried: bool,
}

impl Exchange {
    /// Begins a logical call; no retry has happened yet.
    pub fn new() -> (r: Exchange)
        ensures
            !r.retried,
    {
        Exchange { retried: false }
    }

    /// Decides on one HTTP reply: on the first session rejection with a
    /// token present, caches the token and asks for the one resend; on any
    /// other rejection or failure status, fails; on success, delivers.
    ///
    /// A second rejection finishes with the daemon's status: a third
    /// exchange is never asked for.
    pub fn step(&mut self, tr: &mut Transmission, status: u16, session_header: Option<String>)
        -> (s: Step)
        ensures
            s is Resend <==> (status == 409 && !old(self).retried && session_header is Some),
            (status == 409 && !old(self).retried && session_header is Some) ==> (
            final(self).retried && final(tr).session == session_header),
            (status == 409 && !old(self).retried && session_header is None) ==> (s matches
            Step::Fail(e) && e@ == ErrorV::Http("the renegotiation reply carries no session header"@)),
            (status == 409 && old(self).retried) ==> (s matches Step::Fail(e) && e@
                == ErrorV::Daemon(DaemonErrorV::StatusCode(409))),
            status == 200 ==> s is Deliver,
            (status != 200 && status != 409) ==> (s matches Step::Fail(e) && e@ == ErrorV::Daemon(
                DaemonErrorV::StatusCode(status),
            )),
            final(tr).url == old(tr).url,
            final(tr).auth == old(tr).auth,
            !(s is Resend) ==> final(tr).session == old(tr).session,
            final(self).retried == (old(self).retried || s is Resend),
    {
        if status == 409 {
            if self.retried {
                return Step::Fail(Error::Daemon(DaemonError::StatusCode(409)));
            }
            match session_header {
                Some(tok) => {
                    self.retried = true;
                    tr.session = Some(tok);
                    Step::Resend
                },
                None => Step::Fail(
                    Error::Http(
                        String::from_str("the renegotiation reply carries no session header"),
                    ),
                ),
            }
        } else if status == 200 {
            Step::Deliver
        } else {
            Step::Fail(Error::Daemon(DaemonError::StatusCode(status)))
        }
    }
}

} // verus!
