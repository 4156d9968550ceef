//! The transport collaborator and a scripted in-memory stand-in.
//!
//! The pipeline depends on one narrow contract: hand the transport a verb, a
//! URL and an optional JSON body, get back an HTTP status with a decoded
//! body, or a transport-level failure. Which replies arrive is the
//! transport's business; the pipeline's contracts describe the outcome in
//! terms of the reply sequence a transport value will serve and the ghost
//! log of calls issued through it. Execution is strictly sequential: a
//! second call is only issued once the previous reply is in hand.

use crate::endpoint::ApiUrl;
use crate::json::JsonValue;
use crate::method::Verb;
use vstd::prelude::*;

verus! {

/// One wire-level reply: the HTTP status and the decoded JSON body (null
/// when the reply carried none).
#[derive(Debug, PartialEq, Eq)]
pub struct HttpResponse {
    pub status: u16,
    pub body: JsonValue,
}

/// One call as the executor issued it, recorded in the ghost call log.
pub struct Call {
    pub verb: Verb,
    pub url: Seq<char>,
    pub body: Option<JsonValue>,
}

/// A 2xx status, the only kind the executor accepts as success.
pub open spec fn is_success(status: u16) -> bool {
    200 <= status < 300
}

/// The transport collaborator.
///
/// `replies` is the sequence of replies this transport value will serve, in
/// arrival order; `calls` is the ghost log of calls issued so far. A fetch
/// consumes the front reply and logs exactly one call; once the replies run
/// out, every further fetch reports a transport failure.
pub trait Transport: Sized {
    /// The replies still to come, in the order they will arrive. An
    /// implementation outside the verifier may leave this at its default,
    /// in which case nothing concrete is promised through it.
    open spec fn replies(&self) -> Seq<Result<HttpResponse, String>> {
        vstd::pervasive::arbitrary()
    }

    /// Every call issued so far.
    open spec fn calls(&self) -> Seq<Call> {
        vstd::pervasive::arbitrary()
    }

    /// Performs one HTTP call.
    fn fetch(&mut self, verb: Verb, url: &ApiUrl, body: Option<&JsonValue>) -> (r: Result<
        HttpResponse,
        String,
    >)
        ensures
            final(self).calls() == old(self).calls().push(
                (Call {
                    verb,
                    url: url@,
                    body: match body {
                        Some(b) => Some(*b),
                        None => None,
                    },
                }),
            ),
            old(self).replies().len() > 0 ==> final(self).replies() == old(
                self,
            ).replies().drop_first() && r == old(self).replies()[0],
            old(self).replies().len() == 0 ==> final(self).replies() == Seq::<
                Result<HttpResponse, String>,
            >::empty() && r is Err,
    ;
}

/// A deterministic in-memory transport that serves a prepared reply script,
/// front first. It stands in for a live provider when the pipeline is
/// exercised end to end.
pub struct ScriptedTransport {
    script: Vec<Result<HttpResponse, String>>,
    calls: Ghost<Seq<Call>>,
}

impl ScriptedTransport {
    /// A transport that will serve `script`, first element first.
    pub fn new(script: Vec<Result<HttpResponse, String>>) -> (t: ScriptedTransport)
        ensures
            t.replies() == script@,
            t.calls() == Seq::<Call>::empty(),
    {
        ScriptedTransport { script, calls: Ghost(Seq::empty()) }
    }

    /// How many scripted replies have not been served yet; each successful
    /// fetch consumes exactly one, so a test can count the calls a run
    /// issued.
    pub fn remaining(&self) -> (r: usize)
        ensures
            r == self.replies().len(),
    {
        self.script.len()
    }
}

impl Transport for ScriptedTransport {
    closed spec fn replies(&self) -> Seq<Result<HttpResponse, String>> {
        self.script@
    }

    closed spec fn calls(&self) -> Seq<Call> {
        self.calls@
    }

    fn fetch(&mut self, verb: Verb, url: &ApiUrl, body: Option<&JsonValue>) -> (r: Result<
        HttpResponse,
        String,
    >) {
        self.calls = Ghost(
            self.calls@.push(
                Call {
                    verb,
                    url: url@,
                    body: match body {
                        Some(b) => Some(*b),
                        None => None,
                    },
                },
            ),
        );
        if self.script.len() == 0 {
            proof {
                assert(self.script@ =~= Seq::<Result<HttpResponse, String>>::empty());
            }
            Err(String::new())
        } else {
            let front = self.script.remove(0);
            proof {
                assert(self.script@ =~= old(self).script@.drop_first());
            }
            front
        }
    }
}

} // verus!
