//! The executor's outcome model and the pagination loop.
//!
//! A request is executed by dispatching on its operation kind: one call for
//! get, create, update and delete, and a cursor-following loop of GET calls
//! for list. The spec functions here say exactly what comes back for every
//! reply sequence a transport serves, and the executable functions are
//! proved against them.

use crate::api::{spec_unwrap_list, spec_unwrap_singular, unwrap_list, unwrap_singular};
use crate::endpoint::{url_norm, ApiUrl};
use crate::error::Error;
use crate::json::JsonValue;
use crate::method::Verb;
use crate::transport::{is_success, Call, HttpResponse, Transport};
use vstd::prelude::*;

verus! {

/// What a successful execution hands back: nothing (delete), one value, or
/// an ordered collection of values gathered across pages.
#[derive(Debug, PartialEq, Eq)]
pub enum Payload {
    Unit,
    Single(JsonValue),
    Collection(Vec<JsonValue>),
}

/// The value of an optional limit as a mathematical integer.
pub open spec fn opt_int(n: Option<usize>) -> Option<int> {
    match n {
        Some(v) => Some(v as int),
        None => None,
    }
}

/// The body value a call records, given what was handed to the transport.
pub open spec fn body_snapshot(b: Option<&JsonValue>) -> Option<JsonValue> {
    match b {
        Some(x) => Some(*x),
        None => None,
    }
}

/// What one singular call returns for a given reply: the transport's own
/// failure, a non-success status with the provider's body, or the unwrapped
/// value under `key`.
pub open spec fn single_result(reply: Result<HttpResponse, String>, key: Seq<char>) -> Result<
    Payload,
    Error,
> {
    match reply {
        Err(m) => Err(Error::Transport(m)),
        Ok(resp) => if !is_success(resp.status) {
            Err(Error::Status(resp.status, resp.body))
        } else {
            match spec_unwrap_singular(resp.body, key) {
                Ok(v) => Ok(Payload::Single(v)),
                Err(e) => Err(e),
            }
        },
    }
}

/// What one delete call returns for a given reply: a unit value exactly on a
/// success status, the body being ignored.
pub open spec fn delete_result(reply: Result<HttpResponse, String>) -> Result<Payload, Error> {
    match reply {
        Err(m) => Err(Error::Transport(m)),
        Ok(resp) => if !is_success(resp.status) {
            Err(Error::Status(resp.status, resp.body))
        } else {
            Ok(Payload::Unit)
        },
    }
}

/// The contract of one dispatched call: exactly one call is issued and
/// logged, one reply is consumed, and the result follows `result_of` applied
/// to that reply; an exhausted transport surfaces a transport-kind error.
pub open spec fn one_call_dispatch(
    old_calls: Seq<Call>,
    old_replies: Seq<Result<HttpResponse, String>>,
    new_calls: Seq<Call>,
    new_replies: Seq<Result<HttpResponse, String>>,
    r: Result<Payload, Error>,
    verb: Verb,
    url: Seq<char>,
    body: Option<JsonValue>,
    result_of: spec_fn(Result<HttpResponse, String>) -> Result<Payload, Error>,
) -> bool {
    &&& new_calls == old_calls.push((Call { verb, url, body }))
    &&& (old_replies.len() > 0 ==> new_replies == old_replies.drop_first() && r == result_of(
        old_replies[0],
    ))
    &&& (old_replies.len() == 0 ==> new_replies.len() == 0 && (r matches Err(e)
        && e is Transport))
}

/// Issues one call and classifies the reply, unwrapping a singular envelope
/// under `key` on success.
pub fn single_call<T: Transport>(
    t: &mut T,
    verb: Verb,
    url: &ApiUrl,
    body: Option<&JsonValue>,
    key: &str,
) -> (r: Result<Payload, Error>)
    ensures
        one_call_dispatch(
            old(t).calls(),
            old(t).replies(),
            final(t).calls(),
            final(t).replies(),
            r,
            verb,
            url@,
            body_snapshot(body),
            |reply| single_result(reply, key@),
        ),
{
    match t.fetch(verb, url, body) {
        Err(m) => Err(Error::Transport(m)),
        Ok(resp) => {
            if !(200 <= resp.status && resp.status < 300) {
                Err(Error::Status(resp.status, resp.body))
            } else {
                match unwrap_singular(resp.body, key) {
                    Ok(v) => Ok(Payload::Single(v)),
                    Err(e) => Err(e),
                }
            }
        },
    }
}

/// Issues one delete call; the reply body is ignored and success yields a
/// unit value.
pub fn delete_call<T: Transport>(t: &mut T, url: &ApiUrl) -> (r: Result<Payload, Error>)
    ensures
        one_call_dispatch(
            old(t).calls(),
            old(t).replies(),
            final(t).calls(),
            final(t).replies(),
            r,
            Verb::Delete,
            url@,
            None,
            |reply| delete_result(reply),
        ),
{
    match t.fetch(Verb::Delete, url, None) {
        Err(m) => Err(Error::Transport(m)),
        Ok(resp) => {
            if !(200 <= resp.status && resp.status < 300) {
                Err(Error::Status(resp.status, resp.body))
            } else {
                Ok(Payload::Unit)
            }
        },
    }
}

/// What the pagination loop does to a reply sequence, starting at `url` with
/// `remaining` values still wanted (`None` for unbounded): the gathered
/// values and the URLs fetched, a failure with the URLs fetched up to and
/// including the failing one, or a starved run that outlived the reply
/// sequence.
pub enum ListModel {
    Complete { items: Seq<JsonValue>, urls: Seq<Seq<char>> },
    Failed { error: Error, urls: Seq<Seq<char>> },
    Starved { urls: Seq<Seq<char>> },
}

/// The pagination loop, as a function of the reply sequence. Each step
/// consumes one reply: a transport failure, a non-success status or a
/// malformed envelope ends the run with that error and no values
/// (fail-closed); otherwise the page's values are appended in order,
/// truncated to `remaining` when a limit is set. The run stops once the
/// limit is exhausted or the envelope carries no further cursor; a cursor
/// that fails to parse ends the run with a URL error.
pub open spec fn list_model(
    replies: Seq<Result<HttpResponse, String>>,
    key: Seq<char>,
    remaining: Option<int>,
    url: Seq<char>,
) -> ListModel
    decreases replies.len(),
{
    if replies.len() == 0 {
        ListModel::Starved { urls: seq![url] }
    } else {
        match replies[0] {
            Err(m) => ListModel::Failed { error: Error::Transport(m), urls: seq![url] },
            Ok(resp) => {
                if !is_success(resp.status) {
                    ListModel::Failed {
                        error: Error::Status(resp.status, resp.body),
                        urls: seq![url],
                    }
                } else {
                    match spec_unwrap_list(resp.body, key) {
                        Err(e) => ListModel::Failed { error: e, urls: seq![url] },
                        Ok((items, next, _total)) => {
                            let kept = match remaining {
                                Some(rem) => items.take(if rem < items.len() as int {
                                    rem
                                } else {
                                    items.len() as int
                                }),
                                None => items,
                            };
                            if remaining matches Some(rem) && rem <= items.len() as int {
                                ListModel::Complete { items: kept, urls: seq![url] }
                            } else {
                                match next {
                                    None => ListModel::Complete { items: kept, urls: seq![url] },
                                    Some(cursor) => match url_norm(cursor@) {
                                        None => ListModel::Failed {
                                            error: Error::UrlParse(cursor),
                                            urls: seq![url],
                                        },
                                        Some(next_url) => {
                                            let rem2 = match remaining {
                                                Some(rem) => Some(rem - items.len() as int),
                                                None => None,
                                            };
                                            match list_model(
                                                replies.drop_first(),
                                                key,
                                                rem2,
                                                next_url,
                                            ) {
                                                ListModel::Complete { items: more, urls } => ListModel::Complete {
                                                    items: kept + more,
                                                    urls: seq![url] + urls,
                                                },
                                                ListModel::Failed { error, urls } => ListModel::Failed {
                                                    error,
                                                    urls: seq![url] + urls,
                                                },
                                                ListModel::Starved { urls } => ListModel::Starved {
                                                    urls: seq![url] + urls,
                                                },
                                            }
                                        },
                                    },
                                }
                            }
                        },
                    }
                }
            },
        }
    }
}

/// The URLs a modelled run fetched, whatever its outcome.
pub open spec fn urls_of(m: ListModel) -> Seq<Seq<char>> {
    match m {
        ListModel::Complete { items, urls } => urls,
        ListModel::Failed { error, urls } => urls,
        ListModel::Starved { urls } => urls,
    }
}

/// How many GETs a modelled run issues: at least one, at most one per reply
/// in store, and exactly one more than the store holds when the run starves.
pub proof fn lemma_list_model_fetch_count(
    replies: Seq<Result<HttpResponse, String>>,
    key: Seq<char>,
    remaining: Option<int>,
    url: Seq<char>,
)
    ensures
        ({
            let m = list_model(replies, key, remaining, url);
            &&& 1 <= urls_of(m).len()
            &&& (m !is Starved ==> urls_of(m).len() <= replies.len())
            &&& (m is Starved ==> urls_of(m).len() == replies.len() + 1)
        }),
    decreases replies.len(),
{
    if replies.len() > 0 {
        match replies[0] {
            Err(_m) => {},
            Ok(resp) => {
                if is_success(resp.status) {
                    match spec_unwrap_list(resp.body, key) {
                        Err(_e) => {},
                        Ok((items, next, _total)) => {
                            if !(remaining matches Some(rem) && rem <= items.len() as int) {
                                match next {
                                    None => {},
                                    Some(cursor) => {
                                        match url_norm(cursor@) {
                                            None => {},
                                            Some(next_url) => {
                                                let rem2 = match remaining {
                                                    Some(rem) => Some(rem - items.len() as int),
                                                    None => None,
                                                };
                                                lemma_list_model_fetch_count(
                                                    replies.drop_first(),
                                                    key,
                                                    rem2,
                                                    next_url,
                                                );
                                            },
                                        }
                                    },
                                }
                            }
                        },
                    }
                }
            },
        }
    }
}

/// The calls a run of the pagination loop issues: one GET per fetched URL,
/// with no body.
pub open spec fn urls_to_calls(urls: Seq<Seq<char>>) -> Seq<Call> {
    urls.map_values(|u: Seq<char>| (Call { verb: Verb::Get, url: u, body: None }))
}

/// Mapping URLs to calls distributes over concatenation.
pub proof fn lemma_urls_to_calls_concat(a: Seq<Seq<char>>, b: Seq<Seq<char>>)
    ensures
        urls_to_calls(a + b) =~= urls_to_calls(a) + urls_to_calls(b),
{
    assert forall|i: int| 0 <= i < a.len() + b.len() implies urls_to_calls(a + b)[i]
        == (urls_to_calls(a) + urls_to_calls(b))[i] by {
        if i < a.len() {
            assert((a + b)[i] == a[i]);
        } else {
            assert((a + b)[i] == b[i - a.len()]);
        }
    }
}

/// The pagination loop. Starting from `url`, it issues a GET, unwraps the
/// list envelope under `key`, appends the page's values in order (truncated
/// to `remaining` when a limit is set), and follows the envelope's cursor
/// until the limit is exhausted or no cursor is left; any failure aborts the
/// run with no values. The outcome and the calls issued follow `list_model`
/// applied to the replies the transport had in store.
pub fn list_pages<T: Transport>(
    t: &mut T,
    url: ApiUrl,
    key: &str,
    remaining: Option<usize>,
) -> (r: Result<Vec<JsonValue>, Error>)
    ensures
        ({
            let m = list_model(old(t).replies(), key@, opt_int(remaining), url@);
            let done_calls = final(t).calls();
            let done_replies = final(t).replies();
            match m {
                ListModel::Complete { items, urls } => (r matches Ok(vs) && vs@ == items)
                    && done_calls == old(t).calls() + urls_to_calls(urls) && done_replies == old(
                    t,
                ).replies().skip(urls.len() as int),
                ListModel::Failed { error, urls } => r == Err::<Vec<JsonValue>, Error>(error)
                    && done_calls == old(t).calls() + urls_to_calls(urls) && done_replies == old(
                    t,
                ).replies().skip(urls.len() as int),
                ListModel::Starved { urls } => (r matches Err(e) && e is Transport) && done_calls
                    == old(t).calls() + urls_to_calls(urls) && done_replies.len() == 0,
            }
        }),
    decreases t.replies().len(),
{
    let ghost old_calls = t.calls();
    let ghost old_replies = t.replies();
    let reply = t.fetch(Verb::Get, &url, None);
    proof {
        assert(urls_to_calls(seq![url@]) =~= seq![
            (Call { verb: Verb::Get, url: url@, body: None }),
        ]);
        assert(old_calls + urls_to_calls(seq![url@]) =~= old_calls.push(
            (Call { verb: Verb::Get, url: url@, body: None }),
        ));
    }
    match reply {
        Err(m) => Err(Error::Transport(m)),
        Ok(resp) => {
            if !(200 <= resp.status && resp.status < 300) {
                Err(Error::Status(resp.status, resp.body))
            } else {
                match unwrap_list(resp.body, key) {
                    Err(e) => Err(e),
                    Ok((mut items, next, _total)) => {
                        let ghost page = items@;
                        let mut stop = false;
                        let rem2: Option<usize> = match remaining {
                            None => None,
                            Some(rem) => {
                                if rem <= items.len() {
                                    items.truncate(rem);
                                    stop = true;
                                    Some(0)
                                } else {
                                    Some(rem - items.len())
                                }
                            },
                        };
                        proof {
                            assert(page.take(page.len() as int) =~= page);
                        }
                        if stop {
                            Ok(items)
                        } else {
                            match next {
                                None => Ok(items),
                                Some(cursor) => {
                                    match ApiUrl::parse(cursor.as_str()) {
                                        Err(_bad) => Err(Error::UrlParse(cursor)),
                                        Ok(next_url) => {
                                            let ghost mid_replies = t.replies();
                                            let ghost sub = list_model(
                                                mid_replies,
                                                key@,
                                                opt_int(rem2),
                                                next_url@,
                                            );
                                            proof {
                                                lemma_list_model_fetch_count(
                                                    mid_replies,
                                                    key@,
                                                    opt_int(rem2),
                                                    next_url@,
                                                );
                                            }
                                            match list_pages(t, next_url, key, rem2) {
                                                Err(e) => {
                                                    proof {
                                                        finish_compose(
                                                            old_calls,
                                                            old_replies,
                                                            url@,
                                                            sub,
                                                            t.calls(),
                                                            t.replies(),
                                                        );
                                                    }
                                                    Err(e)
                                                },
                                                Ok(mut more) => {
                                                    items.append(&mut more);
                                                    proof {
                                                        finish_compose(
                                                            old_calls,
                                                            old_replies,
                                                            url@,
                                                            sub,
                                                            t.calls(),
                                                            t.replies(),
                                                        );
                                                    }
                                                    Ok(items)
                                                },
                                            }
                                        },
                                    }
                                },
                            }
                        }
                    },
                }
            }
        },
    }
}

/// Splices the calls and replies of a recursive pagination step onto the
/// step that preceded it.
proof fn finish_compose(
    old_calls: Seq<Call>,
    old_replies: Seq<Result<HttpResponse, String>>,
    url: Seq<char>,
    sub: ListModel,
    new_calls: Seq<Call>,
    new_replies: Seq<Result<HttpResponse, String>>,
)
    requires
        old_replies.len() > 0,
        sub !is Starved ==> urls_of(sub).len() <= old_replies.len() - 1,
        ({
            let mid_calls = old_calls.push((Call { verb: Verb::Get, url, body: None }));
            let mid_replies = old_replies.drop_first();
            match sub {
                ListModel::Complete { items, urls } => new_calls == mid_calls + urls_to_calls(urls)
                    && new_replies == mid_replies.skip(urls.len() as int),
                ListModel::Failed { error, urls } => new_calls == mid_calls + urls_to_calls(urls)
                    && new_replies == mid_replies.skip(urls.len() as int),
                ListModel::Starved { urls } => new_calls == mid_calls + urls_to_calls(urls)
                    && new_replies.len() == 0,
            }
        }),
    ensures
        ({
            let urls = match sub {
                ListModel::Complete { items, urls } => urls,
                ListModel::Failed { error, urls } => urls,
                ListModel::Starved { urls } => urls,
            };
            new_calls == old_calls + urls_to_calls(seq![url] + urls) && (sub !is Starved
                ==> new_replies == old_replies.skip(urls.len() as int + 1)) && (sub is Starved
                ==> new_replies.len() == 0)
        }),
{
    let urls = match sub {
        ListModel::Complete { items, urls } => urls,
        ListModel::Failed { error, urls } => urls,
        ListModel::Starved { urls } => urls,
    };
    lemma_urls_to_calls_concat(seq![url], urls);
    assert(urls_to_calls(seq![url]) =~= seq![(Call { verb: Verb::Get, url, body: None })]);
    assert(old_calls + urls_to_calls(seq![url]) =~= old_calls.push(
        (Call { verb: Verb::Get, url, body: None }),
    ));
    assert(old_calls + urls_to_calls(seq![url] + urls) =~= (old_calls + urls_to_calls(seq![url]))
        + urls_to_calls(urls));
    if sub !is Starved {
        assert(old_replies.drop_first().skip(urls.len() as int) =~= old_replies.skip(
            urls.len() as int + 1,
        ));
    }
}

} // verus!
