//! Laws of the pagination loop, stated over the executor's model.
//!
//! These theorems pin down what a list run returns whenever the provider
//! serves a well-formed chain of pages: everything in order when no limit is
//! set, and exactly the first `n` values when a limit `n` is set.

use crate::api::spec_unwrap_list;
use crate::endpoint::url_norm;
use crate::executor::{list_model, ListModel};
use crate::json::JsonValue;
use crate::transport::{is_success, HttpResponse};
use vstd::prelude::*;

verus! {

/// One reply that carries a well-formed list page under `key`: a success
/// status with a body the list envelope mapping unwraps.
pub open spec fn well_formed_page(reply: Result<HttpResponse, String>, key: Seq<char>) -> bool {
    reply matches Ok(resp) && is_success(resp.status) && spec_unwrap_list(resp.body, key) matches Ok(
        _,
    )
}

/// The values of one well-formed page, in order.
pub open spec fn page_items(reply: Result<HttpResponse, String>, key: Seq<char>) -> Seq<JsonValue>
    recommends
        well_formed_page(reply, key),
{
    match reply {
        Ok(resp) => match spec_unwrap_list(resp.body, key) {
            Ok((items, _next, _total)) => items,
            Err(_) => Seq::empty(),
        },
        Err(_) => Seq::empty(),
    }
}

/// The cursor of one well-formed page, if any.
pub open spec fn page_next(reply: Result<HttpResponse, String>, key: Seq<char>) -> Option<String>
    recommends
        well_formed_page(reply, key),
{
    match reply {
        Ok(resp) => match spec_unwrap_list(resp.body, key) {
            Ok((_items, next, _total)) => next,
            Err(_) => None,
        },
        Err(_) => None,
    }
}

/// A complete well-formed page chain: every reply is a well-formed page,
/// every page but the last carries a cursor that parses, and the last page
/// carries none.
pub open spec fn page_chain(replies: Seq<Result<HttpResponse, String>>, key: Seq<char>) -> bool
    decreases replies.len(),
{
    if replies.len() == 0 {
        false
    } else if !well_formed_page(replies[0], key) {
        false
    } else {
        match page_next(replies[0], key) {
            None => replies.len() == 1,
            Some(cursor) => url_norm(cursor@) is Some && page_chain(replies.drop_first(), key),
        }
    }
}

/// Every value a chain of pages holds, in page order and within-page order.
pub open spec fn chain_items(replies: Seq<Result<HttpResponse, String>>, key: Seq<char>) -> Seq<
    JsonValue,
>
    decreases replies.len(),
{
    if replies.len() == 0 {
        Seq::empty()
    } else {
        page_items(replies[0], key) + chain_items(replies.drop_first(), key)
    }
}

/// Law: against a well-formed page chain, a list run with no limit completes
/// with the concatenation, in page order, of every page's values, and it
/// issues exactly one GET per page — none after the page whose cursor is
/// absent.
pub proof fn lemma_unlimited_list_returns_all(
    replies: Seq<Result<HttpResponse, String>>,
    key: Seq<char>,
    url: Seq<char>,
)
    requires
        page_chain(replies, key),
    ensures
        ({
            let m = list_model(replies, key, None, url);
            &&& m is Complete
            &&& match m {
                ListModel::Complete { items, urls } => items == chain_items(replies, key)
                    && urls.len() == replies.len(),
                _ => false,
            }
        }),
    decreases replies.len(),
{
    let reply = replies[0];
    match reply {
        Ok(resp) => {
            match spec_unwrap_list(resp.body, key) {
                Ok((items, next, _total)) => {
                    match next {
                        None => {
                            assert(chain_items(replies.drop_first(), key) =~= Seq::empty());
                            assert(chain_items(replies, key) =~= items);
                        },
                        Some(cursor) => {
                            lemma_unlimited_list_returns_all(replies.drop_first(), key, (
                            url_norm(cursor@))->0);
                        },
                    }
                },
                Err(_) => {
                    assert(false);
                },
            }
        },
        Err(_) => {
            assert(false);
        },
    }
}

/// Law: against a well-formed page chain, a list run with limit `n`
/// completes with exactly the first `min(n, total available)` values of the
/// chain — only the final fetched page is truncated, and page order is
/// preserved.
pub proof fn lemma_limited_list_truncates(
    replies: Seq<Result<HttpResponse, String>>,
    key: Seq<char>,
    url: Seq<char>,
    n: int,
)
    requires
        page_chain(replies, key),
        n >= 0,
    ensures
        ({
            let m = list_model(replies, key, Some(n), url);
            let all = chain_items(replies, key);
            let wanted = if n <= all.len() as int {
                n
            } else {
                all.len() as int
            };
            &&& m is Complete
            &&& match m {
                ListModel::Complete { items, urls } => items == all.take(wanted) && items.len()
                    == wanted,
                _ => false,
            }
        }),
    decreases replies.len(),
{
    let reply = replies[0];
    let all = chain_items(replies, key);
    match reply {
        Ok(resp) => {
            match spec_unwrap_list(resp.body, key) {
                Ok((items, next, _total)) => {
                    if n <= items.len() as int {
                        assert(all.take(n) =~= items.take(n));
                    } else {
                        match next {
                            None => {
                                assert(chain_items(replies.drop_first(), key) =~= Seq::empty());
                                assert(all =~= items);
                                assert(items.take(items.len() as int) =~= items);
                            },
                            Some(cursor) => {
                                let rest = replies.drop_first();
                                let rest_all = chain_items(rest, key);
                                lemma_limited_list_truncates(
                                    rest,
                                    key,
                                    (url_norm(cursor@))->0,
                                    n - items.len() as int,
                                );
                                let rest_wanted = if n - items.len() as int <= rest_all.len() as int {
                                    n - items.len() as int
                                } else {
                                    rest_all.len() as int
                                };
                                let wanted = if n <= all.len() as int {
                                    n
                                } else {
                                    all.len() as int
                                };
                                assert(items.take(items.len() as int) =~= items);
                                assert(all.take(wanted) =~= items + rest_all.take(rest_wanted));
                            },
                        }
                    }
                },
                Err(_) => {
                    assert(false);
                },
            }
        },
        Err(_) => {
            assert(false);
        },
    }
}

} // verus!
