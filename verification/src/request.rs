//! The consuming request builder.
//!
//! A request accumulates a target URL and a JSON body while carrying an
//! operation kind. Resource modules build one up, then hand it to the
//! executor. Each mutating call owns the builder, so no aliasing of an
//! in-progress request is possible.

use crate::api::EnvelopeMapping;
use crate::endpoint::ApiUrl;
use crate::error::Error;
use crate::executor::{
    delete_call, delete_result, list_model, list_pages, one_call_dispatch, opt_int, single_call,
    single_result, urls_to_calls, ListModel, Payload,
};
use crate::json::JsonValue;
use crate::method::{Method, Verb};
use crate::transport::Transport;
use vstd::prelude::*;

verus! {

/// A consuming builder which can be used to build up API calls.
#[derive(Debug, PartialEq, Eq)]
pub struct Request {
    pub url: ApiUrl,
    pub body: JsonValue,
    pub method: Method,
}

impl Request {
    /// A request pointing at the given URL, with an absent (null) body.
    pub fn new(url: ApiUrl, method: Method) -> (r: Request)
        ensures
            r.spec_url() == url,
            r.spec_body() == JsonValue::Null,
            r.spec_method() == method,
    {
        Request { url, body: JsonValue::Null, method }
    }

    /// The target URL.
    pub open spec fn spec_url(self) -> ApiUrl {
        self.url
    }

    /// The JSON body.
    pub open spec fn spec_body(self) -> JsonValue {
        self.body
    }

    /// The operation kind.
    pub open spec fn spec_method(self) -> Method {
        self.method
    }

    /// A borrowed view of the target URL.
    pub fn url(&self) -> (r: &ApiUrl)
        ensures
            *r == self.spec_url(),
    {
        &self.url
    }

    /// Replaces the target URL.
    pub fn set_url(&mut self, url: ApiUrl)
        ensures
            final(self).spec_url() == url,
            final(self).spec_body() == old(self).spec_body(),
            final(self).spec_method() == old(self).spec_method(),
    {
        self.url = url;
    }

    /// Exclusive access to the target URL.
    pub fn url_mut(&mut self) -> (r: &mut ApiUrl)
        ensures
            *r == old(self).spec_url(),
            final(self).spec_url() == *final(r),
            final(self).spec_body() == old(self).spec_body(),
            final(self).spec_method() == old(self).spec_method(),
    {
        &mut self.url
    }

    /// A borrowed view of the JSON body.
    pub fn body(&self) -> (r: &JsonValue)
        ensures
            *r == self.spec_body(),
    {
        &self.body
    }

    /// Replaces the whole JSON body.
    pub fn set_body(&mut self, body: JsonValue)
        ensures
            final(self).spec_body() == body,
            final(self).spec_url() == old(self).spec_url(),
            final(self).spec_method() == old(self).spec_method(),
    {
        self.body = body;
    }

    /// Exclusive access to the JSON body, for field-level mutation.
    pub fn body_mut(&mut self) -> (r: &mut JsonValue)
        ensures
            *r == old(self).spec_body(),
            final(self).spec_body() == *final(r),
            final(self).spec_url() == old(self).spec_url(),
            final(self).spec_method() == old(self).spec_method(),
    {
        &mut self.body
    }

    /// A borrowed view of the operation kind.
    pub fn method(&self) -> (r: &Method)
        ensures
            *r == self.spec_method(),
    {
        &self.method
    }

    /// Re-tags the request under another operation kind and expected result.
    /// Re-tagging preserves the URL and the body unchanged, whatever the new
    /// kind; callers pivoting to a related endpoint must overwrite fields
    /// that no longer apply.
    pub fn transmute(self, method: Method) -> (r: Request)
        ensures
            r.spec_url() == self.spec_url(),
            r.spec_body() == self.spec_body(),
            r.spec_method() == method,
    {
        Request { url: self.url, body: self.body, method }
    }

    /// Imposes a limit on the number of values which may be retrieved, a
    /// ceiling the pagination loop honors; `None` means unbounded. Only list
    /// requests carry a limit.
    pub fn limit(self, limit: Option<usize>) -> (r: Request)
        requires
            self.spec_method() is List,
        ensures
            r.spec_url() == self.spec_url(),
            r.spec_body() == self.spec_body(),
            r.spec_method() == (Method::List { limit }),
    {
        Request { url: self.url, body: self.body, method: Method::List { limit } }
    }

    /// Executes the request against a transport, dispatching purely on the
    /// operation kind: get reads with one GET, create posts the body, update
    /// puts the body, delete issues exactly one DELETE and yields a unit
    /// value on success, and list follows cursor-based pagination with GETs.
    /// The declared envelope mapping must fit the kind; a mismatch is
    /// reported without any call being issued.
    pub fn execute<T: Transport>(self, mapping: &EnvelopeMapping, t: &mut T) -> (r: Result<
        Payload,
        Error,
    >)
        ensures
            ({
                let done_calls = final(t).calls();
                let done_replies = final(t).replies();
                match (self.spec_method(), *mapping) {
                    (Method::Get, EnvelopeMapping::Singular { field }) => one_call_dispatch(
                        old(t).calls(),
                        old(t).replies(),
                        done_calls,
                        done_replies,
                        r,
                        Verb::Get,
                        self.spec_url()@,
                        None,
                        |reply| single_result(reply, field@),
                    ),
                    (Method::Create, EnvelopeMapping::Singular { field }) => one_call_dispatch(
                        old(t).calls(),
                        old(t).replies(),
                        done_calls,
                        done_replies,
                        r,
                        Verb::Post,
                        self.spec_url()@,
                        Some(self.spec_body()),
                        |reply| single_result(reply, field@),
                    ),
                    (Method::Update, EnvelopeMapping::Singular { field }) => one_call_dispatch(
                        old(t).calls(),
                        old(t).replies(),
                        done_calls,
                        done_replies,
                        r,
                        Verb::Put,
                        self.spec_url()@,
                        Some(self.spec_body()),
                        |reply| single_result(reply, field@),
                    ),
                    (Method::Delete, EnvelopeMapping::Unit) => one_call_dispatch(
                        old(t).calls(),
                        old(t).replies(),
                        done_calls,
                        done_replies,
                        r,
                        Verb::Delete,
                        self.spec_url()@,
                        None,
                        |reply| delete_result(reply),
                    ),
                    (Method::List { limit }, EnvelopeMapping::Paged { field }) => ({
                        let m = list_model(
                            old(t).replies(),
                            field@,
                            opt_int(limit),
                            self.spec_url()@,
                        );
                        match m {
                            ListModel::Complete { items, urls } => (r matches Ok(p)
                                && p matches Payload::Collection(vs) && vs@ == items) && done_calls
                                == old(t).calls() + urls_to_calls(urls) && done_replies == old(
                                t,
                            ).replies().skip(urls.len() as int),
                            ListModel::Failed { error, urls } => r == Err::<Payload, Error>(error)
                                && done_calls == old(t).calls() + urls_to_calls(urls)
                                && done_replies == old(t).replies().skip(urls.len() as int),
                            ListModel::Starved { urls } => (r matches Err(e) && e is Transport)
                                && done_calls == old(t).calls() + urls_to_calls(urls)
                                && done_replies.len() == 0,
                        }
                    }),
                    _ => r == Err::<Payload, Error>(Error::KindMismatch) && done_calls == old(
                        t,
                    ).calls() && done_replies == old(t).replies(),
                }
            }),
    {
        match (&self.method, mapping) {
            (Method::Get, EnvelopeMapping::Singular { field }) => single_call(
                t,
                Verb::Get,
                &self.url,
                None,
                field.as_str(),
            ),
            (Method::Create, EnvelopeMapping::Singular { field }) => single_call(
                t,
                Verb::Post,
                &self.url,
                Some(&self.body),
                field.as_str(),
            ),
            (Method::Update, EnvelopeMapping::Singular { field }) => single_call(
                t,
                Verb::Put,
                &self.url,
                Some(&self.body),
                field.as_str(),
            ),
            (Method::Delete, EnvelopeMapping::Unit) => delete_call(t, &self.url),
            (Method::List { limit }, EnvelopeMapping::Paged { field }) => {
                let n = *limit;
                match list_pages(t, self.url, field.as_str(), n) {
                    Ok(items) => Ok(Payload::Collection(items)),
                    Err(e) => Err(e),
                }
            },
            _ => Err(Error::KindMismatch),
        }
    }
}

} // verus!
