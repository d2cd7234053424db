//! Service calls as requests.

use crate::endpoints::Endpoint;
use crate::http_utils::{endpoint_method_text, endpoint_post};
use crate::text::lemma_encode_utf8_concat;
use crate::types::Service;
use crate::uri::{
    holds_illegal_char, illegal_char_by_its_byte, is_illegal_uri_char, is_path_char,
    path_and_query_from_str, path_and_query_of, path_and_query_text, plain_path_by_its_bytes,
    MAX_URI_LEN,
};
use vstd::prelude::*;
use vstd::string::StringExecFns;
use vstd::utf8::{encode_utf8, is_ascii_chars_encode_utf8};

verus! {

/// A segment of a path that needs no escaping: path characters, and no `/`
/// among them.
pub open spec fn is_path_segment(text: Seq<char>) -> bool {
    forall|i: int| 0 <= i < text.len() ==> is_path_char(#[trigger] text[i]) && text[i] != '/'
}

/// The text of the path under which the remote service takes calls of the
/// service `service` of `domain`.
pub open spec fn service_path_text(domain: Seq<char>, service: Seq<char>) -> Seq<char> {
    "/api/services/"@ + domain + "/"@ + service
}

/// Whether two segments fit in a path that `http` takes: whether the path
/// made of them is not longer than a URI may be.
pub open spec fn fits_in_a_path(domain: Seq<char>, service: Seq<char>) -> bool {
    encode_utf8(domain).len() + encode_utf8(service).len() + 15 <= MAX_URI_LEN
}

/// Whether `path` is the path of the service `service` of `domain`: what
/// parsing `/api/services/{domain}/{service}` as a path and query gives.
///
/// Two segments that need no escaping and fit in a path always make a path,
/// and the path reads as written. A segment with an illegal character that
/// no `#` hides makes none, nor do segments that do not fit.
pub open spec fn is_service_path(
    path: Result<http::uri::PathAndQuery, http::uri::InvalidUri>,
    domain: Seq<char>,
    service: Seq<char>,
) -> bool {
    let text = service_path_text(domain, service);
    &&& path is Ok <==> path_and_query_of(text) is Some
    &&& path is Ok ==> path_and_query_of(text) == Some(path_and_query_text(path->Ok_0))
    &&& is_path_segment(domain) && is_path_segment(service) && fits_in_a_path(domain, service)
        ==> path is Ok && path_and_query_text(path->Ok_0) == text
    &&& holds_illegal_char(text) ==> path is Err
    &&& !fits_in_a_path(domain, service) ==> path is Err
}

/// An illegal character in the domain, or in the name of a service whose
/// domain has no `#`, is an illegal character of the path that no `#`
/// hides: such a service has no path.
pub proof fn illegal_segment_makes_no_path(domain: Seq<char>, service: Seq<char>)
    requires
        holds_illegal_char(domain) || (!domain.contains('#') && holds_illegal_char(service)),
    ensures
        holds_illegal_char(service_path_text(domain, service)),
{
    reveal_strlit("/api/services/");
    reveal_strlit("/");
    let text = service_path_text(domain, service);
    let segment = if holds_illegal_char(domain) {
        domain
    } else {
        service
    };
    let start: int = if holds_illegal_char(domain) {
        14
    } else {
        15 + domain.len() as int
    };
    let at = choose|i: int|
        0 <= i < segment.len() && is_illegal_uri_char(#[trigger] segment[i]) && forall|j: int|
            0 <= j < i ==> #[trigger] segment[j] != '#';
    assert(text[start + at] == segment[at]);
    assert forall|j: int| 0 <= j < start + at implies #[trigger] text[j] != '#' by {
        if j < 14 {
        } else if j < 14 + domain.len() {
            assert(text[j] == domain[j - 14]);
        } else if j == 14 + domain.len() {
        } else {
            assert(text[j] == service[j - 15 - domain.len()]);
        }
    }
}

/// The path under which the remote service takes calls of the service
/// `service` of `domain`: `/api/services/{domain}/{service}`, parsed.
pub fn service_path(domain: &str, service: &str) -> (path: Result<
    http::uri::PathAndQuery,
    http::uri::InvalidUri,
>)
    ensures
        is_service_path(path, domain@, service@),
{
    let mut text = "/api/services/".to_owned();
    text.append(domain);
    text.append("/");
    text.append(service);
    proof {
        reveal_strlit("/api/services/");
        reveal_strlit("/");
        let head = "/api/services/"@;
        let slash = "/"@;
        assert(text@ == service_path_text(domain@, service@));
        lemma_encode_utf8_concat(head + domain@ + slash, service@);
        lemma_encode_utf8_concat(head + domain@, slash);
        lemma_encode_utf8_concat(head, domain@);
        is_ascii_chars_encode_utf8(head);
        is_ascii_chars_encode_utf8(slash);
        plain_path_by_its_bytes(text@);
        if holds_illegal_char(text@) {
            illegal_char_by_its_byte(text@);
        }
    }
    path_and_query_from_str(text.as_str())
}

/// Whether `path` is the path of the service that `payload` calls: the path
/// of the service whose domain and name the payload gives.
pub open spec fn is_path_of_call<S: Service>(
    payload: &S,
    path: Result<http::uri::PathAndQuery, http::uri::InvalidUri>,
) -> bool {
    exists|domain: &str, service: &str|
        call_ensures(S::domain, (payload,), domain) && call_ensures(
            S::service,
            (payload,),
            service,
        ) && #[trigger] is_service_path(path, domain@, service@)
}

/// The request that calls a service: the service's payload, posted to the
/// path of the service.
#[derive(Debug, Clone, Copy)]
pub struct Post<S: Service>(pub S);

impl<S: Service> Endpoint for Post<S> {
    type Output = S::Output;

    /// A service is called with `POST`.
    fn method() -> (method: http::Method)
        ensures
            endpoint_method_text(method) == "POST"@,
    {
        endpoint_post()
    }

    /// The path of the service, made of the domain and the name that the
    /// payload gives.
    fn path_and_query(&self) -> (path: Result<http::uri::PathAndQuery, http::uri::InvalidUri>)
        ensures
            is_path_of_call(&self.0, path),
    {
        let domain = self.0.domain();
        let service = self.0.service();
        let path = service_path(domain, service);
        assert(is_service_path(path, domain@, service@));
        path
    }
}

} // verus!
