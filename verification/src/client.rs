//! The client: an endpoint, the headers that go with every request, and the
//! requests that carry a query.

use vstd::prelude::*;
use vstd::string::*;
use serde_json::Value;
use reqwest::header::{HeaderMap, HeaderName, HeaderValue};
use crate::json::{
    json_is_null, json_is_object, json_member, json_str, json_text, null, object, string, text,
};
use crate::headers::{
    empty, header_entries, header_name_of, header_set, header_value_of, headers_valid, insert,
    headers_well_formed, is_header_name_text, is_header_value_text, no_headers, parse_name,
    parse_value,
};

verus! {

/// A client for one GraphQL endpoint.
pub struct GQLClient<'a> {
    endpoint: &'a str,
    header_map: HeaderMap<HeaderValue>,
}

/// A request that is ready to be sent: a POST to `endpoint`, with `headers`,
/// whose body is the text of `payload`.
pub struct Request<'c> {
    pub endpoint: &'c str,
    pub headers: &'c HeaderMap<HeaderValue>,
    pub payload: Value,
}

/// Whether `payload` is the object that carries a query: it has the query
/// text under `query`, the variables under `variables`, and no other member.
pub open spec fn is_request_payload(payload: Value, query: Seq<char>, variables: Value) -> bool {
    &&& json_is_object(payload)
    &&& json_member(payload, "query"@) matches Some(q) && json_str(q) == Some(query)
    &&& json_member(payload, "variables"@) == Some(variables)
    &&& forall|key: Seq<char>|
        key != "query"@ && key != "variables"@ ==> (#[trigger] json_member(payload, key)) is None
}

impl<'c> Request<'c> {
    /// The body to send: the payload as JSON text.
    pub fn body(&self) -> (r: String)
        ensures
            r@ == json_text(self.payload),
    {
        text(&self.payload)
    }
}

impl<'a> GQLClient<'a> {
    /// The endpoint that requests go to.
    pub closed spec fn endpoint_view(&self) -> Seq<char> {
        self.endpoint@
    }

    /// The headers that go with every request.
    pub closed spec fn headers_view(&self) -> Map<HeaderName, HeaderValue> {
        header_entries(self.header_map)
    }

    /// A client without headers of its own.
    pub fn new(endpoint: &'a str) -> (r: Self)
        ensures
            r.endpoint_view() == endpoint@,
            r.headers_view() == no_headers(),
    {
        GQLClient { endpoint, header_map: empty() }
    }

    /// A client with the given headers, each a name and a value, entered in
    /// order. Every name and every value is validated here, before any
    /// request: one that is not valid gives no client. Up to 128 valid
    /// headers always give one; beyond that the header map may refuse an
    /// entry, and then there is no client either.
    pub fn new_with_headers(endpoint: &'a str, headers: &[(&str, &str)]) -> (r: Option<Self>)
        ensures
            r is Some ==> headers_well_formed(headers@) && headers_valid(headers@),
            headers_well_formed(headers@) && headers@.len() <= 128 ==> r is Some,
            r matches Some(client) ==> client.endpoint_view() == endpoint@ && client.headers_view()
                == header_set(headers@),
    {
        let mut header_map = empty();
        let mut i: usize = 0;
        while i < headers.len()
            invariant
                i <= headers@.len(),
                headers_valid(headers@.take(i as int)),
                forall|j: int|
                    0 <= j < i ==> is_header_name_text((#[trigger] headers@[j]).0@)
                        && is_header_value_text(headers@[j].1@),
                header_entries(header_map).dom().finite(),
                header_entries(header_map).dom().len() <= i,
                header_entries(header_map) == header_set(headers@.take(i as int)),
            decreases headers@.len() - i,
        {
            let (name_text, value_text) = headers[i];
            let name = match parse_name(name_text) {
                Some(name) => name,
                None => {
                    return None;
                },
            };
            let value = match parse_value(value_text) {
                Some(value) => value,
                None => {
                    return None;
                },
            };
            if !insert(&mut header_map, name, value) {
                return None;
            }
            proof {
                let next = headers@.take(i + 1);
                assert(next.drop_last() =~= headers@.take(i as int));
                assert(next.last() == headers@[i as int]);
                assert forall|j: int| 0 <= j < next.len() implies header_name_of(
                    (#[trigger] next[j]).0@,
                ) is Some && header_value_of(next[j].1@) is Some by {
                    if j < i {
                        assert(headers@.take(i as int)[j] == next[j]);
                    }
                }
            }
            i = i + 1;
        }
        proof {
            assert(headers@.take(i as int) =~= headers@);
        }
        Some(GQLClient { endpoint, header_map })
    }

    /// The endpoint that requests go to.
    pub fn endpoint(&self) -> (r: &str)
        ensures
            r@ == self.endpoint_view(),
    {
        self.endpoint
    }

    /// The headers that go with every request.
    pub fn headers(&self) -> (r: &HeaderMap<HeaderValue>)
        ensures
            header_entries(*r) == self.headers_view(),
    {
        &self.header_map
    }

    /// The request for a query without variables: its `variables` are `null`.
    pub fn query(&self, query: &str) -> (r: Request<'_>)
        ensures
            r.endpoint@ == self.endpoint_view(),
            header_entries(*r.headers) == self.headers_view(),
            exists|variables: Value|
                json_is_null(variables) && #[trigger] is_request_payload(
                    r.payload,
                    query@,
                    variables,
                ),
    {
        self.query_with_vars(query, null())
    }

    /// The request for a query with variables: a POST to the endpoint of this
    /// client, with its headers, whose payload holds the query text and the
    /// variables and nothing else.
    pub fn query_with_vars(&self, query: &str, variables: Value) -> (r: Request<'_>)
        ensures
            r.endpoint@ == self.endpoint_view(),
            header_entries(*r.headers) == self.headers_view(),
            is_request_payload(r.payload, query@, variables),
    {
        let mut entries: Vec<(String, Value)> = Vec::new();
        entries.push((String::from_str("query"), string(query)));
        entries.push((String::from_str("variables"), variables));
        proof {
            reveal_strlit("query");
            reveal_strlit("variables");
            assert("query"@.len() != "variables"@.len());
            assert(entries@[0].0@ == "query"@);
            assert(entries@[1].0@ == "variables"@);
        }
        let payload = object(entries);
        proof {
            assert(json_member(payload, entries@[0].0@) == Some(entries@[0].1));
            assert(json_member(payload, entries@[1].0@) == Some(entries@[1].1));
        }
        Request { endpoint: self.endpoint, headers: &self.header_map, payload }
    }
}

} // verus!
