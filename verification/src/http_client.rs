//! The request builder and the client that executes one request.

use vstd::prelude::*;
use vstd::string::{StrSliceExecFns, StringExecFns};

use crate::header_map::{
    has_key, insert_all, lemma_map_of_dom, lemma_map_of_push, lemma_map_of_remove,
    lemma_map_of_value, map_of, unique_keys,
};
use crate::status_text::{lemma_status_message_nonempty, status_message, status_message_seq};
use crate::transport;

verus! {

/// One of the request methods of HTTP.
#[derive(Clone, Copy, Debug, PartialEq, Eq, Structural)]
pub enum HTTPMethod {
    Get,
    Post,
    Put,
    Delete,
    Patch,
    Head,
    Options,
}

/// The canonical wire token of each method.
pub open spec fn token_spec(m: HTTPMethod) -> Seq<char> {
    match m {
        HTTPMethod::Get => "GET"@,
        HTTPMethod::Post => "POST"@,
        HTTPMethod::Put => "PUT"@,
        HTTPMethod::Delete => "DELETE"@,
        HTTPMethod::Patch => "PATCH"@,
        HTTPMethod::Head => "HEAD"@,
        HTTPMethod::Options => "OPTIONS"@,
    }
}

impl HTTPMethod {
    /// The uppercase wire token of the method; the mapping is total, with one
    /// explicit case per variant.
    pub fn token(&self) -> (r: String)
        ensures
            r@ == token_spec(*self),
    {
        match self {
            HTTPMethod::Get => String::from_str("GET"),
            HTTPMethod::Post => String::from_str("POST"),
            HTTPMethod::Put => String::from_str("PUT"),
            HTTPMethod::Delete => String::from_str("DELETE"),
            HTTPMethod::Patch => String::from_str("PATCH"),
            HTTPMethod::Head => String::from_str("HEAD"),
            HTTPMethod::Options => String::from_str("OPTIONS"),
        }
    }
}

/// Accumulates the configuration of one request: a method, a url taken
/// verbatim, and a header set in which the last write to a key wins.
pub struct HTTPClientBuilder {
    http_method: HTTPMethod,
    url: String,
    headers: Vec<(String, String)>,
}

impl HTTPClientBuilder {
    /// The builder's headers never hold a key twice.
    pub closed spec fn wf(&self) -> bool {
        unique_keys(self.headers@)
    }

    /// The configured method.
    pub closed spec fn method_spec(&self) -> HTTPMethod {
        self.http_method
    }

    /// The configured url.
    pub closed spec fn url_spec(&self) -> Seq<char> {
        self.url@
    }

    /// The configured header set, as a map from key to value.
    pub closed spec fn headers_map(&self) -> Map<Seq<char>, Seq<char>> {
        map_of(self.headers@)
    }

    /// A fresh builder: method GET, empty url, no headers.
    pub fn new() -> (r: Self)
        ensures
            r.wf(),
            r.method_spec() == HTTPMethod::Get,
            r.url_spec() == Seq::<char>::empty(),
            r.headers_map() == Map::<Seq<char>, Seq<char>>::empty(),
    {
        Self { http_method: HTTPMethod::Get, url: String::new(), headers: Vec::new() }
    }

    /// Replaces the method; every variant is accepted.
    pub fn with_http_method(self, http_method: HTTPMethod) -> (r: Self)
        ensures
            r.wf() == self.wf(),
            r.method_spec() == http_method,
            r.url_spec() == self.url_spec(),
            r.headers_map() == self.headers_map(),
    {
        Self { http_method, ..self }
    }

    /// Replaces the url verbatim; no validation happens here, a malformed or
    /// empty url only surfaces later as a failure outcome of the call.
    pub fn with_url(self, url: String) -> (r: Self)
        ensures
            r.wf() == self.wf(),
            r.method_spec() == self.method_spec(),
            r.url_spec() == url@,
            r.headers_map() == self.headers_map(),
    {
        Self { url, ..self }
    }

    /// Inserts one header entry; a later write to the same key overrides an
    /// earlier one.
    pub fn with_header(self, key: String, value: String) -> (r: Self)
        requires
            self.wf(),
        ensures
            r.wf(),
            r.method_spec() == self.method_spec(),
            r.url_spec() == self.url_spec(),
            r.headers_map() == self.headers_map().insert(key@, value@),
    {
        let mut b = self;
        let ghost s0 = b.headers@;
        match find_key(&b.headers, &key) {
            Some(i) => {
                b.headers.remove(i);
                proof {
                    lemma_map_of_remove(s0, i as int);
                }
                let ghost s1 = b.headers@;
                b.headers.push((key, value));
                proof {
                    lemma_map_of_push(s1, (key, value));
                    assert forall|p: int, q: int|
                        0 <= p < q < b.headers@.len() implies b.headers@[p].0@
                        != b.headers@[q].0@ by {
                        if q == b.headers@.len() - 1 {
                            assert(!has_key(s1, key@));
                        }
                    }
                    assert(map_of(b.headers@) =~= map_of(s0).insert(key@, value@));
                }
            },
            None => {
                b.headers.push((key, value));
                proof {
                    lemma_map_of_push(s0, (key, value));
                    assert forall|p: int, q: int|
                        0 <= p < q < b.headers@.len() implies b.headers@[p].0@
                        != b.headers@[q].0@ by {}
                }
            },
        }
        b
    }

    /// Freezes the accumulated configuration into a client that is ready to
    /// send, holding the empty placeholder outcome. No call happens here.
    pub fn build(self) -> (r: HTTPClient)
        ensures
            r.http_method == self.method_spec(),
            r.url@ == self.url_spec(),
            r.headers_map() == self.headers_map(),
            r.wf() == self.wf(),
            result_view(r.response_body) == Result::<Seq<char>, Seq<char>>::Ok(
                Seq::<char>::empty(),
            ),
    {
        HTTPClient {
            http_method: self.http_method,
            url: self.url,
            headers: self.headers,
            response_body: Ok(String::new()),
        }
    }

    /// Inserts every entry of `entries`, in order, exactly as the same
    /// sequence of single `with_header` calls would; a key that occurs twice
    /// keeps the later value.
    pub fn with_headers(self, entries: Vec<(String, String)>) -> (r: Self)
        requires
            self.wf(),
        ensures
            r.wf(),
            r.method_spec() == self.method_spec(),
            r.url_spec() == self.url_spec(),
            r.headers_map() == insert_all(self.headers_map(), entries@),
    {
        let ghost m0 = self.headers_map();
        let mut b = self;
        let mut i: usize = 0;
        proof {
            assert(entries@.skip(0) =~= entries@);
        }
        while i < entries.len()
            invariant
                i <= entries.len(),
                b.wf(),
                b.method_spec() == self.method_spec(),
                b.url_spec() == self.url_spec(),
                insert_all(m0, entries@) == insert_all(b.headers_map(), entries@.skip(i as int)),
            decreases entries.len() - i,
        {
            let e = &entries[i];
            let ghost before = b.headers_map();
            b = b.with_header(e.0.clone(), e.1.clone());
            proof {
                crate::header_map::lemma_insert_all_step(before, entries@, i as int);
            }
            i = i + 1;
        }
        proof {
            assert(entries@.skip(entries@.len() as int) =~= Seq::<(String, String)>::empty());
        }
        b
    }
}

/// The outcome of one call, with each text replaced by the sequence of its
/// characters.
pub open spec fn result_view(r: Result<String, String>) -> Result<Seq<char>, Seq<char>> {
    match r {
        Ok(s) => Ok(s@),
        Err(m) => Err(m@),
    }
}

/// What one answered request yields. For the success status the decoded body
/// result passes through unchanged — a decode failure stays a failure with
/// the decode diagnostic. For any other status the body is discarded and the
/// formatted status diagnostic is the failure message.
pub open spec fn outcome_spec(status: u16, body: Result<Seq<char>, Seq<char>>) -> Result<
    Seq<char>,
    Seq<char>,
> {
    if status == 200 {
        body
    } else {
        Err(status_message_seq(status))
    }
}

/// Normalizes one answered request into the final outcome.
pub fn response_outcome(status: u16, body: Result<String, String>) -> (r: Result<String, String>)
    ensures
        result_view(r) == outcome_spec(status, result_view(body)),
        status == 200 ==> r == body,
{
    if status == 200 {
        body
    } else {
        Err(status_message(status))
    }
}

/// A failure outcome carries a non-empty message whenever the decode
/// diagnostic handed in with a failed body result is itself non-empty, and
/// the success outcome is the decoded body with no transformation applied.
pub proof fn lemma_outcome_messages(status: u16, body: Result<Seq<char>, Seq<char>>)
    requires
        body is Err ==> body->Err_0.len() > 0,
    ensures
        outcome_spec(status, body) is Err ==> outcome_spec(status, body)->Err_0.len() > 0,
        status == 200 ==> outcome_spec(status, body) == body,
{
    lemma_status_message_nonempty(status);
}

/// The finalized description of one request — method, url taken verbatim,
/// header set — together with the outcome of the most recent call: the
/// decoded body text on success, a diagnostic message on failure.
pub struct HTTPClient {
    pub http_method: HTTPMethod,
    pub url: String,
    pub headers: Vec<(String, String)>,
    pub response_body: Result<String, String>,
}

impl HTTPClient {
    /// The header set never holds a key twice.
    pub open spec fn wf(&self) -> bool {
        unique_keys(self.headers@)
    }

    /// The header set, as a map from key to value.
    pub open spec fn headers_map(&self) -> Map<Seq<char>, Seq<char>> {
        map_of(self.headers@)
    }

    /// The value stored for `key`, if the header set holds one.
    pub fn header_value(&self, key: &String) -> (r: Option<&String>)
        requires
            self.wf(),
        ensures
            (match r {
                Some(v) => self.headers_map().dom().contains(key@)
                    && v@ == self.headers_map()[key@],
                None => !self.headers_map().dom().contains(key@),
            }),
    {
        match find_key(&self.headers, key) {
            Some(i) => {
                proof {
                    lemma_map_of_value(self.headers@, i as int);
                }
                Some(&self.headers[i].1)
            },
            None => {
                proof {
                    lemma_map_of_dom(self.headers@);
                }
                None
            },
        }
    }

    /// Performs one blocking call described by this client's method, url and
    /// headers, and replaces the stored outcome with this call's result; the
    /// request description itself is unchanged. The url is not validated: an
    /// empty or malformed url surfaces as a failure outcome, and so does
    /// every transport error, every decode error, and every status other
    /// than the success status. A stored failure always carries a non-empty
    /// diagnostic message.
    pub fn send_request(&mut self, data: Option<serde_json::Value>)
        ensures
            final(self).http_method == old(self).http_method,
            final(self).url == old(self).url,
            final(self).headers == old(self).headers,
            (final(self).response_body matches Err(m) ==> m@.len() > 0),
    {
        let token = self.http_method.token();
        let mut request = transport::new_request(token.as_str(), self.url.as_str());
        let mut i: usize = 0;
        while i < self.headers.len()
            invariant
                *self == *old(self),
                i <= self.headers@.len(),
            decreases self.headers@.len() - i,
        {
            let e = &self.headers[i];
            request = transport::set_header(request, e.0.as_str(), e.1.as_str());
            i = i + 1;
        }
        let answer = match data {
            Some(v) => transport::send_json_request(request, v),
            None => transport::call_request(request),
        };
        let normalized = match answer {
            Ok(resp) => handle_answer(resp),
            Err(e) => match transport::split_error(e) {
                Ok(reached) => {
                    proof {
                        lemma_status_message_nonempty(reached.0);
                    }
                    response_outcome(reached.0, Ok(String::new()))
                },
                Err(failed) => Err(transport::error_text(&failed)),
            },
        };
        self.response_body = normalized;
    }

    /// Accepts the result of serializing an optional body payload: `None`
    /// sends no entity, `Some(Ok(v))` sends `v` as the request entity, and a
    /// serialization failure `Some(Err(m))` becomes the failure outcome
    /// carrying `m` directly — no call is attempted for it. When a call does
    /// happen, a stored failure always carries a non-empty diagnostic.
    pub fn send_serialized(&mut self, data: Option<Result<serde_json::Value, String>>)
        ensures
            final(self).http_method == old(self).http_method,
            final(self).url == old(self).url,
            final(self).headers == old(self).headers,
            (match data {
                Some(Err(m)) => final(self).response_body == Result::<String, String>::Err(m),
                _ => (final(self).response_body matches Err(m) ==> m@.len() > 0),
            }),
    {
        match data {
            None => self.send_request(None),
            Some(Ok(v)) => self.send_request(Some(v)),
            Some(Err(m)) => {
                self.response_body = Err(m);
            },
        }
    }
}

/// Reads one answered response: the entity is decoded to text only for the
/// success status; any other status discards it. A failure carries a
/// non-empty message: the rare decode diagnostic that prints as nothing is
/// replaced by a fixed phrase, so that a failure is never silent.
fn handle_answer(resp: ureq::Response) -> (r: Result<String, String>)
    ensures
        (r matches Err(m) ==> m@.len() > 0),
{
    let status = transport::response_status(&resp);
    let body: Result<String, String> = if status == 200 {
        match transport::response_text(resp) {
            Ok(b) => Ok(b),
            Err(e) => {
                let m = transport::io_error_text(&e);
                if m.as_str().unicode_len() == 0 {
                    proof {
                        reveal_strlit("the response body could not be decoded");
                    }
                    Err(String::from_str("the response body could not be decoded"))
                } else {
                    Err(m)
                }
            },
        }
    } else {
        Ok(String::new())
    };
    proof {
        if status != 200 {
            lemma_status_message_nonempty(status);
        }
    }
    response_outcome(status, body)
}

/// The position of the entry that carries `key`, if one does.
fn find_key(headers: &Vec<(String, String)>, key: &String) -> (r: Option<usize>)
    ensures
        match r {
            Some(i) => i < headers@.len() && headers@[i as int].0@ == key@,
            None => !has_key(headers@, key@),
        },
{
    let mut i: usize = 0;
    while i < headers.len()
        invariant
            i <= headers@.len(),
            forall|j: int| 0 <= j < i ==> headers@[j].0@ != key@,
        decreases headers@.len() - i,
    {
        let e = &headers[i];
        if e.0 == *key {
            return Some(i);
        }
        i = i + 1;
    }
    None
}

} // verus!
