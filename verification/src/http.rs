//! Descriptions of the two requests that the archiver sends.
//!
//! A description says where a request goes and which headers it carries.
//! Sending it, and reading what comes back, is left to the caller.

use vstd::prelude::*;
use vstd::string::*;

verus! {

/// A `GET` request.
#[derive(Clone, Debug, PartialEq, Eq)]
pub struct GetRequest {
    pub url: String,
    /// The value of the `Accept` header, if one is to be sent.
    pub accept: Option<String>,
}

/// A `POST` request whose body is the JSON form of `json`.
#[derive(Clone, Debug, PartialEq, Eq)]
pub struct PostJSONRequest<T> {
    pub url: String,
    /// The value of the `Accept` header, if one is to be sent.
    pub accept: Option<String>,
    pub json: T,
}

/// A `GET` request as a mathematical value.
pub struct GetRequestView {
    pub url: Seq<char>,
    pub accept: Option<Seq<char>>,
}

impl View for GetRequest {
    type V = GetRequestView;

    open spec fn view(&self) -> GetRequestView {
        GetRequestView { url: self.url@, accept: text_of(self.accept) }
    }
}

impl GetRequestView {
    /// The request for `url` that names no kind of answer.
    pub open spec fn plain(url: Seq<char>) -> GetRequestView {
        GetRequestView { url, accept: None }
    }

    /// The request for `url` that asks for JSON.
    pub open spec fn json(url: Seq<char>) -> GetRequestView {
        GetRequestView { url, accept: Some("application/json"@) }
    }
}

/// The characters of an optional text.
pub open spec fn text_of(t: Option<String>) -> Option<Seq<char>> {
    match t {
        Some(s) => Some(s@),
        None => None,
    }
}

/// The headers of a `GET` request: `Accept`, where a value is given.
pub open spec fn get_headers(accept: Option<Seq<char>>) -> Seq<(Seq<char>, Seq<char>)> {
    match accept {
        Some(a) => seq![("Accept"@, a)],
        None => seq![],
    }
}

/// The headers of a `POST` request with a JSON body: always `Content-Type`,
/// then `Accept`, where a value is given.
pub open spec fn post_headers(accept: Option<Seq<char>>) -> Seq<(Seq<char>, Seq<char>)> {
    seq![("Content-Type"@, "application/json"@)] + get_headers(accept)
}

/// The names and values in `headers`, as characters.
pub open spec fn header_texts(headers: Seq<(String, String)>) -> Seq<(Seq<char>, Seq<char>)> {
    Seq::new(headers.len(), |i: int| (headers[i].0@, headers[i].1@))
}

/// Appends the `Accept` header to `headers`, where a value is given.
fn push_accept(headers: &mut Vec<(String, String)>, accept: &Option<String>)
    ensures
        header_texts(final(headers)@) == header_texts(old(headers)@) + get_headers(
            text_of(*accept),
        ),
{
    match accept {
        Some(a) => {
            headers.push((String::from_str("Accept"), a.clone()));
            assert(header_texts(headers@) =~= header_texts(old(headers)@) + get_headers(
                text_of(*accept),
            ));
        },
        None => {
            assert(header_texts(headers@) =~= header_texts(old(headers)@) + get_headers(
                text_of(*accept),
            ));
        },
    }
}

impl GetRequest {
    /// The headers to send, in order.
    pub fn headers(&self) -> (h: Vec<(String, String)>)
        ensures
            header_texts(h@) == get_headers(self@.accept),
    {
        let mut h: Vec<(String, String)> = Vec::new();
        push_accept(&mut h, &self.accept);
        assert(header_texts(h@) =~= get_headers(self@.accept));
        h
    }
}

impl<T> PostJSONRequest<T> {
    /// The headers to send, in order.
    pub fn headers(&self) -> (h: Vec<(String, String)>)
        ensures
            header_texts(h@) == post_headers(text_of(self.accept)),
    {
        let mut h: Vec<(String, String)> = Vec::new();
        h.push((String::from_str("Content-Type"), String::from_str("application/json")));
        assert(header_texts(h@) =~= seq![("Content-Type"@, "application/json"@)]);
        push_accept(&mut h, &self.accept);
        h
    }
}

} // verus!
