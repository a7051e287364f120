//! Requests, responses, and the transport that carries them.

use crate::error::SdkResult;
use vstd::prelude::*;

verus! {

/// A request to the service. The headers are kept as pairs of name and
/// value, each name once.
#[derive(Debug, Clone)]
pub struct HttpRequest {
    pub method: String,
    pub path: String,
    pub headers: Vec<(String, String)>,
    pub body: Vec<u8>,
}

/// An answer of the service. The headers are kept as in a request.
#[derive(Debug, Clone)]
pub struct HttpResponse {
    pub status: u16,
    pub headers: Vec<(String, String)>,
    pub body: Vec<u8>,
}

/// A request with its texts as character sequences.
pub struct HttpRequestView {
    pub method: Seq<char>,
    pub path: Seq<char>,
    pub headers: Seq<(Seq<char>, Seq<char>)>,
    pub body: Seq<u8>,
}

/// Headers with their texts as character sequences.
pub open spec fn headers_view(headers: Seq<(String, String)>) -> Seq<(Seq<char>, Seq<char>)> {
    Seq::new(headers.len(), |i: int| (headers[i].0@, headers[i].1@))
}

/// Whether no header name occurs twice.
pub open spec fn distinct_names(headers: Seq<(Seq<char>, Seq<char>)>) -> bool {
    forall|i: int, j: int| 0 <= i < j < headers.len() ==> headers[i].0 != headers[j].0
}

impl View for HttpRequest {
    type V = HttpRequestView;

    open spec fn view(&self) -> HttpRequestView {
        HttpRequestView {
            method: self.method@,
            path: self.path@,
            headers: headers_view(self.headers@),
            body: self.body@,
        }
    }
}

impl HttpRequest {
    /// Whether the request names each header once.
    pub open spec fn well_formed(&self) -> bool {
        distinct_names(self@.headers)
    }
}

impl HttpResponse {
    /// Whether the response names each header once.
    pub open spec fn well_formed(&self) -> bool {
        distinct_names(headers_view(self.headers@))
    }
}

/// What carries a request to the service and brings the answer back.
pub trait HttpTransport: Send + Sync {
    /// Whether `res` is an answer that this transport may give to `req`. A
    /// transport that says nothing of its answers may give any.
    open spec fn answers(&self, req: HttpRequestView, res: SdkResult<HttpResponse>) -> bool {
        true
    }

    /// Sends `req` and returns the service's answer, or the reason why
    /// there is none.
    fn send(&self, req: HttpRequest) -> (res: SdkResult<HttpResponse>)
        ensures
            self.answers(req@, res),
    ;
}

} // verus!
