use vstd::prelude::*;

verus! {

/// Mathematical model of a request: everything a handler could read of it.
pub struct RequestModel {
    pub method: Seq<char>,
    pub path: Seq<char>,
    pub headers: Seq<(Seq<char>, Seq<char>)>,
    pub body: Seq<u8>,
}

/// An HTTP request, reduced to the plain values the handler is given:
/// method, path, header name/value pairs, and the raw body bytes.
pub struct HttpRequest {
    pub method: String,
    pub path: String,
    pub headers: Vec<(String, String)>,
    pub body: Vec<u8>,
}

impl View for HttpRequest {
    type V = RequestModel;

    open spec fn view(&self) -> RequestModel {
        RequestModel {
            method: self.method@,
            path: self.path@,
            headers: self.headers@.map_values(|h: (String, String)| (h.0@, h.1@)),
            body: self.body@,
        }
    }
}

/// Mathematical model of a response: its status code and its text body.
pub struct ResponseModel {
    pub status: u16,
    pub body: Seq<char>,
}

/// An HTTP response as the handler produces it: a status code and a text
/// body. Framing it on the wire is left to the surrounding program.
pub struct HttpResponse {
    pub status: u16,
    pub body: String,
}

impl View for HttpResponse {
    type V = ResponseModel;

    open spec fn view(&self) -> ResponseModel {
        ResponseModel { status: self.status, body: self.body@ }
    }
}

} // verus!
