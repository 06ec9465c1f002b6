use vstd::prelude::*;

use crate::message::{HttpRequest, HttpResponse, RequestModel, ResponseModel};

verus! {

/// The one response text the server ever sends.
pub open spec fn hello_text() -> Seq<char> {
    "Hello from Rust!"@
}

/// What the server answers: status 200 with the fixed text, whatever the
/// request was.
pub open spec fn response_for(req: RequestModel) -> ResponseModel {
    ResponseModel { status: 200, body: hello_text() }
}

/// The fixed response body.
pub fn response_body() -> (body: String)
    ensures
        body@ == hello_text(),
{
    String::from_str("Hello from Rust!")
}

/// The handler: maps any request to the fixed response. The server loop
/// calls it once per request received.
pub fn handle(req: &HttpRequest) -> (resp: HttpResponse)
    ensures
        resp@ == response_for(req@),
{
    HttpResponse { status: 200, body: response_body() }
}

/// Every request is answered: for any request at all the response has
/// status 200 and carries exactly the fixed text.
pub proof fn lemma_every_request_answered(req: RequestModel)
    ensures
        response_for(req).status == 200,
        response_for(req).body == hello_text(),
{
}

/// The response does not depend on the request: any two requests, however
/// they differ in method, path, headers or body, and whether they arrive on
/// one connection or on many, receive exactly the same response. No
/// response can be swapped with, or differ from, another.
pub proof fn lemma_response_uniform(r1: RequestModel, r2: RequestModel)
    ensures
        response_for(r1) == response_for(r2),
{
}

/// The fixed bind address and worker pool size the server runs with. The
/// surrounding program constructs it once at startup and binds accordingly;
/// if the bind fails the process ends without serving a request.
pub struct ServerConfig {
    pub host: [u8; 4],
    pub port: u16,
    pub workers: usize,
}

impl ServerConfig {
    /// A well-formed configuration has at least one worker.
    pub open spec fn wf(self) -> bool {
        self.workers >= 1
    }

    /// The configuration this server always uses: loopback, port 7878,
    /// four workers.
    pub fn new() -> (c: ServerConfig)
        ensures
            c.host@ =~= seq![127u8, 0u8, 0u8, 1u8],
            c.port == 7878,
            c.workers == 4,
            c.wf(),
    {
        ServerConfig { host: [127, 0, 0, 1], port: 7878, workers: 4 }
    }
}

} // verus!
