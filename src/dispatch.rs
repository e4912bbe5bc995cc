//! Decisions of the proxy connection engine: the accept loop, the routing
//! of each request, the plan for a `CONNECT`, the target of a request read
//! from an intercepted tunnel, and the steps of the handler pipeline.
//!
//! The caller performs the network work and reports what happened; these
//! functions say what comes next.
use vstd::prelude::*;
use vstd::string::*;

verus! {

/// Status of a request that cannot be served as it stands.
pub const BAD_REQUEST: u16 = 400;

/// Status of a failure inside the proxy or on the way upstream.
pub const INTERNAL_SERVER_ERROR: u16 = 500;

/// A response that the proxy makes up itself: a status and a text body.
#[derive(Debug, Clone, Copy)]
pub struct ErrorReply {
    pub status: u16,
    pub message: &'static str,
}

/// The reply to a `CONNECT` whose target names no host.
pub open spec fn no_host_reply(r: ErrorReply) -> bool {
    r.status == BAD_REQUEST && r.message@ == "CONNECT request has no host"@
}

/// The reply to an intercepted request whose rewritten target does not parse.
pub open spec fn bad_uri_reply(r: ErrorReply) -> bool {
    r.status == BAD_REQUEST && r.message@ == "Failed to parse URI"@
}

/// The reply when the request handler fails.
pub open spec fn request_handler_failed_reply(r: ErrorReply) -> bool {
    r.status == INTERNAL_SERVER_ERROR && r.message@ == "Failed to handle request"@
}

/// The reply when the response handler fails.
pub open spec fn response_handler_failed_reply(r: ErrorReply) -> bool {
    r.status == INTERNAL_SERVER_ERROR && r.message@ == "Failed to handle response"@
}

/// The reply when the upstream client fails.
pub open spec fn upstream_failed_reply(r: ErrorReply) -> bool {
    r.status == INTERNAL_SERVER_ERROR && r.message@ == "Failed to send request to upstream"@
}

/// A made-up response with `status` and the text `message` as its body.
pub fn error_response(status: u16, message: &'static str) -> (r: ErrorReply)
    ensures
        r.status == status,
        r.message@ == message@,
{
    ErrorReply { status, message }
}

// ---------------------------------------------------------------------------
// Accept loop

/// What the accept loop observed.
#[derive(PartialEq, Eq, Structural, Debug, Clone, Copy)]
pub enum LoopEvent {
    /// A client connection was accepted.
    Accepted,
    /// Accepting failed; the listener is still usable.
    AcceptFailed,
    /// The shutdown signal arrived.
    Shutdown,
}

/// What the accept loop does next.
#[derive(PartialEq, Eq, Structural, Debug, Clone, Copy)]
pub enum LoopAction {
    /// Serve the accepted connection on a task of its own.
    Serve,
    /// Wait for the next event.
    Continue,
    /// Leave the loop.
    Exit,
}

/// The accept loop's state: whether it has seen the shutdown signal, and
/// how many connections it handed out.
pub struct AcceptLoop {
    pub stopped: bool,
    pub served: usize,
}

impl AcceptLoop {
    /// A loop that has just subscribed to the shutdown signal.
    pub fn new() -> (r: Self)
        ensures
            !r.stopped,
            r.served == 0,
    {
        AcceptLoop { stopped: false, served: 0 }
    }

    /// Decides what to do with `event`. Once the shutdown signal has
    /// arrived the loop exits, and no connection is served after it.
    pub fn step(&mut self, event: LoopEvent) -> (r: LoopAction)
        ensures
            old(self).stopped ==> r == LoopAction::Exit && *final(self) == *old(self),
            !old(self).stopped ==> match event {
                LoopEvent::Shutdown => r == LoopAction::Exit && final(self).stopped
                    && final(self).served == old(self).served,
                LoopEvent::AcceptFailed => r == LoopAction::Continue && *final(self) == *old(self),
                LoopEvent::Accepted => r == LoopAction::Serve && !final(self).stopped
                    && final(self).served == if old(self).served < usize::MAX {
                    old(self).served + 1
                } else {
                    old(self).served as int
                },
            },
    {
        if self.stopped {
            return LoopAction::Exit;
        }
        match event {
            LoopEvent::Shutdown => {
                self.stopped = true;
                LoopAction::Exit
            },
            LoopEvent::AcceptFailed => LoopAction::Continue,
            LoopEvent::Accepted => {
                if self.served < usize::MAX {
                    self.served = self.served + 1;
                }
                LoopAction::Serve
            },
        }
    }
}

/// What ended a connection's serving task.
#[derive(PartialEq, Eq, Structural, Debug, Clone, Copy)]
pub enum ConnectionEnd {
    /// The connection was served to its end.
    Finished,
    /// Serving failed.
    Failed,
    /// The shutdown signal arrived first.
    Shutdown,
}

/// Whether the end of a connection is worth a warning in the log: only a
/// failure is; a shutdown closes the connection cleanly.
pub fn connection_end_is_error(end: ConnectionEnd) -> (r: bool)
    ensures
        r == (end == ConnectionEnd::Failed),
{
    match end {
        ConnectionEnd::Failed => true,
        _ => false,
    }
}

// ---------------------------------------------------------------------------
// Routing

/// How the proxy treats a request from a client.
#[derive(PartialEq, Eq, Structural, Debug, Clone, Copy)]
pub enum Route {
    /// A `CONNECT`: tunnel or intercept.
    Connect,
    /// Anything else: forward as plain HTTP.
    Forward,
}

/// Whether two texts are equal.
fn same_text(a: &str, b: &str) -> (r: bool)
    ensures
        r == (a@ == b@),
{
    let la = a.unicode_len();
    let lb = b.unicode_len();
    if la != lb {
        return false;
    }
    let mut i: usize = 0;
    while i < la
        invariant
            la == a@.len(),
            lb == b@.len(),
            la == lb,
            i <= la,
            forall|j: int| 0 <= j < i ==> a@[j] == b@[j],
        decreases la - i,
    {
        if a.get_char(i) != b.get_char(i) {
            return false;
        }
        i = i + 1;
    }
    assert(a@ =~= b@);
    true
}

/// Routes a request by its method: `CONNECT` to the tunnel, everything
/// else to the plain forward.
pub fn handle_connection(method: &str) -> (r: Route)
    ensures
        r == (if method@ == "CONNECT"@ {
            Route::Connect
        } else {
            Route::Forward
        }),
{
    if same_text(method, "CONNECT") {
        Route::Connect
    } else {
        Route::Forward
    }
}

/// What to do with a `CONNECT`.
#[derive(Debug)]
pub enum ConnectPlan {
    /// Answer with this response and open nothing.
    Reject(ErrorReply),
    /// Answer `200`, then copy bytes both ways to `addr`.
    Tunnel { addr: String },
    /// Answer `200`, then end the client's TLS with a certificate for
    /// `host` and open TLS to `addr`.
    Intercept { addr: String, host: String },
}

/// Plans a `CONNECT` whose target has the authority `authority` (the
/// `host:port` text) and the host `host`. Without a root certificate the
/// bytes are tunnelled blind; with one the tunnel is intercepted.
pub fn handle_connect(authority: Option<String>, host: Option<String>, has_root_ca: bool) -> (r:
    ConnectPlan)
    ensures
        (authority is None || host is None) <==> r is Reject,
        r is Reject ==> no_host_reply(r->Reject_0),
        r is Tunnel <==> (authority is Some && host is Some && !has_root_ca),
        r is Tunnel ==> r->Tunnel_addr@ == authority->Some_0@,
        r is Intercept ==> r->Intercept_addr@ == authority->Some_0@ && r->Intercept_host@
            == host->Some_0@,
{
    match (authority, host) {
        (Some(addr), Some(host)) => {
            if has_root_ca {
                ConnectPlan::Intercept { addr, host }
            } else {
                ConnectPlan::Tunnel { addr }
            }
        },
        _ => ConnectPlan::Reject(error_response(BAD_REQUEST, "CONNECT request has no host")),
    }
}

// ---------------------------------------------------------------------------
// Targets inside an intercepted tunnel

/// Whether `s` parses as a URI, as the HTTP library reads it.
pub uninterp spec fn parses_as_uri(s: Seq<char>) -> bool;

/// Relies on `hyper::Uri::try_from(&str)` (http's `Uri` parser): whether
/// the text parses as a URI. What it accepts depends on the text alone.
#[verifier::external_body]
fn uri_parses(s: &str) -> (r: bool)
    ensures
        r == parses_as_uri(s@),
{
    hyper::Uri::try_from(s).is_ok()
}

/// The absolute target given to a request that arrived in origin form
/// over a tunnel to `host`.
pub open spec fn absolute_target(host: Seq<char>, path_and_query: Option<&str>) -> Seq<char> {
    "https://"@ + host + match path_and_query {
        Some(pq) => pq@,
        None => "/"@,
    }
}

/// Where an intercepted request goes.
#[derive(Debug)]
pub enum InnerTarget {
    /// Its target is absolute already.
    Keep,
    /// Its target becomes this absolute URI.
    Rewrite(String),
    /// It is answered with this response.
    Reject(ErrorReply),
}

/// Settles the target of an intercepted request once it is known whether
/// the candidate target `candidate` parses.
pub fn settle_inner_target(needs_rewrite: bool, candidate: String, parsed: bool) -> (r: InnerTarget)
    ensures
        !needs_rewrite ==> r is Keep,
        needs_rewrite && parsed ==> r is Rewrite && r->Rewrite_0@ == candidate@,
        needs_rewrite && !parsed ==> r is Reject && bad_uri_reply(r->Reject_0),
{
    if !needs_rewrite {
        InnerTarget::Keep
    } else if parsed {
        InnerTarget::Rewrite(candidate)
    } else {
        InnerTarget::Reject(error_response(BAD_REQUEST, "Failed to parse URI"))
    }
}

/// The target of a request read from a tunnel intercepted for
/// `host_for_cert`. A request without a scheme or an authority is sent to
/// `https://<host_for_cert><path and query, or />`; if that does not parse
/// the request is answered `400`.
pub fn normalize_inner_target(
    has_scheme: bool,
    has_authority: bool,
    host_for_cert: &str,
    path_and_query: Option<&str>,
) -> (r: InnerTarget)
    ensures
        has_scheme && has_authority ==> r is Keep,
        !(has_scheme && has_authority) ==> {
            let t = absolute_target(host_for_cert@, path_and_query);
            &&& parses_as_uri(t) ==> r is Rewrite && r->Rewrite_0@ == t
            &&& !parses_as_uri(t) ==> r is Reject && bad_uri_reply(r->Reject_0)
        },
{
    let needs_rewrite = !has_scheme || !has_authority;
    if !needs_rewrite {
        return InnerTarget::Keep;
    }
    let mut candidate = String::from_str("https://");
    candidate.append(host_for_cert);
    match path_and_query {
        Some(pq) => candidate.append(pq),
        None => candidate.append("/"),
    }
    proof {
        reveal_strlit("https://");
        reveal_strlit("/");
    }
    let parsed = uri_parses(candidate.as_str());
    settle_inner_target(needs_rewrite, candidate, parsed)
}

// ---------------------------------------------------------------------------
// Handler pipeline

/// What the request handler returned.
#[derive(PartialEq, Eq, Structural, Debug, Clone, Copy)]
pub enum RequestHandled {
    /// A request to send upstream.
    Forward,
    /// A response for the client; the upstream is not contacted.
    ShortCircuit,
    /// An error.
    Failed,
}

/// Where the response that the client gets comes from.
#[derive(Debug, Clone, Copy)]
pub enum Reply {
    /// The response the handler returned.
    FromHandler,
    /// The response the upstream returned, after the response handler.
    FromUpstream,
    /// A response the proxy makes up.
    Synthetic(ErrorReply),
}

/// The step after the request handler.
#[derive(Debug, Clone, Copy)]
pub enum RequestStep {
    /// Send the request upstream; with `reset_version` its HTTP version is
    /// reset first so that the upstream client may negotiate HTTP/2.
    SendUpstream { reset_version: bool },
    /// Answer the client without contacting the upstream.
    Respond(Reply),
}

/// Decides what follows the request handler. Without a handler the request
/// goes upstream as it is.
pub fn get_final_req(has_handler: bool, outcome: RequestHandled) -> (r: RequestStep)
    ensures
        !has_handler ==> r == (RequestStep::SendUpstream { reset_version: false }),
        has_handler ==> match outcome {
            RequestHandled::Forward => r == (RequestStep::SendUpstream { reset_version: true }),
            RequestHandled::ShortCircuit => r == RequestStep::Respond(Reply::FromHandler),
            RequestHandled::Failed => r is Respond && r->Respond_0 is Synthetic
                && request_handler_failed_reply(r->Respond_0->Synthetic_0),
        },
{
    if !has_handler {
        return RequestStep::SendUpstream { reset_version: false };
    }
    match outcome {
        RequestHandled::Forward => RequestStep::SendUpstream { reset_version: true },
        RequestHandled::ShortCircuit => RequestStep::Respond(Reply::FromHandler),
        RequestHandled::Failed => RequestStep::Respond(
            Reply::Synthetic(error_response(INTERNAL_SERVER_ERROR, "Failed to handle request")),
        ),
    }
}

/// Decides the reply once the upstream has answered (`upstream_ok`) or
/// failed, and the response handler, if any, has succeeded
/// (`response_handled`) or failed.
pub fn get_final_res(upstream_ok: bool, has_handler: bool, response_handled: bool) -> (r: Reply)
    ensures
        !upstream_ok ==> r is Synthetic && upstream_failed_reply(r->Synthetic_0),
        upstream_ok && (!has_handler || response_handled) ==> r is FromUpstream,
        upstream_ok && has_handler && !response_handled ==> r is Synthetic
            && response_handler_failed_reply(r->Synthetic_0),
{
    if !upstream_ok {
        Reply::Synthetic(error_response(INTERNAL_SERVER_ERROR, "Failed to send request to upstream"))
    } else if has_handler && !response_handled {
        Reply::Synthetic(error_response(INTERNAL_SERVER_ERROR, "Failed to handle response"))
    } else {
        Reply::FromUpstream
    }
}

} // verus!
