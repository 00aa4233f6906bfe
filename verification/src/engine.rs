//! One exchange through the proxy: the request that goes upstream, the
//! steps of the exchange, and the response that goes back.

use vstd::prelude::*;
use crate::dial::{dial_next, ConnectOutcome, DialStep, WolfProxyClient};
use crate::fault::{
    error_body, error_response, fault_code, fault_status, json_content_type, Fault, HttpVersion,
    ResponseEnvelope,
};
use vstd::string::StringExecFns;
use crate::headers::{
    first_value, header_list, header_value, is_websocket_upgrade, sanitize_request,
    sanitize_response, sanitized_request, strip_hop_by_hop, view_of, wants_websocket, Header,
};
use crate::text::{ascii_bytes, ascii_of, bytes_equal, bytes_start_with, copy_bytes};

verus! {

/// A request as it goes upstream.
#[derive(Debug, PartialEq, Eq)]
pub struct RequestEnvelope {
    pub method: Vec<u8>,
    pub uri: Vec<u8>,
    pub headers: Vec<Header>,
    pub body: Vec<u8>,
}

/// The path prefix under which the service offers the upstream.
pub open spec fn path_prefix() -> Seq<u8> {
    ascii_bytes("/wolfapi"@)
}

/// Whether a path lies under the prefix: it is the prefix, or the prefix
/// followed by a slash and whatever else.
pub open spec fn under_prefix(path: Seq<u8>) -> bool {
    path_prefix().is_prefix_of(path) && (path.len() == path_prefix().len() || path[path_prefix().len() as int]
        == 0x2f)
}

/// A path without the prefix. A path that does not lie under the prefix
/// stays as it is; the bare prefix becomes the root path.
pub open spec fn stripped_path(path: Seq<u8>) -> Seq<u8> {
    if under_prefix(path) {
        if path.len() == path_prefix().len() {
            ascii_bytes("/"@)
        } else {
            path.subrange(path_prefix().len() as int, path.len() as int)
        }
    } else {
        path
    }
}

/// Whether an address is in absolute-path form: it starts with a slash.
pub open spec fn is_absolute_path(uri: Seq<u8>) -> bool {
    uri.len() > 0 && uri[0] == 0x2f
}

/// The address that goes upstream: the stripped path, and behind a
/// question mark the query where there is one.
pub open spec fn upstream_uri(path: Seq<u8>, query: Option<Seq<u8>>) -> Seq<u8> {
    match query {
        Some(q) => stripped_path(path) + ascii_bytes("?"@) + q,
        None => stripped_path(path),
    }
}

/// Whether a text is a URI to the HTTP library. Its parser decides this;
/// nothing here says how.
pub uninterp spec fn is_valid_uri(text: Seq<u8>) -> bool;

/// Asks `http::Uri::try_from` whether the bytes parse as a URI. Not proved:
/// that the answer is the function of the bytes named `is_valid_uri`.
#[verifier::external_body]
fn uri_parses(text: &[u8]) -> (ok: bool)
    ensures
        ok == is_valid_uri(text@),
{
    http::Uri::try_from(text).is_ok()
}

/// Takes the prefix off a path.
pub fn strip_prefix(path: &[u8]) -> (out: Vec<u8>)
    ensures
        out@ == stripped_path(path@),
{
    proof {
        reveal_strlit("/wolfapi");
        reveal_strlit("/");
    }
    let prefix = ascii_of("/wolfapi");
    if bytes_start_with(path, prefix) && (path.len() == prefix.len() || path[prefix.len()]
        == 0x2f) {
        if path.len() == prefix.len() {
            copy_bytes(ascii_of("/"))
        } else {
            let mut out: Vec<u8> = Vec::new();
            let mut i: usize = prefix.len();
            while i < path.len()
                invariant
                    prefix@.len() <= i <= path@.len(),
                    out@ == path@.subrange(prefix@.len() as int, i as int),
                decreases path@.len() - i,
            {
                out.push(path[i]);
                assert(out@ =~= path@.subrange(prefix@.len() as int, i + 1));
                i += 1;
            }
            out
        }
    } else {
        copy_bytes(path)
    }
}

fn append_bytes(out: &mut Vec<u8>, more: &[u8])
    ensures
        final(out)@ == old(out)@ + more@,
{
    let mut i: usize = 0;
    while i < more.len()
        invariant
            i <= more@.len(),
            out@ == old(out)@ + more@.subrange(0, i as int),
        decreases more@.len() - i,
    {
        out.push(more[i]);
        assert(out@ =~= old(out)@ + more@.subrange(0, i + 1));
        i += 1;
    }
    assert(more@.subrange(0, more@.len() as int) =~= more@);
}

/// Puts the address together that goes upstream.
pub fn assemble_uri(path: &[u8], query: &Option<Vec<u8>>) -> (out: Vec<u8>)
    ensures
        out@ == upstream_uri(path@, view_of(*query)),
{
    proof {
        reveal_strlit("?");
    }
    let mut out = strip_prefix(path);
    match query {
        Some(q) => {
            append_bytes(&mut out, ascii_of("?"));
            append_bytes(&mut out, q.as_slice());
        },
        None => {},
    }
    out
}

/// The fault that refuses a request before its body is looked at, if there
/// is one: a WebSocket upgrade first, then an address that is no valid URI
/// or is not in absolute-path form.
pub open spec fn early_refusal(uri: Seq<u8>, uri_ok: bool, headers: Seq<(Seq<u8>, Seq<u8>)>) -> Option<
    Fault,
> {
    if wants_websocket(headers) {
        Some(Fault::WebSocketUpgrade)
    } else if !uri_ok || !is_absolute_path(uri) {
        Some(Fault::InvalidUri)
    } else {
        None
    }
}

/// What becomes of an inbound request, given whether its upstream address
/// is a valid URI: a WebSocket upgrade is refused first, then an address
/// that is invalid or not in absolute-path form, then a body that could not
/// be read (`None`); every other request goes upstream with its method and
/// body, the assembled address and the sanitised headers.
pub open spec fn planned(
    method: Seq<u8>,
    uri: Seq<u8>,
    uri_ok: bool,
    headers: Seq<(Seq<u8>, Seq<u8>)>,
    body: Option<Seq<u8>>,
    peer_ip: Option<Seq<u8>>,
) -> Result<(Seq<u8>, Seq<u8>, Seq<(Seq<u8>, Seq<u8>)>, Seq<u8>), Fault> {
    if let Some(fault) = early_refusal(uri, uri_ok, headers) {
        Err(fault)
    } else {
        match body {
            None => Err(Fault::InvalidBody),
            Some(b) => Ok(
                (
                    method,
                    uri,
                    sanitized_request(headers, peer_ip, first_value(headers, ascii_bytes("host"@))),
                    b,
                ),
            ),
        }
    }
}

/// A planned request as plain values: method, address, headers and body.
pub open spec fn request_view(r: Result<RequestEnvelope, Fault>) -> Result<
    (Seq<u8>, Seq<u8>, Seq<(Seq<u8>, Seq<u8>)>, Seq<u8>),
    Fault,
> {
    match r {
        Ok(e) => Ok((e.method@, e.uri@, header_list(e.headers@), e.body@)),
        Err(f) => Err(f),
    }
}

/// Builds the upstream request for an address that has been checked
/// already.
pub fn build_request(
    method: &[u8],
    uri: Vec<u8>,
    uri_ok: bool,
    headers: &Vec<Header>,
    body: Option<Vec<u8>>,
    peer_ip: &Option<Vec<u8>>,
) -> (r: Result<RequestEnvelope, Fault>)
    ensures
        request_view(r) == planned(
            method@,
            uri@,
            uri_ok,
            header_list(headers@),
            view_of(body),
            view_of(*peer_ip),
        ),
{
    proof {
        reveal_strlit("host");
    }
    if is_websocket_upgrade(headers) {
        return Err(Fault::WebSocketUpgrade);
    }
    if !uri_ok || uri.len() == 0 || uri[0] != 0x2f {
        return Err(Fault::InvalidUri);
    }
    let body = match body {
        Some(b) => b,
        None => { return Err(Fault::InvalidBody); },
    };
    let host = header_value(headers, ascii_of("host"));
    let out = sanitize_request(headers, peer_ip, &host);
    Ok(RequestEnvelope { method: copy_bytes(method), uri, headers: out, body })
}

/// Builds the upstream request for an inbound request: its path loses the
/// prefix, the address is checked, and the headers are sanitised.
pub fn plan_request(
    method: &[u8],
    path: &[u8],
    query: &Option<Vec<u8>>,
    headers: &Vec<Header>,
    body: Option<Vec<u8>>,
    peer_ip: &Option<Vec<u8>>,
) -> (r: Result<RequestEnvelope, Fault>)
    ensures
        request_view(r) == planned(
            method@,
            upstream_uri(path@, view_of(*query)),
            is_valid_uri(upstream_uri(path@, view_of(*query))),
            header_list(headers@),
            view_of(body),
            view_of(*peer_ip),
        ),
{
    let uri = assemble_uri(path, query);
    let uri_ok = uri_parses(uri.as_slice());
    build_request(method, uri, uri_ok, headers, body, peer_ip)
}

/// Tells, before the body of an inbound request is read, whether the
/// request is refused whatever its body holds.
pub fn refuse_early(path: &[u8], query: &Option<Vec<u8>>, headers: &Vec<Header>) -> (r: Option<
    Fault,
>)
    ensures
        r == early_refusal(
            upstream_uri(path@, view_of(*query)),
            is_valid_uri(upstream_uri(path@, view_of(*query))),
            header_list(headers@),
        ),
{
    if is_websocket_upgrade(headers) {
        return Some(Fault::WebSocketUpgrade);
    }
    let uri = assemble_uri(path, query);
    if !uri_parses(uri.as_slice()) || uri.len() == 0 || uri[0] != 0x2f {
        return Some(Fault::InvalidUri);
    }
    None
}

/// Which handler answers a request.
#[derive(Clone, Copy, Debug, PartialEq, Eq, Structural)]
pub enum Route {
    /// The readiness probe.
    Ready,
    /// Everything else: the request goes to the upstream.
    Passthrough,
}

/// The handler for a method and a path: the readiness probe for `GET` on
/// `/_ready` under the prefix, the passthrough for every other request.
pub open spec fn route_for(method: Seq<u8>, path: Seq<u8>) -> Route {
    if method == ascii_bytes("GET"@) && stripped_path(path) == ascii_bytes("/_ready"@) {
        Route::Ready
    } else {
        Route::Passthrough
    }
}

/// Picks the handler for a request.
pub fn route_of(method: &[u8], path: &[u8]) -> (r: Route)
    ensures
        r == route_for(method@, path@),
{
    proof {
        reveal_strlit("GET");
        reveal_strlit("/_ready");
    }
    let stripped = strip_prefix(path);
    if bytes_equal(method, ascii_of("GET")) && bytes_equal(stripped.as_slice(), ascii_of("/_ready")) {
        Route::Ready
    } else {
        Route::Passthrough
    }
}

/// Builds the response that goes back to the client: status, body and
/// version as the upstream sent them, the headers without the hop-by-hop
/// ones.
pub fn relay_response(status: u16, headers: &Vec<Header>, body: Vec<u8>, version: HttpVersion) -> (r:
    ResponseEnvelope)
    ensures
        r.status == status,
        header_list(r.headers@) == strip_hop_by_hop(header_list(headers@)),
        r.body@ == body@,
        r.version == version,
{
    ResponseEnvelope { status, headers: sanitize_response(headers), body, version }
}

/// The body of the answer to a successful readiness probe.
pub open spec fn ready_body() -> Seq<u8> {
    ascii_bytes("{\"status\":\"ok\"}"@)
}

/// The human message of a failed readiness probe.
pub open spec fn unready_detail(cause: Seq<char>) -> Seq<char> {
    "wolf.sock not reachable: "@ + cause
}

/// Builds the answer to a readiness probe: 200 with a fixed body where
/// the upstream is ready, else the report of the fault, whose detail says
/// that the socket is not reachable and why.
pub fn ready_response(verdict: Result<(), Fault>, cause: &str) -> (r: ResponseEnvelope)
    ensures
        verdict.is_ok() ==> r.status == 200 && r.headers@.len() == 0 && r.body@ == ready_body()
            && r.version == HttpVersion::Http11,
        verdict.is_err() ==> r.status == fault_status(verdict.unwrap_err()) && header_list(
            r.headers@,
        ) == json_content_type() && r.body@ == error_body(
            fault_code(verdict.unwrap_err()),
            unready_detail(cause@),
        ) && r.version == HttpVersion::Http11,
{
    proof {
        reveal_strlit("{\"status\":\"ok\"}");
    }
    match verdict {
        Ok(_) => ResponseEnvelope {
            status: 200,
            headers: Vec::new(),
            body: copy_bytes(ascii_of("{\"status\":\"ok\"}")),
            version: HttpVersion::Http11,
        },
        Err(fault) => {
            let detail = String::from_str("wolf.sock not reachable: ").concat(cause);
            error_response(fault.status(), fault.code(), detail.as_str())
        },
    }
}

/// Where an exchange stands.
#[derive(Clone, Copy, Debug, PartialEq, Eq, Structural)]
pub enum ProxyState {
    /// Nothing has happened yet.
    Idle,
    /// The attempt of the given number to connect is under way.
    Dialing { attempt: u32 },
    /// The request is on its way and the response head is awaited.
    Sent,
    /// The response head is here and the body is being read.
    Reading,
    /// The exchange is over.
    Done,
}

/// What happened to an exchange.
#[derive(Clone, Copy, Debug, PartialEq, Eq, Structural)]
pub enum ProxyEvent {
    /// A request came in, with or without a WebSocket upgrade.
    Start { websocket: bool },
    /// An attempt to connect ended.
    Connect { outcome: ConnectOutcome },
    /// The response head arrived within the read timeout.
    HeadReceived,
    /// The read timeout passed without a response head.
    ReadTimedOut,
    /// The handshake or the sending failed.
    ProtocolError,
    /// The response body was read to its end.
    BodyReceived,
    /// The response body could not be read.
    BodyFailed,
    /// The client went away.
    Cancelled,
}

/// What the caller is to do next.
#[derive(Clone, Copy, Debug, PartialEq, Eq, Structural)]
pub enum ProxyAction {
    /// Make the attempt of the given number to connect.
    Connect { attempt: u32 },
    /// Sleep, then make the attempt of the given number to connect.
    SleepThenConnect { wait_ms: u128, attempt: u32 },
    /// Send the request and await the response head.
    SendRequest,
    /// Read the response body.
    ReadBody,
    /// Hand the response to the client and close the connection.
    Relay,
    /// Report the fault to the client and close the connection.
    Fail { fault: Fault },
    /// Close the connection and drop what was buffered.
    Close,
    /// Nothing: the event does not belong to the state.
    Nothing,
}

/// The steps of an exchange. It dials, sends, awaits the head and reads the
/// body, in this order; only a failed attempt to connect is tried again.
pub open spec fn proxy_next(cfg: crate::config::WolfProxyConfig, state: ProxyState, event: ProxyEvent) -> (
    ProxyState,
    ProxyAction,
) {
    match (state, event) {
        (ProxyState::Done, _) => (ProxyState::Done, ProxyAction::Nothing),
        (_, ProxyEvent::Cancelled) => (ProxyState::Done, ProxyAction::Close),
        (ProxyState::Idle, ProxyEvent::Start { websocket }) => if websocket {
            (ProxyState::Done, ProxyAction::Fail { fault: Fault::WebSocketUpgrade })
        } else {
            (ProxyState::Dialing { attempt: 1 }, ProxyAction::Connect { attempt: 1 })
        },
        (ProxyState::Dialing { attempt }, ProxyEvent::Connect { outcome }) => match dial_next(
            cfg,
            attempt,
            outcome,
        ) {
            DialStep::Connected => (ProxyState::Sent, ProxyAction::SendRequest),
            DialStep::Retry { attempt: next, wait_ms } => (
                ProxyState::Dialing { attempt: next },
                ProxyAction::SleepThenConnect { wait_ms, attempt: next },
            ),
            DialStep::GiveUp { fault } => (ProxyState::Done, ProxyAction::Fail { fault }),
        },
        (ProxyState::Sent, ProxyEvent::HeadReceived) => (ProxyState::Reading, ProxyAction::ReadBody),
        (ProxyState::Sent, ProxyEvent::ReadTimedOut) => (
            ProxyState::Done,
            ProxyAction::Fail { fault: Fault::ReadTimeout },
        ),
        (ProxyState::Sent, ProxyEvent::ProtocolError) => (
            ProxyState::Done,
            ProxyAction::Fail { fault: Fault::UpstreamProtocol },
        ),
        (ProxyState::Reading, ProxyEvent::BodyReceived) => (ProxyState::Done, ProxyAction::Relay),
        (ProxyState::Reading, ProxyEvent::BodyFailed) => (
            ProxyState::Done,
            ProxyAction::Fail { fault: Fault::ResponseConversion },
        ),
        _ => (state, ProxyAction::Nothing),
    }
}

/// How far an exchange has come.
pub open spec fn progress(state: ProxyState) -> nat {
    match state {
        ProxyState::Idle => 0,
        ProxyState::Dialing { .. } => 1,
        ProxyState::Sent => 2,
        ProxyState::Reading => 3,
        ProxyState::Done => 4,
    }
}

/// Whether an action makes an attempt to connect.
pub open spec fn is_connect_action(action: ProxyAction) -> bool {
    action is Connect || action is SleepThenConnect
}

impl WolfProxyClient {
    /// Takes an exchange one step further.
    pub fn step(&self, state: ProxyState, event: ProxyEvent) -> (r: (ProxyState, ProxyAction))
        ensures
            r == proxy_next(self.config, state, event),
    {
        match state {
            ProxyState::Done => (ProxyState::Done, ProxyAction::Nothing),
            ProxyState::Idle => match event {
                ProxyEvent::Cancelled => (ProxyState::Done, ProxyAction::Close),
                ProxyEvent::Start { websocket } => {
                    if websocket {
                        (ProxyState::Done, ProxyAction::Fail { fault: Fault::WebSocketUpgrade })
                    } else {
                        (ProxyState::Dialing { attempt: 1 }, ProxyAction::Connect { attempt: 1 })
                    }
                },
                _ => (state, ProxyAction::Nothing),
            },
            ProxyState::Dialing { attempt } => match event {
                ProxyEvent::Cancelled => (ProxyState::Done, ProxyAction::Close),
                ProxyEvent::Connect { outcome } => match self.after_connect(attempt, outcome) {
                    DialStep::Connected => (ProxyState::Sent, ProxyAction::SendRequest),
                    DialStep::Retry { attempt: next, wait_ms } => (
                        ProxyState::Dialing { attempt: next },
                        ProxyAction::SleepThenConnect { wait_ms, attempt: next },
                    ),
                    DialStep::GiveUp { fault } => (ProxyState::Done, ProxyAction::Fail { fault }),
                },
                _ => (state, ProxyAction::Nothing),
            },
            ProxyState::Sent => match event {
                ProxyEvent::Cancelled => (ProxyState::Done, ProxyAction::Close),
                ProxyEvent::HeadReceived => (ProxyState::Reading, ProxyAction::ReadBody),
                ProxyEvent::ReadTimedOut => (
                    ProxyState::Done,
                    ProxyAction::Fail { fault: Fault::ReadTimeout },
                ),
                ProxyEvent::ProtocolError => (
                    ProxyState::Done,
                    ProxyAction::Fail { fault: Fault::UpstreamProtocol },
                ),
                _ => (state, ProxyAction::Nothing),
            },
            ProxyState::Reading => match event {
                ProxyEvent::Cancelled => (ProxyState::Done, ProxyAction::Close),
                ProxyEvent::BodyReceived => (ProxyState::Done, ProxyAction::Relay),
                ProxyEvent::BodyFailed => (
                    ProxyState::Done,
                    ProxyAction::Fail { fault: Fault::ResponseConversion },
                ),
                _ => (state, ProxyAction::Nothing),
            },
        }
    }
}

/// An exchange never goes back: dial, send, head and body follow each
/// other in this order.
pub proof fn lemma_exchange_never_goes_back(
    cfg: crate::config::WolfProxyConfig,
    state: ProxyState,
    event: ProxyEvent,
)
    ensures
        progress(proxy_next(cfg, state, event).0) >= progress(state),
{
}

/// Only the start of an exchange and a failed attempt to connect lead to
/// an attempt to connect: once the request is sent nothing is tried again.
pub proof fn lemma_retry_only_while_dialing(
    cfg: crate::config::WolfProxyConfig,
    state: ProxyState,
    event: ProxyEvent,
)
    requires
        is_connect_action(proxy_next(cfg, state, event).1),
    ensures
        state is Idle || state is Dialing,
        state is Dialing ==> event is Connect && event->outcome != ConnectOutcome::Connected,
        proxy_next(cfg, state, event).0 is Dialing,
{
}

/// A request for a WebSocket upgrade is refused as not implemented, and no
/// attempt to connect is made for it.
pub proof fn lemma_websocket_never_dials(cfg: crate::config::WolfProxyConfig)
    ensures
        proxy_next(cfg, ProxyState::Idle, ProxyEvent::Start { websocket: true }) == (
            ProxyState::Done,
            ProxyAction::Fail { fault: Fault::WebSocketUpgrade },
        ),
        fault_status(Fault::WebSocketUpgrade) == 501,
        fault_code(Fault::WebSocketUpgrade) == "NotImplemented"@,
{
}

/// An upstream that does not answer in time is reported as a gateway
/// timeout, and the exchange is over.
pub proof fn lemma_read_timeout_ends_exchange(cfg: crate::config::WolfProxyConfig)
    ensures
        proxy_next(cfg, ProxyState::Sent, ProxyEvent::ReadTimedOut) == (
            ProxyState::Done,
            ProxyAction::Fail { fault: Fault::ReadTimeout },
        ),
        fault_status(Fault::ReadTimeout) == 504,
        fault_code(Fault::ReadTimeout) == "UpstreamTimeout"@,
{
}

/// When the client goes away the exchange is over at once, and whatever
/// happens afterwards leads to no action: nothing is tried again.
pub proof fn lemma_cancel_is_final(
    cfg: crate::config::WolfProxyConfig,
    state: ProxyState,
    later: ProxyEvent,
)
    ensures
        proxy_next(cfg, state, ProxyEvent::Cancelled).0 == ProxyState::Done,
        state != ProxyState::Done ==> proxy_next(cfg, state, ProxyEvent::Cancelled).1
            == ProxyAction::Close,
        proxy_next(cfg, proxy_next(cfg, state, ProxyEvent::Cancelled).0, later) == (
            ProxyState::Done,
            ProxyAction::Nothing,
        ),
{
}

/// While an exchange dials, the number of its attempt stays within the
/// budget.
pub proof fn lemma_attempts_stay_in_budget(
    cfg: crate::config::WolfProxyConfig,
    state: ProxyState,
    event: ProxyEvent,
)
    requires
        cfg.retry_attempts >= 1,
        state matches ProxyState::Dialing { attempt } ==> 1 <= attempt <= cfg.retry_attempts,
    ensures
        proxy_next(cfg, state, event).0 matches ProxyState::Dialing { attempt } ==> 1 <= attempt
            <= cfg.retry_attempts,
{
}

/// How many attempts to connect an exchange makes on a row of events.
pub open spec fn connects_in_run(
    cfg: crate::config::WolfProxyConfig,
    state: ProxyState,
    events: Seq<ProxyEvent>,
) -> nat
    decreases events.len(),
{
    if events.len() == 0 {
        0
    } else {
        let (next, action) = proxy_next(cfg, state, events[0]);
        let here: nat = if is_connect_action(action) {
            1
        } else {
            0
        };
        here + connects_in_run(cfg, next, events.subrange(1, events.len() as int))
    }
}

/// The attempts that are left to an exchange in a given state.
pub open spec fn attempts_left(cfg: crate::config::WolfProxyConfig, state: ProxyState) -> nat {
    match state {
        ProxyState::Idle => cfg.retry_attempts as nat,
        ProxyState::Dialing { attempt } => if attempt <= cfg.retry_attempts {
            (cfg.retry_attempts - attempt) as nat
        } else {
            0
        },
        _ => 0,
    }
}

/// Whatever happens, an exchange makes no more attempts to connect than
/// are left to it: from its start, no more than the settings allow.
pub proof fn lemma_connects_stay_in_budget(
    cfg: crate::config::WolfProxyConfig,
    state: ProxyState,
    events: Seq<ProxyEvent>,
)
    requires
        cfg.retry_attempts >= 1,
    ensures
        connects_in_run(cfg, state, events) <= attempts_left(cfg, state),
    decreases events.len(),
{
    if events.len() > 0 {
        let (next, action) = proxy_next(cfg, state, events[0]);
        lemma_connects_stay_in_budget(cfg, next, events.subrange(1, events.len() as int));
    }
}

/// Whatever goes upstream has an address in absolute-path form.
pub proof fn lemma_planned_address_is_absolute(
    method: Seq<u8>,
    uri: Seq<u8>,
    uri_ok: bool,
    headers: Seq<(Seq<u8>, Seq<u8>)>,
    body: Option<Seq<u8>>,
    peer_ip: Option<Seq<u8>>,
)
    requires
        planned(method, uri, uri_ok, headers, body, peer_ip).is_ok(),
    ensures
        is_absolute_path(planned(method, uri, uri_ok, headers, body, peer_ip).unwrap().1),
        uri_ok,
        !wants_websocket(headers),
{
}

/// A path under the prefix loses it at a segment boundary: what is left
/// starts with a slash.
pub proof fn lemma_stripped_path_is_absolute(path: Seq<u8>)
    requires
        under_prefix(path),
    ensures
        is_absolute_path(stripped_path(path)),
{
    reveal_strlit("/");
    reveal_strlit("/wolfapi");
}

} // verus!
