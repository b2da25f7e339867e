//! The public gateway's decision logic: resolve an inbound request's host
//! to a session, serialize the request, dispatch it, and turn each way a
//! wait can end into the HTTP reply the caller gets. The listener sockets
//! live outside; this module owns every routing and status decision.

use vstd::prelude::*;
use vstd::string::StrSliceExecFns;
use crate::errors::DispatchError;
use crate::msg::TunnelMessage;
use crate::registry::{PendingRequest, Registry, RequestOutcome, spec_deadline, spec_lookup};

verus! {

broadcast use vstd::string::group_string_axioms;

/// How long the gateway waits for a correlated response.
pub const RESPONSE_TIMEOUT_MS: u64 = 30000;

/// Status of a reply whose response arrived in time.
pub const STATUS_OK: u16 = 200;

/// Status when no host is given or no session routes it.
pub const STATUS_NOT_FOUND: u16 = 404;

/// Status when handling a request fails inside the server.
pub const STATUS_INTERNAL_ERROR: u16 = 500;

/// Status when the session is gone or cannot take the request.
pub const STATUS_BAD_GATEWAY: u16 = 502;

/// Status when the wait for a response timed out.
pub const STATUS_GATEWAY_TIMEOUT: u16 = 504;

/// An HTTP reply the gateway sends to the public caller.
#[derive(Debug, Clone, PartialEq, Eq)]
pub struct GatewayReply {
    pub status: u16,
    pub body: Vec<u8>,
}

/// What accepting a public request comes to: either a reply already decided,
/// or a dispatched request whose conclusion must be awaited.
#[derive(Debug)]
pub enum GatewayStep {
    /// Answer at once.
    Reply(GatewayReply),
    /// The request went to this client; await the delivery for `request_id`,
    /// up to the timeout.
    Awaiting { client_id: String, request_id: u64 },
}

/// The serialized form of a forwarded request: request line and `Host`
/// header, the parts the tunnelled service needs to answer.
pub open spec fn spec_request_text(
    method: Seq<char>,
    target: Seq<char>,
    host: Seq<char>,
) -> Seq<char> {
    method + " "@ + target + " HTTP/1.1\r\nHost: "@ + host + "\r\n\r\n"@
}

/// Serializes a public request for the wire.
pub fn serialize_request(method: &String, target: &String, host: &String) -> (r: Vec<u8>)
    ensures
        r@ == vstd::utf8::encode_utf8(spec_request_text(method@, target@, host@)),
{
    let mut line = method.clone();
    line.append(" ");
    line.append(target.as_str());
    line.append(" HTTP/1.1\r\nHost: ");
    line.append(host.as_str());
    line.append("\r\n\r\n");
    line.as_str().as_bytes_vec()
}

/// The fixed `404` reply.
pub fn not_found_reply() -> (r: GatewayReply)
    ensures
        r.status == STATUS_NOT_FOUND,
        r.body@ == vstd::utf8::encode_utf8("Not found"@),
{
    GatewayReply { status: STATUS_NOT_FOUND, body: "Not found".as_bytes_vec() }
}

/// The fixed `500` reply, a minimal JSON error body, for faults that must
/// not crash the listener.
pub fn internal_error_reply() -> (r: GatewayReply)
    ensures
        r.status == STATUS_INTERNAL_ERROR,
        r.body@ == vstd::utf8::encode_utf8("{\"error\":\"Internal server error\"}"@),
{
    GatewayReply {
        status: STATUS_INTERNAL_ERROR,
        body: "{\"error\":\"Internal server error\"}".as_bytes_vec(),
    }
}

/// Accepts one public request: no host or no matching session is a `404`
/// at once; a full outbound queue is a `502`; otherwise the request is
/// serialized and dispatched, and the caller must await the conclusion of
/// the returned request id.
pub fn accept_request(
    reg: &mut Registry,
    host: Option<String>,
    method: &String,
    target: &String,
    now_ms: u64,
    timeout_ms: u64,
) -> (r: GatewayStep)
    requires
        old(reg).wf(),
        old(reg).next_request_id < u64::MAX,
    ensures
        final(reg).wf(),
        final(reg).base_suffix@ == old(reg).base_suffix@,
        final(reg).outbound_capacity == old(reg).outbound_capacity,
        ({
            let pre = *old(reg);
            let post = *final(reg);
            match host {
                None => (r matches GatewayStep::Reply(rep) && rep.status == STATUS_NOT_FOUND)
                    && post.sessions@ == pre.sessions@ && post.next_request_id
                    == pre.next_request_id,
                Some(h) => match spec_lookup(pre.sessions@, h@, pre.base_suffix@) {
                    None => (r matches GatewayStep::Reply(rep) && rep.status == STATUS_NOT_FOUND)
                        && post.sessions@ == pre.sessions@ && post.next_request_id
                        == pre.next_request_id,
                    Some(i) => ({
                        let data = vstd::utf8::encode_utf8(
                            spec_request_text(method@, target@, h@),
                        );
                        let s0 = pre.sessions@[i];
                        if data.len() > u32::MAX {
                            (r matches GatewayStep::Reply(rep) && rep.status
                                == STATUS_INTERNAL_ERROR) && post.sessions@ == pre.sessions@
                                && post.next_request_id == pre.next_request_id
                        } else if s0.outbound@.len() >= pre.outbound_capacity {
                            (r matches GatewayStep::Reply(rep) && rep.status == STATUS_BAD_GATEWAY)
                                && post.sessions@ == pre.sessions@ && post.next_request_id
                                == pre.next_request_id
                        } else {
                            r matches GatewayStep::Awaiting { client_id, request_id } && ({
                                let s1 = post.sessions@[i];
                                &&& client_id@ == s0.client_id@
                                &&& request_id == pre.next_request_id
                                &&& post.next_request_id == request_id + 1
                                &&& post.sessions@ == pre.sessions@.update(i, s1)
                                &&& s1.client_id == s0.client_id
                                &&& s1.domain == s0.domain
                                &&& s1.pending@ == s0.pending@.push(
                                    PendingRequest {
                                        request_id,
                                        deadline_ms: spec_deadline(now_ms, timeout_ms),
                                    },
                                )
                                &&& s1.outbound@.len() == s0.outbound@.len() + 1
                                &&& s1.outbound@.last() matches TunnelMessage::HttpRequest {
                                    request_id: qid,
                                    data: qdata,
                                } && qid == request_id && qdata@ == data
                                &&& s1.outbound@.drop_last() == s0.outbound@
                            })
                        }
                    }),
                },
            }
        }),
{
    let h = match host {
        None => {
            return GatewayStep::Reply(not_found_reply());
        },
        Some(h) => h,
    };
    let i = match reg.lookup(&h) {
        None => {
            return GatewayStep::Reply(not_found_reply());
        },
        Some(i) => i,
    };
    let data = serialize_request(method, target, &h);
    if data.len() > (u32::MAX as usize) {
        return GatewayStep::Reply(internal_error_reply());
    }
    let client_id = clone_client_id(reg, i);
    match reg.dispatch(&client_id, data, now_ms, timeout_ms) {
        Ok(request_id) => GatewayStep::Awaiting { client_id, request_id },
        Err(DispatchError::ChannelFull) => GatewayStep::Reply(
            GatewayReply { status: STATUS_BAD_GATEWAY, body: "Client unavailable".as_bytes_vec() },
        ),
        Err(DispatchError::UnknownClient) => GatewayStep::Reply(internal_error_reply()),
    }
}

/// Reads off the client id of the session at `i`.
fn clone_client_id(reg: &Registry, i: usize) -> (r: String)
    requires
        reg.wf(),
        i < reg.sessions@.len(),
    ensures
        r@ == reg.sessions@[i as int].client_id@,
{
    reg.sessions[i].client_id.clone()
}

/// Turns the conclusion of a dispatched request into the public reply:
/// the delivered bytes under `200`, a vanished session under `502`, an
/// elapsed deadline under `504`.
pub fn reply_for_outcome(outcome: RequestOutcome) -> (r: GatewayReply)
    ensures
        match outcome {
            RequestOutcome::Delivered { data } => r.status == STATUS_OK && r.body == data,
            RequestOutcome::ClientReplaced => r.status == STATUS_BAD_GATEWAY,
            RequestOutcome::ClientDisconnected => r.status == STATUS_BAD_GATEWAY,
            RequestOutcome::TimedOut => r.status == STATUS_GATEWAY_TIMEOUT,
        },
{
    match outcome {
        RequestOutcome::Delivered { data } => GatewayReply { status: STATUS_OK, body: data },
        RequestOutcome::ClientReplaced => GatewayReply {
            status: STATUS_BAD_GATEWAY,
            body: "Client disconnected".as_bytes_vec(),
        },
        RequestOutcome::ClientDisconnected => GatewayReply {
            status: STATUS_BAD_GATEWAY,
            body: "Client disconnected".as_bytes_vec(),
        },
        RequestOutcome::TimedOut => GatewayReply {
            status: STATUS_GATEWAY_TIMEOUT,
            body: "Request timed out".as_bytes_vec(),
        },
    }
}

} // verus!
