//! The control listener's decisions: the registration handshake a new
//! control connection must open with, and the handling of every frame that
//! arrives on an established session — responses to correlate, keep-alives
//! to echo, noise to drop. The sockets and pump loops live outside; they
//! feed payloads in and carry the returned frames and conclusions out.

use vstd::prelude::*;
use vstd::string::StrSliceExecFns;
use crate::codec::{decode, encode, spec_decode, spec_encode};
use crate::errors::ProtocolError;
use crate::msg::{FrameModel, TunnelMessage, opt_text};
use crate::registry::{Delivery, Registry, RequestOutcome, remove_id, has_id, spec_public_url};

verus! {

/// A registration that fits the wire: room for the scheme and the dot in
/// the public URL's length prefix.
pub open spec fn registration_fits(
    cid: Seq<char>,
    domain: Option<Seq<char>>,
    suffix: Seq<char>,
) -> bool {
    &&& cid.len() + suffix.len() + 9 <= u32::MAX
    &&& match domain {
        Some(d) => d.len() + 8 <= u32::MAX,
        None => true,
    }
}

/// A completed handshake: the session's id, the encoded `Registered` reply
/// to write back, and the conclusions of any prior session's pending
/// requests, to be handed to their awaiting tasks.
#[derive(Debug, PartialEq, Eq)]
pub struct HandshakeOk {
    pub client_id: String,
    pub reply: Vec<u8>,
    pub evicted: Vec<Delivery>,
}

/// Performs the registration handshake on the first payload of a control
/// connection. Only a `Register` frame opens a session: an undecodable
/// payload is `Malformed`, any other frame `UnexpectedFrame`, and either
/// ends the connection with the registry untouched. On success the session
/// is registered — evicting any prior session under the same id, whose
/// pending requests come back concluded as `ClientReplaced` — and the reply
/// is the encoded `Registered` frame carrying the public URL.
pub fn handshake(reg: &mut Registry, first_payload: &Vec<u8>) -> (r: Result<
    HandshakeOk,
    ProtocolError,
>)
    requires
        old(reg).wf(),
    ensures
        final(reg).wf(),
        final(reg).base_suffix@ == old(reg).base_suffix@,
        final(reg).outbound_capacity == old(reg).outbound_capacity,
        final(reg).next_request_id == old(reg).next_request_id,
        ({
            let pre = *old(reg);
            let post = *final(reg);
            match spec_decode(first_payload@) {
                None => (r matches Err(e) && e == ProtocolError::Malformed) && post.sessions@
                    == pre.sessions@,
                Some(f) => match f {
                    FrameModel::Register { client_id: cid, domain } => {
                        if registration_fits(cid, domain, pre.base_suffix@) {
                            r matches Ok(ok) && ({
                                let url = spec_public_url(cid, domain, pre.base_suffix@);
                                &&& ok.client_id@ == cid
                                &&& ok.reply@ == spec_encode(
                                    FrameModel::Registered { url },
                                )
                                &&& post.sessions@.len() == pre.sessions_without(cid).len() + 1
                                &&& post.sessions@.drop_last() == pre.sessions_without(cid)
                                &&& post.sessions@.last().client_id@ == cid
                                &&& opt_text(post.sessions@.last().domain) == domain
                                &&& post.sessions@.last().outbound@.len() == 0
                                &&& post.sessions@.last().pending@.len() == 0
                                &&& ({
                                    let evicted = if pre.has_session(cid) {
                                        pre.sessions@[pre.session_index(cid)].pending@
                                    } else {
                                        Seq::empty()
                                    };
                                    &&& ok.evicted@.len() == evicted.len()
                                    &&& forall|k: int|
                                        0 <= k < evicted.len() ==> (
                                        #[trigger] ok.evicted@[k]).request_id
                                            == evicted[k].request_id
                                            && ok.evicted@[k].outcome is ClientReplaced
                                })
                            })
                        } else {
                            (r matches Err(e) && e == ProtocolError::Malformed) && post.sessions@
                                == pre.sessions@
                        }
                    },
                    _ => (r matches Err(e) && e == ProtocolError::UnexpectedFrame)
                        && post.sessions@ == pre.sessions@,
                },
            }
        }),
{
    let frame = match decode(first_payload) {
        Err(_) => {
            return Err(ProtocolError::Malformed);
        },
        Ok(frame) => frame,
    };
    match frame {
        TunnelMessage::Register { client_id, domain } => {
            let suffix_len = reg.base_suffix.as_str().unicode_len();
            let id_len = client_id.as_str().unicode_len();
            if id_len > (u32::MAX as usize) - 9 - suffix_len {
                return Err(ProtocolError::Malformed);
            }
            match &domain {
                Some(d) => {
                    if d.as_str().unicode_len() > (u32::MAX as usize) - 8 {
                        return Err(ProtocolError::Malformed);
                    }
                },
                None => {},
            }
            let id_for_session = client_id.clone();
            let (url, evicted) = reg.register(id_for_session, domain);
            let reply_frame = TunnelMessage::Registered { url };
            let reply = encode(&reply_frame);
            Ok(HandshakeOk { client_id, reply, evicted })
        },
        _ => Err(ProtocolError::UnexpectedFrame),
    }
}

/// What one inbound frame on an established session came to.
#[derive(Debug)]
pub enum ControlEvent {
    /// An `HttpResponse` concluded the pending request it names; hand the
    /// delivery to the task awaiting it.
    ResponseDelivered(Delivery),
    /// An `HttpResponse` named no pending request — already concluded or
    /// never issued — and was discarded.
    StaleResponse,
    /// A `KeepAlive` arrived and the echo was queued for the writer.
    KeepAliveEchoed,
    /// A `KeepAlive` arrived but the outbound queue was full; the echo was
    /// dropped rather than blocking the pump.
    KeepAliveDropped,
    /// The payload was no frame at all; dropped, the connection continues.
    FrameDropped,
    /// A decodable frame of a kind the server does not take mid-session;
    /// ignored.
    FrameIgnored,
}

/// Handles one payload read from an established session's control socket.
/// Never an error: whatever arrives, the connection continues, and only a
/// response that names a live pending request changes any bookkeeping.
pub fn control_inbound(reg: &mut Registry, client_id: &String, payload: &Vec<u8>) -> (r:
    ControlEvent)
    requires
        old(reg).wf(),
    ensures
        final(reg).wf(),
        final(reg).base_suffix@ == old(reg).base_suffix@,
        final(reg).outbound_capacity == old(reg).outbound_capacity,
        final(reg).next_request_id == old(reg).next_request_id,
        ({
            let pre = *old(reg);
            let post = *final(reg);
            let i = pre.session_index(client_id@);
            let s0 = pre.sessions@[i];
            match spec_decode(payload@) {
                None => (r is FrameDropped) && post.sessions@ == pre.sessions@,
                Some(f) => match f {
                    FrameModel::HttpResponse { request_id, data } => {
                        if pre.has_session(client_id@) && has_id(s0.pending@, request_id) {
                            r matches ControlEvent::ResponseDelivered(d) && ({
                                let s1 = post.sessions@[i];
                                &&& d.request_id == request_id
                                &&& d.outcome matches RequestOutcome::Delivered {
                                    data: got,
                                } && got@ == data
                                &&& post.sessions@ == pre.sessions@.update(i, s1)
                                &&& s1.pending@ == remove_id(s0.pending@, request_id)
                                &&& !has_id(s1.pending@, request_id)
                                &&& s1.client_id == s0.client_id
                                &&& s1.domain == s0.domain
                                &&& s1.outbound == s0.outbound
                            })
                        } else {
                            (r is StaleResponse) && post.sessions@ == pre.sessions@
                        }
                    },
                    FrameModel::KeepAlive => {
                        if pre.has_session(client_id@) && s0.outbound@.len()
                            < pre.outbound_capacity {
                            (r is KeepAliveEchoed) && ({
                                let s1 = post.sessions@[i];
                                &&& post.sessions@ == pre.sessions@.update(i, s1)
                                &&& s1.outbound@ == s0.outbound@.push(TunnelMessage::KeepAlive)
                                &&& s1.client_id == s0.client_id
                                &&& s1.domain == s0.domain
                                &&& s1.pending == s0.pending
                            })
                        } else {
                            (r is KeepAliveDropped) && post.sessions@ == pre.sessions@
                        }
                    },
                    _ => (r is FrameIgnored) && post.sessions@ == pre.sessions@,
                },
            }
        }),
{
    let frame = match decode(payload) {
        Err(_) => {
            return ControlEvent::FrameDropped;
        },
        Ok(frame) => frame,
    };
    match frame {
        TunnelMessage::HttpResponse { request_id, data } => {
            match reg.resolve(client_id, request_id, data) {
                Some(delivery) => ControlEvent::ResponseDelivered(delivery),
                None => ControlEvent::StaleResponse,
            }
        },
        TunnelMessage::KeepAlive => {
            if reg.enqueue_keepalive(client_id) {
                ControlEvent::KeepAliveEchoed
            } else {
                ControlEvent::KeepAliveDropped
            }
        },
        _ => ControlEvent::FrameIgnored,
    }
}

} // verus!
