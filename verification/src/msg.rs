//! The wire frame exchanged between a tunnel client and the relay server:
//! a closed tagged union, together with its ghost model and the validity
//! condition the binary codec relies on. Text carried on the wire (client
//! ids, hostnames, URLs) is ASCII.

use vstd::prelude::*;

verus! {

/// One frame of the tunnel control channel.
///
/// `Register` opens a session; `Registered` confirms it with the public URL;
/// `HttpRequest` carries a forwarded public request to the client and
/// `HttpResponse` carries the correlated answer back, matched by
/// `request_id`; `KeepAlive` is echoed to keep the connection warm.
#[derive(Debug, Clone, PartialEq, Eq)]
pub enum TunnelMessage {
    Register { client_id: String, domain: Option<String> },
    Registered { url: String },
    HttpRequest { request_id: u64, data: Vec<u8> },
    HttpResponse { request_id: u64, data: Vec<u8> },
    KeepAlive,
}

/// Ghost model of a frame: the same shape over mathematical sequences.
pub enum FrameModel {
    Register { client_id: Seq<char>, domain: Option<Seq<char>> },
    Registered { url: Seq<char> },
    HttpRequest { request_id: u64, data: Seq<u8> },
    HttpResponse { request_id: u64, data: Seq<u8> },
    KeepAlive,
}

impl View for TunnelMessage {
    type V = FrameModel;

    open spec fn view(&self) -> FrameModel {
        match self {
            TunnelMessage::Register { client_id, domain } => FrameModel::Register {
                client_id: client_id@,
                domain: match domain {
                    Some(d) => Some(d@),
                    None => None,
                },
            },
            TunnelMessage::Registered { url } => FrameModel::Registered { url: url@ },
            TunnelMessage::HttpRequest { request_id, data } => FrameModel::HttpRequest {
                request_id: *request_id,
                data: data@,
            },
            TunnelMessage::HttpResponse { request_id, data } => FrameModel::HttpResponse {
                request_id: *request_id,
                data: data@,
            },
            TunnelMessage::KeepAlive => FrameModel::KeepAlive,
        }
    }
}

/// The text of an optional hostname.
pub open spec fn opt_text(o: Option<String>) -> Option<Seq<char>> {
    match o {
        Some(s) => Some(s@),
        None => None,
    }
}

/// An optional hostname's text is ASCII wire text.
pub open spec fn opt_wire_text(o: Option<Seq<char>>) -> bool {
    match o {
        Some(s) => wire_text(s),
        None => true,
    }
}

/// Copies an optional hostname.
pub fn clone_domain(domain: &Option<String>) -> (r: Option<String>)
    ensures
        opt_text(r) == opt_text(*domain),
{
    match domain {
        Some(d) => Some(d.clone()),
        None => None,
    }
}

/// Text that may ride in a frame: ASCII, and short enough for the codec's
/// 32-bit length prefix.
pub open spec fn wire_text(s: Seq<char>) -> bool {
    &&& vstd::utf8::is_ascii_chars(s)
    &&& s.len() <= u32::MAX
}

impl FrameModel {
    /// The frames the codec can carry: ASCII text fields and bodies that fit
    /// the 32-bit length prefix.
    pub open spec fn wf(self) -> bool {
        match self {
            FrameModel::Register { client_id, domain } => {
                &&& wire_text(client_id)
                &&& match domain {
                    Some(d) => wire_text(d),
                    None => true,
                }
            },
            FrameModel::Registered { url } => wire_text(url),
            FrameModel::HttpRequest { request_id, data } => data.len() <= u32::MAX,
            FrameModel::HttpResponse { request_id, data } => data.len() <= u32::MAX,
            FrameModel::KeepAlive => true,
        }
    }
}

} // verus!
