//! Binary codec for [`TunnelMessage`]: one discriminant byte, then the
//! frame's fields, text and bodies length-prefixed with a little-endian
//! `u32`. Decoding is total — any payload either decodes to a frame or is
//! rejected with a [`ProtocolError`] — and ignores bytes after the last
//! field, so a peer that appends new fields still interoperates.

use vstd::prelude::*;
use vstd::bytes::{
    spec_u32_from_le_bytes, spec_u32_to_le_bytes, spec_u64_from_le_bytes, spec_u64_to_le_bytes,
    u32_from_le_bytes, u32_to_le_bytes, u64_from_le_bytes, u64_to_le_bytes,
};
use vstd::slice::{slice_subrange, slice_to_vec};
use vstd::string::StrSliceExecFns;
use crate::errors::ProtocolError;
use crate::msg::{FrameModel, TunnelMessage, wire_text};
use crate::text::{ascii_bytes, chars_of, string_from_ascii};

verus! {

broadcast use vstd::string::group_string_axioms;

/// Discriminant byte of a registration frame.
pub const TAG_REGISTER: u8 = 1;

/// Discriminant byte of a registration confirmation.
pub const TAG_REGISTERED: u8 = 2;

/// Discriminant byte of a forwarded public request.
pub const TAG_HTTP_REQUEST: u8 = 3;

/// Discriminant byte of a correlated response.
pub const TAG_HTTP_RESPONSE: u8 = 4;

/// Discriminant byte of a keep-alive frame.
pub const TAG_KEEP_ALIVE: u8 = 5;

/// The bytes an ASCII character sequence is written as.
pub open spec fn ascii_of(s: Seq<char>) -> Seq<u8> {
    Seq::new(s.len(), |i: int| s[i] as u8)
}

/// A field as it stands on the wire: its length, then its bytes.
pub open spec fn length_prefixed(b: Seq<u8>) -> Seq<u8> {
    spec_u32_to_le_bytes(b.len() as u32) + b
}

/// The announced length of the field starting at offset `at`.
pub open spec fn field_len(b: Seq<u8>, at: int) -> int {
    spec_u32_from_le_bytes(b.subrange(at, at + 4)) as int
}

/// The field starting at offset `at` lies whole inside the payload.
pub open spec fn field_ok(b: Seq<u8>, at: int) -> bool {
    &&& 0 <= at
    &&& at + 4 <= b.len()
    &&& at + 4 + field_len(b, at) <= b.len()
}

/// The bytes of the field starting at offset `at`.
pub open spec fn field_bytes(b: Seq<u8>, at: int) -> Seq<u8> {
    b.subrange(at + 4, at + 4 + field_len(b, at))
}

/// The offset just past the field starting at `at`.
pub open spec fn field_end(b: Seq<u8>, at: int) -> int {
    at + 4 + field_len(b, at)
}

/// What a frame looks like on the wire.
pub open spec fn spec_encode(m: FrameModel) -> Seq<u8> {
    match m {
        FrameModel::Register { client_id, domain } => seq![TAG_REGISTER] + length_prefixed(
            ascii_of(client_id),
        ) + match domain {
            Some(d) => seq![1u8] + length_prefixed(ascii_of(d)),
            None => seq![0u8],
        },
        FrameModel::Registered { url } => seq![TAG_REGISTERED] + length_prefixed(ascii_of(url)),
        FrameModel::HttpRequest { request_id, data } => seq![TAG_HTTP_REQUEST]
            + spec_u64_to_le_bytes(request_id) + length_prefixed(data),
        FrameModel::HttpResponse { request_id, data } => seq![TAG_HTTP_RESPONSE]
            + spec_u64_to_le_bytes(request_id) + length_prefixed(data),
        FrameModel::KeepAlive => seq![TAG_KEEP_ALIVE],
    }
}

/// Decoding of a registration frame, after its discriminant byte.
pub open spec fn spec_decode_register(b: Seq<u8>) -> Option<FrameModel> {
    if !(field_ok(b, 1) && ascii_bytes(field_bytes(b, 1))) {
        None
    } else {
        let p = field_end(b, 1);
        if p >= b.len() {
            None
        } else if b[p] == 0 {
            Some(FrameModel::Register { client_id: chars_of(field_bytes(b, 1)), domain: None })
        } else if b[p] == 1 {
            if field_ok(b, p + 1) && ascii_bytes(field_bytes(b, p + 1)) {
                Some(
                    FrameModel::Register {
                        client_id: chars_of(field_bytes(b, 1)),
                        domain: Some(chars_of(field_bytes(b, p + 1))),
                    },
                )
            } else {
                None
            }
        } else {
            None
        }
    }
}

/// Decoding of a request id and body, after the discriminant byte.
pub open spec fn spec_decode_body(b: Seq<u8>) -> Option<(u64, Seq<u8>)> {
    if b.len() < 9 {
        None
    } else {
        let id = spec_u64_from_le_bytes(b.subrange(1, 9));
        if field_ok(b, 9) {
            Some((id, field_bytes(b, 9)))
        } else {
            None
        }
    }
}

/// What a payload decodes to, if anything: the inverse of [`spec_encode`]
/// on well-formed frames, tolerant of trailing bytes.
pub open spec fn spec_decode(b: Seq<u8>) -> Option<FrameModel> {
    if b.len() < 1 {
        None
    } else if b[0] == TAG_KEEP_ALIVE {
        Some(FrameModel::KeepAlive)
    } else if b[0] == TAG_REGISTER {
        spec_decode_register(b)
    } else if b[0] == TAG_REGISTERED {
        if field_ok(b, 1) && ascii_bytes(field_bytes(b, 1)) {
            Some(FrameModel::Registered { url: chars_of(field_bytes(b, 1)) })
        } else {
            None
        }
    } else if b[0] == TAG_HTTP_REQUEST {
        match spec_decode_body(b) {
            Some((id, d)) => Some(FrameModel::HttpRequest { request_id: id, data: d }),
            None => None,
        }
    } else if b[0] == TAG_HTTP_RESPONSE {
        match spec_decode_body(b) {
            Some((id, d)) => Some(FrameModel::HttpResponse { request_id: id, data: d }),
            None => None,
        }
    } else {
        None
    }
}

/// A field written at the end of `prefix` is read back intact from offset
/// `prefix.len()`, whatever follows it.
proof fn lemma_field_at(prefix: Seq<u8>, x: Seq<u8>, suffix: Seq<u8>)
    requires
        x.len() <= u32::MAX,
    ensures
        ({
            let b = prefix + length_prefixed(x) + suffix;
            let at = prefix.len() as int;
            &&& field_ok(b, at)
            &&& field_len(b, at) == x.len()
            &&& field_bytes(b, at) == x
            &&& field_end(b, at) == at + 4 + x.len()
        }),
{
    let b = prefix + length_prefixed(x) + suffix;
    let at = prefix.len() as int;
    vstd::bytes::lemma_auto_spec_u32_to_from_le_bytes();
    assert(b.subrange(at, at + 4) =~= spec_u32_to_le_bytes(x.len() as u32));
    assert(field_len(b, at) == x.len());
    assert(b.subrange(at + 4, at + 4 + x.len() as int) =~= x);
}

/// ASCII text survives the trip through its byte spelling.
proof fn lemma_chars_of_ascii_of(s: Seq<char>)
    requires
        vstd::utf8::is_ascii_chars(s),
    ensures
        ascii_bytes(ascii_of(s)),
        chars_of(ascii_of(s)) == s,
{
    assert forall|i: int| 0 <= i < s.len() implies #[trigger] ascii_of(s)[i] < 128 by {
        assert('\0' <= s[i] <= '\u{7f}');
    }
    assert(chars_of(ascii_of(s)) =~= s);
}

/// Decoding is tolerant of what it does not know: a well-formed frame is
/// recovered exactly from its encoding even when a newer peer appended
/// further bytes after the last field.
pub proof fn lemma_decode_tolerates_trailing(m: FrameModel, extra: Seq<u8>)
    requires
        m.wf(),
    ensures
        spec_decode(spec_encode(m) + extra) == Some(m),
{
    let b = spec_encode(m) + extra;
    vstd::bytes::lemma_auto_spec_u32_to_from_le_bytes();
    vstd::bytes::lemma_auto_spec_u64_to_from_le_bytes();
    match m {
        FrameModel::Register { client_id, domain } => {
            lemma_chars_of_ascii_of(client_id);
            match domain {
                None => {
                    assert(b =~= seq![TAG_REGISTER] + length_prefixed(ascii_of(client_id)) + (
                    seq![0u8] + extra));
                    lemma_field_at(seq![TAG_REGISTER], ascii_of(client_id), seq![0u8] + extra);
                    let p = field_end(b, 1);
                    let head = seq![TAG_REGISTER] + length_prefixed(ascii_of(client_id));
                    assert(head.len() == p);
                    assert(b[p] == (seq![0u8] + extra)[p - head.len()]);
                    assert(b[p] == 0);
                },
                Some(d) => {
                    lemma_chars_of_ascii_of(d);
                    let tail = seq![1u8] + length_prefixed(ascii_of(d)) + extra;
                    assert(b =~= seq![TAG_REGISTER] + length_prefixed(ascii_of(client_id)) + tail);
                    lemma_field_at(seq![TAG_REGISTER], ascii_of(client_id), tail);
                    let p = field_end(b, 1);
                    let head = seq![TAG_REGISTER] + length_prefixed(ascii_of(client_id));
                    assert(head.len() == p);
                    assert(b[p] == tail[p - head.len()]);
                    assert(b[p] == 1);
                    let prefix2 = seq![TAG_REGISTER] + length_prefixed(ascii_of(client_id))
                        + seq![1u8];
                    assert(b =~= prefix2 + length_prefixed(ascii_of(d)) + extra);
                    lemma_field_at(prefix2, ascii_of(d), extra);
                },
            }
        },
        FrameModel::Registered { url } => {
            lemma_chars_of_ascii_of(url);
            assert(b =~= seq![TAG_REGISTERED] + length_prefixed(ascii_of(url)) + extra);
            lemma_field_at(seq![TAG_REGISTERED], ascii_of(url), extra);
        },
        FrameModel::HttpRequest { request_id, data } => {
            let prefix = seq![TAG_HTTP_REQUEST] + spec_u64_to_le_bytes(request_id);
            assert(b =~= prefix + length_prefixed(data) + extra);
            lemma_field_at(prefix, data, extra);
            assert(b.subrange(1, 9) =~= spec_u64_to_le_bytes(request_id));
        },
        FrameModel::HttpResponse { request_id, data } => {
            let prefix = seq![TAG_HTTP_RESPONSE] + spec_u64_to_le_bytes(request_id);
            assert(b =~= prefix + length_prefixed(data) + extra);
            lemma_field_at(prefix, data, extra);
            assert(b.subrange(1, 9) =~= spec_u64_to_le_bytes(request_id));
        },
        FrameModel::KeepAlive => {},
    }
}

/// Round trip: every well-formed frame decodes from its own encoding.
pub proof fn lemma_codec_round_trip(m: FrameModel)
    requires
        m.wf(),
    ensures
        spec_decode(spec_encode(m)) == Some(m),
{
    lemma_decode_tolerates_trailing(m, Seq::empty());
    assert(spec_encode(m) + Seq::<u8>::empty() =~= spec_encode(m));
}

/// Appends a length-prefixed field.
fn push_field(out: &mut Vec<u8>, bytes: &Vec<u8>)
    requires
        bytes@.len() <= u32::MAX,
    ensures
        final(out)@ == old(out)@ + length_prefixed(bytes@),
{
    let mut len_bytes = u32_to_le_bytes(bytes.len() as u32);
    out.append(&mut len_bytes);
    out.extend_from_slice(bytes.as_slice());
}

/// Appends a length-prefixed ASCII text field.
fn push_text(out: &mut Vec<u8>, s: &String)
    requires
        wire_text(s@),
    ensures
        final(out)@ == old(out)@ + length_prefixed(ascii_of(s@)),
{
    let bytes = s.as_str().as_bytes_vec();
    proof {
        vstd::utf8::is_ascii_chars_encode_utf8(s@);
        assert(bytes@ =~= ascii_of(s@));
    }
    push_field(out, &bytes);
}

/// Encodes a frame for the wire.
pub fn encode(m: &TunnelMessage) -> (r: Vec<u8>)
    requires
        m@.wf(),
    ensures
        r@ == spec_encode(m@),
{
    let mut out: Vec<u8> = Vec::new();
    match m {
        TunnelMessage::Register { client_id, domain } => {
            out.push(TAG_REGISTER);
            push_text(&mut out, client_id);
            match domain {
                Some(d) => {
                    out.push(1);
                    push_text(&mut out, d);
                },
                None => {
                    out.push(0);
                },
            }
        },
        TunnelMessage::Registered { url } => {
            out.push(TAG_REGISTERED);
            push_text(&mut out, url);
        },
        TunnelMessage::HttpRequest { request_id, data } => {
            out.push(TAG_HTTP_REQUEST);
            let mut id_bytes = u64_to_le_bytes(*request_id);
            out.append(&mut id_bytes);
            push_field(&mut out, data);
        },
        TunnelMessage::HttpResponse { request_id, data } => {
            out.push(TAG_HTTP_RESPONSE);
            let mut id_bytes = u64_to_le_bytes(*request_id);
            out.append(&mut id_bytes);
            push_field(&mut out, data);
        },
        TunnelMessage::KeepAlive => {
            out.push(TAG_KEEP_ALIVE);
        },
    }
    proof {
        assert(out@ =~= spec_encode(m@));
    }
    out
}

/// Checks that every byte is ASCII.
fn all_ascii(bytes: &Vec<u8>) -> (r: bool)
    ensures
        r == ascii_bytes(bytes@),
{
    let mut i: usize = 0;
    while i < bytes.len()
        invariant
            i <= bytes@.len(),
            forall|j: int| 0 <= j < i ==> bytes@[j] < 128,
        decreases bytes@.len() - i,
    {
        if bytes[i] >= 128 {
            return false;
        }
        i = i + 1;
    }
    true
}

/// Reads the length-prefixed field starting at offset `at`.
fn read_field(payload: &Vec<u8>, at: usize) -> (r: Option<(Vec<u8>, usize)>)
    requires
        at <= payload@.len(),
    ensures
        match r {
            Some(p) => {
                &&& field_ok(payload@, at as int)
                &&& p.0@ == field_bytes(payload@, at as int)
                &&& p.1 == field_end(payload@, at as int)
                &&& p.1 <= payload@.len()
            },
            None => !field_ok(payload@, at as int),
        },
{
    if payload.len() - at < 4 {
        return None;
    }
    let len_slice = slice_subrange(payload.as_slice(), at, at + 4);
    let n = u32_from_le_bytes(len_slice) as usize;
    if payload.len() - (at + 4) < n {
        return None;
    }
    let bytes = slice_to_vec(slice_subrange(payload.as_slice(), at + 4, at + 4 + n));
    Some((bytes, at + 4 + n))
}

/// Reads an ASCII text field starting at offset `at`.
fn read_text(payload: &Vec<u8>, at: usize) -> (r: Option<(String, usize)>)
    requires
        at <= payload@.len(),
    ensures
        match r {
            Some(p) => {
                &&& field_ok(payload@, at as int)
                &&& ascii_bytes(field_bytes(payload@, at as int))
                &&& p.0@ == chars_of(field_bytes(payload@, at as int))
                &&& wire_text(p.0@)
                &&& p.1 == field_end(payload@, at as int)
                &&& p.1 <= payload@.len()
            },
            None => !(field_ok(payload@, at as int) && ascii_bytes(
                field_bytes(payload@, at as int),
            )),
        },
{
    match read_field(payload, at) {
        None => None,
        Some((bytes, end)) => {
            if !all_ascii(&bytes) {
                None
            } else {
                let ghost bs = bytes@;
                let s = string_from_ascii(bytes);
                proof {
                    assert(field_len(payload@, at as int) <= u32::MAX);
                    assert forall|i: int| 0 <= i < s@.len() implies '\0' <= #[trigger] s@[i]
                        <= '\u{7f}' by {
                        assert(s@[i] == bs[i] as char);
                        assert(bs[i] < 128);
                    }
                }
                Some((s, end))
            }
        },
    }
}

/// Decodes a payload, totally: every byte string either is some frame,
/// possibly with trailing bytes, or is rejected as malformed.
pub fn decode(payload: &Vec<u8>) -> (r: Result<TunnelMessage, ProtocolError>)
    ensures
        match r {
            Ok(m) => spec_decode(payload@) == Some(m@) && m@.wf(),
            Err(e) => spec_decode(payload@) is None && e == ProtocolError::Malformed,
        },
{
    if payload.len() < 1 {
        return Err(ProtocolError::Malformed);
    }
    let tag = payload[0];
    if tag == TAG_KEEP_ALIVE {
        Ok(TunnelMessage::KeepAlive)
    } else if tag == TAG_REGISTER {
        match read_text(payload, 1) {
            None => Err(ProtocolError::Malformed),
            Some((client_id, p)) => {
                if p >= payload.len() {
                    return Err(ProtocolError::Malformed);
                }
                let flag = payload[p];
                if flag == 0 {
                    Ok(TunnelMessage::Register { client_id, domain: None })
                } else if flag == 1 {
                    match read_text(payload, p + 1) {
                        None => Err(ProtocolError::Malformed),
                        Some((domain, _)) => Ok(
                            TunnelMessage::Register { client_id, domain: Some(domain) },
                        ),
                    }
                } else {
                    Err(ProtocolError::Malformed)
                }
            },
        }
    } else if tag == TAG_REGISTERED {
        match read_text(payload, 1) {
            None => Err(ProtocolError::Malformed),
            Some((url, _)) => Ok(TunnelMessage::Registered { url }),
        }
    } else if tag == TAG_HTTP_REQUEST {
        if payload.len() < 9 {
            return Err(ProtocolError::Malformed);
        }
        let request_id = u64_from_le_bytes(slice_subrange(payload.as_slice(), 1, 9));
        match read_field(payload, 9) {
            None => Err(ProtocolError::Malformed),
            Some((data, _)) => Ok(TunnelMessage::HttpRequest { request_id, data }),
        }
    } else if tag == TAG_HTTP_RESPONSE {
        if payload.len() < 9 {
            return Err(ProtocolError::Malformed);
        }
        let request_id = u64_from_le_bytes(slice_subrange(payload.as_slice(), 1, 9));
        match read_field(payload, 9) {
            None => Err(ProtocolError::Malformed),
            Some((data, _)) => Ok(TunnelMessage::HttpResponse { request_id, data }),
        }
    } else {
        Err(ProtocolError::Malformed)
    }
}

} // verus!
