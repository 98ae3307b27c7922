//! Interpretation of raw transport outcomes.
//!
//! The transport's request and receive primitives report a status code and, on
//! success, the bytes the daemon wrote.  This module fixes, once, what each
//! status code means, how a reply is bounded by the fixed receive buffer, and
//! how reply bytes are decoded as UTF-8 text.  It also states when a command
//! string can be sent at all: its UTF-8 encoding must hold no NUL byte.

use crate::errors::WpaError;
use vstd::prelude::*;
use vstd::utf8::decode_utf8;
use vstd::utf8::encode_utf8;
use vstd::utf8::length_of_first_scalar;
use vstd::utf8::pop_first_scalar;
use vstd::utf8::valid_utf8;

verus! {

/// Capacity, in bytes, of the fixed receive buffer for replies and events.
pub const BUF_CAPACITY: usize = 10240;

/// The part of a raw reply that fits the fixed receive buffer: the whole
/// reply when it fits, else exactly the first [`BUF_CAPACITY`] bytes.
pub open spec fn spec_truncated(data: Seq<u8>) -> Seq<u8> {
    if data.len() <= BUF_CAPACITY {
        data
    } else {
        data.subrange(0, BUF_CAPACITY as int)
    }
}

/// What a successful reply's bytes decode to: the text when the truncated
/// bytes are valid UTF-8, else a decode error.
pub open spec fn spec_decoded(data: Seq<u8>) -> Result<Seq<char>, WpaError> {
    if valid_utf8(spec_truncated(data)) {
        Ok(decode_utf8(spec_truncated(data)))
    } else {
        Err(WpaError::Decode)
    }
}

/// The meaning of one outcome of the transport's request primitive:
/// status 0 carries a reply (decoded through the fixed buffer), -1 is a
/// generic failure, -2 a timeout, and any other code is carried verbatim.
pub open spec fn spec_request_result(status: i32, data: Seq<u8>) -> Result<Seq<char>, WpaError> {
    if status == 0 {
        spec_decoded(data)
    } else if status == -1 {
        Err(WpaError::Failure)
    } else if status == -2 {
        Err(WpaError::Timeout)
    } else {
        Err(WpaError::Unknown(status))
    }
}

/// The meaning of one outcome of the transport's receive primitive: as for a
/// request, except that there is no timeout code.
pub open spec fn spec_recv_result(status: i32, data: Seq<u8>) -> Result<Seq<char>, WpaError> {
    if status == 0 {
        spec_decoded(data)
    } else if status == -1 {
        Err(WpaError::Failure)
    } else {
        Err(WpaError::Unknown(status))
    }
}

/// The meaning of one outcome of the transport's pending-check primitive:
/// 0 means no event queued, 1 means at least one, -1 a failure.
pub open spec fn spec_pending_result(status: i32) -> Result<bool, WpaError> {
    if status == 0 {
        Ok(false)
    } else if status == 1 {
        Ok(true)
    } else if status == -1 {
        Err(WpaError::Failure)
    } else {
        Err(WpaError::Unknown(status))
    }
}

/// The view of a textual result: the text's characters, the error unchanged.
pub open spec fn text_result_view(r: Result<String, WpaError>) -> Result<Seq<char>, WpaError> {
    match r {
        Ok(s) => Ok(s@),
        Err(e) => Err(e),
    }
}

/// A command can be sent iff its UTF-8 encoding holds no NUL byte: the
/// transport demands the command as a NUL-free byte sequence.
pub open spec fn cmd_encodable(cmd: Seq<char>) -> bool {
    !encode_utf8(cmd).contains(0u8)
}

/// Whether the command text can be sent; see [`cmd_encodable`].
pub fn check_command(cmd: &str) -> (r: bool)
    ensures
        r == cmd_encodable(cmd@),
{
    let bytes: &[u8] = cmd.as_bytes();
    let n: usize = bytes.len();
    let mut i: usize = 0;
    while i < n
        invariant
            i <= n,
            n == bytes@.len(),
            bytes@ == encode_utf8(cmd@),
            forall|j: int| 0 <= j < i ==> bytes@[j] != 0u8,
        decreases n - i,
    {
        if bytes[i] == 0u8 {
            return false;
        }
        i = i + 1;
    }
    assert(!bytes@.contains(0u8));
    true
}

/// The UTF-8 encoding of one scalar holds a NUL byte exactly when the scalar
/// is NUL: every byte of a multi-byte encoding has its high bit set, and the
/// single byte of a one-byte encoding is the scalar itself.
proof fn lemma_encode_scalar_nul(c: u32)
    requires
        vstd::utf8::is_scalar(c),
    ensures
        vstd::utf8::encode_scalar(c).contains(0u8) <==> c == 0,
{
    let bytes = vstd::utf8::encode_scalar(c);
    if vstd::utf8::has_width_1_encoding(c) {
        assert((((c & 0x7F) as u8) == 0u8) <==> c == 0) by (bit_vector)
            requires
                c <= 0x7F,
        ;
        if c == 0 {
            assert(bytes[0] == 0u8);
        } else {
            assert(forall|i: int| 0 <= i < bytes.len() ==> bytes[i] != 0u8);
        }
    } else {
        assert((0xC0u8 | (((c >> 6) & 0x1F) as u8)) != 0u8) by (bit_vector);
        assert((0xE0u8 | (((c >> 12) & 0x0F) as u8)) != 0u8) by (bit_vector);
        assert((0xF0u8 | (((c >> 18) & 0x7) as u8)) != 0u8) by (bit_vector);
        assert((0x80u8 | ((c & 0x3F) as u8)) != 0u8) by (bit_vector);
        assert((0x80u8 | (((c >> 6) & 0x3F) as u8)) != 0u8) by (bit_vector);
        assert((0x80u8 | (((c >> 12) & 0x3F) as u8)) != 0u8) by (bit_vector);
        assert(forall|i: int| 0 <= i < bytes.len() ==> bytes[i] != 0u8);
    }
}

/// Law: a command can be sent exactly when its text holds no NUL character —
/// the byte-level rule of [`cmd_encodable`] and the character-level reading
/// agree, because UTF-8 encodes a NUL byte only for the NUL character.
pub proof fn lemma_cmd_encodable_iff_no_nul_char(chars: Seq<char>)
    ensures
        cmd_encodable(chars) <==> !chars.contains('\0'),
    decreases chars.len(),
{
    if chars.len() == 0 {
        assert(!encode_utf8(chars).contains(0u8));
        assert(!chars.contains('\0'));
    } else {
        let c0 = chars[0] as u32;
        let head = vstd::utf8::encode_scalar(c0);
        let tail = encode_utf8(chars.drop_first());
        vstd::utf8::char_is_scalar(chars[0]);
        lemma_encode_scalar_nul(c0);
        lemma_cmd_encodable_iff_no_nul_char(chars.drop_first());
        assert(encode_utf8(chars) == head + tail);
        assert((head + tail).contains(0u8) <==> head.contains(0u8) || tail.contains(0u8)) by {
            if (head + tail).contains(0u8) {
                let i = choose|i: int|
                    0 <= i < (head + tail).len() && (head + tail)[i] == 0u8;
                if i < head.len() {
                    assert(head[i] == 0u8);
                } else {
                    assert(tail[i - head.len()] == 0u8);
                }
            }
            if head.contains(0u8) {
                let i = choose|i: int| 0 <= i < head.len() && head[i] == 0u8;
                assert((head + tail)[i] == 0u8);
            }
            if tail.contains(0u8) {
                let i = choose|i: int| 0 <= i < tail.len() && tail[i] == 0u8;
                assert((head + tail)[head.len() + i] == 0u8);
            }
        }
        assert(chars.contains('\0') <==> chars[0] == '\0' || chars.drop_first().contains('\0'))
            by {
            if chars.contains('\0') {
                let i = choose|i: int| 0 <= i < chars.len() && chars[i] == '\0';
                if i != 0 {
                    assert(chars.drop_first()[i - 1] == '\0');
                }
            }
            if chars.drop_first().contains('\0') {
                let i = choose|i: int|
                    0 <= i < chars.drop_first().len() && chars.drop_first()[i] == '\0';
                assert(chars[i + 1] == '\0');
            }
        }
        assert('\0' as u32 == 0);
        assert(chars[0] == '\0' <==> c0 == 0) by {
            vstd::utf8::char_u32_cast(chars[0], chars[0] as u32);
            vstd::utf8::char_u32_cast('\0', '\0' as u32);
        }
    }
}

/// Relies on `String::from_utf8`: it returns `Ok` exactly when the bytes are
/// a valid UTF-8 encoding, and the returned string then holds the characters
/// those bytes encode (vstd's `valid_utf8` and `decode_utf8`).
#[verifier::external_body]
fn bytes_to_string(bytes: Vec<u8>) -> (r: Option<String>)
    ensures
        r matches Some(s) ==> valid_utf8(bytes@) && s@ == decode_utf8(bytes@),
        r is None ==> !valid_utf8(bytes@),
{
    match String::from_utf8(bytes) {
        Ok(s) => Some(s),
        Err(_) => None,
    }
}

/// Decode one successful reply: keep what fits the fixed receive buffer and
/// read it as UTF-8.
pub fn decode_reply(mut data: Vec<u8>) -> (r: Result<String, WpaError>)
    ensures
        text_result_view(r) == spec_decoded(data@),
        r matches Ok(s) ==> s@.len() <= BUF_CAPACITY,
{
    let ghost orig: Seq<u8> = data@;
    if data.len() > BUF_CAPACITY {
        data.truncate(BUF_CAPACITY);
    }
    assert(data@ == spec_truncated(orig));
    match bytes_to_string(data) {
        Some(s) => {
            proof {
                lemma_decode_utf8_len(spec_truncated(orig));
            }
            Ok(s)
        },
        None => Err(WpaError::Decode),
    }
}

/// Interpret one outcome of the transport's request primitive.
pub fn interpret_request(status: i32, data: Vec<u8>) -> (r: Result<String, WpaError>)
    ensures
        text_result_view(r) == spec_request_result(status, data@),
        r matches Ok(s) ==> s@.len() <= BUF_CAPACITY,
{
    if status == 0 {
        decode_reply(data)
    } else if status == -1 {
        Err(WpaError::Failure)
    } else if status == -2 {
        Err(WpaError::Timeout)
    } else {
        Err(WpaError::Unknown(status))
    }
}

/// Interpret one outcome of the transport's receive primitive.
pub fn interpret_recv(status: i32, data: Vec<u8>) -> (r: Result<String, WpaError>)
    ensures
        text_result_view(r) == spec_recv_result(status, data@),
        r matches Ok(s) ==> s@.len() <= BUF_CAPACITY,
{
    if status == 0 {
        decode_reply(data)
    } else if status == -1 {
        Err(WpaError::Failure)
    } else {
        Err(WpaError::Unknown(status))
    }
}

/// Interpret one outcome of the transport's pending-check primitive.
pub fn interpret_pending(status: i32) -> (r: Result<bool, WpaError>)
    ensures
        r == spec_pending_result(status),
{
    if status == 0 {
        Ok(false)
    } else if status == 1 {
        Ok(true)
    } else if status == -1 {
        Err(WpaError::Failure)
    } else {
        Err(WpaError::Unknown(status))
    }
}

/// Decoding valid UTF-8 yields at most one character per byte.
pub proof fn lemma_decode_utf8_len(bytes: Seq<u8>)
    requires
        valid_utf8(bytes),
    ensures
        decode_utf8(bytes).len() <= bytes.len(),
    decreases bytes.len(),
{
    if bytes.len() != 0 {
        assert(1 <= length_of_first_scalar(bytes));
        assert(pop_first_scalar(bytes).len() == bytes.len() - length_of_first_scalar(bytes));
        lemma_decode_utf8_len(pop_first_scalar(bytes));
    }
}

/// Law: a reply reads as a decode error exactly when the bytes kept by the
/// fixed receive buffer are not valid UTF-8 — an invalid reply is never
/// silently truncated into some other text.
pub proof fn lemma_decode_error_exactly_on_invalid_utf8(data: Seq<u8>)
    ensures
        (spec_request_result(0, data) == Err::<Seq<char>, WpaError>(WpaError::Decode))
            <==> !valid_utf8(spec_truncated(data)),
        (spec_recv_result(0, data) == Err::<Seq<char>, WpaError>(WpaError::Decode))
            <==> !valid_utf8(spec_truncated(data)),
{
}

/// Law: the request and receive primitives' outcomes never read as an
/// invalid command or as an interface-creation failure; those two errors
/// arise only before a command is sent, and at open, respectively.
pub proof fn lemma_transport_outcomes_stay_transport_errors(status: i32, data: Seq<u8>)
    ensures
        spec_request_result(status, data) != Err::<Seq<char>, WpaError>(WpaError::InvalidCommand),
        spec_request_result(status, data) != Err::<Seq<char>, WpaError>(WpaError::Interface),
        spec_recv_result(status, data) != Err::<Seq<char>, WpaError>(WpaError::InvalidCommand),
        spec_recv_result(status, data) != Err::<Seq<char>, WpaError>(WpaError::Interface),
{
}

/// Law: whatever the transport reports, the text handed back never exceeds
/// the fixed receive buffer's capacity.
pub proof fn lemma_reply_fits_buffer(status: i32, data: Seq<u8>)
    ensures
        spec_request_result(status, data) matches Ok(t) ==> t.len() <= BUF_CAPACITY,
        spec_recv_result(status, data) matches Ok(t) ==> t.len() <= BUF_CAPACITY,
{
    if status == 0 && valid_utf8(spec_truncated(data)) {
        lemma_decode_utf8_len(spec_truncated(data));
    }
}

} // verus!
