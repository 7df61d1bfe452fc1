//! The inbound message of the real-time transport and its wire form.
//!
//! A message is a sequence of fields. Each field starts with a tag, a base-128
//! varint that holds the field's number and its wire type, and goes on with a
//! value in the form that the wire type names. Field 1 is the id of the
//! object that the message is about, field 2 the kind of message, field 3 the
//! payload. Fields with other numbers are skipped.

use crate::errors::ErrorCode;
use crate::errors::FlowyError;
use vstd::prelude::*;
use vstd::slice::slice_subrange;
use vstd::slice::slice_to_vec;
use vstd::utf8::decode_utf8;
use vstd::utf8::valid_utf8;

verus! {

/// What the server tells the client with a message.
#[derive(Clone, Copy, Debug, PartialEq, Eq, Structural)]
pub enum ServerRevisionWSDataType {
    ServerAck,
    ServerPushRev,
    ServerPullRev,
    UserConnect,
}

/// A message from the server about one object.
#[derive(Clone, Debug)]
pub struct ServerRevisionWSData {
    /// The document that the message is for.
    pub object_id: String,
    pub ty: ServerRevisionWSDataType,
    pub data: Vec<u8>,
}

/// A message as plain values.
pub ghost struct Envelope {
    pub object_id: Seq<char>,
    pub ty: ServerRevisionWSDataType,
    pub data: Seq<u8>,
}

impl View for ServerRevisionWSData {
    type V = Envelope;

    open spec fn view(&self) -> Envelope {
        Envelope { object_id: self.object_id@, ty: self.ty, data: self.data@ }
    }
}

/// The wire type of a varint.
pub const WIRE_VARINT: u64 = 0;

/// The wire type of eight bytes.
pub const WIRE_FIXED64: u64 = 1;

/// The wire type of a length and as many bytes.
pub const WIRE_LENGTH_DELIMITED: u64 = 2;

/// The wire type that opens a group.
pub const WIRE_START_GROUP: u64 = 3;

/// The wire type that closes a group.
pub const WIRE_END_GROUP: u64 = 4;

/// The wire type of four bytes.
pub const WIRE_FIXED32: u64 = 5;

/// The message that a decoder starts from: every field at its default.
pub open spec fn empty_envelope() -> Envelope {
    Envelope {
        object_id: Seq::<char>::empty(),
        ty: ServerRevisionWSDataType::ServerAck,
        data: Seq::<u8>::empty(),
    }
}

/// What the `i`-th byte of a varint adds to its value: its low seven bits,
/// seven places further left with every byte. Bits that leave the 64 are lost.
pub open spec fn varint_digit(byte: u8, i: u64) -> u64 {
    ((byte & 0x7f) as u64) << ((7 * i) as u64)
}

/// The varint whose first `i` bytes lie before `pos + i`: the value of its
/// bytes from the `i`-th on, and the position behind its last byte. A varint
/// ends with its first byte under 128 and has at most ten bytes.
pub open spec fn varint_from(bytes: Seq<u8>, pos: nat, i: nat) -> Option<(u64, nat)>
    decreases 10 - i,
{
    if i >= 10 || pos + i >= bytes.len() {
        None
    } else if bytes[(pos + i) as int] < 0x80 {
        Some((varint_digit(bytes[(pos + i) as int], i as u64), pos + i + 1))
    } else {
        match varint_from(bytes, pos, i + 1) {
            Some((rest, end)) => Some((varint_digit(bytes[(pos + i) as int], i as u64) | rest, end)),
            None => None,
        }
    }
}

/// The varint at `pos`: its value and the position behind it.
pub open spec fn varint(bytes: Seq<u8>, pos: nat) -> Option<(u64, nat)> {
    varint_from(bytes, pos, 0)
}

/// The low 32 bits of a varint.
pub open spec fn low32(value: u64) -> u64 {
    value & 0xffff_ffff
}

/// The tag at `pos`: the field's number, its wire type, and the position
/// behind the tag. The number is not 0 and the wire type is one of the six.
pub open spec fn tag(bytes: Seq<u8>, pos: nat) -> Option<(u64, u64, nat)> {
    match varint(bytes, pos) {
        Some((value, next)) => if low32(value) & 7 <= 5 && low32(value) >> 3 != 0 {
            Some((low32(value) >> 3, low32(value) & 7, next))
        } else {
            None
        },
        None => None,
    }
}

/// The length-delimited value at `pos`: where its bytes start and where they
/// end. The length is a varint, of which the low 32 bits count.
pub open spec fn length_delimited(bytes: Seq<u8>, pos: nat) -> Option<(nat, nat)> {
    match varint(bytes, pos) {
        Some((length, start)) => if low32(length) <= bytes.len() - start {
            Some((start, (start + low32(length)) as nat))
        } else {
            None
        },
        None => None,
    }
}

/// The position behind the value of wire type `wire` at `pos`, for the four
/// wire types that stand for a value.
pub open spec fn skip_value(bytes: Seq<u8>, pos: nat, wire: u64) -> Option<nat> {
    if wire == WIRE_VARINT {
        match varint(bytes, pos) {
            Some((_, end)) => Some(end),
            None => None,
        }
    } else if wire == WIRE_FIXED64 {
        if bytes.len() - pos >= 8 {
            Some(pos + 8)
        } else {
            None
        }
    } else if wire == WIRE_FIXED32 {
        if bytes.len() - pos >= 4 {
            Some(pos + 4)
        } else {
            None
        }
    } else if wire == WIRE_LENGTH_DELIMITED {
        match length_delimited(bytes, pos) {
            Some((_, end)) => Some(end),
            None => None,
        }
    } else {
        None
    }
}

/// A varint ends behind where it starts, and inside the bytes.
pub proof fn lemma_varint_advances(bytes: Seq<u8>, pos: nat, i: nat)
    ensures
        varint_from(bytes, pos, i) matches Some((_, end)) ==> pos + i < end <= bytes.len(),
    decreases 10 - i,
{
    if i < 10 && pos + i < bytes.len() && bytes[(pos + i) as int] >= 0x80 {
        lemma_varint_advances(bytes, pos, i + 1);
    }
}

/// A tag and a value end behind where they start, and inside the bytes.
pub proof fn lemma_values_advance(bytes: Seq<u8>, pos: nat, wire: u64)
    ensures
        tag(bytes, pos) matches Some((_, _, end)) ==> pos < end <= bytes.len(),
        length_delimited(bytes, pos) matches Some((start, end)) ==> pos < start <= end
            <= bytes.len(),
        skip_value(bytes, pos, wire) matches Some(end) ==> pos < end <= bytes.len(),
{
    lemma_varint_advances(bytes, pos, 0);
}

#[via_fn]
proof fn skip_group_terminates(bytes: Seq<u8>, pos: nat) {
    match tag(bytes, pos) {
        Some((_, wire, next)) => {
            lemma_values_advance(bytes, pos, wire);
            lemma_values_advance(bytes, next, wire);
        },
        None => {},
    }
}

/// The position behind the group whose fields start at `pos`: behind the
/// first tag that closes a group. A group holds values only, no group.
pub open spec fn skip_group(bytes: Seq<u8>, pos: nat) -> Option<nat>
    decreases bytes.len() - pos,
    via skip_group_terminates
{
    match tag(bytes, pos) {
        Some((_, wire, next)) => if wire == WIRE_END_GROUP {
            Some(next)
        } else {
            match skip_value(bytes, next, wire) {
                Some(end) => skip_group(bytes, end),
                None => None,
            }
        },
        None => None,
    }
}

/// A group ends behind where it starts, and inside the bytes.
pub proof fn lemma_group_advances(bytes: Seq<u8>, pos: nat)
    ensures
        skip_group(bytes, pos) matches Some(end) ==> pos < end <= bytes.len(),
    decreases bytes.len() - pos,
{
    match tag(bytes, pos) {
        Some((_, wire, next)) => {
            lemma_values_advance(bytes, pos, wire);
            lemma_values_advance(bytes, next, wire);
            if wire != WIRE_END_GROUP {
                match skip_value(bytes, next, wire) {
                    Some(end) => lemma_group_advances(bytes, end),
                    None => {},
                }
            }
        },
        None => {},
    }
}

/// The position behind the value of a field that the message does not know.
pub open spec fn skip_unknown(bytes: Seq<u8>, pos: nat, wire: u64) -> Option<nat> {
    if wire == WIRE_START_GROUP {
        skip_group(bytes, pos)
    } else {
        skip_value(bytes, pos, wire)
    }
}

/// The kind of message that the number `code` stands for; `otherwise` where
/// it stands for none.
pub open spec fn kind_of(code: u64, otherwise: ServerRevisionWSDataType) -> ServerRevisionWSDataType {
    if code == 0 {
        ServerRevisionWSDataType::ServerAck
    } else if code == 1 {
        ServerRevisionWSDataType::ServerPushRev
    } else if code == 2 {
        ServerRevisionWSDataType::ServerPullRev
    } else if code == 3 {
        ServerRevisionWSDataType::UserConnect
    } else {
        otherwise
    }
}

/// The message after the field at `pos` was read into `message`, and the
/// position behind that field.
///
/// The object id is a length-delimited value that holds UTF-8. The kind is a
/// varint; a number that stands for no kind leaves the kind as it was. The
/// payload is a length-delimited value. A later field of the same number
/// replaces an earlier one.
pub open spec fn field(bytes: Seq<u8>, pos: nat, message: Envelope) -> Option<(Envelope, nat)> {
    match tag(bytes, pos) {
        None => None,
        Some((number, wire, next)) => if number == 1 {
            if wire != WIRE_LENGTH_DELIMITED {
                None
            } else {
                match length_delimited(bytes, next) {
                    Some((start, end)) => if valid_utf8(bytes.subrange(start as int, end as int)) {
                        Some(
                            (
                                Envelope {
                                    object_id: decode_utf8(bytes.subrange(start as int, end as int)),
                                    ..message
                                },
                                end,
                            ),
                        )
                    } else {
                        None
                    },
                    None => None,
                }
            }
        } else if number == 2 {
            if wire != WIRE_VARINT {
                None
            } else {
                match varint(bytes, next) {
                    Some((code, end)) => Some(
                        (Envelope { ty: kind_of(low32(code), message.ty), ..message }, end),
                    ),
                    None => None,
                }
            }
        } else if number == 3 {
            if wire != WIRE_LENGTH_DELIMITED {
                None
            } else {
                match length_delimited(bytes, next) {
                    Some((start, end)) => Some(
                        (Envelope { data: bytes.subrange(start as int, end as int), ..message }, end),
                    ),
                    None => None,
                }
            }
        } else {
            match skip_unknown(bytes, next, wire) {
                Some(end) => Some((message, end)),
                None => None,
            }
        },
    }
}

/// A field ends behind where it starts, and inside the bytes.
pub proof fn lemma_field_advances(bytes: Seq<u8>, pos: nat, message: Envelope)
    ensures
        field(bytes, pos, message) matches Some((_, end)) ==> pos < end <= bytes.len(),
{
    match tag(bytes, pos) {
        Some((_, wire, next)) => {
            lemma_values_advance(bytes, pos, wire);
            lemma_values_advance(bytes, next, wire);
            lemma_group_advances(bytes, next);
        },
        None => {},
    }
}

#[via_fn]
proof fn decode_from_terminates(bytes: Seq<u8>, pos: nat, message: Envelope) {
    lemma_field_advances(bytes, pos, message);
}

/// The message that the fields from `pos` to the end of `bytes` make of
/// `message`.
pub open spec fn decode_from(bytes: Seq<u8>, pos: nat, message: Envelope) -> Option<Envelope>
    decreases bytes.len() - pos,
    via decode_from_terminates
{
    if pos >= bytes.len() {
        Some(message)
    } else {
        match field(bytes, pos, message) {
            Some((next, end)) => decode_from(bytes, end, next),
            None => None,
        }
    }
}

/// The message that `bytes` hold, or `None` where they are no message.
pub open spec fn decode(bytes: Seq<u8>) -> Option<Envelope> {
    decode_from(bytes, 0, empty_envelope())
}

/// What a varint is worth once `value` was gathered from the bytes before
/// those of `rest`.
pub open spec fn joined(value: u64, rest: Option<(u64, nat)>) -> Option<(u64, nat)> {
    match rest {
        Some((more, end)) => Some((value | more, end)),
        None => None,
    }
}

/// The bytes of a UTF-8 string as a string; `None` where they are no UTF-8.
/// This is `String::from_utf8`.
#[verifier::external_body]
fn string_from_utf8(bytes: Vec<u8>) -> (text: Option<String>)
    ensures
        text is Some <==> valid_utf8(bytes@),
        text matches Some(s) ==> s@ == decode_utf8(bytes@),
{
    String::from_utf8(bytes).ok()
}

/// Reads the varint at `pos`.
fn read_varint(bytes: &[u8], pos: usize) -> (found: Option<(u64, usize)>)
    requires
        pos <= bytes.len(),
    ensures
        match varint(bytes@, pos as nat) {
            Some((value, end)) => found == Some((value, end as usize)) && pos < end
                <= bytes.len(),
            None => found is None,
        },
{
    let mut value: u64 = 0;
    let mut i: u64 = 0;
    proof {
        lemma_varint_advances(bytes@, pos as nat, 0);
        match varint(bytes@, pos as nat) {
            Some((whole, _)) => {
                assert(0u64 | whole == whole) by (bit_vector);
            },
            None => {},
        }
    }
    while i < 10
        invariant
            i <= 10,
            pos <= bytes.len(),
            varint(bytes@, pos as nat) == joined(value, varint_from(bytes@, pos as nat, i as nat)),
            varint(bytes@, pos as nat) matches Some((_, end)) ==> pos < end <= bytes.len(),
        decreases 10 - i,
    {
        if bytes.len() - pos <= i as usize {
            return None;
        }
        let byte = bytes[pos + i as usize];
        let digit = ((byte & 0x7f) as u64) << (7 * i);
        assert(digit == varint_digit(byte, i));
        if byte < 0x80 {
            return Some((value | digit, pos + i as usize + 1));
        }
        proof {
            match varint_from(bytes@, pos as nat, (i + 1) as nat) {
                Some((rest, _)) => {
                    assert(value | (digit | rest) == (value | digit) | rest) by (bit_vector);
                },
                None => {},
            }
        }
        value = value | digit;
        i += 1;
    }
    None
}

/// Reads the tag at `pos`.
fn read_tag(bytes: &[u8], pos: usize) -> (found: Option<(u64, u64, usize)>)
    requires
        pos <= bytes.len(),
    ensures
        match tag(bytes@, pos as nat) {
            Some((number, wire, end)) => found == Some((number, wire, end as usize)) && pos < end
                <= bytes.len(),
            None => found is None,
        },
{
    match read_varint(bytes, pos) {
        Some((value, next)) => {
            let low = value & 0xffff_ffff;
            if low & 7 <= 5 && low >> 3 != 0 {
                Some((low >> 3, low & 7, next))
            } else {
                None
            }
        },
        None => None,
    }
}

/// Reads the bounds of the length-delimited value at `pos`.
fn read_length_delimited(bytes: &[u8], pos: usize) -> (found: Option<(usize, usize)>)
    requires
        pos <= bytes.len(),
    ensures
        match length_delimited(bytes@, pos as nat) {
            Some((start, end)) => found == Some((start as usize, end as usize)) && pos < start
                <= end <= bytes.len(),
            None => found is None,
        },
{
    match read_varint(bytes, pos) {
        Some((length, start)) => {
            let low = length & 0xffff_ffff;
            if low <= (bytes.len() - start) as u64 {
                Some((start, start + low as usize))
            } else {
                None
            }
        },
        None => None,
    }
}

/// Skips the value of wire type `wire` at `pos`.
fn skip_value_at(bytes: &[u8], pos: usize, wire: u64) -> (found: Option<usize>)
    requires
        pos <= bytes.len(),
    ensures
        match skip_value(bytes@, pos as nat, wire) {
            Some(end) => found == Some(end as usize) && pos < end <= bytes.len(),
            None => found is None,
        },
{
    if wire == WIRE_VARINT {
        match read_varint(bytes, pos) {
            Some((_, end)) => Some(end),
            None => None,
        }
    } else if wire == WIRE_FIXED64 {
        if bytes.len() - pos >= 8 {
            Some(pos + 8)
        } else {
            None
        }
    } else if wire == WIRE_FIXED32 {
        if bytes.len() - pos >= 4 {
            Some(pos + 4)
        } else {
            None
        }
    } else if wire == WIRE_LENGTH_DELIMITED {
        match read_length_delimited(bytes, pos) {
            Some((_, end)) => Some(end),
            None => None,
        }
    } else {
        None
    }
}

/// Skips the group whose fields start at `pos`.
fn skip_group_at(bytes: &[u8], pos: usize) -> (found: Option<usize>)
    requires
        pos <= bytes.len(),
    ensures
        match skip_group(bytes@, pos as nat) {
            Some(end) => found == Some(end as usize) && pos < end <= bytes.len(),
            None => found is None,
        },
{
    let mut at = pos;
    loop
        invariant
            pos <= at <= bytes.len(),
            skip_group(bytes@, pos as nat) == skip_group(bytes@, at as nat),
        decreases bytes.len() - at,
    {
        let (wire, next) = match read_tag(bytes, at) {
            Some((_, wire, next)) => (wire, next),
            None => {
                return None;
            },
        };
        if wire == WIRE_END_GROUP {
            return Some(next);
        }
        at =
        match skip_value_at(bytes, next, wire) {
            Some(end) => end,
            None => {
                return None;
            },
        };
    }
}

/// Skips the value of a field that the message does not know.
fn skip_unknown_at(bytes: &[u8], pos: usize, wire: u64) -> (found: Option<usize>)
    requires
        pos <= bytes.len(),
    ensures
        match skip_unknown(bytes@, pos as nat, wire) {
            Some(end) => found == Some(end as usize) && pos < end <= bytes.len(),
            None => found is None,
        },
{
    if wire == WIRE_START_GROUP {
        skip_group_at(bytes, pos)
    } else {
        skip_value_at(bytes, pos, wire)
    }
}

/// The error for bytes that are no message.
fn malformed(reason: &str) -> (e: FlowyError)
    ensures
        e.code == ErrorCode::ParseError,
        e.msg@ == reason@,
{
    FlowyError::new(ErrorCode::ParseError).context(reason)
}

/// The kind of message that `code` stands for, if it stands for one.
fn kind_from(code: u64) -> (kind: Option<ServerRevisionWSDataType>)
    ensures
        forall|otherwise: ServerRevisionWSDataType| #[trigger]
            kind_of(code, otherwise) == match kind {
                Some(known) => known,
                None => otherwise,
            },
{
    if code == 0 {
        Some(ServerRevisionWSDataType::ServerAck)
    } else if code == 1 {
        Some(ServerRevisionWSDataType::ServerPushRev)
    } else if code == 2 {
        Some(ServerRevisionWSDataType::ServerPullRev)
    } else if code == 3 {
        Some(ServerRevisionWSDataType::UserConnect)
    } else {
        None
    }
}

impl ServerRevisionWSData {
    /// The message that `bytes` hold. Bytes that are no message give a
    /// `ParseError`.
    pub fn from_bytes(bytes: &[u8]) -> (parsed: Result<ServerRevisionWSData, FlowyError>)
        ensures
            match decode(bytes@) {
                Some(envelope) => parsed matches Ok(message) && message@ == envelope,
                None => parsed matches Err(e) && e.code == ErrorCode::ParseError,
            },
    {
        let mut message = ServerRevisionWSData {
            object_id: String::new(),
            ty: ServerRevisionWSDataType::ServerAck,
            data: Vec::new(),
        };
        let mut pos: usize = 0;
        while pos < bytes.len()
            invariant
                pos <= bytes.len(),
                decode(bytes@) == decode_from(bytes@, pos as nat, message@),
            decreases bytes.len() - pos,
        {
            let (number, wire, next) = match read_tag(bytes, pos) {
                Some(found) => found,
                None => {
                    return Err(malformed("the tag of a field is malformed"));
                },
            };
            if number == 1 {
                if wire != WIRE_LENGTH_DELIMITED {
                    return Err(malformed("the object id has an unexpected wire type"));
                }
                let (start, end) = match read_length_delimited(bytes, next) {
                    Some(found) => found,
                    None => {
                        return Err(malformed("the object id is truncated"));
                    },
                };
                match string_from_utf8(slice_to_vec(slice_subrange(bytes, start, end))) {
                    Some(object_id) => {
                        message.object_id = object_id;
                    },
                    None => {
                        return Err(malformed("the object id is no UTF-8"));
                    },
                }
                pos = end;
            } else if number == 2 {
                if wire != WIRE_VARINT {
                    return Err(malformed("the kind has an unexpected wire type"));
                }
                let (code, end) = match read_varint(bytes, next) {
                    Some(found) => found,
                    None => {
                        return Err(malformed("the kind is malformed"));
                    },
                };
                match kind_from(code & 0xffff_ffff) {
                    Some(kind) => {
                        message.ty = kind;
                    },
                    None => {},
                }
                pos = end;
            } else if number == 3 {
                if wire != WIRE_LENGTH_DELIMITED {
                    return Err(malformed("the payload has an unexpected wire type"));
                }
                let (start, end) = match read_length_delimited(bytes, next) {
                    Some(found) => found,
                    None => {
                        return Err(malformed("the payload is truncated"));
                    },
                };
                message.data = slice_to_vec(slice_subrange(bytes, start, end));
                pos = end;
            } else {
                pos =
                match skip_unknown_at(bytes, next, wire) {
                    Some(end) => end,
                    None => {
                        return Err(malformed("an unknown field is malformed"));
                    },
                };
            }
        }
        Ok(message)
    }
}

} // verus!
