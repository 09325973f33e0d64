//! The wire format: a received buffer holds a message up to its first zero
//! byte, and each relayed line reads `"<address>: <text>"`.

use vstd::prelude::*;
use vstd::string::StringExecFns;
use vstd::utf8::{decode_utf8, valid_utf8};

verus! {

/// Size of the buffer each read fills.
pub const DEFAULT_BUFFER_SIZE: usize = 1024;

/// Index of the first zero byte of `b` at or after `i`, or `b.len()` when there is none.
pub open spec fn zero_index_from(b: Seq<u8>, i: int) -> int
    decreases b.len() - i,
{
    if i < 0 || i >= b.len() {
        b.len() as int
    } else if b[i] == 0 {
        i
    } else {
        zero_index_from(b, i + 1)
    }
}

/// The message a buffer holds: every byte before its first zero byte.
pub open spec fn payload_of(b: Seq<u8>) -> Seq<u8> {
    b.take(zero_index_from(b, 0))
}

/// The line relayed for `text` sent from `addr`.
pub open spec fn line_of(addr: Seq<char>, text: Seq<char>) -> Seq<char> {
    addr + seq![':', ' '] + text
}

/// The text a message decodes to, or `None` when its bytes are not UTF-8.
pub open spec fn text_of(bytes: Seq<u8>) -> Option<Seq<char>> {
    if valid_utf8(bytes) {
        Some(decode_utf8(bytes))
    } else {
        None
    }
}

proof fn lemma_zero_index_bounds(b: Seq<u8>, i: int)
    requires
        0 <= i <= b.len(),
    ensures
        i <= zero_index_from(b, i) <= b.len(),
        zero_index_from(b, i) < b.len() ==> b[zero_index_from(b, i)] == 0,
        forall|k: int| i <= k < zero_index_from(b, i) ==> b[k] != 0,
    decreases b.len() - i,
{
    if i < b.len() && b[i] != 0 {
        lemma_zero_index_bounds(b, i + 1);
    }
}

/// The message is the longest prefix of the buffer free of zero bytes.
pub proof fn lemma_payload_shape(b: Seq<u8>)
    ensures
        payload_of(b).len() <= b.len(),
        payload_of(b) == b.take(payload_of(b).len() as int),
        forall|k: int| 0 <= k < payload_of(b).len() ==> payload_of(b)[k] != 0,
        payload_of(b).len() < b.len() ==> b[payload_of(b).len() as int] == 0,
{
    lemma_zero_index_bounds(b, 0);
}

/// Cuts a received buffer at its first zero byte: the message is the
/// longest prefix of the buffer that holds no zero byte.
pub fn decode_payload(buf: &[u8]) -> (msg: Vec<u8>)
    ensures
        msg@ == payload_of(buf@),
        msg@ == buf@.take(msg@.len() as int),
        forall|k: int| 0 <= k < msg@.len() ==> msg@[k] != 0,
        msg@.len() < buf@.len() ==> buf@[msg@.len() as int] == 0,
{
    proof {
        lemma_payload_shape(buf@);
    }
    let mut msg: Vec<u8> = Vec::new();
    let mut i: usize = 0;
    proof {
        lemma_zero_index_bounds(buf@, 0);
    }
    while i < buf.len() && buf[i] != 0
        invariant
            0 <= i <= buf@.len(),
            zero_index_from(buf@, i as int) == zero_index_from(buf@, 0),
            msg@ == buf@.take(i as int),
        decreases buf@.len() - i,
    {
        msg.push(buf[i]);
        i = i + 1;
        assert(msg@ =~= buf@.take(i as int));
    }
    assert(zero_index_from(buf@, i as int) == i);
    msg
}

/// Relies on `String::from_utf8`: it succeeds exactly when the bytes are valid
/// UTF-8, with the text they encode.
#[verifier::external_body]
fn string_from_utf8(bytes: Vec<u8>) -> (r: Option<String>)
    ensures
        r is Some <==> valid_utf8(bytes@),
        r matches Some(s) ==> s@ == decode_utf8(bytes@),
{
    String::from_utf8(bytes).ok()
}

/// Decodes a message as text; `None` when it is not valid UTF-8.
pub fn decode_text(bytes: Vec<u8>) -> (r: Option<String>)
    ensures
        r is Some <==> text_of(bytes@) is Some,
        r matches Some(s) ==> text_of(bytes@) == Some(s@),
{
    string_from_utf8(bytes)
}

/// Builds the line relayed for `text` sent from `addr`.
pub fn format_line(addr: &String, text: &String) -> (line: String)
    ensures
        line@ == line_of(addr@, text@),
{
    let mut line = String::from_str(addr.as_str());
    line.append(": ");
    line.append(text.as_str());
    proof {
        reveal_strlit(": ");
    }
    line
}

} // verus!
