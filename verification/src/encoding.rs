//! Decoding of strings that cross the boundary: a name or message arrives as
//! a null-terminated, UTF-8-encoded byte sequence, and a failure to decode is
//! the distinct error `InvalidEncoding`, never a process abort.

use vstd::prelude::*;

use vstd::utf8::decode_utf8;
use vstd::utf8::valid_utf8;

use crate::errors::RegistryError;

verus! {

/// True when the byte sequence carries a null terminator.
pub open spec fn terminated(bytes: Seq<u8>) -> bool {
    exists|i: int| 0 <= i < bytes.len() && bytes[i] == 0
}

/// The bytes before the first null terminator: the payload of a boundary
/// string (the whole sequence if no terminator exists).
pub open spec fn payload_of(bytes: Seq<u8>) -> Seq<u8>
    decreases bytes.len(),
{
    if bytes.len() == 0 {
        Seq::empty()
    } else if bytes[0] == 0 {
        Seq::empty()
    } else {
        seq![bytes[0]] + payload_of(bytes.drop_first())
    }
}

/// The payload is exactly the prefix up to the first null byte.
proof fn lemma_payload_is_prefix(bytes: Seq<u8>, i: int)
    requires
        0 <= i <= bytes.len(),
        forall|j: int| 0 <= j < i ==> bytes[j] != 0,
        i < bytes.len() ==> bytes[i] == 0,
    ensures
        payload_of(bytes) =~= bytes.take(i),
    decreases i,
{
    if i == 0 {
    } else {
        lemma_payload_is_prefix(bytes.drop_first(), i - 1);
        assert(bytes.drop_first().take(i - 1) =~= bytes.take(i).drop_first());
        assert(payload_of(bytes) =~= seq![bytes[0]] + bytes.take(i).drop_first());
    }
}

/// Relies on `alloc::string::String::from_utf8`: it returns `Ok` exactly when
/// the bytes are valid UTF-8, and the string it then carries decodes those
/// bytes; the error case is collapsed to `None`.
#[verifier::external_body]
fn utf8_to_string(bytes: Vec<u8>) -> (r: Option<String>)
    ensures
        r is Some <==> valid_utf8(bytes@),
        r matches Some(s) ==> s@ == decode_utf8(bytes@),
{
    String::from_utf8(bytes).ok()
}

/// Boundary operation: decodes a null-terminated, UTF-8-encoded byte sequence
/// into the string it carries.  Bytes with no terminator, and payloads that
/// are not valid UTF-8, are the distinct error `InvalidEncoding`; nothing
/// panics and nothing is mutated.
pub fn decode_boundary_string(bytes: &[u8]) -> (r: Result<String, RegistryError>)
    ensures
        ({
            if !terminated(bytes@) {
                r == Err::<String, RegistryError>(RegistryError::InvalidEncoding)
            } else if !valid_utf8(payload_of(bytes@)) {
                r == Err::<String, RegistryError>(RegistryError::InvalidEncoding)
            } else {
                r matches Ok(s) && s@ == decode_utf8(payload_of(bytes@))
            }
        }),
{
    let len = bytes.len();
    let mut end: usize = 0;
    while end < len && bytes[end] != 0
        invariant
            len == bytes@.len(),
            end <= len,
            forall|j: int| 0 <= j < end ==> bytes@[j] != 0,
        decreases len - end,
    {
        end = end + 1;
    }
    if end == len {
        proof {
            assert(!terminated(bytes@));
        }
        return Err(RegistryError::InvalidEncoding);
    }
    proof {
        assert(terminated(bytes@));
        lemma_payload_is_prefix(bytes@, end as int);
    }
    let mut payload: Vec<u8> = Vec::new();
    let mut i: usize = 0;
    while i < end
        invariant
            end <= bytes@.len(),
            i <= end,
            payload@ =~= bytes@.take(i as int),
        decreases end - i,
    {
        payload.push(bytes[i]);
        i = i + 1;
    }
    match utf8_to_string(payload) {
        Some(s) => Ok(s),
        None => Err(RegistryError::InvalidEncoding),
    }
}

} // verus!
