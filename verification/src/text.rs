//! Names on the wire: zero-terminated byte strings, and the permissive
//! decoding of bytes that may not be UTF-8.

use crate::error::ProtocolError;
use vstd::prelude::*;
use vstd::slice::slice_subrange;
use vstd::utf8::{decode_utf8, valid_utf8};

verus! {

/// The text that permissive decoding makes of a byte string: its UTF-8
/// reading where it has one, and otherwise a reading in which each invalid
/// sequence is replaced by U+FFFD.
pub uninterp spec fn utf8_lossy(bytes: Seq<u8>) -> Seq<char>;

/// `String::from_utf8_lossy`: the text of `bytes`, with each invalid UTF-8
/// sequence replaced by U+FFFD. Valid UTF-8 is decoded as it stands.
#[verifier::external_body]
fn from_utf8_lossy(bytes: &[u8]) -> (text: String)
    ensures
        text@ == utf8_lossy(bytes@),
        valid_utf8(bytes@) ==> text@ == decode_utf8(bytes@),
{
    String::from_utf8_lossy(bytes).into_owned()
}

/// The text of a byte string, decoded permissively.
pub fn decode_lossy(bytes: &[u8]) -> (text: String)
    ensures
        text@ == utf8_lossy(bytes@),
        valid_utf8(bytes@) ==> text@ == decode_utf8(bytes@),
{
    from_utf8_lossy(bytes)
}

/// Whether a byte string holds a zero byte.
pub open spec fn has_nul(b: Seq<u8>) -> bool {
    exists|i: int| 0 <= i < b.len() && b[i] == 0
}

/// The bytes of a zero-terminated string without the terminator.
///
/// A string without any zero byte is `MissingNul`; one with a zero byte
/// before its last byte is `InteriorNul`.
pub open spec fn spec_cstr_body(b: Seq<u8>) -> Result<Seq<u8>, ProtocolError> {
    if !has_nul(b) {
        Err(ProtocolError::MissingNul)
    } else if has_nul(b.drop_last()) {
        Err(ProtocolError::InteriorNul)
    } else {
        Ok(b.drop_last())
    }
}

/// The zero-terminated form of a name, if it holds no zero byte itself.
pub open spec fn spec_cstring(name: Seq<u8>) -> Result<Seq<u8>, ProtocolError> {
    if has_nul(name) {
        Err(ProtocolError::InteriorNul)
    } else {
        Ok(name.push(0u8))
    }
}

/// Reading a name back from its zero-terminated form gives the name.
pub proof fn law_cstring_round_trip(name: Seq<u8>)
    requires
        !has_nul(name),
    ensures
        spec_cstring(name) == Ok::<Seq<u8>, ProtocolError>(name.push(0u8)),
        spec_cstr_body(name.push(0u8)) == Ok::<Seq<u8>, ProtocolError>(name),
{
    let b = name.push(0u8);
    assert(b[name.len() as int] == 0);
    assert(b.drop_last() =~= name);
}

/// The index of the first zero byte, if there is one.
fn find_nul(bytes: &[u8]) -> (r: Option<usize>)
    ensures
        match r {
            Some(i) => i < bytes.len() && bytes@[i as int] == 0 && forall|j: int|
                0 <= j < i ==> bytes@[j] != 0,
            None => !has_nul(bytes@),
        },
{
    let mut i: usize = 0;
    while i < bytes.len()
        invariant
            i <= bytes.len(),
            forall|j: int| 0 <= j < i ==> bytes@[j] != 0,
        decreases bytes.len() - i,
    {
        if bytes[i] == 0 {
            return Some(i);
        }
        i = i + 1;
    }
    None
}

/// The bytes of a zero-terminated string without the terminator.
pub fn cstr_body(bytes: &[u8]) -> (r: Result<&[u8], ProtocolError>)
    ensures
        match r {
            Ok(body) => spec_cstr_body(bytes@) == Ok::<Seq<u8>, ProtocolError>(body@),
            Err(e) => spec_cstr_body(bytes@) == Err::<Seq<u8>, ProtocolError>(e),
        },
{
    match find_nul(bytes) {
        None => Err(ProtocolError::MissingNul),
        Some(i) => {
            assert(has_nul(bytes@));
            if i + 1 == bytes.len() {
                let body = slice_subrange(bytes, 0, i);
                assert(body@ =~= bytes@.drop_last());
                Ok(body)
            } else {
                assert(bytes@.drop_last()[i as int] == 0);
                Err(ProtocolError::InteriorNul)
            }
        },
    }
}

/// The zero-terminated form of a name.
///
/// Fails with `InteriorNul` exactly when the name holds a zero byte.
pub fn cstring(name: &[u8]) -> (r: Result<Vec<u8>, ProtocolError>)
    ensures
        match r {
            Ok(bytes) => spec_cstring(name@) == Ok::<Seq<u8>, ProtocolError>(bytes@),
            Err(e) => spec_cstring(name@) == Err::<Seq<u8>, ProtocolError>(e),
        },
{
    match find_nul(name) {
        Some(_) => Err(ProtocolError::InteriorNul),
        None => {
            let mut out: Vec<u8> = Vec::new();
            out.extend_from_slice(name);
            out.push(0u8);
            assert(out@ =~= name@.push(0u8));
            Ok(out)
        },
    }
}

} // verus!
