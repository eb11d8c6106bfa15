//! Text that crosses the boundary of the native API: strings sent to it must
//! hold no NUL byte, and bytes read back from it must be UTF-8.
use vstd::prelude::*;
use vstd::string::*;
use vstd::utf8::*;

use crate::error::Error;

verus! {

/// No byte of `b` is NUL.
pub open spec fn nul_free(b: Seq<u8>) -> bool {
    forall|i: int| 0 <= i < b.len() ==> b[i] != 0
}

/// `i` is the position of the first NUL byte of `b`.
pub open spec fn is_first_nul(b: Seq<u8>, i: int) -> bool {
    &&& 0 <= i < b.len()
    &&& b[i] == 0
    &&& nul_free(b.take(i))
}

/// The part of a native text buffer that the native API reports as written.
/// A count outside the buffer leaves the buffer whole.
pub open spec fn written_part(b: Seq<u8>, written: int) -> Seq<u8> {
    if 0 <= written < b.len() {
        b.take(written)
    } else {
        b
    }
}

/// Checks that `s` can be handed to the native API as a NUL-terminated string.
pub fn check_c_string(s: &str) -> (r: Result<(), Error>)
    ensures
        match r {
            Ok(()) => nul_free(s.spec_bytes()),
            Err(Error::CStringNull(p)) => is_first_nul(s.spec_bytes(), p as int),
            Err(_) => false,
        },
{
    let b = s.as_bytes();
    let mut i: usize = 0;
    while i < b.len()
        invariant
            b@ == s.spec_bytes(),
            i <= b@.len(),
            nul_free(b@.take(i as int)),
        decreases b@.len() - i,
    {
        if b[i] == 0 {
            return Err(Error::CStringNull(i));
        }
        assert(b@.take(i as int + 1) =~= b@.take(i as int).push(b@[i as int]));
        i += 1;
    }
    assert(b@.take(i as int) =~= b@);
    Ok(())
}

/// Relies on `String::from_utf8`: it accepts exactly the byte sequences that
/// are valid UTF-8, and the text it returns is the one they encode.
#[verifier::external_body]
fn utf8_string(bytes: Vec<u8>) -> (r: Option<String>)
    ensures
        r is Some <==> valid_utf8(bytes@),
        r matches Some(t) ==> t@ == decode_utf8(bytes@),
{
    String::from_utf8(bytes).ok()
}

/// Turns a text buffer filled by the native API into a `String`: only the
/// first `written` bytes count, they must hold no NUL byte and be UTF-8.
pub fn decode_native_text(buffer: Vec<u8>, written: i32) -> (r: Result<String, Error>)
    ensures
        ({
            let bytes = written_part(buffer@, written as int);
            match r {
                Ok(t) => nul_free(bytes) && valid_utf8(bytes) && t@ == decode_utf8(bytes),
                Err(Error::CStringNull(p)) => is_first_nul(bytes, p as int),
                Err(Error::CStringUtf8) => nul_free(bytes) && !valid_utf8(bytes),
                Err(_) => false,
            }
        }),
{
    let mut bytes = buffer;
    if 0 <= written && (written as usize) < bytes.len() {
        bytes.truncate(written as usize);
    }
    assert(bytes@ =~= written_part(buffer@, written as int));
    let mut i: usize = 0;
    while i < bytes.len()
        invariant
            bytes@ == written_part(buffer@, written as int),
            i <= bytes@.len(),
            nul_free(bytes@.take(i as int)),
        decreases bytes@.len() - i,
    {
        if bytes[i] == 0 {
            return Err(Error::CStringNull(i));
        }
        assert(bytes@.take(i as int + 1) =~= bytes@.take(i as int).push(bytes@[i as int]));
        i += 1;
    }
    assert(bytes@.take(i as int) =~= bytes@);
    match utf8_string(bytes) {
        Some(t) => Ok(t),
        None => Err(Error::CStringUtf8),
    }
}

} // verus!
