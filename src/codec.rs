use vstd::prelude::*;
use vstd::string::StrSliceExecFns;
use vstd::utf8::encode_utf8;

use crate::error::Error;

verus! {

/// The UTF-8 bytes of a text.
pub open spec fn utf8(s: Seq<char>) -> Seq<u8> {
    encode_utf8(s)
}

/// The text's UTF-8 bytes hold no zero byte.
pub open spec fn nul_free(s: Seq<char>) -> bool {
    forall|i: int| 0 <= i < utf8(s).len() ==> utf8(s)[i] != 0
}

/// The zero-terminated byte form of a text, as the native engine reads it.
pub open spec fn c_text(s: Seq<char>) -> Seq<u8> {
    utf8(s).push(0)
}

/// Encodes `s` as zero-terminated bytes, refusing a text with a zero byte inside.
pub fn encode(s: &str) -> (r: Result<Vec<u8>, Error>)
    ensures
        nul_free(s@) <==> r is Ok,
        r matches Ok(b) ==> b@ == c_text(s@),
        r matches Err(e) ==> e == Error::EncodingError,
{
    let mut b = s.as_bytes_vec();
    let n = b.len();
    let mut i: usize = 0;
    while i < n
        invariant
            n == b@.len(),
            b@ == utf8(s@),
            i <= n,
            forall|j: int| 0 <= j < i ==> b@[j] != 0,
        decreases n - i,
    {
        if b[i] == 0 {
            return Err(Error::EncodingError);
        }
        i = i + 1;
    }
    b.push(0);
    Ok(b)
}

} // verus!
