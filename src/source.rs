use vstd::prelude::*;
use vstd::string::StringSliceAdditionalSpecFns;

use crate::err::{self, Error};

verus! {

/// Whether the bytes hold a zero byte anywhere.
pub open spec fn has_nul(b: Seq<u8>) -> bool {
    exists|i: int| 0 <= i < b.len() && b[i] == 0
}

/// The bytes of a source text as the driver reads them: the text, then one
/// zero byte that ends it.
pub open spec fn terminated(b: Seq<u8>) -> Seq<u8> {
    b.push(0)
}

/// Builds the zero-terminated buffer that the driver reads a shader's source
/// from. A text that holds a zero byte itself cannot be passed this way and is
/// refused.
pub fn source_buffer(text: &str) -> (r: Result<Vec<u8>, Error>)
    ensures
        has_nul(text.spec_bytes()) <==> r is Err,
        r is Err ==> r->Err_0 is Other,
        r is Ok ==> r->Ok_0@ == terminated(text.spec_bytes()),
{
    let bytes = text.as_bytes();
    let mut out: Vec<u8> = Vec::new();
    let mut i: usize = 0;
    while i < bytes.len()
        invariant
            bytes@ == text.spec_bytes(),
            0 <= i <= bytes@.len(),
            out@ == bytes@.take(i as int),
            forall|j: int| 0 <= j < i ==> bytes@[j] != 0,
        decreases bytes@.len() - i,
    {
        if bytes[i] == 0 {
            return Err(err::new("source text holds a zero byte"));
        }
        out.push(bytes[i]);
        i = i + 1;
        assert(out@ =~= bytes@.take(i as int));
    }
    out.push(0);
    assert(out@ =~= terminated(text.spec_bytes()));
    Ok(out)
}

} // verus!
