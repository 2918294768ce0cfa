use vstd::prelude::*;

verus! {

/// What `String::from_utf8_lossy` makes of a byte sequence.
pub uninterp spec fn lossy_text(b: Seq<u8>) -> Seq<char>;

/// Relies on `String::from_utf8_lossy`: the text depends on the bytes alone,
/// and since each invalid sequence becomes U+FFFD, bytes give no text only
/// when there are none.
#[verifier::external_body]
fn decode_lossy(b: &[u8]) -> (r: String)
    ensures
        r@ == lossy_text(b@),
        b@.len() == 0 <==> r@.len() == 0,
{
    String::from_utf8_lossy(b).into_owned()
}

/// `n` is where the text in `b` ends: at the first zero byte, or at the end
/// of `b` when it holds none.
pub open spec fn is_text_end(b: Seq<u8>, n: int) -> bool {
    &&& 0 <= n <= b.len()
    &&& forall|i: int| 0 <= i < n ==> b[i] != 0
    &&& n == b.len() || b[n] == 0
}

/// Where the text in `b` ends.
pub open spec fn text_end(b: Seq<u8>) -> int {
    choose|n: int| is_text_end(b, n)
}

/// The text in `b` ends at one place only.
pub proof fn lemma_text_end_unique(b: Seq<u8>, n: int)
    requires
        is_text_end(b, n),
    ensures
        text_end(b) == n,
{
    let m = text_end(b);
    assert(is_text_end(b, m));
    if m < n {
        assert(b[m] != 0);
    } else if n < m {
        assert(b[n] != 0);
    }
}

/// The room a diagnostic log needs, from the length that the driver reported
/// for it: that length, or none where the report is not positive.
pub open spec fn capacity_for(reported: i32) -> usize {
    if reported <= 0 {
        0
    } else {
        reported as usize
    }
}

/// The buffer size to fetch a diagnostic log into, from the length that the
/// driver reported for it.
pub fn log_capacity(reported: i32) -> (r: usize)
    ensures
        r == capacity_for(reported),
        reported > 0 ==> r == reported,
{
    if reported <= 0 {
        0
    } else {
        reported as usize
    }
}

/// The diagnostic text held in a buffer that the driver filled: the bytes
/// before the zero that ends them, read as UTF-8 with invalid sequences
/// replaced.
pub fn log_text(buf: &Vec<u8>) -> (r: String)
    ensures
        r@ == lossy_text(buf@.take(text_end(buf@))),
        text_end(buf@) > 0 <==> r@.len() > 0,
{
    let mut n: usize = 0;
    let mut text: Vec<u8> = Vec::new();
    while n < buf.len() && buf[n] != 0
        invariant
            0 <= n <= buf@.len(),
            forall|i: int| 0 <= i < n ==> buf@[i] != 0,
            text@ == buf@.take(n as int),
        decreases buf@.len() - n,
    {
        text.push(buf[n]);
        n = n + 1;
        assert(text@ =~= buf@.take(n as int));
    }
    proof {
        lemma_text_end_unique(buf@, n as int);
    }
    decode_lossy(text.as_slice())
}

} // verus!
