use vstd::prelude::*;

verus! {

/// Length of a host byte buffer that can hold a result of `len` bytes: the
/// host sizes its buffers with a `u32`, so a longer result has no buffer.
pub fn buffer_len(len: usize) -> (r: Option<u32>)
    ensures
        r == (if len <= u32::MAX { Some(len as u32) } else { None::<u32> }),
{
    if len <= 4294967295usize {
        Some(len as u32)
    } else {
        None
    }
}

/// Copies an engine result into the host buffer made for it, byte by byte.
/// The buffer is exactly as long as the result: nothing is truncated or padded.
pub fn fill_output(output: &mut [u8], result: &[u8])
    requires
        old(output)@.len() == result@.len(),
    ensures
        final(output)@ == result@,
{
    let n = result.len();
    let mut i: usize = 0;
    while i < n
        invariant
            n == result@.len(),
            output@.len() == n,
            i <= n,
            forall|k: int| 0 <= k < i ==> output@[k] == result@[k],
        decreases n - i,
    {
        output[i] = result[i];
        i = i + 1;
    }
    assert(output@ =~= result@);
}

} // verus!
