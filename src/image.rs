use vstd::prelude::*;

verus! {

/// Copies the program image onto the end of `buffer`. The caller allocates
/// the buffer empty, with room for the whole image at the alignment the
/// loader needs, so that it then holds exactly the image's bytes.
pub fn fill_image(buffer: &mut Vec<u8>, image: &[u8])
    ensures
        final(buffer)@ == old(buffer)@ + image@,
        old(buffer)@.len() == 0 ==> final(buffer)@ == image@,
{
    let n = image.len();
    let mut i: usize = 0;
    while i < n
        invariant
            n == image@.len(),
            i <= n,
            buffer@ == old(buffer)@ + image@.subrange(0, i as int),
        decreases n - i,
    {
        buffer.push(image[i]);
        assert(image@.subrange(0, i + 1) == image@.subrange(0, i as int).push(image@[i as int]));
        i = i + 1;
    }
    assert(image@ == image@.subrange(0, n as int));
    assert(old(buffer)@.len() == 0 ==> old(buffer)@ + image@ == image@);
}

} // verus!
