use vstd::prelude::*;

verus! {

/// Thirty-two zero bytes.
pub open spec fn zeros32() -> Seq<u8> {
    Seq::new(32, |i: int| 0u8)
}

/// Copies the 32 bytes of `s` that start at `off` into an array.
pub fn read_array32(s: &[u8], off: usize) -> (r: [u8; 32])
    requires
        off + 32 <= s@.len(),
    ensures
        r@ == s@.subrange(off as int, off + 32),
{
    let n = s.len();
    let mut r: [u8; 32] = [0u8; 32];
    let mut i: usize = 0;
    while i < 32
        invariant
            i <= 32,
            n == s@.len(),
            off + 32 <= s@.len(),
            forall|j: int| 0 <= j < i ==> r@[j] == s@[off + j],
        decreases 32 - i,
    {
        r[i] = s[off + i];
        i = i + 1;
    }
    assert(r@ =~= s@.subrange(off as int, off + 32));
    r
}

/// Appends every byte of `s` to `v`.
pub fn push_all(v: &mut Vec<u8>, s: &[u8])
    ensures
        final(v)@ == old(v)@ + s@,
{
    let mut i: usize = 0;
    while i < s.len()
        invariant
            i <= s@.len(),
            v@ == old(v)@ + s@.subrange(0, i as int),
        decreases s@.len() - i,
    {
        v.push(s[i]);
        i = i + 1;
        assert(v@ =~= old(v)@ + s@.subrange(0, i as int));
    }
    assert(s@.subrange(0, s@.len() as int) =~= s@);
}

/// Overwrites the head of `v` with `s`, leaving the rest as it was.
pub fn write_head(v: &mut Vec<u8>, s: &Vec<u8>)
    requires
        s@.len() <= old(v)@.len(),
    ensures
        final(v)@ == s@ + old(v)@.subrange(s@.len() as int, old(v)@.len() as int),
{
    let mut i: usize = 0;
    while i < s.len()
        invariant
            i <= s@.len(),
            s@.len() <= old(v)@.len(),
            v@.len() == old(v)@.len(),
            forall|j: int| 0 <= j < i ==> v@[j] == s@[j],
            forall|j: int| i <= j < v@.len() ==> v@[j] == old(v)@[j],
        decreases s@.len() - i,
    {
        v[i] = s[i];
        i = i + 1;
    }
    assert(v@ =~= s@ + old(v)@.subrange(s@.len() as int, old(v)@.len() as int));
}

} // verus!
