//! Small verified helpers over byte vectors, shared by the other modules.

use vstd::prelude::*;

verus! {

/// Copies a byte vector.
pub fn clone_bytes(v: &Vec<u8>) -> (r: Vec<u8>)
    ensures
        r@ == v@,
{
    let mut r: Vec<u8> = Vec::new();
    let mut i: usize = 0;
    while i < v.len()
        invariant
            i <= v.len(),
            r@ == v@.subrange(0, i as int),
        decreases v.len() - i,
    {
        r.push(v[i]);
        proof {
            assert(r@ =~= v@.subrange(0, i + 1 as int));
        }
        i = i + 1;
    }
    proof {
        assert(v@.subrange(0, v@.len() as int) =~= v@);
    }
    r
}

/// Appends all of `src` to `dst`.
pub fn append_bytes(dst: &mut Vec<u8>, src: &Vec<u8>)
    ensures
        final(dst)@ == old(dst)@ + src@,
{
    let ghost base = dst@;
    let mut i: usize = 0;
    while i < src.len()
        invariant
            i <= src.len(),
            dst@ == base + src@.subrange(0, i as int),
        decreases src.len() - i,
    {
        dst.push(src[i]);
        proof {
            assert(dst@ =~= base + src@.subrange(0, i + 1 as int));
        }
        i = i + 1;
    }
    proof {
        assert(base + src@.subrange(0, src@.len() as int) =~= base + src@);
    }
}

/// Compares two byte vectors for equality in constant time over their common
/// length: once the lengths match, every byte pair is visited and folded into
/// an accumulator, with no data-dependent early exit.
pub fn bytes_eq(a: &Vec<u8>, b: &Vec<u8>) -> (r: bool)
    ensures
        r == (a@ == b@),
{
    if a.len() != b.len() {
        proof {
            assert(a@ != b@);
        }
        return false;
    }
    let mut diff: u8 = 0;
    let mut i: usize = 0;
    while i < a.len()
        invariant
            i <= a.len(),
            a.len() == b.len(),
            (diff == 0) <==> (a@.subrange(0, i as int) =~= b@.subrange(0, i as int)),
        decreases a.len() - i,
    {
        let x = a[i];
        let y = b[i];
        let d = x ^ y;
        let ghost old_diff = diff;
        proof {
            assert((x ^ y) == 0 <==> x == y) by (bit_vector);
            assert((old_diff | d) == 0 <==> old_diff == 0 && d == 0) by (bit_vector)
                requires
                    d == (x ^ y),
            ;
            if old_diff == 0 && x == y {
                assert(a@.subrange(0, i + 1 as int) =~= b@.subrange(0, i + 1 as int));
            }
            if a@.subrange(0, i + 1 as int) =~= b@.subrange(0, i + 1 as int) {
                assert(a@.subrange(0, i as int) =~= a@.subrange(0, i + 1 as int).subrange(
                    0,
                    i as int,
                ));
                assert(b@.subrange(0, i as int) =~= b@.subrange(0, i + 1 as int).subrange(
                    0,
                    i as int,
                ));
                assert(a@.subrange(0, i + 1 as int)[i as int] == a@[i as int]);
                assert(b@.subrange(0, i + 1 as int)[i as int] == b@[i as int]);
                assert(x == y);
            }
        }
        diff = diff | d;
        i = i + 1;
    }
    proof {
        assert(a@.subrange(0, a@.len() as int) =~= a@);
        assert(b@.subrange(0, b@.len() as int) =~= b@);
        if a@.subrange(0, a@.len() as int) =~= b@.subrange(0, b@.len() as int) {
            assert(a@ =~= b@);
        }
    }
    diff == 0
}

} // verus!
