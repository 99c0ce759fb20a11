//! Range primitives on vectors: read, overwrite, fill and extend, each
//! specified against a sequence-level splice.

use vstd::prelude::*;

verus! {

/// `dst` with the elements of `src` written starting at `at`; elements
/// outside that window keep their value.
pub open spec fn splice_seq<T>(dst: Seq<T>, at: int, src: Seq<T>) -> Seq<T> {
    dst.map(|i: int, b: T| if at <= i < at + src.len() { src[i - at] } else { b })
}

/// Copies `v[at .. at + len]` out into a fresh vector.
pub fn vec_read_range<T: Copy>(v: &Vec<T>, at: usize, len: usize) -> (r: Vec<T>)
    requires
        at + len <= v@.len(),
    ensures
        r@ == v@.subrange(at as int, at as int + len as int),
{
    let vlen = v.len();
    let mut r: Vec<T> = Vec::new();
    let mut i: usize = 0;
    while i < len
        invariant
            i <= len,
            at + len <= vlen,
            vlen == v@.len(),
            r@ == v@.subrange(at as int, at as int + i as int),
        decreases len - i,
    {
        r.push(v[at + i]);
        proof {
            assert(v@.subrange(at as int, at as int + (i + 1) as int) =~= v@.subrange(
                at as int,
                at as int + i as int,
            ) + seq![v@[at as int + i as int]]);
        }
        i = i + 1;
    }
    r
}

/// Overwrites `v[at .. at + src.len()]` with the elements of `src`.
pub fn vec_write_range<T: Copy>(v: &mut Vec<T>, at: usize, src: &Vec<T>)
    requires
        at + src@.len() <= old(v)@.len(),
    ensures
        final(v)@ == splice_seq(old(v)@, at as int, src@),
{
    let len = src.len();
    let vlen = v.len();
    let mut i: usize = 0;
    while i < len
        invariant
            i <= len,
            len == src@.len(),
            at + len <= vlen,
            vlen == v@.len(),
            v@ == splice_seq(old(v)@, at as int, src@.take(i as int)),
        decreases len - i,
    {
        v.set(at + i, src[i]);
        proof {
            assert(v@ =~= splice_seq(old(v)@, at as int, src@.take(i + 1)));
        }
        i = i + 1;
    }
    proof {
        assert(src@.take(len as int) =~= src@);
    }
}

/// Writes `len` copies of `val` into `v` starting at `at`.
pub fn vec_fill_range<T: Copy>(v: &mut Vec<T>, at: usize, len: usize, val: T)
    requires
        at + len <= old(v)@.len(),
    ensures
        final(v)@ == splice_seq(old(v)@, at as int, Seq::new(len as nat, |i: int| val)),
{
    let mut tmp: Vec<T> = Vec::new();
    let mut i: usize = 0;
    while i < len
        invariant
            i <= len,
            tmp@ == Seq::new(i as nat, |j: int| val),
        decreases len - i,
    {
        tmp.push(val);
        proof {
            assert(tmp@ =~= Seq::new((i + 1) as nat, |j: int| val));
        }
        i = i + 1;
    }
    vec_write_range(v, at, &tmp);
}

/// A copy of `v`.
pub fn vec_dup<T: Copy>(v: &Vec<T>) -> (r: Vec<T>)
    ensures
        r@ == v@,
{
    let r = vec_read_range(v, 0, v.len());
    proof {
        assert(v@.subrange(0, v@.len() as int) =~= v@);
    }
    r
}

/// Appends `n` copies of `val` to `v`.
pub fn vec_extend<T: Copy>(v: &mut Vec<T>, n: usize, val: T)
    requires
        old(v)@.len() + n <= usize::MAX,
    ensures
        final(v)@ == old(v)@ + Seq::new(n as nat, |i: int| val),
{
    let mut i: usize = 0;
    while i < n
        invariant
            i <= n,
            v@.len() + (n - i) <= usize::MAX,
            v@ == old(v)@ + Seq::new(i as nat, |j: int| val),
        decreases n - i,
    {
        v.push(val);
        proof {
            assert(v@ =~= old(v)@ + Seq::new((i + 1) as nat, |j: int| val));
        }
        i = i + 1;
    }
}

} // verus!
