//! Framing a series with a constant on both sides, and cutting the frame off again.

use vstd::prelude::*;
use crate::sample::Sample;

verus! {

/// `count` copies of `fill`.
pub open spec fn repeated(fill: Sample, count: nat) -> Seq<Sample> {
    Seq::new(count, |i: int| fill)
}

/// `data` with `left` copies of `fill` before it and `right` copies after it.
pub open spec fn framed(data: Seq<Sample>, fill: Sample, left: nat, right: nat) -> Seq<Sample> {
    repeated(fill, left) + data + repeated(fill, right)
}

/// The `len` samples of `full` that follow its first `skip` samples.
pub open spec fn trimmed(full: Seq<Sample>, skip: nat, len: nat) -> Seq<Sample> {
    full.subrange(skip as int, (skip + len) as int)
}

/// Appends `count` copies of `fill` to `out`.
fn push_repeated(out: &mut Vec<Sample>, fill: Sample, count: usize)
    requires
        old(out).len() + count <= usize::MAX,
    ensures
        final(out)@ == old(out)@ + repeated(fill, count as nat),
{
    let ghost before = out@;
    let mut i: usize = 0;
    while i < count
        invariant
            i <= count,
            out@ == before + repeated(fill, i as nat),
        decreases count - i,
    {
        out.push(fill);
        i += 1;
    }
}

/// Appends the samples of `data` to `out`.
fn push_all(out: &mut Vec<Sample>, data: &[Sample])
    requires
        old(out).len() + data.len() <= usize::MAX,
    ensures
        final(out)@ == old(out)@ + data@,
{
    let ghost before = out@;
    let mut i: usize = 0;
    while i < data.len()
        invariant
            i <= data.len(),
            out@ == before + data@.subrange(0, i as int),
        decreases data.len() - i,
    {
        out.push(data[i]);
        i += 1;
    }
    assert(data@.subrange(0, data.len() as int) == data@);
}

/// Builds `data` framed by `left` copies of `fill` before it and `right`
/// copies after it.
pub fn frame(data: &[Sample], fill: Sample, left: usize, right: usize) -> (r: Vec<Sample>)
    requires
        left + data.len() + right <= usize::MAX,
    ensures
        r@ == framed(data@, fill, left as nat, right as nat),
{
    let mut out: Vec<Sample> = Vec::new();
    push_repeated(&mut out, fill, left);
    push_all(&mut out, data);
    push_repeated(&mut out, fill, right);
    out
}

/// Copies the `len` samples of `full` that follow its first `skip` samples.
pub fn trim(full: &[Sample], skip: usize, len: usize) -> (r: Vec<Sample>)
    requires
        skip + len <= full.len(),
    ensures
        r@ == trimmed(full@, skip as nat, len as nat),
{
    let mut out: Vec<Sample> = Vec::new();
    let mut i: usize = 0;
    while i < len
        invariant
            i <= len,
            skip + len <= full.len(),
            out@ == full@.subrange(skip as int, skip + i),
        decreases len - i,
    {
        out.push(full[skip + i]);
        i += 1;
    }
    out
}

/// Inside a frame, the sample at position `p` is the sample of the series at
/// `p - left` where there is one, and `fill` on both sides of it.
pub proof fn lemma_framed_index(data: Seq<Sample>, fill: Sample, left: nat, right: nat, p: int)
    requires
        0 <= p < left + data.len() + right,
    ensures
        framed(data, fill, left, right)[p] == if left <= p < left + data.len() {
            data[p - left]
        } else {
            fill
        },
{
}

/// Cutting `left` samples off the front of a frame, and keeping as many as
/// the series has, gives the series back, sample for sample.
pub proof fn lemma_trim_undoes_frame(data: Seq<Sample>, fill: Sample, left: nat, right: nat)
    ensures
        trimmed(framed(data, fill, left, right), left, data.len()) == data,
{
}

} // verus!
