//! Framing of recognizer input and output: audio is fed to the streaming
//! recognizer in fixed-size chunks, and only non-empty text is passed on.
use vstd::prelude::*;

verus! {

/// Number of samples the streaming recognizer is fed at a time.
pub const STREAM_CHUNK: usize = 3200;

/// A piece of recognized text and whether it is final.
#[derive(Debug, Clone)]
pub struct Transcript {
    pub text: String,
    pub is_final: bool,
}

/// What a recognizer result yields: its text, unless there is no result or
/// its text is empty.
pub fn recognized(text: Option<String>, is_final: bool) -> (r: Option<Transcript>)
    ensures
        r matches Some(t) ==> text matches Some(s) && t.text@ == s@ && s@.len() > 0 && t.is_final
            == is_final,
        r is None <==> (text is None || text->0@.len() == 0),
{
    match text {
        Some(s) => {
            if s.as_str().is_empty() {
                None
            } else {
                Some(Transcript { text: s, is_final })
            }
        },
        None => None,
    }
}

/// The chunks of `c` joined end to end.
pub open spec fn joined<T>(c: Seq<Seq<T>>) -> Seq<T>
    decreases c.len(),
{
    if c.len() == 0 {
        Seq::empty()
    } else {
        joined(c.drop_last()) + c.last()
    }
}

/// Chunks cut from the front of `s` as `take_chunks` cuts them, joined end to
/// end and followed by the remainder, give back `s`: no sample is lost,
/// repeated or reordered.
pub proof fn lemma_chunks_cover<T>(s: Seq<T>, c: Seq<Seq<T>>, size: int)
    requires
        size > 0,
        c.len() * size <= s.len(),
        forall|i: int| 0 <= i < c.len() ==> #[trigger] c[i] == s.subrange(i * size, i * size + size),
    ensures
        joined(c) == s.take(c.len() * size),
        joined(c) + s.skip(c.len() * size) == s,
    decreases c.len(),
{
    if c.len() == 0 {
        assert(s.take(0) =~= Seq::<T>::empty());
        assert(s.skip(0) =~= s);
    } else {
        let k: int = c.len() - 1;
        assert(k * size + size == c.len() * size) by (nonlinear_arith)
            requires
                k == c.len() - 1,
        ;
        assert(k * size <= c.len() * size) by (nonlinear_arith)
            requires
                k == c.len() - 1,
                size > 0,
        ;
        assert forall|i: int| 0 <= i < c.drop_last().len() implies #[trigger] c.drop_last()[i]
            == s.subrange(i * size, i * size + size) by {
            assert(c.drop_last()[i] == c[i]);
        }
        lemma_chunks_cover(s, c.drop_last(), size);
        assert(c[k] == s.subrange(k * size, k * size + size));
        assert(s.take(k * size) + s.subrange(k * size, k * size + size) =~= s.take(
            c.len() * size,
        ));
    }
    assert(s.take(c.len() * size) + s.skip(c.len() * size) =~= s);
}

/// What the offline recognizer's result for one speech segment yields: its
/// text, always final, unless there is no result or its text is empty.
pub fn segment_result(text: Option<String>) -> (r: Option<Transcript>)
    ensures
        r matches Some(t) ==> text matches Some(s) && t.text@ == s@ && s@.len() > 0 && t.is_final,
        r is None <==> (text is None || text->0@.len() == 0),
{
    recognized(text, true)
}

/// The elements `v[from..to]`.
fn copy_range<T: Copy>(v: &Vec<T>, from: usize, to: usize) -> (r: Vec<T>)
    requires
        from <= to <= v.len(),
    ensures
        r@ == v@.subrange(from as int, to as int),
{
    let mut r: Vec<T> = Vec::new();
    let mut k: usize = from;
    while k < to
        invariant
            from <= k <= to <= v.len(),
            r@ == v@.subrange(from as int, k as int),
        decreases to - k,
    {
        r.push(v[k]);
        k = k + 1;
        assert(r@ =~= v@.subrange(from as int, k as int));
    }
    r
}

/// Takes as many whole chunks of `size` elements as `buf` holds off its
/// front, in order, and leaves the remainder (fewer than `size` elements) in
/// `buf`.
pub fn take_chunks<T: Copy>(buf: &mut Vec<T>, size: usize) -> (chunks: Vec<Vec<T>>)
    requires
        size > 0,
    ensures
        chunks.len() == old(buf).len() as int / size as int,
        forall|i: int|
            0 <= i < chunks.len() ==> (#[trigger] chunks@[i])@ == old(buf)@.subrange(
                i * size,
                i * size + size,
            ),
        final(buf)@ == old(buf)@.skip(chunks.len() * size),
        final(buf).len() < size,
{
    let n: usize = buf.len();
    let mut chunks: Vec<Vec<T>> = Vec::new();
    let mut pos: usize = 0;
    assert(chunks.len() * size == 0) by (nonlinear_arith)
        requires
            chunks.len() == 0,
    ;
    while n - pos >= size
        invariant
            size > 0,
            buf@ == old(buf)@,
            pos <= n == buf.len(),
            pos == chunks.len() * size,
            forall|i: int|
                0 <= i < chunks.len() ==> (#[trigger] chunks@[i])@ == buf@.subrange(
                    i * size,
                    i * size + size,
                ),
        decreases n - pos,
    {
        let c = copy_range(buf, pos, pos + size);
        let ghost cnt: nat = chunks.len() as nat;
        chunks.push(c);
        proof {
            assert(pos + size == (cnt + 1) * size) by (nonlinear_arith)
                requires
                    pos == cnt * size,
            ;
        }
        pos = pos + size;
    }
    let rest = copy_range(buf, pos, n);
    proof {
        let cnt: int = chunks.len() as int;
        assert(cnt == n as int / size as int) by (nonlinear_arith)
            requires
                pos == cnt * size,
                pos <= n,
                n - pos < size,
                size > 0,
                cnt >= 0,
        ;
        assert(rest@ =~= buf@.skip(pos as int));
    }
    *buf = rest;
    chunks
}

} // verus!
