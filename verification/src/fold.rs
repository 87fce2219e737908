//! The reduction path over the byte input slot: the buffer is read as a
//! contiguous run of 4-byte big-endian values and folded left to right.
//!
//! The fold itself is generic in the accumulator and in the two closures
//! (chunk conversion and reduction), so the numeric accumulation the host
//! asks for happens outside; everything about chunking and the order of
//! the traversal is stated and proved here.

use vstd::prelude::*;

verus! {

/// The big-endian 32-bit value a 4-byte chunk holds; any chunk of another
/// length (only a trailing partial chunk can be one) reads as zero.
pub open spec fn be32_of(s: Seq<u8>) -> u32 {
    if s.len() == 4 {
        (s[0] * 0x100_0000 + s[1] * 0x1_0000 + s[2] * 0x100 + s[3]) as u32
    } else {
        0
    }
}

/// Read one chunk as a big-endian 32-bit value; a chunk shorter or longer
/// than 4 bytes reads as zero.
pub fn be32_or_zero(chunk: &[u8]) -> (w: u32)
    ensures
        w == be32_of(chunk@),
{
    if chunk.len() == 4 {
        let b0: u8 = chunk[0];
        let b1: u8 = chunk[1];
        let b2: u8 = chunk[2];
        let b3: u8 = chunk[3];
        (b0 as u32) * 0x100_0000 + (b1 as u32) * 0x1_0000 + (b2 as u32) * 0x100 + (b3 as u32)
    } else {
        0
    }
}

/// Length of the next chunk taken from `n` remaining bytes when a full
/// chunk has `sz` bytes: only the final chunk can be shorter.
pub open spec fn chunk_len(n: nat, sz: nat) -> nat {
    if n <= sz {
        n
    } else {
        sz
    }
}

/// What a left fold over the `sz`-byte chunks of `s` can produce: `res` is
/// reachable from `init` by one chunk-conversion and one reduction step
/// per chunk, in chunk order, through whatever the two closures' contracts
/// allow. When the closures are deterministic this pins `res` exactly
/// (`lemma_fold_rel_pinned`).
pub open spec fn fold_rel<S, T, C: Fn(&[u8]) -> T, R: Fn(S, T) -> S>(
    s: Seq<u8>,
    sz: nat,
    init: S,
    c: C,
    r: R,
    res: S,
) -> bool
    decreases s.len(),
{
    if s.len() == 0 || sz == 0 {
        res == init
    } else {
        let k = chunk_len(s.len(), sz) as int;
        exists|chunk: &[u8], t: T, mid: S|
            {
                &&& chunk@ == s.take(k)
                &&& #[trigger] call_ensures(c, (chunk,), t)
                &&& #[trigger] call_ensures(r, (init, t), mid)
                &&& fold_rel(s.skip(k), sz, mid, c, r, res)
            }
    }
}

/// Fold the `sz`-byte chunks of `s` left to right: each chunk is converted
/// by `chunk2t` and folded into the accumulator by `reducer`, in buffer
/// order, starting from `init`. A trailing chunk shorter than `sz` is
/// handed to `chunk2t` as it is.
pub fn slice_fold<S, T, C: Fn(&[u8]) -> T, R: Fn(S, T) -> S>(
    s: &[u8],
    sz: usize,
    init: S,
    chunk2t: C,
    reducer: R,
) -> (res: S)
    requires
        sz >= 1,
        forall|chunk: &[u8]| chunk@.len() <= sz ==> #[trigger] call_requires(chunk2t, (chunk,)),
        forall|acc: S, t: T| #[trigger] call_requires(reducer, (acc, t)),
    ensures
        fold_rel(s@, sz as nat, init, chunk2t, reducer, res),
    decreases s@.len(),
{
    let len: usize = s.len();
    if len == 0 {
        return init;
    }
    let k: usize = if len < sz {
        len
    } else {
        sz
    };
    let chunk: &[u8] = vstd::slice::slice_subrange(s, 0, k);
    let t: T = chunk2t(chunk);
    let mid: S = reducer(init, t);
    let rest: &[u8] = vstd::slice::slice_subrange(s, k, len);
    proof {
        assert(chunk@ =~= s@.take(k as int));
        assert(rest@ =~= s@.skip(k as int));
    }
    slice_fold(rest, sz, mid, chunk2t, reducer)
}

/// The unique outcome of a chunked left fold whose steps are the spec
/// functions `cs` (chunk conversion) and `rs` (reduction), starting from
/// the abstract accumulator `a`.
pub open spec fn fold_spec<SA, T>(
    s: Seq<u8>,
    sz: nat,
    a: SA,
    cs: spec_fn(Seq<u8>) -> T,
    rs: spec_fn(SA, T) -> SA,
) -> SA
    decreases s.len(),
{
    if s.len() == 0 || sz == 0 {
        a
    } else {
        let k = chunk_len(s.len(), sz) as int;
        fold_spec(s.skip(k), sz, rs(a, cs(s.take(k))), cs, rs)
    }
}

/// When both closures are deterministic — every conversion outcome is
/// `cs` of the chunk, and every reduction outcome abstracts (through
/// `av`) to `rs` of the accumulator — the fold relation pins the result:
/// it abstracts to the unique `fold_spec` outcome.
pub proof fn lemma_fold_rel_pinned<S, T, SA, C: Fn(&[u8]) -> T, R: Fn(S, T) -> S>(
    s: Seq<u8>,
    sz: nat,
    init: S,
    c: C,
    r: R,
    res: S,
    av: spec_fn(S) -> SA,
    cs: spec_fn(Seq<u8>) -> T,
    rs: spec_fn(SA, T) -> SA,
)
    requires
        fold_rel(s, sz, init, c, r, res),
        forall|chunk: &[u8], t: T| #[trigger] call_ensures(c, (chunk,), t) ==> t == cs(chunk@),
        forall|acc: S, t: T, out: S| #[trigger] call_ensures(r, (acc, t), out) ==> av(out) == rs(
            av(acc),
            t,
        ),
    ensures
        av(res) == fold_spec(s, sz, av(init), cs, rs),
    decreases s.len(),
{
    if s.len() == 0 || sz == 0 {
    } else {
        let k = chunk_len(s.len(), sz) as int;
        let (chunk, t, mid): (&[u8], T, S) = choose|chunk: &[u8], t: T, mid: S|
            {
                &&& chunk@ == s.take(k)
                &&& #[trigger] call_ensures(c, (chunk,), t)
                &&& #[trigger] call_ensures(r, (init, t), mid)
                &&& fold_rel(s.skip(k), sz, mid, c, r, res)
            };
        lemma_fold_rel_pinned(s.skip(k), sz, mid, c, r, res, av, cs, rs);
    }
}

/// The buffer read as a run of big-endian 32-bit values, in buffer order;
/// a trailing chunk shorter than 4 bytes reads as zero.
pub open spec fn words32be_of(s: Seq<u8>) -> Seq<u32>
    decreases s.len(),
{
    if s.len() == 0 {
        Seq::empty()
    } else {
        let k = chunk_len(s.len(), 4) as int;
        seq![be32_of(s.take(k))] + words32be_of(s.skip(k))
    }
}

proof fn lemma_words_fold(
    s: Seq<u8>,
    a: Seq<u32>,
    cs: spec_fn(Seq<u8>) -> u32,
    rs: spec_fn(Seq<u32>, u32) -> Seq<u32>,
)
    requires
        forall|c: Seq<u8>| #[trigger] cs(c) == be32_of(c),
        forall|acc: Seq<u32>, t: u32| #[trigger] rs(acc, t) == acc.push(t),
    ensures
        fold_spec(s, 4, a, cs, rs) == a + words32be_of(s),
    decreases s.len(),
{
    if s.len() == 0 {
        assert(a + words32be_of(s) =~= a);
    } else {
        let k = chunk_len(s.len(), 4) as int;
        lemma_words_fold(s.skip(k), rs(a, cs(s.take(k))), cs, rs);
        assert(a.push(be32_of(s.take(k))) + words32be_of(s.skip(k)) =~= a + words32be_of(s));
    }
}

/// Decode the whole buffer into its run of big-endian 32-bit values, by
/// way of the generic fold: what the reduction path traverses, made
/// concrete.
pub fn words32be(s: &[u8]) -> (r: Vec<u32>)
    ensures
        r@ == words32be_of(s@),
{
    let cf = |chunk: &[u8]| -> (w: u32)
        ensures
            w == be32_of(chunk@),
        { be32_or_zero(chunk) };
    let rf = |acc: Vec<u32>, w: u32| -> (out: Vec<u32>)
        ensures
            out@ == acc@.push(w),
        {
            let mut acc = acc;
            acc.push(w);
            acc
        };
    let init: Vec<u32> = Vec::new();
    let ghost g_init = init;
    let ghost g_cf = cf;
    let ghost g_rf = rf;
    let out: Vec<u32> = slice_fold(s, 4, init, cf, rf);
    proof {
        let av = |v: Vec<u32>| v@;
        let cs = |c: Seq<u8>| be32_of(c);
        let rs = |a: Seq<u32>, t: u32| a.push(t);
        lemma_fold_rel_pinned(s@, 4, g_init, g_cf, g_rf, out, av, cs, rs);
        lemma_words_fold(s@, g_init@, cs, rs);
        assert(g_init@ + words32be_of(s@) =~= words32be_of(s@));
    }
    out
}

} // verus!
