//! Process-wide buffer slots for a foreign host, verified.
//!
//! The host pushes raw bytes into a slot, triggers a compute or decode
//! operation, and reads results back out. Each slot is an optional owned
//! buffer; the foreign-facing layer guards each slot with a non-blocking
//! lock and exports raw pointers, while every operation on a slot's
//! contents lives here with a proved contract.

pub mod exr;
pub mod fold;

use vstd::prelude::*;

verus! {

/// The all-zero byte sequence of length `n`: what a freshly reset input
/// buffer holds.
pub open spec fn zero_bytes(n: nat) -> Seq<u8> {
    Seq::new(n, |i: int| 0u8)
}

/// The bytes a slot currently holds; an absent buffer reads as empty.
pub open spec fn slot_bytes(o: Option<Vec<u8>>) -> Seq<u8> {
    match o {
        Some(v) => v@,
        None => Seq::empty(),
    }
}

/// Contents of the byte input slot after a reset to `sz`, as a function of
/// the previous contents: the old bytes are discarded entirely, so the
/// buffer is zero-filled whatever it held before.
pub open spec fn reset_bytes(prev: Seq<u8>, sz: nat) -> Seq<u8> {
    zero_bytes(sz)
}

/// Resize the byte input slot to `sz`, discarding previous contents:
/// afterwards the buffer holds exactly `sz` zero bytes.
pub fn _reset(o: &mut Option<Vec<u8>>, sz: usize) -> (r: usize)
    ensures
        r == sz,
        *final(o) is Some,
        ((*final(o))->0)@ == reset_bytes(slot_bytes(*old(o)), sz as nat),
{
    let mut v: Vec<u8> = match o.take() {
        Some(v) => v,
        None => Vec::with_capacity(sz),
    };
    v.clear();
    v.resize(sz, 0u8);
    let n: usize = v.len();
    proof {
        assert(v@ =~= reset_bytes(slot_bytes(*old(o)), sz as nat));
    }
    *o = Some(v);
    n
}

/// Host-facing resize of the byte input slot: a negative size is rejected
/// with the sentinel `-1` and the slot is untouched; otherwise the buffer
/// holds exactly `sz` zero bytes and `sz` itself is returned.
pub fn reset(o: &mut Option<Vec<u8>>, sz: i32) -> (r: i32)
    ensures
        sz < 0 ==> r == -1 && *final(o) == *old(o),
        sz >= 0 ==> {
            &&& r == sz
            &&& *final(o) is Some
            &&& ((*final(o))->0)@ == reset_bytes(slot_bytes(*old(o)), sz as nat)
        },
{
    if sz < 0 {
        return -1;
    }
    let u: usize = sz as usize;
    let n: usize = _reset(o, u);
    n as i32
}

/// Resetting to the same size twice without intervening writes leaves the
/// observable contents (and hence the length) unchanged.
pub proof fn lemma_reset_idempotent(prev: Seq<u8>, sz: nat)
    ensures
        reset_bytes(reset_bytes(prev, sz), sz) == reset_bytes(prev, sz),
        reset_bytes(prev, sz).len() == sz,
{
}

} // verus!
