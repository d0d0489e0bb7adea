//! The interface conventions of the supervisory protocol: the status word
//! states, the plain interface records, and the packing of text into the
//! 16-bit registers of the extern image.

use vstd::prelude::*;

verus! {

pub const RESET: u16 = 0x0000;

pub const IDLE: u16 = 0x1000;

pub const WARN: u16 = 0x3000;

pub const START: u16 = 0x5000;

pub const BUSY: u16 = 0x6000;

pub const STOP: u16 = 0x7000;

pub const ERROR: u16 = 0x8000;

/// A discrete output interface record: current value, requested target, and
/// the status word driving its state machine.
#[derive(Clone, Copy, PartialEq, Eq, Structural, Debug)]
pub struct DiscreteOutput {
    pub value: i16,
    pub target: i16,
    pub status: u16,
}

impl DiscreteOutput {
    /// A record at rest: everything zero, which is the `RESET` state.
    pub fn new() -> (r: DiscreteOutput)
        ensures
            r.value == 0,
            r.target == 0,
            r.status == RESET,
    {
        DiscreteOutput { value: 0, target: 0, status: RESET }
    }
}

/// How many registers a text of `src_len` bytes fills in a buffer of
/// `dst_len` registers: two bytes per register, a trailing odd byte gets a
/// register of its own, and nothing beyond the buffer is written.
pub open spec fn copied_words(src_len: int, dst_len: int) -> int {
    let need = (src_len + 1) / 2;
    if need < dst_len {
        need
    } else {
        dst_len
    }
}

/// A register buffer after packing a text into it: two bytes per register,
/// low byte first, a trailing odd byte padded with zero, and everything
/// beyond the packed text untouched.
pub open spec fn spec_copy_words(dst: Seq<u16>, src: Seq<u8>) -> Seq<u16> {
    Seq::new(
        dst.len(),
        |k: int|
            if k < copied_words(src.len() as int, dst.len() as int) {
                (src[2 * k] + 256 * (if 2 * k + 1 < src.len() {
                    src[2 * k + 1]
                } else {
                    0u8
                })) as u16
            } else {
                dst[k]
            },
    )
}

/// Pack the bytes of a text into 16-bit registers, first byte in the low
/// half of the first register.  A trailing odd byte is padded with zero; any
/// register beyond the packed text keeps its old value.
pub fn copy_string(dst: &mut Vec<u16>, src: &Vec<u8>)
    ensures
        final(dst)@ == spec_copy_words(old(dst)@, src@),
        final(dst)@.len() == old(dst)@.len(),
        forall|k: int|
            0 <= k < copied_words(src@.len() as int, old(dst)@.len() as int) ==> final(dst)@[k]
                == src@[2 * k] + 256 * (if 2 * k + 1 < src@.len() {
                src@[2 * k + 1]
            } else {
                0u8
            }),
        forall|k: int|
            copied_words(src@.len() as int, old(dst)@.len() as int) <= k < old(dst)@.len()
                ==> final(dst)@[k] == old(dst)@[k],
{
    let s = src.len();
    let d = dst.len();
    let need = s / 2 + s % 2;
    let w = if need < d {
        need
    } else {
        d
    };
    let mut k: usize = 0;
    while k < w
        invariant
            k <= w,
            s == src@.len(),
            d == dst@.len(),
            dst@.len() == old(dst)@.len(),
            w == copied_words(s as int, d as int),
            2 * w <= s + 1,
            forall|j: int|
                0 <= j < k ==> dst@[j] == src@[2 * j] + 256 * (if 2 * j + 1 < s {
                    src@[2 * j + 1]
                } else {
                    0u8
                }),
            forall|j: int| k <= j < d ==> dst@[j] == old(dst)@[j],
        decreases w - k,
    {
        let lo = src[2 * k];
        let hi: u8 = if 2 * k + 1 < s {
            src[2 * k + 1]
        } else {
            0
        };
        dst.set(k, lo as u16 + 256 * (hi as u16));
        k = k + 1;
    }
    proof {
        assert(dst@ =~= spec_copy_words(old(dst)@, src@));
    }
}

} // verus!
