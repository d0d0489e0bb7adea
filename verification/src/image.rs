//! The two memory images of the runtime.
//!
//! `ProcessImage` is the cyclic snapshot of all bus registers: a flat byte
//! buffer accessed through typed, length-checked accessors at the offsets the
//! layout computed.  Multi-byte accessors store the low byte first.
//!
//! `ExternImage` is the second image, not backed by bus registers: a flat
//! buffer of 16-bit words owned by the cyclic thread and addressed by the
//! gateway.  All gateway access is serialized through that thread, so the
//! image needs no lock.

use vstd::prelude::*;

use crate::types::Error;

verus! {

/// The word buffer after writing `vals` at word position `from`: the written
/// range holds `vals`, every other word is unchanged.
pub open spec fn spec_write_words(mem: Seq<u16>, from: int, vals: Seq<u16>) -> Seq<u16> {
    Seq::new(
        mem.len(),
        |i: int|
            if from <= i < from + vals.len() {
                vals[i - from]
            } else {
                mem[i]
            },
    )
}

/// The gateway-addressable image: a fixed-size buffer of 16-bit words,
/// mutated only by the cyclic thread.
#[derive(Debug)]
pub struct ExternImage {
    words: Vec<u16>,
}

impl View for ExternImage {
    type V = Seq<u16>;

    closed spec fn view(&self) -> Seq<u16> {
        self.words@
    }
}

impl ExternImage {
    /// The image never holds more words than half the addressable byte count,
    /// so its size in bytes always fits.
    pub open spec fn wf(&self) -> bool {
        2 * self@.len() <= usize::MAX
    }

    /// A fresh image of `size_words` registers, all zero.
    pub fn new(size_words: usize) -> (r: ExternImage)
        requires
            2 * size_words <= usize::MAX,
        ensures
            r.wf(),
            r@.len() == size_words,
            forall|i: int| 0 <= i < size_words ==> r@[i] == 0u16,
    {
        let mut words: Vec<u16> = Vec::new();
        let mut i: usize = 0;
        while i < size_words
            invariant
                i <= size_words,
                words@.len() == i,
                forall|j: int| 0 <= j < i ==> words@[j] == 0u16,
            decreases size_words - i,
        {
            words.push(0);
            i = i + 1;
        }
        ExternImage { words }
    }

    /// The number of 16-bit registers in the image.
    pub fn word_count(&self) -> (r: usize)
        ensures
            r == self@.len(),
    {
        self.words.len()
    }

    /// The size of the image in bytes: two per register.
    pub fn size(&self) -> (r: usize)
        requires
            self.wf(),
        ensures
            r == 2 * self@.len(),
    {
        2 * self.words.len()
    }

    /// The register at word position `i`.
    pub fn get_word(&self, i: usize) -> (r: u16)
        requires
            i < self@.len(),
        ensures
            r == self@[i as int],
    {
        self.words[i]
    }

    /// Overwrite the register at word position `i`.
    pub fn set_word(&mut self, i: usize, v: u16)
        requires
            old(self).wf(),
            i < old(self)@.len(),
        ensures
            final(self).wf(),
            final(self)@ == old(self)@.update(i as int, v),
    {
        self.words.set(i, v);
    }

    /// Copy `count` registers starting at word position `from`.
    pub fn read_words(&self, from: usize, count: usize) -> (r: Vec<u16>)
        requires
            from + count <= self@.len(),
        ensures
            r@ == self@.subrange(from as int, from + count),
    {
        let n = self.words.len();
        let mut r: Vec<u16> = Vec::new();
        let mut i: usize = 0;
        while i < count
            invariant
                i <= count,
                n == self@.len(),
                from + count <= self@.len(),
                r@ == self@.subrange(from as int, from + i),
            decreases count - i,
        {
            r.push(self.words[from + i]);
            proof {
                assert(r@ =~= self@.subrange(from as int, from + i + 1));
            }
            i = i + 1;
        }
        r
    }

    /// Overwrite the registers starting at word position `from` with `vals`.
    /// Exactly the written range changes; every other register keeps its
    /// value.
    pub fn write_words(&mut self, from: usize, vals: &Vec<u16>)
        requires
            old(self).wf(),
            from + vals@.len() <= old(self)@.len(),
        ensures
            final(self).wf(),
            final(self)@ == spec_write_words(old(self)@, from as int, vals@),
    {
        let mut i: usize = 0;
        while i < vals.len()
            invariant
                self.wf(),
                i <= vals@.len(),
                from + vals@.len() <= self@.len(),
                self@.len() == old(self)@.len(),
                forall|k: int| 0 <= k < from ==> self@[k] == old(self)@[k],
                forall|k: int| from + vals@.len() <= k < self@.len() ==> self@[k] == old(self)@[k],
                forall|k: int| from <= k < from + i ==> self@[k] == vals@[k - from],
                forall|k: int| from + i <= k < from + vals@.len() ==> self@[k] == old(self)@[k],
            decreases vals@.len() - i,
    {
            self.words.set(from + i, vals[i]);
            i = i + 1;
        }
        proof {
            assert(self@ =~= spec_write_words(old(self)@, from as int, vals@));
        }
    }
}

/// The cyclic snapshot of all bus registers, as a flat byte buffer with
/// typed, length-checked accessors.
#[derive(Debug)]
pub struct ProcessImage {
    data: Vec<u8>,
}

impl View for ProcessImage {
    type V = Seq<u8>;

    closed spec fn view(&self) -> Seq<u8> {
        self.data@
    }
}

impl ProcessImage {
    /// A fresh image of `size` bytes, all zero.
    pub fn new(size: usize) -> (r: ProcessImage)
        ensures
            r@.len() == size,
            forall|i: int| 0 <= i < size ==> r@[i] == 0u8,
    {
        let mut data: Vec<u8> = Vec::new();
        let mut i: usize = 0;
        while i < size
            invariant
                i <= size,
                data@.len() == i,
                forall|j: int| 0 <= j < i ==> data@[j] == 0u8,
            decreases size - i,
        {
            data.push(0);
            i = i + 1;
        }
        ProcessImage { data }
    }

    /// Interpret a raw byte buffer as the process image, without copying.
    /// The buffer must have exactly the computed image size; a mismatch is
    /// the fatal configuration error of the layout contract.
    pub fn attach(data: Vec<u8>, size: usize) -> (r: Result<ProcessImage, Error>)
        ensures
            r is Ok <==> data@.len() == size,
            r is Ok ==> r->Ok_0@ == data@,
            r is Err ==> r->Err_0 == (Error::SizeMismatch { domain: data@.len() as usize, image: size }),
    {
        if data.len() == size {
            Ok(ProcessImage { data })
        } else {
            Err(Error::SizeMismatch { domain: data.len(), image: size })
        }
    }

    /// Hand the raw buffer back, for the bus exchange.
    pub fn into_bytes(self) -> (r: Vec<u8>)
        ensures
            r@ == self@,
    {
        self.data
    }

    /// The size of the image in bytes.
    pub fn len(&self) -> (r: usize)
        ensures
            r == self@.len(),
    {
        self.data.len()
    }

    /// The byte at offset `off`.
    pub fn get_u8(&self, off: usize) -> (r: u8)
        requires
            off < self@.len(),
        ensures
            r == self@[off as int],
    {
        self.data[off]
    }

    /// Overwrite the byte at offset `off`.
    pub fn set_u8(&mut self, off: usize, v: u8)
        requires
            off < old(self)@.len(),
        ensures
            final(self)@ == old(self)@.update(off as int, v),
    {
        self.data.set(off, v);
    }

    /// The 16-bit field at byte offset `off`, low byte first.
    pub fn get_u16(&self, off: usize) -> (r: u16)
        requires
            off + 2 <= self@.len(),
        ensures
            r == self@[off as int] + 256 * self@[off + 1],
    {
        let n = self.data.len();
        self.data[off] as u16 + 256 * (self.data[off + 1] as u16)
    }

    /// Overwrite the 16-bit field at byte offset `off`, low byte first.
    pub fn set_u16(&mut self, off: usize, v: u16)
        requires
            off + 2 <= old(self)@.len(),
        ensures
            final(self)@ == old(self)@.update(off as int, (v % 256) as u8).update(
                off + 1,
                (v / 256) as u8,
            ),
    {
        let n = self.data.len();
        self.data.set(off, (v % 256) as u8);
        self.data.set(off + 1, (v / 256) as u8);
    }

    /// The 32-bit field at byte offset `off`, low byte first.
    pub fn get_u32(&self, off: usize) -> (r: u32)
        requires
            off + 4 <= self@.len(),
        ensures
            r == self@[off as int] + 0x100 * self@[off + 1] + 0x1_0000 * self@[off + 2]
                + 0x100_0000 * self@[off + 3],
    {
        let n = self.data.len();
        let b0 = self.data[off] as u32;
        let b1 = self.data[off + 1] as u32;
        let b2 = self.data[off + 2] as u32;
        let b3 = self.data[off + 3] as u32;
        b0 + 0x100 * b1 + 0x1_0000 * b2 + 0x100_0000 * b3
    }

    /// Overwrite the 32-bit field at byte offset `off`, low byte first.
    pub fn set_u32(&mut self, off: usize, v: u32)
        requires
            off + 4 <= old(self)@.len(),
        ensures
            final(self)@ == old(self)@.update(off as int, (v % 0x100) as u8).update(
                off + 1,
                ((v / 0x100) % 0x100) as u8,
            ).update(off + 2, ((v / 0x1_0000) % 0x100) as u8).update(
                off + 3,
                (v / 0x100_0000) as u8,
            ),
    {
        let n = self.data.len();
        self.data.set(off, (v % 0x100) as u8);
        self.data.set(off + 1, ((v / 0x100) % 0x100) as u8);
        self.data.set(off + 2, ((v / 0x1_0000) % 0x100) as u8);
        self.data.set(off + 3, (v / 0x100_0000) as u8);
    }
}

} // verus!
