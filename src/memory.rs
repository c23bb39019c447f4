use vstd::prelude::*;

verus! {

/// Bytes in a page.
pub const PAGE: usize = 0x100;

/// Bytes in a bank: 256 pages, one 256 x 256 video image.
pub const BANK: usize = PAGE * 256;

/// Bytes of the 24-bit address space: 256 banks.
pub const MEMORY: usize = BANK * 256;

/// Size of the store: the address space and eight bytes past it.
pub const FULL_MEMORY: usize = MEMORY + 8;

/// Address of the 16-bit keyboard bitmask (big-endian).
pub const INPUT: usize = 0;

/// Address of the 24-bit program counter seed (big-endian).
pub const PC: usize = 2;

/// Address of the video bank selector.
pub const VIDEO: usize = 5;

/// An access to an address outside the store.
#[derive(Debug, Clone, Copy, PartialEq, Eq, Structural)]
pub struct Fault {
    pub address: usize,
}

/// The big-endian 24-bit value held by the three bytes at `a`, `a + 1`, `a + 2`.
pub open spec fn address_at(m: Seq<u8>, a: int) -> int {
    m[a] as int * 0x10000 + m[a + 1] as int * 0x100 + m[a + 2] as int
}

/// Whether the three bytes of an address starting at `a` all lie in the store.
pub open spec fn address_fits(a: int) -> bool {
    0 <= a && a + 2 < FULL_MEMORY
}

/// The store after an image is copied to its start: at most `MEMORY` bytes of the
/// image land, everything else keeps its value.
pub open spec fn loaded(m: Seq<u8>, image: Seq<u8>) -> Seq<u8> {
    Seq::new(m.len(), |i: int| if i < image.len() && i < MEMORY { image[i] } else { m[i] })
}

/// First address of the bank that the video selector names.
pub open spec fn video_offset(m: Seq<u8>) -> int {
    m[VIDEO as int] as int * BANK as int
}

/// Reading back an address: the three bytes written at `a`, `a + 1`, `a + 2` are
/// read as `b0 << 16 | b1 << 8 | b2`.
pub proof fn lemma_read_address_round_trip(m: Seq<u8>, a: int, b0: u8, b1: u8, b2: u8)
    requires
        m.len() == FULL_MEMORY,
        address_fits(a),
    ensures
        address_at(m.update(a, b0).update(a + 1, b1).update(a + 2, b2), a) == ((b0 as u32) << 16
            | (b1 as u32) << 8 | b2 as u32) as int,
{
    let w = m.update(a, b0).update(a + 1, b1).update(a + 2, b2);
    assert(w[a] == b0 && w[a + 1] == b1 && w[a + 2] == b2);
    assert(((b0 as u32) << 16 | (b1 as u32) << 8 | b2 as u32) == (b0 as u32) * 0x10000 + (
    b1 as u32) * 0x100 + b2 as u32) by (bit_vector);
}

/// Loading an image into a zero store leaves the image's first bytes, at most
/// `MEMORY` of them, at the start and zero everywhere else.
pub proof fn lemma_load_into_zero(image: Seq<u8>)
    ensures
        ({
            let m = loaded(Seq::new(FULL_MEMORY as nat, |i: int| 0u8), image);
            &&& m.len() == FULL_MEMORY
            &&& forall|i: int| 0 <= i < image.len() && i < MEMORY ==> #[trigger] m[i] == image[i]
            &&& forall|i: int|
                0 <= i < FULL_MEMORY && (i >= image.len() || i >= MEMORY) ==> #[trigger] m[i] == 0
        }),
{
}

/// The flat byte store of the machine, registers included.
pub struct Memory {
    data: Vec<u8>,
}

impl View for Memory {
    type V = Seq<u8>;

    closed spec fn view(&self) -> Seq<u8> {
        self.data@
    }
}

impl Memory {
    /// The store has its full size.
    pub open spec fn wf(&self) -> bool {
        self@.len() == FULL_MEMORY
    }

    /// A zero-filled store.
    pub fn new() -> (r: Memory)
        ensures
            r.wf(),
            r@ == Seq::new(FULL_MEMORY as nat, |i: int| 0u8),
    {
        let mut data: Vec<u8> = Vec::with_capacity(FULL_MEMORY);
        let mut i: usize = 0;
        while i < FULL_MEMORY
            invariant
                i <= FULL_MEMORY,
                data@.len() == i,
                forall|j: int| 0 <= j < i ==> data@[j] == 0u8,
            decreases FULL_MEMORY - i,
        {
            data.push(0u8);
            i = i + 1;
        }
        let r = Memory { data };
        assert(r@ =~= Seq::new(FULL_MEMORY as nat, |i: int| 0u8));
        r
    }

    /// The big-endian 24-bit value at `index`, `index + 1`, `index + 2`.
    pub fn get_value_at(&self, index: usize) -> (r: Result<usize, Fault>)
        requires
            self.wf(),
        ensures
            address_fits(index as int) ==> r == Ok::<usize, Fault>(
                address_at(self@, index as int) as usize,
            ),
            !address_fits(index as int) ==> r == Err::<usize, Fault>(Fault { address: index }),
    {
        if index >= FULL_MEMORY - 2 {
            return Err(Fault { address: index });
        }
        let hi = self.data[index] as usize;
        let mid = self.data[index + 1] as usize;
        let lo = self.data[index + 2] as usize;
        Ok(hi * 0x10000 + mid * 0x100 + lo)
    }

    /// The byte at `index`.
    pub fn read_byte(&self, index: usize) -> (r: Result<u8, Fault>)
        requires
            self.wf(),
        ensures
            index < FULL_MEMORY ==> r == Ok::<u8, Fault>(self@[index as int]),
            index >= FULL_MEMORY ==> r == Err::<u8, Fault>(Fault { address: index }),
    {
        if index >= FULL_MEMORY {
            return Err(Fault { address: index });
        }
        Ok(self.data[index])
    }

    /// Stores `value` at `index`.
    pub fn write_byte(&mut self, index: usize, value: u8) -> (r: Result<(), Fault>)
        requires
            old(self).wf(),
        ensures
            final(self).wf(),
            index < FULL_MEMORY ==> r == Ok::<(), Fault>(()) && final(self)@ == old(self)@.update(
                index as int,
                value,
            ),
            index >= FULL_MEMORY ==> r == Err::<(), Fault>(Fault { address: index })
                && final(self)@ == old(self)@,
    {
        if index >= FULL_MEMORY {
            return Err(Fault { address: index });
        }
        self.data.set(index, value);
        Ok(())
    }

    /// Copies a program image to the start of the store; bytes past `MEMORY` are dropped.
    pub fn load_image(&mut self, image: &[u8])
        requires
            old(self).wf(),
        ensures
            final(self).wf(),
            final(self)@ == loaded(old(self)@, image@),
    {
        let n: usize = if image.len() < MEMORY {
            image.len()
        } else {
            MEMORY
        };
        let mut i: usize = 0;
        while i < n
            invariant
                n <= image@.len(),
                n <= MEMORY,
                i <= n,
                self.wf(),
                forall|j: int| 0 <= j < i ==> self@[j] == image@[j],
                forall|j: int| i <= j < FULL_MEMORY ==> self@[j] == old(self)@[j],
            decreases n - i,
        {
            self.data.set(i, image[i]);
            i = i + 1;
        }
        assert(self@ =~= loaded(old(self)@, image@));
    }

    /// The bank that the video selector names.
    pub fn get_video_data(&self) -> (r: &[u8])
        requires
            self.wf(),
        ensures
            r@ == self@.subrange(video_offset(self@), video_offset(self@) + BANK),
    {
        let offset = (self.data[VIDEO] as usize) * BANK;
        vstd::slice::slice_subrange(self.data.as_slice(), offset, offset + BANK)
    }
}

} // verus!
