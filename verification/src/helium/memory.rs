//! The 256-byte unified address space.
//!
//! The memory is built once from a ROM image of at most 256 bytes, zero-padded
//! to the full size. If the image is nonempty, its bytes form a write-protected
//! ROM prefix whose last address is `rom_limit`; writes into that prefix are
//! rejected (reported through a boolean result) and leave the memory unchanged.

use vstd::prelude::*;

verus! {

/// Abstract state of the address space: the 256 bytes it holds and the
/// inclusive last address of the write-protected ROM prefix, if one exists.
#[verifier::ext_equal]
pub ghost struct MemView {
    pub bytes: Seq<u8>,
    pub rom_limit: Option<u8>,
}

impl MemView {
    /// The memory is always exactly 256 bytes long.
    pub open spec fn wf(self) -> bool {
        self.bytes.len() == 256
    }

    /// The memory obtained by loading `rom` at address 0 and zero-filling the
    /// rest; a nonempty image protects addresses `0 ..= rom.len() - 1`.
    pub open spec fn of_rom(rom: Seq<u8>) -> MemView {
        MemView {
            bytes: rom + Seq::new((256 - rom.len()) as nat, |i: int| 0u8),
            rom_limit: if rom.len() == 0 {
                Option::<u8>::None
            } else {
                Option::Some((rom.len() - 1) as u8)
            },
        }
    }

    /// The byte stored at `index`.
    pub open spec fn read(self, index: u8) -> u8 {
        self.bytes[index as int]
    }

    /// A write at `index` succeeds exactly when `index` lies beyond the ROM prefix.
    pub open spec fn write_allowed(self, index: u8) -> bool {
        match self.rom_limit {
            Option::None => true,
            Option::Some(limit) => index > limit,
        }
    }

    /// The memory after a write of `value` at `index`: updated where the write
    /// is allowed, unchanged where the ROM prefix rejects it.
    pub open spec fn write(self, index: u8, value: u8) -> MemView {
        if self.write_allowed(index) {
            MemView { bytes: self.bytes.update(index as int, value), ..self }
        } else {
            self
        }
    }
}

/// The concrete address space: 256 bytes with an optional ROM prefix fixed at
/// construction and never re-protected afterwards.
pub struct MemoryControl {
    pub container: Vec<u8>,
    pub rom_limit: Option<u8>,
}

impl View for MemoryControl {
    type V = MemView;

    open spec fn view(&self) -> MemView {
        MemView { bytes: self.container@, rom_limit: self.rom_limit }
    }
}

impl MemoryControl {
    pub open spec fn wf(&self) -> bool {
        self@.wf()
    }

    /// Builds the address space from a ROM image of at most 256 bytes.
    pub fn new(rom: Vec<u8>) -> (m: Self)
        requires
            rom@.len() <= 256,
        ensures
            m.wf(),
            m@ == MemView::of_rom(rom@),
    {
        let ghost rom_bytes = rom@;
        let len = rom.len();
        let mut container = rom;
        assert(container@ =~= rom_bytes
            + Seq::new((container@.len() - len) as nat, |i: int| 0u8));
        while container.len() < 256
            invariant
                rom_bytes.len() == len,
                len <= container@.len() <= 256,
                container@ =~= rom_bytes
                    + Seq::new((container@.len() - len) as nat, |i: int| 0u8),
            decreases 256 - container@.len(),
        {
            container.push(0);
            assert(container@ =~= rom_bytes
                + Seq::new((container@.len() - len) as nat, |i: int| 0u8));
        }
        let rom_limit: Option<u8> = if len == 0 {
            Option::None
        } else {
            Option::Some((len - 1) as u8)
        };
        let m = Self { container, rom_limit };
        assert(m@ =~= MemView::of_rom(rom_bytes));
        m
    }

    /// Reads the byte at `index`; every address is readable.
    pub fn get(&self, index: u8) -> (r: u8)
        requires
            self.wf(),
        ensures
            r == self@.read(index),
    {
        self.container[index as usize]
    }

    /// Writes `value` at `index`. Returns true exactly when the write landed,
    /// that is when `index` lies beyond the ROM prefix; a rejected write
    /// leaves the memory unchanged.
    pub fn set(&mut self, index: u8, value: u8) -> (ok: bool)
        requires
            old(self).wf(),
        ensures
            final(self).wf(),
            ok == old(self)@.write_allowed(index),
            final(self)@ == old(self)@.write(index, value),
    {
        match self.rom_limit {
            Option::None => {
                self.container[index as usize] = value;
                assert(self@ =~= old(self)@.write(index, value));
                true
            },
            Option::Some(limit) => {
                if index <= limit {
                    false
                } else {
                    self.container[index as usize] = value;
                    assert(self@ =~= old(self)@.write(index, value));
                    true
                }
            },
        }
    }
}

/// A memory built from a nonempty ROM image of length `L` rejects writes at
/// every address below `L`, leaving the bytes unchanged, and accepts writes at
/// every address from `L` up.
pub proof fn lemma_rom_write_protection(rom: Seq<u8>, index: u8, value: u8)
    requires
        0 < rom.len() <= 256,
    ensures
        (index as int) < rom.len() ==> {
            &&& !MemView::of_rom(rom).write_allowed(index)
            &&& MemView::of_rom(rom).write(index, value) == MemView::of_rom(rom)
        },
        (index as int) >= rom.len() ==> {
            &&& MemView::of_rom(rom).write_allowed(index)
            &&& MemView::of_rom(rom).write(index, value).bytes
                == MemView::of_rom(rom).bytes.update(index as int, value)
        },
{
}

} // verus!
