//! The address bus: a uniform one-byte read/write interface over the 16-bit
//! address space, routed by range.
//!
//! | range           | meaning                                         |
//! |-----------------|-------------------------------------------------|
//! | `0000`–`1FFF`   | 2 KiB of internal RAM, mirrored every 2 KiB     |
//! | `2000`–`401F`   | picture, audio and I/O registers (inert stubs)  |
//! | `4020`–`7FFF`   | cartridge space that mapper 0 leaves unmapped   |
//! | `8000`–`FFFF`   | the cartridge's program ROM window (read only)  |

use vstd::prelude::*;
use crate::bits::word;
use crate::cartridge::{prg_window, Cartridge};

verus! {

/// Size of the internal RAM in bytes.
pub const RAM_SIZE: usize = 0x0800;

/// First address past the mirrored RAM range.
pub const RAM_END: u16 = 0x2000;

/// First address of the program ROM window.
pub const PRG_START: u16 = 0x8000;

/// Size of the program ROM window in bytes.
pub const PRG_WINDOW: usize = 0x8000;

/// Address of the low byte of the non-maskable interrupt vector.
pub const NMI_VECTOR: u16 = 0xFFFA;

/// Address of the low byte of the reset vector.
pub const RESET_VECTOR: u16 = 0xFFFC;

/// Address of the low byte of the interrupt-request and break vector.
pub const IRQ_VECTOR: u16 = 0xFFFE;

/// The contents of the bus as mathematical sequences.
pub struct BusState {
    /// Internal RAM, `RAM_SIZE` bytes.
    pub ram: Seq<u8>,
    /// The program ROM window, `PRG_WINDOW` bytes, index 0 at `PRG_START`.
    pub prg: Seq<u8>,
}

impl BusState {
    /// Both memories have their fixed sizes.
    pub open spec fn wf(self) -> bool {
        &&& self.ram.len() == RAM_SIZE
        &&& self.prg.len() == PRG_WINDOW
    }

    /// The byte a read of `addr` returns.
    pub open spec fn read(self, addr: u16) -> u8 {
        if addr < RAM_END {
            self.ram[addr as int % RAM_SIZE as int]
        } else if addr >= PRG_START {
            self.prg[addr - PRG_START]
        } else {
            0
        }
    }

    /// The bus after a write of `value` to `addr`: only RAM takes writes.
    pub open spec fn write(self, addr: u16, value: u8) -> BusState {
        if addr < RAM_END {
            BusState { ram: self.ram.update(addr as int % RAM_SIZE as int, value), ..self }
        } else {
            self
        }
    }

    /// The little-endian word stored at `addr` and the address after it.
    pub open spec fn read_word(self, addr: u16) -> u16 {
        word(self.read(addr.wrapping_add(1)), self.read(addr))
    }

    /// The bus with `window` mapped as program ROM.
    pub open spec fn with_prg(self, window: Seq<u8>) -> BusState {
        BusState { prg: window, ..self }
    }
}

/// The bus of one console.
pub struct Bus {
    pub(crate) ram: Vec<u8>,
    pub(crate) prg: Vec<u8>,
}

impl View for Bus {
    type V = BusState;

    open(crate) spec fn view(&self) -> BusState {
        BusState { ram: self.ram@, prg: self.prg@ }
    }
}

/// A vector of `n` zero bytes.
pub fn zeroed(n: usize) -> (v: Vec<u8>)
    ensures
        v@ == Seq::new(n as nat, |i: int| 0u8),
{
    let mut v: Vec<u8> = Vec::new();
    let mut i: usize = 0;
    while i < n
        invariant
            i <= n,
            v@ == Seq::new(i as nat, |j: int| 0u8),
        decreases n - i,
    {
        v.push(0);
        i = i + 1;
    }
    v
}

impl Bus {
    /// Both memories have their fixed sizes.
    pub open spec fn wf(&self) -> bool {
        self@.wf()
    }

    /// A bus with zeroed RAM and no cartridge: the ROM window reads as zero.
    pub fn new() -> (bus: Bus)
        ensures
            bus.wf(),
            bus@.ram == Seq::new(RAM_SIZE as nat, |i: int| 0u8),
            bus@.prg == Seq::new(PRG_WINDOW as nat, |i: int| 0u8),
    {
        Bus { ram: zeroed(RAM_SIZE), prg: zeroed(PRG_WINDOW) }
    }

    /// Reads the byte at `addr`.
    pub fn read(&self, addr: u16) -> (value: u8)
        requires
            self.wf(),
        ensures
            value == self@.read(addr),
    {
        if addr < RAM_END {
            self.ram[(addr as usize) % RAM_SIZE]
        } else if addr >= PRG_START {
            self.prg[(addr - PRG_START) as usize]
        } else {
            0
        }
    }

    /// Writes `value` at `addr`. Writes outside RAM are absorbed.
    pub fn write(&mut self, addr: u16, value: u8)
        requires
            old(self).wf(),
        ensures
            final(self).wf(),
            final(self)@ == old(self)@.write(addr, value),
    {
        if addr < RAM_END {
            self.ram.set((addr as usize) % RAM_SIZE, value);
        }
    }

    /// Reads the little-endian word at `addr`: the low byte at `addr`, the
    /// high byte at the next address, wrapping at the top of the space.
    pub fn read_word(&self, addr: u16) -> (w: u16)
        requires
            self.wf(),
        ensures
            w == self@.read_word(addr),
    {
        let lo = self.read(addr);
        let hi = self.read(addr.wrapping_add(1));
        crate::bits::two_u8_to_u16(hi, lo)
    }

    /// Inserts a cartridge: its program ROM appears at `8000`–`FFFF`, a
    /// single bank twice. RAM is not touched.
    pub fn insert(&mut self, cart: &Cartridge)
        requires
            old(self).wf(),
        ensures
            final(self).wf(),
            final(self)@ == old(self)@.with_prg(prg_window(cart@.prg)),
    {
        self.prg = cart.window();
    }
}

/// Reads below `2000` resolve through the mirror mask: the byte at `addr`
/// is the byte of RAM at `addr & 07FF`.
pub proof fn lemma_ram_mirror(bus: BusState, addr: u16)
    requires
        bus.wf(),
        addr < RAM_END,
    ensures
        bus.read(addr) == bus.ram[(addr & 0x07FF) as int],
        bus.read(addr) == bus.read(addr & 0x07FF),
{
    crate::bits::lemma_mask_forms(addr, 0);
}

/// A byte written to RAM is read back from the same address and from each
/// of its mirrors; a write anywhere else changes nothing.
pub proof fn lemma_read_after_write(bus: BusState, addr: u16, value: u8, other: u16)
    requires
        bus.wf(),
    ensures
        bus.write(addr, value).wf(),
        addr < RAM_END ==> bus.write(addr, value).read(addr) == value,
        addr < RAM_END && other < RAM_END && other as int % 0x800 == addr as int % 0x800
            ==> bus.write(addr, value).read(other) == value,
        (addr >= RAM_END || other >= RAM_END || other as int % 0x800 != addr as int % 0x800)
            ==> bus.write(addr, value).read(other) == bus.read(other),
        addr >= RAM_END ==> bus.write(addr, value) == bus,
{
}

} // verus!
