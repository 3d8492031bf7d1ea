//! The machine aggregate: register file, cycle counter, pending interrupt
//! and the clocked memory bus.
//!
//! Every byte read or write on the bus advances the cycle counter by
//! exactly one tick, charged after the region-specific logic runs. The
//! address space routes to internal RAM (mirrored every 0x0800) and to
//! cartridge space; the video/audio/controller register regions belong to
//! external collaborators and are modeled here as absent: reads return 0
//! and writes are discarded (a deliberate simplification, not
//! hardware-exact for those regions).

use vstd::prelude::*;

use crate::cpu::Cpu;
use crate::interrupt::Interrupt;

verus! {

/// Bytes of internal RAM.
pub const RAM_SIZE: u16 = 0x0800;
/// First address past the mirrored internal-RAM region.
pub const RAM_REGION_END: u16 = 0x2000;
/// First cartridge-space address.
pub const CART_BASE: u16 = 0x4020;
/// Bytes of cartridge space: 0x4020 through 0xFFFF inclusive.
pub const CART_SIZE: u16 = 0xBFE0;
/// Base address of the stack page.
pub const STACK_BASE: u16 = 0x0100;

/// The abstract machine state that all contracts speak about.
#[verifier::ext_equal]
pub ghost struct NesView {
    pub cpu: Cpu,
    pub cycles: u64,
    pub interrupt: Option<Interrupt>,
    pub ram: Seq<u8>,
    pub cart: Seq<u8>,
}

impl NesView {
    /// Well-formedness: the two memory regions have their fixed sizes.
    pub open spec fn wf(self) -> bool {
        self.ram.len() == RAM_SIZE && self.cart.len() == CART_SIZE
    }
}

/// The value a bus read of `addr` resolves, without the clock tick.
pub open spec fn spec_mem_read(v: NesView, addr: u16) -> u8 {
    if addr < RAM_REGION_END {
        v.ram[(addr % RAM_SIZE) as int]
    } else if addr < CART_BASE {
        0
    } else {
        v.cart[(addr - CART_BASE) as int]
    }
}

/// The state after a bus write of `val` to `addr`, without the clock tick.
pub open spec fn spec_mem_write(v: NesView, addr: u16, val: u8) -> NesView {
    if addr < RAM_REGION_END {
        NesView { ram: v.ram.update((addr % RAM_SIZE) as int, val), ..v }
    } else if addr < CART_BASE {
        v
    } else {
        NesView { cart: v.cart.update((addr - CART_BASE) as int, val), ..v }
    }
}

/// One clock tick: the cycle counter advances, wrapping.
pub open spec fn spec_tick(v: NesView) -> NesView {
    NesView { cycles: v.cycles.wrapping_add(1), ..v }
}

/// A clocked bus read: the resolved value, then one tick.
pub open spec fn spec_read(v: NesView, addr: u16) -> (NesView, u8) {
    (spec_tick(v), spec_mem_read(v, addr))
}

/// A clocked bus write: the region logic, then one tick.
pub open spec fn spec_write(v: NesView, addr: u16, val: u8) -> NesView {
    spec_tick(spec_mem_write(v, addr, val))
}

/// A 16-bit word assembled from its low and high bytes.
pub open spec fn spec_word(lo: u8, hi: u8) -> u16 {
    (lo as u16) | ((hi as u16) << 8)
}

/// A word read: two sequential byte reads, low byte first, each ticking.
pub open spec fn spec_read_word(v: NesView, addr: u16) -> (NesView, u16) {
    let (v1, lo) = spec_read(v, addr);
    let (v2, hi) = spec_read(v1, addr.wrapping_add(1));
    (v2, spec_word(lo, hi))
}

/// The address the high byte of an indirect pointer is fetched from:
/// the increment never carries into the high byte of `addr`, reproducing
/// the hardware defect of the original processor.
pub open spec fn spec_indirect_high_addr(addr: u16) -> u16 {
    (addr & 0xFF00) | (addr.wrapping_add(1) & 0x00FF)
}

/// A pointer read through the buggy indirect fetch: the high byte comes
/// from within the same page as `addr`.
pub open spec fn spec_read_on_indirect(v: NesView, addr: u16) -> (NesView, u16) {
    let (v1, lo) = spec_read(v, addr);
    let (v2, hi) = spec_read(v1, spec_indirect_high_addr(addr));
    (v2, spec_word(lo, hi))
}

/// An opcode fetch: read at `PC`, then advance `PC`, wrapping.
pub open spec fn spec_fetch(v: NesView) -> (NesView, u8) {
    let (v1, op) = spec_read(v, v.cpu.pc);
    (NesView { cpu: Cpu { pc: v.cpu.pc.wrapping_add(1), ..v1.cpu }, ..v1 }, op)
}

/// A stack push: write at 0x0100 + `S`, then decrement `S`, wrapping
/// modulo 256 with no bounds check.
pub open spec fn spec_push_stack(v: NesView, val: u8) -> NesView {
    let v1 = spec_write(v, (STACK_BASE + v.cpu.s) as u16, val);
    NesView { cpu: Cpu { s: v.cpu.s.wrapping_sub(1), ..v1.cpu }, ..v1 }
}

/// A word push: high byte first, so that the low byte ends up at the
/// lower address.
pub open spec fn spec_push_stack_word(v: NesView, w: u16) -> NesView {
    spec_push_stack(spec_push_stack(v, (w >> 8) as u8), (w & 0xFF) as u8)
}

/// A stack pull: increment `S` (wrapping), then read at 0x0100 + `S`.
pub open spec fn spec_pull_stack(v: NesView) -> (NesView, u8) {
    let s1 = v.cpu.s.wrapping_add(1);
    let v1 = NesView { cpu: Cpu { s: s1, ..v.cpu }, ..v };
    spec_read(v1, (STACK_BASE + s1) as u16)
}

/// A word pull: low byte first.
pub open spec fn spec_pull_stack_word(v: NesView) -> (NesView, u16) {
    let (v1, lo) = spec_pull_stack(v);
    let (v2, hi) = spec_pull_stack(v1);
    (v2, spec_word(lo, hi))
}

/// The machine: exclusively owned, mutated only through the stepping
/// functions and the operations they call.
#[derive(Debug)]
pub struct Nes {
    /// The register file.
    pub cpu: Cpu,
    /// Monotonically increasing cycle counter; wraps are acceptable, it is
    /// used only for timing.
    pub cycles: u64,
    /// At most one outstanding interrupt request.
    pub interrupt: Option<Interrupt>,
    /// Internal RAM, `RAM_SIZE` bytes, mirrored up to 0x2000.
    pub ram: Vec<u8>,
    /// Cartridge space, `CART_SIZE` bytes covering 0x4020..=0xFFFF.
    pub cart: Vec<u8>,
}

impl View for Nes {
    type V = NesView;

    open spec fn view(&self) -> NesView {
        NesView {
            cpu: self.cpu,
            cycles: self.cycles,
            interrupt: self.interrupt,
            ram: self.ram@,
            cart: self.cart@,
        }
    }
}

impl Nes {
    /// A machine with all registers, counters and memory zeroed and no
    /// pending interrupt.
    pub fn new() -> (r: Nes)
        ensures
            r@.wf(),
            r@.cpu == (Cpu {
                a: 0,
                x: 0,
                y: 0,
                s: 0,
                p: crate::status::Status { bits: 0 },
                pc: 0,
            }),
            r@.cycles == 0,
            r@.interrupt is None,
            forall|i: int| 0 <= i < RAM_SIZE ==> r@.ram[i] == 0,
            forall|i: int| 0 <= i < CART_SIZE ==> r@.cart[i] == 0,
    {
        let ram = zero_bytes(RAM_SIZE as usize);
        let cart = zero_bytes(CART_SIZE as usize);
        Nes {
            cpu: Cpu { a: 0, x: 0, y: 0, s: 0, p: crate::status::Status { bits: 0 }, pc: 0 },
            cycles: 0,
            interrupt: None,
            ram,
            cart,
        }
    }

    /// Resolve a read without ticking; the bus regions as routed above.
    fn mem_read(&self, addr: u16) -> (r: u8)
        requires
            self@.wf(),
        ensures
            r == spec_mem_read(self@, addr),
    {
        if addr < RAM_REGION_END {
            self.ram[(addr % RAM_SIZE) as usize]
        } else if addr < CART_BASE {
            0
        } else {
            self.cart[(addr - CART_BASE) as usize]
        }
    }

    /// Perform a write without ticking; unmapped regions discard it.
    fn mem_write(&mut self, addr: u16, val: u8)
        requires
            old(self)@.wf(),
        ensures
            final(self)@ == spec_mem_write(old(self)@, addr, val),
            final(self)@.wf(),
    {
        if addr < RAM_REGION_END {
            self.ram[(addr % RAM_SIZE) as usize] = val;
        } else if addr < CART_BASE {
        } else {
            self.cart[(addr - CART_BASE) as usize] = val;
        }
    }

    /// Advance the clock by one tick.
    pub fn tick(&mut self)
        ensures
            final(self)@ == spec_tick(old(self)@),
    {
        self.cycles = self.cycles.wrapping_add(1);
    }

    /// A clocked byte read.
    pub fn read(&mut self, addr: u16) -> (r: u8)
        requires
            old(self)@.wf(),
        ensures
            final(self)@ == spec_read(old(self)@, addr).0,
            r == spec_read(old(self)@, addr).1,
            final(self)@.wf(),
    {
        let v = self.mem_read(addr);
        self.tick();
        v
    }

    /// A clocked byte write.
    pub fn write(&mut self, addr: u16, val: u8)
        requires
            old(self)@.wf(),
        ensures
            final(self)@ == spec_write(old(self)@, addr, val),
            final(self)@.wf(),
    {
        self.mem_write(addr, val);
        self.tick();
    }

    /// A clocked word read: low byte then high byte, not atomic.
    pub fn read_word(&mut self, addr: u16) -> (r: u16)
        requires
            old(self)@.wf(),
        ensures
            final(self)@ == spec_read_word(old(self)@, addr).0,
            r == spec_read_word(old(self)@, addr).1,
            final(self)@.wf(),
    {
        let lo = self.read(addr);
        let hi = self.read(addr.wrapping_add(1));
        (lo as u16) | ((hi as u16) << 8)
    }

    /// A pointer read whose high-byte fetch never crosses a page, as on
    /// the original hardware.
    pub fn read_on_indirect(&mut self, addr: u16) -> (r: u16)
        requires
            old(self)@.wf(),
        ensures
            final(self)@ == spec_read_on_indirect(old(self)@, addr).0,
            r == spec_read_on_indirect(old(self)@, addr).1,
            final(self)@.wf(),
    {
        let lo = self.read(addr);
        let hi = self.read((addr & 0xFF00) | (addr.wrapping_add(1) & 0x00FF));
        (lo as u16) | ((hi as u16) << 8)
    }

    /// Fetch the byte at `PC` and advance `PC`.
    pub fn fetch(&mut self) -> (r: u8)
        requires
            old(self)@.wf(),
        ensures
            final(self)@ == spec_fetch(old(self)@).0,
            r == spec_fetch(old(self)@).1,
            final(self)@.wf(),
    {
        let pc = self.cpu.pc;
        let op = self.read(pc);
        self.cpu.pc = pc.wrapping_add(1);
        op
    }

    /// Push a byte; `S` underflow wraps silently by design.
    pub fn push_stack(&mut self, val: u8)
        requires
            old(self)@.wf(),
        ensures
            final(self)@ == spec_push_stack(old(self)@, val),
            final(self)@.wf(),
    {
        let s = self.cpu.s;
        self.write(STACK_BASE + s as u16, val);
        self.cpu.s = s.wrapping_sub(1);
    }

    /// Push a word, high byte first.
    pub fn push_stack_word(&mut self, w: u16)
        requires
            old(self)@.wf(),
        ensures
            final(self)@ == spec_push_stack_word(old(self)@, w),
            final(self)@.wf(),
    {
        self.push_stack((w >> 8) as u8);
        self.push_stack((w & 0xFF) as u8);
    }

    /// Pull a byte; `S` overflow wraps silently by design.
    pub fn pull_stack(&mut self) -> (r: u8)
        requires
            old(self)@.wf(),
        ensures
            final(self)@ == spec_pull_stack(old(self)@).0,
            r == spec_pull_stack(old(self)@).1,
            final(self)@.wf(),
    {
        let s1 = self.cpu.s.wrapping_add(1);
        self.cpu.s = s1;
        self.read(STACK_BASE + s1 as u16)
    }

    /// Pull a word, low byte first.
    pub fn pull_stack_word(&mut self) -> (r: u16)
        requires
            old(self)@.wf(),
        ensures
            final(self)@ == spec_pull_stack_word(old(self)@).0,
            r == spec_pull_stack_word(old(self)@).1,
            final(self)@.wf(),
    {
        let lo = self.pull_stack();
        let hi = self.pull_stack();
        (lo as u16) | ((hi as u16) << 8)
    }
}

/// A vector of `n` zero bytes.
fn zero_bytes(n: usize) -> (r: Vec<u8>)
    ensures
        r@.len() == n,
        forall|i: int| 0 <= i < n ==> r@[i] == 0,
{
    let mut v: Vec<u8> = Vec::new();
    while v.len() < n
        invariant
            v@.len() <= n,
            forall|i: int| 0 <= i < v@.len() ==> v@[i] == 0,
        decreases n - v.len(),
    {
        v.push(0);
    }
    v
}

} // verus!
