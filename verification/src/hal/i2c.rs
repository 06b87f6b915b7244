//! I2C addressing and register shadows
//!
//! Seven-bit device addresses and a shadow copy of a device's registers
//! that remembers which ones still have to be written.

use vstd::prelude::*;

verus! {

/// I2C device address wrapper
#[derive(Clone, Copy, Debug, PartialEq, Eq, Structural)]
pub struct I2cAddress(u8);

impl I2cAddress {
    /// The 7-bit address.
    pub closed spec fn spec_addr(self) -> u8 {
        self.0
    }

    /// `Si5351A` clock synthesizer address
    pub fn si5351() -> (r: Self)
        ensures
            r.spec_addr() == 0x60,
    {
        Self(0x60)
    }

    /// SSD1306 OLED display address
    pub fn ssd1306() -> (r: Self)
        ensures
            r.spec_addr() == 0x3C,
    {
        Self(0x3C)
    }

    /// Create from 7-bit address (the top bit is dropped)
    pub fn new(addr: u8) -> (r: Self)
        ensures
            r.spec_addr() == addr % 128,
    {
        let a = addr & 0x7F;
        assert(a == addr % 128) by (bit_vector)
            requires
                a == addr & 0x7F,
        ;
        Self(a)
    }

    /// Get the 7-bit address
    pub fn addr(self) -> (r: u8)
        ensures
            r == self.spec_addr(),
    {
        self.0
    }
}

/// Longest register block sent in one I2C write.
pub const MAX_BLOCK_WRITE: usize = 16;

/// The I2C writes that set consecutive registers from `base_reg` on: one
/// write of the register address followed by the values when they are at
/// most sixteen, otherwise one (register, value) write per register.
pub open spec fn register_block_writes(base_reg: u8, values: Seq<u8>) -> Seq<Seq<u8>> {
    if values.len() <= MAX_BLOCK_WRITE {
        seq![seq![base_reg] + values]
    } else {
        Seq::new(values.len(), |i: int| seq![(base_reg + i) as u8, values[i]])
    }
}

/// The bytes of each I2C write that sets consecutive registers from
/// `base_reg` on
pub fn register_write_transfers(base_reg: u8, values: &[u8]) -> (r: Vec<Vec<u8>>)
    requires
        values@.len() > MAX_BLOCK_WRITE ==> base_reg + values@.len() - 1 <= u8::MAX,
    ensures
        r@.len() == register_block_writes(base_reg, values@).len(),
        forall|i: int| 0 <= i < r@.len() ==> (#[trigger] r@[i])@ == register_block_writes(base_reg, values@)[i],
{
    let mut out: Vec<Vec<u8>> = Vec::new();
    if values.len() <= MAX_BLOCK_WRITE {
        let mut buf: Vec<u8> = Vec::new();
        buf.push(base_reg);
        let mut i: usize = 0;
        while i < values.len()
            invariant
                i <= values@.len(),
                buf@ == seq![base_reg] + values@.take(i as int),
            decreases values@.len() - i,
        {
            buf.push(values[i]);
            assert(values@.take(i + 1) =~= values@.take(i as int).push(values@[i as int]));
            i = i + 1;
        }
        assert(values@.take(i as int) =~= values@);
        out.push(buf);
    } else {
        let mut i: usize = 0;
        while i < values.len()
            invariant
                i <= values@.len(),
                values@.len() > MAX_BLOCK_WRITE,
                base_reg + values@.len() - 1 <= u8::MAX,
                out@.len() == i,
                forall|j: int| 0 <= j < i ==> (#[trigger] out@[j])@ == register_block_writes(base_reg, values@)[j],
            decreases values@.len() - i,
        {
            let mut pair: Vec<u8> = Vec::new();
            pair.push(base_reg + i as u8);
            pair.push(values[i]);
            out.push(pair);
            i = i + 1;
        }
    }
    out
}

/// I2C device trait for polymorphism
pub trait I2cDevice {
    /// Get the device's I2C address
    fn address(&self) -> I2cAddress;
}

/// Register map helper for devices with many registers
pub struct RegisterMap<const N: usize> {
    /// Shadow copy of register values
    values: Vec<u8>,
    /// Track which registers are dirty
    dirty: Vec<bool>,
}

impl<const N: usize> RegisterMap<N> {
    /// The shadowed register values.
    pub closed spec fn spec_values(&self) -> Seq<u8> {
        self.values@
    }

    /// Which registers differ from what was last written to the device.
    pub closed spec fn spec_dirty(&self) -> Seq<bool> {
        self.dirty@
    }

    /// Well-formedness: one value and one flag per register.
    pub open spec fn wf(&self) -> bool {
        self.spec_values().len() == N && self.spec_dirty().len() == N
    }

    /// Create a new register map initialized to zeros
    pub fn new() -> (r: Self)
        ensures
            r.wf(),
            forall|i: int| 0 <= i < N ==> r.spec_values()[i] == 0 && !r.spec_dirty()[i],
    {
        let mut values: Vec<u8> = Vec::new();
        let mut dirty: Vec<bool> = Vec::new();
        let mut i: usize = 0;
        while i < N
            invariant
                i <= N,
                values@.len() == i,
                dirty@.len() == i,
                forall|j: int| 0 <= j < i ==> values@[j] == 0 && !dirty@[j],
            decreases N - i,
        {
            values.push(0);
            dirty.push(false);
            i = i + 1;
        }
        Self { values, dirty }
    }

    /// Set a register value (marks it dirty when the value changes);
    /// registers past the end are ignored
    pub fn set(&mut self, reg: usize, value: u8)
        requires
            old(self).wf(),
        ensures
            final(self).wf(),
            reg < N && old(self).spec_values()[reg as int] != value ==> {
                &&& final(self).spec_values() == old(self).spec_values().update(reg as int, value)
                &&& final(self).spec_dirty() == old(self).spec_dirty().update(reg as int, true)
            },
            !(reg < N && old(self).spec_values()[reg as int] != value) ==> {
                &&& final(self).spec_values() == old(self).spec_values()
                &&& final(self).spec_dirty() == old(self).spec_dirty()
            },
    {
        if reg < N && self.values[reg] != value {
            self.values.set(reg, value);
            self.dirty.set(reg, true);
        }
    }

    /// Get a register value (zero past the end)
    pub fn get(&self, reg: usize) -> (r: u8)
        requires
            self.wf(),
        ensures
            r == (if reg < N { self.spec_values()[reg as int] } else { 0u8 }),
    {
        if reg < N {
            self.values[reg]
        } else {
            0
        }
    }

    /// Check if any registers are dirty
    pub fn any_dirty(&self) -> (r: bool)
        requires
            self.wf(),
        ensures
            r <==> exists|i: int| 0 <= i < N && #[trigger] self.spec_dirty()[i],
    {
        let mut i: usize = 0;
        while i < N
            invariant
                i <= N,
                self.wf(),
                forall|j: int| 0 <= j < i ==> !#[trigger] self.spec_dirty()[j],
            decreases N - i,
        {
            if self.dirty[i] {
                return true;
            }
            i = i + 1;
        }
        false
    }

    /// Mark a register as clean
    pub fn mark_clean(&mut self, reg: usize)
        requires
            old(self).wf(),
        ensures
            final(self).wf(),
            final(self).spec_values() == old(self).spec_values(),
            final(self).spec_dirty() == if reg < N {
                old(self).spec_dirty().update(reg as int, false)
            } else {
                old(self).spec_dirty()
            },
    {
        if reg < N {
            self.dirty.set(reg, false);
        }
    }

    /// Mark all registers as clean
    pub fn mark_all_clean(&mut self)
        requires
            old(self).wf(),
        ensures
            final(self).wf(),
            final(self).spec_values() == old(self).spec_values(),
            forall|i: int| 0 <= i < N ==> !#[trigger] final(self).spec_dirty()[i],
    {
        let mut i: usize = 0;
        while i < N
            invariant
                i <= N,
                self.wf(),
                self.spec_values() == old(self).spec_values(),
                forall|j: int| 0 <= j < i ==> !#[trigger] self.spec_dirty()[j],
            decreases N - i,
        {
            self.dirty.set(i, false);
            i = i + 1;
        }
    }

    /// The dirty registers and their values, in register order
    pub fn dirty_regs(&self) -> (r: Vec<(usize, u8)>)
        requires
            self.wf(),
        ensures
            r@ == dirty_list(self.spec_values(), self.spec_dirty(), N as int),
    {
        let mut out: Vec<(usize, u8)> = Vec::new();
        let mut i: usize = 0;
        while i < N
            invariant
                i <= N,
                self.wf(),
                out@ == dirty_list(self.spec_values(), self.spec_dirty(), i as int),
            decreases N - i,
        {
            if self.dirty[i] {
                out.push((i, self.values[i]));
            }
            i = i + 1;
        }
        out
    }
}

/// The (register, value) pairs of the dirty registers among the first `n`,
/// in register order.
pub open spec fn dirty_list(values: Seq<u8>, dirty: Seq<bool>, n: int) -> Seq<(usize, u8)>
    decreases n,
{
    if n <= 0 {
        Seq::empty()
    } else if dirty[n - 1] {
        dirty_list(values, dirty, n - 1).push(((n - 1) as usize, values[n - 1]))
    } else {
        dirty_list(values, dirty, n - 1)
    }
}

impl<const N: usize> Default for RegisterMap<N> {
    fn default() -> (r: Self)
        ensures
            r.wf(),
            forall|i: int| 0 <= i < N ==> r.spec_values()[i] == 0 && !r.spec_dirty()[i],
    {
        Self::new()
    }
}

/// After writing a register, reading it gives back the value written, and
/// the register is dirty exactly when the value changed or it was already
/// dirty.
pub proof fn lemma_register_write_read<const N: usize>(values: Seq<u8>, dirty: Seq<bool>, reg: int, value: u8)
    requires
        values.len() == N,
        dirty.len() == N,
        0 <= reg < N,
    ensures
        ({
            let changed = values[reg] != value;
            let v2 = if changed { values.update(reg, value) } else { values };
            let d2 = if changed { dirty.update(reg, true) } else { dirty };
            v2[reg] == value && (d2[reg] <==> (changed || dirty[reg]))
        }),
{
}

} // verus!
