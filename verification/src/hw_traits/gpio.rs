//! Model of one GPIO port's register block.
//!
//! A port has eight pins and nine eight-bit registers. The hardware completes
//! each register write without interleaving, so the only safe way to touch a
//! register shared with interrupt handlers is a masked set/clear/toggle of the
//! chosen bits; the block records every write it performs so callers can see
//! exactly which edit sequence an operation issued.

use vstd::prelude::*;

use crate::bits::{bit, clr_mask_of};

verus! {

/// Which register of the port an edit targets.
#[derive(Clone, Copy, Debug, PartialEq, Eq, Structural)]
pub enum GpioReg {
    /// Direction register PxDIR: one bit per pin, set for output.
    Dir,
    /// Output register PxOUT: output value, or pull direction for inputs.
    Out,
    /// Pull-resistor enable register PxREN.
    Ren,
    /// Function-select bit 0 register PxSEL0.
    Sel0,
    /// Function-select bit 1 register PxSEL1.
    Sel1,
    /// Interrupt edge select register PxIES: set selects falling edge.
    Ies,
    /// Interrupt enable register PxIE.
    Ie,
    /// Interrupt flag register PxIFG.
    Ifg,
}

/// One write issued to the port's registers.
#[derive(Clone, Copy, Debug, PartialEq, Eq, Structural)]
pub enum Edit {
    /// Masked OR: the mask's bits become one, the rest keep their value.
    SetBits(GpioReg, u8),
    /// Masked AND: the mask's zero bits become zero, the rest keep their value.
    ClearBits(GpioReg, u8),
    /// Masked XOR: the mask's bits flip, the rest keep their value.
    ToggleBits(GpioReg, u8),
    /// Write to the complement register PxSELC: flips the PxSEL0 and PxSEL1
    /// bits of the mask together, in one register access.
    SelcWrite(u8),
}

/// The readable registers of one GPIO port.
#[derive(Clone, Copy, Debug, PartialEq, Eq, Structural)]
pub struct PortRegs {
    /// Direction register PxDIR.
    pub dir: u8,
    /// Output register PxOUT.
    pub out: u8,
    /// Input register PxIN; driven by the pins, never by software.
    pub input: u8,
    /// Pull-resistor enable register PxREN.
    pub ren: u8,
    /// Function-select register PxSEL0.
    pub sel0: u8,
    /// Function-select register PxSEL1.
    pub sel1: u8,
    /// Interrupt edge select register PxIES.
    pub ies: u8,
    /// Interrupt enable register PxIE.
    pub ie: u8,
    /// Interrupt flag register PxIFG.
    pub ifg: u8,
}

/// One GPIO port's register block: the registers, and the sequence of writes
/// issued to them since the block was created.
#[derive(Debug)]
pub struct PortState {
    /// The register values.
    pub regs: PortRegs,
    /// Every write issued so far, oldest first.
    pub log: Vec<Edit>,
}

/// The interrupt bits that are both pending and enabled.
pub open spec fn pending(r: PortRegs) -> u8 {
    r.ifg & r.ie
}

/// The value the priority vector register PxIV presents: an even offset,
/// 2(n + 1) for the lowest-numbered pin n with a pending enabled interrupt,
/// and 0 when none is pending. The lowest pin has the highest priority.
pub open spec fn pxiv_offset(pend: u8) -> u16 {
    if pend & 0x01 != 0 {
        2
    } else if pend & 0x02 != 0 {
        4
    } else if pend & 0x04 != 0 {
        6
    } else if pend & 0x08 != 0 {
        8
    } else if pend & 0x10 != 0 {
        10
    } else if pend & 0x20 != 0 {
        12
    } else if pend & 0x40 != 0 {
        14
    } else if pend & 0x80 != 0 {
        16
    } else {
        0
    }
}

/// The registers after a PxIV read: reading the vector clears the reported
/// pin's interrupt flag, and only that flag.
pub open spec fn pxiv_after(r: PortRegs) -> PortRegs {
    let pend = pending(r);
    if pend & 0x01 != 0 {
        PortRegs { ifg: r.ifg & 0xfe, ..r }
    } else if pend & 0x02 != 0 {
        PortRegs { ifg: r.ifg & 0xfd, ..r }
    } else if pend & 0x04 != 0 {
        PortRegs { ifg: r.ifg & 0xfb, ..r }
    } else if pend & 0x08 != 0 {
        PortRegs { ifg: r.ifg & 0xf7, ..r }
    } else if pend & 0x10 != 0 {
        PortRegs { ifg: r.ifg & 0xef, ..r }
    } else if pend & 0x20 != 0 {
        PortRegs { ifg: r.ifg & 0xdf, ..r }
    } else if pend & 0x40 != 0 {
        PortRegs { ifg: r.ifg & 0xbf, ..r }
    } else if pend & 0x80 != 0 {
        PortRegs { ifg: r.ifg & 0x7f, ..r }
    } else {
        r
    }
}

impl PortState {
    /// A port in its reset configuration: every register zero, so every pin is
    /// a floating input routed to plain I/O, with no log yet.
    pub fn new() -> (p: PortState)
        ensures
            p.regs == (PortRegs {
                dir: 0,
                out: 0,
                input: 0,
                ren: 0,
                sel0: 0,
                sel1: 0,
                ies: 0,
                ie: 0,
                ifg: 0,
            }),
            p.log@ == Seq::<Edit>::empty(),
    {
        PortState {
            regs: PortRegs {
                dir: 0,
                out: 0,
                input: 0,
                ren: 0,
                sel0: 0,
                sel1: 0,
                ies: 0,
                ie: 0,
                ifg: 0,
            },
            log: Vec::new(),
        }
    }

    /// Masked set of PxDIR bits.
    pub fn pxdir_set(&mut self, mask: u8)
        ensures
            final(self).regs == (PortRegs { dir: old(self).regs.dir | mask, ..old(self).regs }),
            final(self).log@ == old(self).log@.push(Edit::SetBits(GpioReg::Dir, mask)),
    {
        self.regs.dir = self.regs.dir | mask;
        self.log.push(Edit::SetBits(GpioReg::Dir, mask));
    }

    /// Masked clear of PxDIR bits; the mask's zero bits are cleared.
    pub fn pxdir_clear(&mut self, mask: u8)
        ensures
            final(self).regs == (PortRegs { dir: old(self).regs.dir & mask, ..old(self).regs }),
            final(self).log@ == old(self).log@.push(Edit::ClearBits(GpioReg::Dir, mask)),
    {
        self.regs.dir = self.regs.dir & mask;
        self.log.push(Edit::ClearBits(GpioReg::Dir, mask));
    }

    /// Masked set of PxOUT bits.
    pub fn pxout_set(&mut self, mask: u8)
        ensures
            final(self).regs == (PortRegs { out: old(self).regs.out | mask, ..old(self).regs }),
            final(self).log@ == old(self).log@.push(Edit::SetBits(GpioReg::Out, mask)),
    {
        self.regs.out = self.regs.out | mask;
        self.log.push(Edit::SetBits(GpioReg::Out, mask));
    }

    /// Masked clear of PxOUT bits; the mask's zero bits are cleared.
    pub fn pxout_clear(&mut self, mask: u8)
        ensures
            final(self).regs == (PortRegs { out: old(self).regs.out & mask, ..old(self).regs }),
            final(self).log@ == old(self).log@.push(Edit::ClearBits(GpioReg::Out, mask)),
    {
        self.regs.out = self.regs.out & mask;
        self.log.push(Edit::ClearBits(GpioReg::Out, mask));
    }

    /// Masked toggle of PxOUT bits.
    pub fn pxout_toggle(&mut self, mask: u8)
        ensures
            final(self).regs == (PortRegs { out: old(self).regs.out ^ mask, ..old(self).regs }),
            final(self).log@ == old(self).log@.push(Edit::ToggleBits(GpioReg::Out, mask)),
    {
        self.regs.out = self.regs.out ^ mask;
        self.log.push(Edit::ToggleBits(GpioReg::Out, mask));
    }

    /// Read of PxOUT.
    pub fn pxout_rd(&self) -> (r: u8)
        ensures
            r == self.regs.out,
    {
        self.regs.out
    }

    /// Read of PxIN: the level each pin is driven to from outside.
    pub fn pxin_rd(&self) -> (r: u8)
        ensures
            r == self.regs.input,
    {
        self.regs.input
    }

    /// Masked set of PxREN bits.
    pub fn pxren_set(&mut self, mask: u8)
        ensures
            final(self).regs == (PortRegs { ren: old(self).regs.ren | mask, ..old(self).regs }),
            final(self).log@ == old(self).log@.push(Edit::SetBits(GpioReg::Ren, mask)),
    {
        self.regs.ren = self.regs.ren | mask;
        self.log.push(Edit::SetBits(GpioReg::Ren, mask));
    }

    /// Masked clear of PxREN bits; the mask's zero bits are cleared.
    pub fn pxren_clear(&mut self, mask: u8)
        ensures
            final(self).regs == (PortRegs { ren: old(self).regs.ren & mask, ..old(self).regs }),
            final(self).log@ == old(self).log@.push(Edit::ClearBits(GpioReg::Ren, mask)),
    {
        self.regs.ren = self.regs.ren & mask;
        self.log.push(Edit::ClearBits(GpioReg::Ren, mask));
    }

    /// Masked set of PxSEL0 bits.
    pub fn pxsel0_set(&mut self, mask: u8)
        ensures
            final(self).regs == (PortRegs { sel0: old(self).regs.sel0 | mask, ..old(self).regs }),
            final(self).log@ == old(self).log@.push(Edit::SetBits(GpioReg::Sel0, mask)),
    {
        self.regs.sel0 = self.regs.sel0 | mask;
        self.log.push(Edit::SetBits(GpioReg::Sel0, mask));
    }

    /// Masked clear of PxSEL0 bits; the mask's zero bits are cleared.
    pub fn pxsel0_clear(&mut self, mask: u8)
        ensures
            final(self).regs == (PortRegs { sel0: old(self).regs.sel0 & mask, ..old(self).regs }),
            final(self).log@ == old(self).log@.push(Edit::ClearBits(GpioReg::Sel0, mask)),
    {
        self.regs.sel0 = self.regs.sel0 & mask;
        self.log.push(Edit::ClearBits(GpioReg::Sel0, mask));
    }

    /// Masked set of PxSEL1 bits.
    pub fn pxsel1_set(&mut self, mask: u8)
        ensures
            final(self).regs == (PortRegs { sel1: old(self).regs.sel1 | mask, ..old(self).regs }),
            final(self).log@ == old(self).log@.push(Edit::SetBits(GpioReg::Sel1, mask)),
    {
        self.regs.sel1 = self.regs.sel1 | mask;
        self.log.push(Edit::SetBits(GpioReg::Sel1, mask));
    }

    /// Masked clear of PxSEL1 bits; the mask's zero bits are cleared.
    pub fn pxsel1_clear(&mut self, mask: u8)
        ensures
            final(self).regs == (PortRegs { sel1: old(self).regs.sel1 & mask, ..old(self).regs }),
            final(self).log@ == old(self).log@.push(Edit::ClearBits(GpioReg::Sel1, mask)),
    {
        self.regs.sel1 = self.regs.sel1 & mask;
        self.log.push(Edit::ClearBits(GpioReg::Sel1, mask));
    }

    /// Write to the complement register PxSELC: every one bit of the written
    /// value flips the pin's PxSEL0 and PxSEL1 bits together, atomically, so a
    /// two-bit function switch never passes through a third encoding.
    pub fn pxselc_wr(&mut self, mask: u8)
        ensures
            final(self).regs == (PortRegs {
                sel0: old(self).regs.sel0 ^ mask,
                sel1: old(self).regs.sel1 ^ mask,
                ..old(self).regs
            }),
            final(self).log@ == old(self).log@.push(Edit::SelcWrite(mask)),
    {
        self.regs.sel0 = self.regs.sel0 ^ mask;
        self.regs.sel1 = self.regs.sel1 ^ mask;
        self.log.push(Edit::SelcWrite(mask));
    }

    /// Masked set of PxIES bits.
    pub fn pxies_set(&mut self, mask: u8)
        ensures
            final(self).regs == (PortRegs { ies: old(self).regs.ies | mask, ..old(self).regs }),
            final(self).log@ == old(self).log@.push(Edit::SetBits(GpioReg::Ies, mask)),
    {
        self.regs.ies = self.regs.ies | mask;
        self.log.push(Edit::SetBits(GpioReg::Ies, mask));
    }

    /// Masked clear of PxIES bits; the mask's zero bits are cleared.
    pub fn pxies_clear(&mut self, mask: u8)
        ensures
            final(self).regs == (PortRegs { ies: old(self).regs.ies & mask, ..old(self).regs }),
            final(self).log@ == old(self).log@.push(Edit::ClearBits(GpioReg::Ies, mask)),
    {
        self.regs.ies = self.regs.ies & mask;
        self.log.push(Edit::ClearBits(GpioReg::Ies, mask));
    }

    /// Masked set of PxIE bits.
    pub fn pxie_set(&mut self, mask: u8)
        ensures
            final(self).regs == (PortRegs { ie: old(self).regs.ie | mask, ..old(self).regs }),
            final(self).log@ == old(self).log@.push(Edit::SetBits(GpioReg::Ie, mask)),
    {
        self.regs.ie = self.regs.ie | mask;
        self.log.push(Edit::SetBits(GpioReg::Ie, mask));
    }

    /// Masked clear of PxIE bits; the mask's zero bits are cleared.
    pub fn pxie_clear(&mut self, mask: u8)
        ensures
            final(self).regs == (PortRegs { ie: old(self).regs.ie & mask, ..old(self).regs }),
            final(self).log@ == old(self).log@.push(Edit::ClearBits(GpioReg::Ie, mask)),
    {
        self.regs.ie = self.regs.ie & mask;
        self.log.push(Edit::ClearBits(GpioReg::Ie, mask));
    }

    /// Masked set of PxIFG bits: raises the pins' interrupt flags.
    pub fn pxifg_set(&mut self, mask: u8)
        ensures
            final(self).regs == (PortRegs { ifg: old(self).regs.ifg | mask, ..old(self).regs }),
            final(self).log@ == old(self).log@.push(Edit::SetBits(GpioReg::Ifg, mask)),
    {
        self.regs.ifg = self.regs.ifg | mask;
        self.log.push(Edit::SetBits(GpioReg::Ifg, mask));
    }

    /// Masked clear of PxIFG bits; the mask's zero bits are cleared.
    pub fn pxifg_clear(&mut self, mask: u8)
        ensures
            final(self).regs == (PortRegs { ifg: old(self).regs.ifg & mask, ..old(self).regs }),
            final(self).log@ == old(self).log@.push(Edit::ClearBits(GpioReg::Ifg, mask)),
    {
        self.regs.ifg = self.regs.ifg & mask;
        self.log.push(Edit::ClearBits(GpioReg::Ifg, mask));
    }

    /// Read of PxIFG.
    pub fn pxifg_rd(&self) -> (r: u8)
        ensures
            r == self.regs.ifg,
    {
        self.regs.ifg
    }

    /// Read of the priority vector register PxIV. This is a read-and-clear
    /// operation: the hardware reports the highest-priority (lowest-numbered)
    /// pin whose interrupt is pending and enabled, and clears that pin's flag
    /// as a side effect of the read, so each logical trigger is seen at most
    /// once.
    pub fn pxiv_rd(&mut self) -> (iv: u16)
        ensures
            iv == pxiv_offset(pending(old(self).regs)),
            final(self).regs == pxiv_after(old(self).regs),
            final(self).log@ == old(self).log@,
    {
        let pend = self.regs.ifg & self.regs.ie;
        if pend & 0x01 != 0 {
            self.regs.ifg = self.regs.ifg & 0xfe;
            2
        } else if pend & 0x02 != 0 {
            self.regs.ifg = self.regs.ifg & 0xfd;
            4
        } else if pend & 0x04 != 0 {
            self.regs.ifg = self.regs.ifg & 0xfb;
            6
        } else if pend & 0x08 != 0 {
            self.regs.ifg = self.regs.ifg & 0xf7;
            8
        } else if pend & 0x10 != 0 {
            self.regs.ifg = self.regs.ifg & 0xef;
            10
        } else if pend & 0x20 != 0 {
            self.regs.ifg = self.regs.ifg & 0xdf;
            12
        } else if pend & 0x40 != 0 {
            self.regs.ifg = self.regs.ifg & 0xbf;
            14
        } else if pend & 0x80 != 0 {
            self.regs.ifg = self.regs.ifg & 0x7f;
            16
        } else {
            0
        }
    }
}

/// After a PxIV read the reported pin's flag, and only that flag, reads
/// cleared; every other register keeps its value; and the reported pin is the
/// lowest-numbered pending enabled one.
pub proof fn lemma_pxiv_priority(r: PortRegs, n: u8)
    requires
        n < 8,
        bit(pending(r), n),
        forall|j: u8| j < n ==> !bit(pending(r), j),
    ensures
        pxiv_offset(pending(r)) == 2 * (n + 1) as u16,
        !bit(pxiv_after(r).ifg, n),
        forall|j: u8| j < 8 && j != n ==> bit(pxiv_after(r).ifg, j) == bit(r.ifg, j),
        pxiv_after(r).ie == r.ie,
        pxiv_after(r).dir == r.dir,
        pxiv_after(r).out == r.out,
        pxiv_after(r).input == r.input,
        pxiv_after(r).ren == r.ren,
        pxiv_after(r).sel0 == r.sel0,
        pxiv_after(r).sel1 == r.sel1,
        pxiv_after(r).ies == r.ies,
{
    let pend = pending(r);
    lemma_clear_effect_all(r.ifg, n);
    if n >= 1 {
        assert(!bit(pend, 0));
    }
    if n >= 2 {
        assert(!bit(pend, 1));
    }
    if n >= 3 {
        assert(!bit(pend, 2));
    }
    if n >= 4 {
        assert(!bit(pend, 3));
    }
    if n >= 5 {
        assert(!bit(pend, 4));
    }
    if n >= 6 {
        assert(!bit(pend, 5));
    }
    if n >= 7 {
        assert(!bit(pend, 6));
    }
    assert(pxiv_after(r).ifg == r.ifg & clr_mask_of(n));
}

/// Helper: a masked clear of bit `n` clears that bit and keeps the others.
proof fn lemma_clear_effect_all(x: u8, n: u8)
    requires
        n < 8,
    ensures
        !bit(x & clr_mask_of(n), n),
        forall|j: u8| j < 8 && j != n ==> bit(x & clr_mask_of(n), j) == bit(x, j),
{
    assert forall|j: u8| j < 8 && j != n implies bit(x & clr_mask_of(n), j) == bit(x, j) by {
        crate::bits::lemma_clear_effect(x, n, j);
    }
    crate::bits::lemma_clear_effect(x, n, n);
}

} // verus!
