//! The register file, its register pairs and the flag layout.
use vstd::prelude::*;

verus! {

/// Sign flag (bit 7 of F).
pub const FLAG_S: u8 = 0x80;
/// Zero flag (bit 6 of F).
pub const FLAG_Z: u8 = 0x40;
/// Undocumented copy of result bit 5 (bit 5 of F).
pub const FLAG_Y: u8 = 0x20;
/// Half-carry flag (bit 4 of F).
pub const FLAG_H: u8 = 0x10;
/// Undocumented copy of result bit 3 (bit 3 of F).
pub const FLAG_X: u8 = 0x08;
/// Parity / overflow flag (bit 2 of F).
pub const FLAG_PV: u8 = 0x04;
/// Add / subtract flag (bit 1 of F).
pub const FLAG_N: u8 = 0x02;
/// Carry flag (bit 0 of F).
pub const FLAG_C: u8 = 0x01;

/// High byte of a 16-bit value.
pub open spec fn hi_of(v: u16) -> u8 {
    (v / 256) as u8
}

/// Low byte of a 16-bit value.
pub open spec fn lo_of(v: u16) -> u8 {
    (v % 256) as u8
}

/// The 16-bit value whose high byte is `hi` and low byte is `lo`.
pub open spec fn compose(hi: u8, lo: u8) -> u16 {
    (hi as int * 256 + lo as int) as u16
}

/// Split representation of a 16-bit register.
#[derive(Copy, Clone)]
pub struct Register16HiLo {
    pub hi: u8,
    pub lo: u8,
}

/// A register pair held as one 16-bit value; its 8-bit halves are
/// composed and decomposed arithmetically, so they can never drift
/// apart from the full value whatever the host's byte order.
#[derive(Copy, Clone, PartialEq, Eq, Structural)]
pub struct Register16 {
    pub full: u16,
}

impl Register16 {
    pub fn from_full(v: u16) -> (r: Register16)
        ensures
            r.full == v,
    {
        Register16 { full: v }
    }

    pub fn from_hilo(h: Register16HiLo) -> (r: Register16)
        ensures
            r.full == compose(h.hi, h.lo),
    {
        Register16 { full: (h.hi as u16) * 256 + (h.lo as u16) }
    }

    pub fn hilo(&self) -> (r: Register16HiLo)
        ensures
            r.hi == hi_of(self.full),
            r.lo == lo_of(self.full),
            compose(r.hi, r.lo) == self.full,
    {
        Register16HiLo { hi: self.hi(), lo: self.lo() }
    }

    pub fn hi(&self) -> (r: u8)
        ensures
            r == hi_of(self.full),
    {
        (self.full / 256) as u8
    }

    pub fn lo(&self) -> (r: u8)
        ensures
            r == lo_of(self.full),
    {
        (self.full % 256) as u8
    }

    pub fn set_hi(&mut self, v: u8)
        ensures
            final(self).full == compose(v, lo_of(old(self).full)),
            hi_of(final(self).full) == v,
            lo_of(final(self).full) == lo_of(old(self).full),
    {
        self.full = (v as u16) * 256 + self.full % 256;
    }

    pub fn set_lo(&mut self, v: u8)
        ensures
            final(self).full == compose(hi_of(old(self).full), v),
            hi_of(final(self).full) == hi_of(old(self).full),
            lo_of(final(self).full) == v,
    {
        self.full = (self.full / 256) * 256 + (v as u16);
    }
}

/// The register file. Bank 0 holds the main registers, bank 1 the
/// shadow set that `EX AF,AF'` and `EXX` exchange with them.
#[derive(Copy, Clone)]
pub struct Registers {
    pub a0: u8,
    pub f0: u8,
    pub a1: u8,
    pub f1: u8,
    pub i: u8,
    pub r: u8,
    pub ix: u16,
    pub iy: u16,
    pub sp: u16,
    pub pc: u16,
    pub bc0: Register16,
    pub de0: Register16,
    pub hl0: Register16,
    pub bc1: Register16,
    pub de1: Register16,
    pub hl1: Register16,
    pub iff1: bool,
    pub iff2: bool,
    pub im: u8,
}

/// The register file after `EX AF,AF'`.
pub open spec fn ex_af_spec(g: Registers) -> Registers {
    Registers { a0: g.a1, f0: g.f1, a1: g.a0, f1: g.f0, ..g }
}

/// The register file after `EXX`.
pub open spec fn exx_spec(g: Registers) -> Registers {
    Registers { bc0: g.bc1, de0: g.de1, hl0: g.hl1, bc1: g.bc0, de1: g.de0, hl1: g.hl0, ..g }
}

/// The refresh register after one opcode fetch: its low seven bits
/// count up, bit 7 stays as it was.
pub open spec fn r_after_fetch(r: u8) -> u8 {
    ((r / 128) * 128 + (r % 128 + 1) % 128) as u8
}

/// Value of the 8-bit register with operand index `idx` (B, C, D, E,
/// H, L, -, A); index 6 is the memory operand and reads as 0 here.
pub open spec fn reg8(g: Registers, idx: u8) -> u8 {
    if idx == 0 {
        hi_of(g.bc0.full)
    } else if idx == 1 {
        lo_of(g.bc0.full)
    } else if idx == 2 {
        hi_of(g.de0.full)
    } else if idx == 3 {
        lo_of(g.de0.full)
    } else if idx == 4 {
        hi_of(g.hl0.full)
    } else if idx == 5 {
        lo_of(g.hl0.full)
    } else if idx == 7 {
        g.a0
    } else {
        0
    }
}

/// The register file with the 8-bit register of operand index `idx`
/// set to `v`; index 6 (the memory operand) leaves it unchanged.
pub open spec fn with_reg8(g: Registers, idx: u8, v: u8) -> Registers {
    if idx == 0 {
        Registers { bc0: Register16 { full: compose(v, lo_of(g.bc0.full)) }, ..g }
    } else if idx == 1 {
        Registers { bc0: Register16 { full: compose(hi_of(g.bc0.full), v) }, ..g }
    } else if idx == 2 {
        Registers { de0: Register16 { full: compose(v, lo_of(g.de0.full)) }, ..g }
    } else if idx == 3 {
        Registers { de0: Register16 { full: compose(hi_of(g.de0.full), v) }, ..g }
    } else if idx == 4 {
        Registers { hl0: Register16 { full: compose(v, lo_of(g.hl0.full)) }, ..g }
    } else if idx == 5 {
        Registers { hl0: Register16 { full: compose(hi_of(g.hl0.full), v) }, ..g }
    } else if idx == 7 {
        Registers { a0: v, ..g }
    } else {
        g
    }
}

/// The register file after a completed reset: the program counter,
/// I, R, both interrupt flip-flops and the interrupt mode are zero;
/// every other register is all ones.
pub open spec fn reset_spec() -> Registers {
    Registers {
        a0: 0xff,
        f0: 0xff,
        a1: 0xff,
        f1: 0xff,
        i: 0,
        r: 0,
        ix: 0xffff,
        iy: 0xffff,
        sp: 0xffff,
        pc: 0,
        bc0: Register16 { full: 0xffff },
        de0: Register16 { full: 0xffff },
        hl0: Register16 { full: 0xffff },
        bc1: Register16 { full: 0xffff },
        de1: Register16 { full: 0xffff },
        hl1: Register16 { full: 0xffff },
        iff1: false,
        iff2: false,
        im: 0,
    }
}

impl Registers {
    /// A register file in the state a completed reset leaves.
    pub fn after_reset() -> (r: Registers)
        ensures
            r == reset_spec(),
    {
        Registers {
            a0: 0xff,
            f0: 0xff,
            a1: 0xff,
            f1: 0xff,
            i: 0,
            r: 0,
            ix: 0xffff,
            iy: 0xffff,
            sp: 0xffff,
            pc: 0,
            bc0: Register16 { full: 0xffff },
            de0: Register16 { full: 0xffff },
            hl0: Register16 { full: 0xffff },
            bc1: Register16 { full: 0xffff },
            de1: Register16 { full: 0xffff },
            hl1: Register16 { full: 0xffff },
            iff1: false,
            iff2: false,
            im: 0,
        }
    }

    /// Exchanges AF with its shadow AF'.
    pub fn ex_af(&mut self)
        ensures
            *final(self) == ex_af_spec(*old(self)),
    {
        let a = self.a0;
        let f = self.f0;
        self.a0 = self.a1;
        self.f0 = self.f1;
        self.a1 = a;
        self.f1 = f;
    }

    /// Exchanges BC, DE and HL with their shadows.
    pub fn exx(&mut self)
        ensures
            *final(self) == exx_spec(*old(self)),
    {
        let bc = self.bc0;
        let de = self.de0;
        let hl = self.hl0;
        self.bc0 = self.bc1;
        self.de0 = self.de1;
        self.hl0 = self.hl1;
        self.bc1 = bc;
        self.de1 = de;
        self.hl1 = hl;
    }

    /// Counts one opcode fetch in the refresh register.
    pub fn bump_r(&mut self)
        ensures
            *final(self) == (Registers { r: r_after_fetch(old(self).r), ..*old(self) }),
    {
        self.r = (self.r / 128) * 128 + (self.r % 128 + 1) % 128;
    }

    /// Reads the 8-bit register with operand index `idx`.
    pub fn get8(&self, idx: u8) -> (v: u8)
        ensures
            v == reg8(*self, idx),
    {
        if idx == 0 {
            self.bc0.hi()
        } else if idx == 1 {
            self.bc0.lo()
        } else if idx == 2 {
            self.de0.hi()
        } else if idx == 3 {
            self.de0.lo()
        } else if idx == 4 {
            self.hl0.hi()
        } else if idx == 5 {
            self.hl0.lo()
        } else if idx == 7 {
            self.a0
        } else {
            0
        }
    }

    /// Writes the 8-bit register with operand index `idx`.
    pub fn set8(&mut self, idx: u8, v: u8)
        ensures
            *final(self) == with_reg8(*old(self), idx, v),
    {
        if idx == 0 {
            self.bc0.set_hi(v);
        } else if idx == 1 {
            self.bc0.set_lo(v);
        } else if idx == 2 {
            self.de0.set_hi(v);
        } else if idx == 3 {
            self.de0.set_lo(v);
        } else if idx == 4 {
            self.hl0.set_hi(v);
        } else if idx == 5 {
            self.hl0.set_lo(v);
        } else if idx == 7 {
            self.a0 = v;
        }
    }
}

/// Exchanging AF with AF' twice gives back the register file it
/// started from.
pub proof fn lemma_ex_af_involution(g: Registers)
    ensures
        ex_af_spec(ex_af_spec(g)) == g,
{
}

/// Exchanging the register pairs with their shadows twice gives back
/// the register file it started from.
pub proof fn lemma_exx_involution(g: Registers)
    ensures
        exx_spec(exx_spec(g)) == g,
{
}

} // verus!
