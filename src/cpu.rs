//! The processor core: the bus-cycle sequencer that runs one T-state
//! per clock edge, the instruction engine that consumes completed
//! cycles, and the interrupt and reset controller.
//!
//! Choices the hardware leaves open are fixed here: an open-bus read
//! gives 0xff (see `mmu`), wait is sampled at the T-state `wait_point`
//! names, and the engine sees 0 as the data of an NMI acknowledge.
use vstd::prelude::*;
use crate::alu::{
    acc, add16, alu, block_flags, cb, condition, dec8, in_flags, inc8, ld_ir_flags, sub8,
};
use crate::mmu::{read_spec, rw_at, ConfigError, Memory, PageTable};
use crate::pins::{
    bi, bistate, tri, tristate, InputOutputPins, InputPins, OutputPins, PinBistate, PinTristate,
};
use crate::registers::{compose, hi_of, lo_of, reset_spec, Registers, Register16};

verus! {

/// The kinds of machine cycle the sequencer runs.
#[derive(Copy, Clone, Debug, PartialEq, Eq, Structural)]
pub enum CycleKind {
    OpcodeFetch,
    MemRead,
    MemWrite,
    IoRead,
    IoWrite,
    IntAck,
    NmiAck,
    Internal,
}

/// T-state at which the wait input is sampled in a cycle of kind `k`;
/// a cycle that never samples it gets an index past its end.
pub open spec fn wait_point(k: CycleKind) -> u8 {
    match k {
        CycleKind::OpcodeFetch => 1,
        CycleKind::MemRead => 1,
        CycleKind::MemWrite => 1,
        CycleKind::IoRead => 2,
        CycleKind::IoWrite => 2,
        CycleKind::IntAck => 3,
        CycleKind::NmiAck => 255,
        CycleKind::Internal => 255,
    }
}

/// The wait sample point of a cycle of kind `k`.
pub fn wait_point_of(k: CycleKind) -> (t: u8)
    ensures
        t == wait_point(k),
{
    match k {
        CycleKind::OpcodeFetch => 1,
        CycleKind::MemRead => 1,
        CycleKind::MemWrite => 1,
        CycleKind::IoRead => 2,
        CycleKind::IoWrite => 2,
        CycleKind::IntAck => 3,
        CycleKind::NmiAck => 255,
        CycleKind::Internal => 255,
    }
}

/// The machine cycle in flight: its kind, address, data (the value to
/// write, or the value latched by a read), length in T-states without
/// wait states, the index of the next T-state, and the wait states
/// inserted so far.
#[derive(Copy, Clone, Debug)]
pub struct BusCycle {
    pub kind: CycleKind,
    pub addr: u16,
    pub data: u8,
    pub len: u8,
    pub t: u8,
    pub waits: u64,
}

/// A cycle about to begin.
pub open spec fn new_cycle(kind: CycleKind, addr: u16, data: u8, len: u8) -> BusCycle {
    BusCycle { kind, addr, data, len, t: 0, waits: 0 }
}

/// An opcode fetch at `pc`, about to begin.
pub open spec fn fetch_at(pc: u16) -> BusCycle {
    new_cycle(CycleKind::OpcodeFetch, pc, 0, 4)
}

/// What the instruction engine is working through.
#[derive(Copy, Clone, Debug, PartialEq, Eq, Structural)]
pub enum Routine {
    Instr,
    Nmi,
    IntMode0,
    IntMode1,
    IntMode2,
}

/// The instruction in progress: prefix byte (0 when none), opcode,
/// the sub-operation reached, and two scratch bytes.
#[derive(Copy, Clone, Debug)]
pub struct Pending {
    pub routine: Routine,
    pub prefix: u8,
    pub opcode: u8,
    pub step: u8,
    pub lo: u8,
    pub hi: u8,
}

/// No instruction in progress: the next fetch starts a new one.
pub open spec fn fresh_pending() -> Pending {
    Pending { routine: Routine::Instr, prefix: 0, opcode: 0, step: 0, lo: 0, hi: 0 }
}

fn fresh() -> (p: Pending)
    ensures
        p == fresh_pending(),
{
    Pending { routine: Routine::Instr, prefix: 0, opcode: 0, step: 0, lo: 0, hi: 0 }
}

/// `(v + 1) mod 2^16`.
pub fn inc16(v: u16) -> (r: u16)
    ensures
        r == (v + 1) % 65536,
{
    if v == 0xffff {
        0
    } else {
        v + 1
    }
}

/// `(v - 1) mod 2^16`.
pub fn dec16(v: u16) -> (r: u16)
    ensures
        r == (v + 65535) % 65536,
{
    if v == 0 {
        0xffff
    } else {
        v - 1
    }
}

/// `d` read as a two's-complement byte.
pub open spec fn signed(d: u8) -> int {
    if d < 128 {
        d as int
    } else {
        d - 256
    }
}

/// `base` displaced by the signed byte `d`, mod 2^16.
pub fn displace(base: u16, d: u8) -> (r: u16)
    ensures
        r == (base + signed(d) + 65536) % 65536,
{
    let s: u32 = base as u32 + d as u32 + 65536 - if d < 128 { 0 } else { 256 };
    (s % 65536) as u16
}

/// Output pins for T-state `t` of cycle `c`; during the refresh half of
/// an opcode fetch the address bus carries I and R.
pub open spec fn outputs_for(c: BusCycle, t: u8, i: u8, r: u8, halted: bool) -> OutputPins {
    let k = c.kind;
    let fetch = k == CycleKind::OpcodeFetch;
    let refresh = fetch && t >= 2;
    OutputPins {
        address_bus: if refresh {
            compose(i, r)
        } else {
            c.addr
        },
        busack: PinBistate::Inactive,
        halt: bi(halted),
        iorq: tri(
            ((k == CycleKind::IoRead || k == CycleKind::IoWrite) && t >= 1) || (k
                == CycleKind::IntAck && t >= 2),
        ),
        m1: bi((fetch && t < 2) || k == CycleKind::IntAck || k == CycleKind::NmiAck),
        mreq: tri(fetch || k == CycleKind::MemRead || k == CycleKind::MemWrite),
        read: tri((fetch && t < 2) || k == CycleKind::MemRead || (k == CycleKind::IoRead && t >= 1)),
        rfsh: bi(refresh),
        wr: bi((k == CycleKind::MemWrite || k == CycleKind::IoWrite) && t >= 1),
    }
}

/// Output pins while the bus is handed to another master: the control
/// lines float and the address bus reads 0.
pub open spec fn released_outputs(halted: bool) -> OutputPins {
    OutputPins {
        address_bus: 0,
        busack: PinBistate::Active,
        halt: bi(halted),
        iorq: PinTristate::Other,
        m1: PinBistate::Inactive,
        mreq: PinTristate::Other,
        read: PinTristate::Other,
        rfsh: PinBistate::Inactive,
        wr: PinBistate::Inactive,
    }
}

/// Output pins while reset is held.
pub open spec fn reset_outputs() -> OutputPins {
    OutputPins {
        address_bus: 0,
        busack: PinBistate::Inactive,
        halt: PinBistate::Inactive,
        iorq: PinTristate::Inactive,
        m1: PinBistate::Inactive,
        mreq: PinTristate::Inactive,
        read: PinTristate::Inactive,
        rfsh: PinBistate::Inactive,
        wr: PinBistate::Inactive,
    }
}

fn drive(c: &BusCycle, t: u8, i: u8, r: u8, halted: bool) -> (o: OutputPins)
    ensures
        o == outputs_for(*c, t, i, r, halted),
{
    let k = c.kind;
    let fetch = k == CycleKind::OpcodeFetch;
    let refresh = fetch && t >= 2;
    OutputPins {
        address_bus: if refresh {
            (i as u16) * 256 + (r as u16)
        } else {
            c.addr
        },
        busack: PinBistate::Inactive,
        halt: bistate(halted),
        iorq: tristate(
            ((k == CycleKind::IoRead || k == CycleKind::IoWrite) && t >= 1) || (k
                == CycleKind::IntAck && t >= 2),
        ),
        m1: bistate((fetch && t < 2) || k == CycleKind::IntAck || k == CycleKind::NmiAck),
        mreq: tristate(fetch || k == CycleKind::MemRead || k == CycleKind::MemWrite),
        read: tristate(
            (fetch && t < 2) || k == CycleKind::MemRead || (k == CycleKind::IoRead && t >= 1),
        ),
        rfsh: bistate(refresh),
        wr: bistate((k == CycleKind::MemWrite || k == CycleKind::IoWrite) && t >= 1),
    }
}

/// Register pair `p` (BC, DE, HL, SP) with HL standing for IX or IY
/// under a DD or FD prefix; with `af`, index 3 names AF instead of SP.
pub open spec fn pair_spec(g: Registers, p: u8, prefix: u8, af: bool) -> u16 {
    if p == 0 {
        g.bc0.full
    } else if p == 1 {
        g.de0.full
    } else if p == 2 {
        if prefix == 0xdd {
            g.ix
        } else if prefix == 0xfd {
            g.iy
        } else {
            g.hl0.full
        }
    } else if af {
        compose(g.a0, g.f0)
    } else {
        g.sp
    }
}

/// The register file with pair `p` (named as in `pair_spec`) set to `v`.
pub open spec fn with_pair(g: Registers, p: u8, prefix: u8, af: bool, v: u16) -> Registers {
    if p == 0 {
        Registers { bc0: Register16 { full: v }, ..g }
    } else if p == 1 {
        Registers { de0: Register16 { full: v }, ..g }
    } else if p == 2 {
        if prefix == 0xdd {
            Registers { ix: v, ..g }
        } else if prefix == 0xfd {
            Registers { iy: v, ..g }
        } else {
            Registers { hl0: Register16 { full: v }, ..g }
        }
    } else if af {
        Registers { a0: hi_of(v), f0: lo_of(v), ..g }
    } else {
        Registers { sp: v, ..g }
    }
}

/// Reads register pair `p`.
pub fn get_pair(regs: &Registers, p: u8, prefix: u8, af: bool) -> (v: u16)
    ensures
        v == pair_spec(*regs, p, prefix, af),
{
    if p == 0 {
        regs.bc0.full
    } else if p == 1 {
        regs.de0.full
    } else if p == 2 {
        if prefix == 0xdd {
            regs.ix
        } else if prefix == 0xfd {
            regs.iy
        } else {
            regs.hl0.full
        }
    } else if af {
        (regs.a0 as u16) * 256 + (regs.f0 as u16)
    } else {
        regs.sp
    }
}

/// Writes register pair `p`.
pub fn set_pair(regs: &mut Registers, p: u8, prefix: u8, af: bool, v: u16)
    ensures
        *final(regs) == with_pair(*old(regs), p, prefix, af, v),
{
    if p == 0 {
        regs.bc0 = Register16 { full: v };
    } else if p == 1 {
        regs.de0 = Register16 { full: v };
    } else if p == 2 {
        if prefix == 0xdd {
            regs.ix = v;
        } else if prefix == 0xfd {
            regs.iy = v;
        } else {
            regs.hl0 = Register16 { full: v };
        }
    } else if af {
        let r = Register16 { full: v };
        regs.a0 = r.hi();
        regs.f0 = r.lo();
    } else {
        regs.sp = v;
    }
}

/// Each instance of Emulator provides a single instance of
/// the Z80 emulator: its page table and the sequencer state that
/// persists between clock edges.
pub struct Emulator {
    pub memory_pages: PageTable,
    pub cycle: BusCycle,
    pub pending: Pending,
    pub halted: bool,
    pub reset_edges: u8,
    pub nmi_prev: bool,
    pub nmi_pending: bool,
}

/// What the instruction boundary does, from emulator `pre` and register
/// file `g` to `post` and `g2`: a latched NMI is taken first, then an
/// enabled maskable interrupt, else the next opcode fetch starts at pc.
pub open spec fn boundary_rel(pre: Emulator, post: Emulator, g: Registers, g2: Registers, int_active: bool) -> bool {
    &&& post.wf()
    &&& post.cycle.t == 0 && post.cycle.waits == 0
    &&& post.memory_pages == pre.memory_pages
    &&& post.reset_edges == pre.reset_edges
    &&& post.nmi_prev == pre.nmi_prev
    &&& !post.nmi_pending
    &&& pre.nmi_pending ==> post.cycle == new_cycle(CycleKind::NmiAck, g.pc, 0, 5)
        && post.pending == (Pending { routine: Routine::Nmi, ..fresh_pending() }) && !post.halted
        && g2 == (Registers { iff1: false, ..g })
    &&& !pre.nmi_pending && int_active && g.iff1 ==> post.cycle == new_cycle(CycleKind::IntAck, g.pc, 0, 6)
        && !post.halted && g2 == (Registers { iff1: false, iff2: false, ..g })
        && post.pending == (Pending {
            routine: if g.im == 0 {
                Routine::IntMode0
            } else if g.im == 1 {
                Routine::IntMode1
            } else {
                Routine::IntMode2
            },
            ..fresh_pending()
        })
    &&& !pre.nmi_pending && !(int_active && g.iff1) ==> post.cycle == fetch_at(g.pc) && g2 == g
        && post.pending == fresh_pending() && post.halted == pre.halted
}

/// Number of clock edges reset must be held for to take effect.
pub const RESET_EDGES: u8 = 3;

impl Emulator {
    /// The sequencer invariant: the cycle in flight has a length of one
    /// to six T-states and its next T-state lies within it.
    pub open spec fn wf(&self) -> bool {
        1 <= self.cycle.len <= 6 && self.cycle.t < self.cycle.len
    }

    /// Starts cycle `kind` at `addr`.
    fn schedule(&mut self, kind: CycleKind, addr: u16, data: u8, len: u8)
        requires
            1 <= len <= 6,
        ensures
            final(self).cycle == new_cycle(kind, addr, data, len),
            final(self).pending == old(self).pending,
            final(self).halted == old(self).halted,
            final(self).nmi_pending == old(self).nmi_pending,
            final(self).memory_pages == old(self).memory_pages,
            final(self).reset_edges == old(self).reset_edges,
            final(self).nmi_prev == old(self).nmi_prev,
            final(self).wf(),
    {
        self.cycle = BusCycle { kind, addr, data, len, t: 0, waits: 0 };
    }

    /// Moves to the next sub-operation of the instruction and starts
    /// cycle `kind` for it.
    fn next(&mut self, kind: CycleKind, addr: u16, data: u8, len: u8, step: u8)
        requires
            1 <= len <= 6,
        ensures
            final(self).cycle == new_cycle(kind, addr, data, len),
            final(self).pending == (Pending { step, ..old(self).pending }),
            final(self).halted == old(self).halted,
            final(self).nmi_pending == old(self).nmi_pending,
            final(self).memory_pages == old(self).memory_pages,
            final(self).reset_edges == old(self).reset_edges,
            final(self).nmi_prev == old(self).nmi_prev,
            final(self).wf(),
    {
        self.pending.step = step;
        self.schedule(kind, addr, data, len);
    }

    /// The instruction boundary: takes a latched NMI, else an enabled
    /// maskable interrupt, else starts the next opcode fetch (at the
    /// same address while halted, since HALT leaves pc past itself).
    fn boundary(&mut self, regs: &mut Registers, int_active: bool)
        ensures
            boundary_rel(*old(self), *final(self), *old(regs), *final(regs), int_active),
    {
        self.pending = fresh();
        if self.nmi_pending {
            self.nmi_pending = false;
            self.halted = false;
            regs.iff1 = false;
            self.pending.routine = Routine::Nmi;
            self.schedule(CycleKind::NmiAck, regs.pc, 0, 5);
        } else if int_active && regs.iff1 {
            self.halted = false;
            regs.iff1 = false;
            regs.iff2 = false;
            self.pending.routine = if regs.im == 0 {
                Routine::IntMode0
            } else if regs.im == 1 {
                Routine::IntMode1
            } else {
                Routine::IntMode2
            };
            self.schedule(CycleKind::IntAck, regs.pc, 0, 6);
        } else {
            self.schedule(CycleKind::OpcodeFetch, regs.pc, 0, 4);
        }
    }

    /// Address of the memory operand: HL, or IX/IY displaced by the
    /// byte held in `lo` under a DD/FD prefix.
    fn operand_addr(&self, regs: &Registers) -> u16 {
        if self.pending.prefix == 0xdd {
            displace(regs.ix, self.pending.lo)
        } else if self.pending.prefix == 0xfd {
            displace(regs.iy, self.pending.lo)
        } else {
            regs.hl0.full
        }
    }

    /// Pushes the high byte of pc: the first write of a call sequence.
    fn push_pc_hi(&mut self, regs: &mut Registers, step: u8)
        ensures
            final(self).wf(),
            final(self).memory_pages == old(self).memory_pages,
            final(self).pending == (Pending { step, ..old(self).pending }),
            final(self).halted == old(self).halted,
            final(self).nmi_pending == old(self).nmi_pending,
            final(self).reset_edges == old(self).reset_edges,
            final(self).nmi_prev == old(self).nmi_prev,
            *final(regs) == (Registers { sp: ((old(regs).sp + 65535) % 65536) as u16, ..*old(regs) }),
            final(self).cycle == new_cycle(CycleKind::MemWrite, final(regs).sp, hi_of(old(regs).pc), 3),
    {
        regs.sp = dec16(regs.sp);
        let v = Register16::from_full(regs.pc).hi();
        self.next(CycleKind::MemWrite, regs.sp, v, 3, step);
    }

    /// Pushes the low byte of pc: the second write of a call sequence.
    fn push_pc_lo(&mut self, regs: &mut Registers, step: u8)
        ensures
            final(self).wf(),
            final(self).memory_pages == old(self).memory_pages,
            final(self).pending == (Pending { step, ..old(self).pending }),
            final(self).halted == old(self).halted,
            final(self).nmi_pending == old(self).nmi_pending,
            final(self).reset_edges == old(self).reset_edges,
            final(self).nmi_prev == old(self).nmi_prev,
            *final(regs) == (Registers { sp: ((old(regs).sp + 65535) % 65536) as u16, ..*old(regs) }),
            final(self).cycle == new_cycle(CycleKind::MemWrite, final(regs).sp, lo_of(old(regs).pc), 3),
    {
        regs.sp = dec16(regs.sp);
        let v = Register16::from_full(regs.pc).lo();
        self.next(CycleKind::MemWrite, regs.sp, v, 3, step);
    }
}


/// The effect on the register file of the unprefixed instructions that
/// touch registers alone and end at once: NOP, EX AF,AF', EXX, DI, EI,
/// EX DE,HL, the one-byte accumulator rotates, CPL, SCF, CCF, LD r,r',
/// the accumulator operations on a register, INC r and DEC r.
pub open spec fn simple_op_spec(op: u8, g: Registers) -> Option<Registers> {
    if op == 0x00 {
        Some(g)
    } else if op == 0x08 {
        Some(crate::registers::ex_af_spec(g))
    } else if op == 0xd9 {
        Some(crate::registers::exx_spec(g))
    } else if op == 0xf3 {
        Some(Registers { iff1: false, iff2: false, ..g })
    } else if op == 0xfb {
        Some(Registers { iff1: true, iff2: true, ..g })
    } else if op == 0xeb {
        Some(Registers { de0: g.hl0, hl0: g.de0, ..g })
    } else if op == 0x07 || op == 0x0f || op == 0x17 || op == 0x1f || op == 0x2f || op == 0x37
        || op == 0x3f {
        let r = crate::alu::acc_spec(op, g.a0, g.f0);
        Some(Registers { a0: r.0, f0: r.1, ..g })
    } else if op / 64 == 1 && (op / 8) % 8 != 6 && op % 8 != 6 {
        Some(crate::registers::with_reg8(g, (op / 8) % 8, crate::registers::reg8(g, op % 8)))
    } else if op / 64 == 2 && op % 8 != 6 {
        let r = crate::alu::alu_spec((op / 8) % 8, g.a0, crate::registers::reg8(g, op % 8), g.f0);
        Some(Registers { a0: r.0, f0: r.1, ..g })
    } else if op / 64 == 0 && (op % 8 == 4 || op % 8 == 5) && (op / 8) % 8 != 6 {
        let y = (op / 8) % 8;
        let r = if op % 8 == 4 {
            crate::alu::inc_spec(crate::registers::reg8(g, y), g.f0)
        } else {
            crate::alu::dec_spec(crate::registers::reg8(g, y), g.f0)
        };
        Some(Registers { f0: r.1, ..crate::registers::with_reg8(g, y, r.0) })
    } else {
        None
    }
}

/// The register file after CB-prefixed operation `op` on a register
/// operand: BIT sets only the flags.
pub open spec fn cb_reg_spec(op: u8, g: Registers) -> Registers {
    let z = op % 8;
    let r = crate::alu::cb_spec(op, crate::registers::reg8(g, z), g.f0);
    if op / 64 == 1 {
        Registers { f0: r.1, ..g }
    } else {
        Registers { f0: r.1, ..crate::registers::with_reg8(g, z, r.0) }
    }
}

/// The effect on the register file of final opcode `op` reached after
/// prefix `prefix` (0 for none), for the instructions that touch
/// registers alone and end at once; nothing for the others.
pub open spec fn reg_op_spec(prefix: u8, op: u8, g: Registers) -> Option<Registers> {
    if prefix == 0 {
        simple_op_spec(op, g)
    } else if prefix == 0xcb && op % 8 != 6 {
        Some(cb_reg_spec(op, g))
    } else {
        None
    }
}

/// Where the restart routine `r` jumps: 0x0066 for an NMI, 0x0038 for
/// a mode-1 interrupt.
pub open spec fn restart_target(r: Routine) -> u16 {
    if r == Routine::Nmi {
        0x66
    } else {
        0x38
    }
}

/// What the instruction engine does within the routine that follows
/// the acknowledge of an NMI or of a mode-1 interrupt: it pushes pc,
/// high byte first, then jumps to the routine's fixed address.
pub open spec fn restart_rel(pre: Emulator, post: Emulator, g: Registers, g2: Registers, int_active: bool) -> bool {
    let r = pre.pending.routine;
    let restart = r == Routine::Nmi || r == Routine::IntMode1;
    let sp1 = ((g.sp + 65535) % 65536) as u16;
    &&& restart && pre.pending.step == 0 ==> post.cycle == new_cycle(CycleKind::MemWrite, sp1, hi_of(g.pc), 3)
        && post.pending == (Pending { step: 1, ..pre.pending }) && g2 == (Registers { sp: sp1, ..g })
        && post.halted == pre.halted && post.nmi_pending == pre.nmi_pending
    &&& restart && pre.pending.step == 1 ==> post.cycle == new_cycle(CycleKind::MemWrite, sp1, lo_of(g.pc), 3)
        && post.pending == (Pending { step: 2, ..pre.pending }) && g2 == (Registers { sp: sp1, ..g })
        && post.halted == pre.halted && post.nmi_pending == pre.nmi_pending
    &&& restart && pre.pending.step >= 2 ==> boundary_rel(pre, post, Registers { pc: restart_target(r), ..g }, g2, int_active)
}

/// The register file with R counting one opcode or acknowledge cycle.
pub open spec fn bump_r_spec(g: Registers) -> Registers {
    Registers { r: crate::registers::r_after_fetch(g.r), ..g }
}

/// Whether `op` is one of the instructions `simple_op_spec` describes.
fn is_simple(op: u8) -> (r: bool)
    ensures
        forall|g: Registers| #[trigger] simple_op_spec(op, g) is Some <==> r,
{
    let x = op / 64;
    let y = (op / 8) % 8;
    let z = op % 8;
    op == 0x00 || op == 0x08 || op == 0xd9 || op == 0xf3 || op == 0xfb || op == 0xeb || op == 0x07
        || op == 0x0f || op == 0x17 || op == 0x1f || op == 0x2f || op == 0x37 || op == 0x3f || (x
        == 1 && y != 6 && z != 6) || (x == 2 && z != 6) || (x == 0 && (z == 4 || z == 5) && y != 6)
}

/// Runs a register-only instruction on the register file.
fn run_simple(regs: &mut Registers, op: u8)
    requires
        simple_op_spec(op, *old(regs)) is Some,
    ensures
        *final(regs) == simple_op_spec(op, *old(regs))->0,
{
    let x = op / 64;
    let y = (op / 8) % 8;
    let z = op % 8;
    if op == 0x00 {
    } else if op == 0x08 {
        regs.ex_af();
    } else if op == 0xd9 {
        regs.exx();
    } else if op == 0xf3 {
        regs.iff1 = false;
        regs.iff2 = false;
    } else if op == 0xfb {
        regs.iff1 = true;
        regs.iff2 = true;
    } else if op == 0xeb {
        let de = regs.de0;
        regs.de0 = regs.hl0;
        regs.hl0 = de;
    } else if op == 0x07 || op == 0x0f || op == 0x17 || op == 0x1f || op == 0x2f || op == 0x37
        || op == 0x3f {
        let (a, f) = acc(op, regs.a0, regs.f0);
        regs.a0 = a;
        regs.f0 = f;
    } else if x == 1 {
        let v = regs.get8(z);
        regs.set8(y, v);
    } else if x == 2 {
        let (a, f) = alu(y, regs.a0, regs.get8(z), regs.f0);
        regs.a0 = a;
        regs.f0 = f;
    } else {
        let (v, f) = if z == 4 {
            inc8(regs.get8(y), regs.f0)
        } else {
            dec8(regs.get8(y), regs.f0)
        };
        regs.set8(y, v);
        regs.f0 = f;
    }
}

impl Emulator {
    /// Runs the instruction engine after a completed cycle that handed
    /// it `data`: the opcode just fetched (step 0) or the operand of
    /// the cycle that sub-operation `pending.step` started. Either a
    /// further cycle is started, or the instruction ends at a boundary.
    fn execute(&mut self, regs: &mut Registers, data: u8, int_active: bool)
        ensures
            final(self).wf(),
            final(self).cycle.t == 0,
            final(self).cycle.waits == 0,
            final(self).memory_pages == old(self).memory_pages,
            final(self).reset_edges == old(self).reset_edges,
            final(self).nmi_prev == old(self).nmi_prev,
            old(self).pending.routine == Routine::Instr && old(self).pending.step == 0
                && reg_op_spec(old(self).pending.prefix, data, *old(regs)) is Some
                ==> boundary_rel(
                *old(self),
                *final(self),
                reg_op_spec(old(self).pending.prefix, data, *old(regs))->0,
                *final(regs),
                int_active,
            ),
            restart_rel(*old(self), *final(self), *old(regs), *final(regs), int_active),
    {
        let step = self.pending.step;
        match self.pending.routine {
            Routine::Nmi => {
                if step == 0 {
                    self.push_pc_hi(regs, 1);
                } else if step == 1 {
                    self.push_pc_lo(regs, 2);
                } else {
                    regs.pc = 0x66;
                    self.boundary(regs, int_active);
                }
                return;
            },
            Routine::IntMode1 => {
                if step == 0 {
                    self.push_pc_hi(regs, 1);
                } else if step == 1 {
                    self.push_pc_lo(regs, 2);
                } else {
                    regs.pc = 0x38;
                    self.boundary(regs, int_active);
                }
                return;
            },
            Routine::IntMode2 => {
                if step == 0 {
                    self.pending.hi = data;
                    self.push_pc_hi(regs, 1);
                } else if step == 1 {
                    self.push_pc_lo(regs, 2);
                } else if step == 2 {
                    let v = self.pending.hi / 2 * 2;
                    self.next(CycleKind::MemRead, (regs.i as u16) * 256 + (v as u16), 0, 3, 3);
                } else if step == 3 {
                    self.pending.lo = data;
                    let v = self.pending.hi / 2 * 2 + 1;
                    self.next(CycleKind::MemRead, (regs.i as u16) * 256 + (v as u16), 0, 3, 4);
                } else {
                    regs.pc = (data as u16) * 256 + (self.pending.lo as u16);
                    self.boundary(regs, int_active);
                }
                return;
            },
            Routine::IntMode0 => {
                self.pending.routine = Routine::Instr;
            },
            Routine::Instr => {},
        }
        if step == 0 {
            self.start(regs, data, int_active);
        } else {
            self.resume(regs, data, int_active);
        }
    }

    /// Step 0: decodes the opcode just fetched. Prefix bytes start a
    /// further fetch; opcodes outside the decoded set end at once, as a
    /// NOP would.
    fn start(&mut self, regs: &mut Registers, op: u8, int_active: bool)
        requires
            old(self).pending.step == 0,
        ensures
            final(self).wf(),
            final(self).cycle.t == 0,
            final(self).cycle.waits == 0,
            final(self).memory_pages == old(self).memory_pages,
            final(self).reset_edges == old(self).reset_edges,
            final(self).nmi_prev == old(self).nmi_prev,
            reg_op_spec(old(self).pending.prefix, op, *old(regs)) is Some
                ==> boundary_rel(
                *old(self),
                *final(self),
                reg_op_spec(old(self).pending.prefix, op, *old(regs))->0,
                *final(regs),
                int_active,
            ),
    {
        let prefix = self.pending.prefix;
        let index = prefix == 0xdd || prefix == 0xfd;
        if (prefix == 0 || index) && (op == 0xcb || op == 0xed || op == 0xdd || op == 0xfd) {
            if index && op == 0xcb {
                // DD CB d op / FD CB d op: displacement, then the operation
                self.read_at_pc(regs, 60);
            } else {
                self.pending.prefix = op;
                self.schedule(CycleKind::OpcodeFetch, regs.pc, 0, 4);
            }
            return;
        }
        self.pending.opcode = op;
        if prefix == 0xed {
            if op == 0x46 || op == 0x66 {
                regs.im = 0;
            } else if op == 0x56 || op == 0x76 {
                regs.im = 1;
            } else if op == 0x5e || op == 0x7e {
                regs.im = 2;
            } else if op == 0x47 {
                regs.i = regs.a0;
            } else if op == 0x4f {
                regs.r = regs.a0;
            } else if op == 0x57 || op == 0x5f {
                let v = if op == 0x57 {
                    regs.i
                } else {
                    regs.r
                };
                regs.a0 = v;
                regs.f0 = ld_ir_flags(v, regs.iff2, regs.f0);
            } else if op / 64 == 1 && op % 8 == 4 {
                let (a, f) = sub8(0, regs.a0, 0);
                regs.a0 = a;
                regs.f0 = f;
            } else if op / 64 == 1 && op % 8 == 0 {
                self.next(CycleKind::IoRead, regs.bc0.full, 0, 4, 72);
                return;
            } else if op / 64 == 1 && op % 8 == 1 {
                let v = regs.get8((op / 8) % 8);
                self.next(CycleKind::IoWrite, regs.bc0.full, v, 4, 73);
                return;
            } else if op == 0xa0 || op == 0xb0 || op == 0xa8 || op == 0xb8 {
                self.next(CycleKind::MemRead, regs.hl0.full, 0, 3, 74);
                return;
            } else if op / 64 == 1 && op % 8 == 5 {
                // RETN / RETI: pop pc, and IFF1 takes IFF2 back
                regs.iff1 = regs.iff2;
                let sp = regs.sp;
                regs.sp = inc16(sp);
                self.next(CycleKind::MemRead, sp, 0, 3, 70);
                return;
            }
            self.boundary(regs, int_active);
            return;
        }
        if prefix == 0xcb {
            if op % 8 == 6 {
                let addr = regs.hl0.full;
                self.next(CycleKind::MemRead, addr, 0, 3, 20);
            } else {
                let (v, f) = cb(op, regs.get8(op % 8), regs.f0);
                if op / 64 != 1 {
                    regs.set8(op % 8, v);
                }
                regs.f0 = f;
                self.boundary(regs, int_active);
            }
            return;
        }
        self.start_main(regs, op, int_active);
    }

    /// Decodes an opcode reached without prefix or under DD/FD: the
    /// register-only instructions run at once, the others start the
    /// first cycle of their own.
    fn start_main(&mut self, regs: &mut Registers, op: u8, int_active: bool)
        requires
            old(self).pending.step == 0,
        ensures
            final(self).wf(),
            final(self).cycle.t == 0,
            final(self).cycle.waits == 0,
            final(self).memory_pages == old(self).memory_pages,
            final(self).reset_edges == old(self).reset_edges,
            final(self).nmi_prev == old(self).nmi_prev,
            simple_op_spec(op, *old(regs)) is Some ==> boundary_rel(
                *old(self),
                *final(self),
                simple_op_spec(op, *old(regs))->0,
                *final(regs),
                int_active,
            ),
    {
        if is_simple(op) {
            run_simple(regs, op);
            self.boundary(regs, int_active);
        } else {
            self.start_cycles(regs, op, int_active);
        }
    }

    /// Starts the first cycle of an instruction that needs the bus or
    /// internal T-states beyond its opcode fetch.
    fn start_cycles(&mut self, regs: &mut Registers, op: u8, int_active: bool)
        requires
            old(self).pending.step == 0,
        ensures
            final(self).wf(),
            final(self).cycle.t == 0,
            final(self).cycle.waits == 0,
            final(self).memory_pages == old(self).memory_pages,
            final(self).reset_edges == old(self).reset_edges,
            final(self).nmi_prev == old(self).nmi_prev,
    {
        let prefix = self.pending.prefix;
        let index = prefix == 0xdd || prefix == 0xfd;
        let x = op / 64;
        let y = (op / 8) % 8;
        let z = op % 8;
        if op == 0x76 {
            self.halted = true;
            self.boundary(regs, int_active);
        } else if index && op == 0x36 {
            self.read_at_pc(regs, 50);
        } else if x == 0 && z == 1 && y % 2 == 0 {
            self.read_at_pc(regs, 1);
        } else if x == 0 && z == 1 {
            let (v, f) = add16(get_pair(regs, 2, prefix, false), get_pair(regs, y / 2, prefix, false), regs.f0);
            set_pair(regs, 2, prefix, false, v);
            regs.f0 = f;
            self.next(CycleKind::Internal, regs.pc, 0, 4, 1);
        } else if x == 0 && z == 3 {
            let v = get_pair(regs, y / 2, prefix, false);
            let v = if y % 2 == 0 {
                inc16(v)
            } else {
                dec16(v)
            };
            set_pair(regs, y / 2, prefix, false, v);
            self.next(CycleKind::Internal, regs.pc, 0, 2, 1);
        } else if x == 0 && z == 2 && y < 4 {
            let addr = get_pair(regs, y / 2, 0, false);
            if y % 2 == 0 {
                self.next(CycleKind::MemWrite, addr, regs.a0, 3, 1);
            } else {
                self.next(CycleKind::MemRead, addr, 0, 3, 1);
            }
        } else if op == 0x10 {
            self.next(CycleKind::Internal, regs.pc, 0, 1, 41);
        } else if x == 3 && z == 1 && y % 2 == 0 {
            let sp = regs.sp;
            regs.sp = inc16(sp);
            self.next(CycleKind::MemRead, sp, 0, 3, 1);
        } else if x == 3 && z == 5 && y % 2 == 0 {
            self.next(CycleKind::Internal, regs.pc, 0, 1, 1);
        } else if x == 3 && z == 0 {
            self.next(CycleKind::Internal, regs.pc, 0, 1, 30);
        } else if op == 0xe9 {
            regs.pc = get_pair(regs, 2, prefix, false);
            self.boundary(regs, int_active);
        } else if op == 0xf9 {
            regs.sp = get_pair(regs, 2, prefix, false);
            self.next(CycleKind::Internal, regs.pc, 0, 2, 1);
        } else if x == 1 || x == 2 || (x == 0 && (z == 4 || z == 5)) {
            // the forms with a memory operand; the others are register-only
            self.operand(regs, int_active);
        } else if (x == 0 && z == 6) || (x == 3 && z == 6) || op == 0xc3 || op == 0xcd
            || op == 0x18 || op == 0xdb || op == 0xd3 || (x == 3 && (z == 2 || z == 4)) || op
            == 0x32 || op == 0x3a || op == 0x22 || op == 0x2a || (x == 0 && z == 0 && y >= 4) {
            self.read_at_pc(regs, 1);
        } else if op == 0xc9 {
            let sp = regs.sp;
            regs.sp = inc16(sp);
            self.next(CycleKind::MemRead, sp, 0, 3, 1);
        } else if x == 3 && z == 7 {
            self.next(CycleKind::Internal, regs.pc, 0, 1, 1);
        } else {
            self.boundary(regs, int_active);
        }
    }

    /// Reads the byte at pc and steps past it.
    fn read_at_pc(&mut self, regs: &mut Registers, step: u8)
        ensures
            final(self).wf(),
            final(self).cycle.t == 0,
            final(self).cycle.waits == 0,
            final(self).memory_pages == old(self).memory_pages,
            final(self).reset_edges == old(self).reset_edges,
            final(self).nmi_prev == old(self).nmi_prev,
    {
        let pc = regs.pc;
        regs.pc = inc16(pc);
        self.next(CycleKind::MemRead, pc, 0, 3, step);
    }

    /// Begins the access to the memory operand: under a DD/FD prefix
    /// the displacement byte is read first (step 10), then five
    /// internal T-states pass (step 11); the access itself is step 12.
    fn operand(&mut self, regs: &mut Registers, int_active: bool)
        ensures
            final(self).wf(),
            final(self).cycle.t == 0,
            final(self).cycle.waits == 0,
            final(self).memory_pages == old(self).memory_pages,
            final(self).reset_edges == old(self).reset_edges,
            final(self).nmi_prev == old(self).nmi_prev,
    {
        if self.pending.prefix == 0xdd || self.pending.prefix == 0xfd {
            self.read_at_pc(regs, 10);
        } else {
            self.access(regs);
        }
    }

    /// Starts the read or write of the memory operand (step 12).
    fn access(&mut self, regs: &mut Registers)
        ensures
            final(self).wf(),
            final(self).cycle.t == 0,
            final(self).cycle.waits == 0,
            final(self).memory_pages == old(self).memory_pages,
            final(self).reset_edges == old(self).reset_edges,
            final(self).nmi_prev == old(self).nmi_prev,
    {
        let op = self.pending.opcode;
        let addr = self.operand_addr(regs);
        if op / 64 == 1 && (op / 8) % 8 == 6 {
            let v = regs.get8(op % 8);
            self.next(CycleKind::MemWrite, addr, v, 3, 12);
        } else {
            self.next(CycleKind::MemRead, addr, 0, 3, 12);
        }
    }

    /// Steps after the first: consumes `data` from the cycle just done.
    fn resume(&mut self, regs: &mut Registers, data: u8, int_active: bool)
        ensures
            final(self).wf(),
            final(self).cycle.t == 0,
            final(self).cycle.waits == 0,
            final(self).memory_pages == old(self).memory_pages,
            final(self).reset_edges == old(self).reset_edges,
            final(self).nmi_prev == old(self).nmi_prev,
    {
        let op = self.pending.opcode;
        let step = self.pending.step;
        let x = op / 64;
        let y = (op / 8) % 8;
        let z = op % 8;
        if step == 72 {
            // IN r,(C); index 6 sets the flags alone
            if y != 6 {
                regs.set8(y, data);
            }
            regs.f0 = in_flags(data, regs.f0);
            self.boundary(regs, int_active);
        } else if step == 73 {
            self.boundary(regs, int_active);
        } else if step == 74 {
            // LDI, LDIR, LDD, LDDR: (HL) to (DE), then step the pointers
            self.next(CycleKind::MemWrite, regs.de0.full, data, 3, 75);
        } else if step == 75 {
            let down = (op / 8) % 2 == 1;
            regs.hl0.full = if down {
                dec16(regs.hl0.full)
            } else {
                inc16(regs.hl0.full)
            };
            regs.de0.full = if down {
                dec16(regs.de0.full)
            } else {
                inc16(regs.de0.full)
            };
            regs.bc0.full = dec16(regs.bc0.full);
            regs.f0 = block_flags(regs.bc0.full, regs.f0);
            self.next(CycleKind::Internal, regs.pc, 0, 2, 76);
        } else if step == 76 {
            if op >= 0xb0 && regs.bc0.full != 0 {
                self.next(CycleKind::Internal, regs.pc, 0, 5, 77);
            } else {
                self.boundary(regs, int_active);
            }
        } else if step == 77 {
            // the repeating forms run again from their own first byte
            regs.pc = dec16(dec16(regs.pc));
            self.boundary(regs, int_active);
        } else if step == 70 {
            self.pending.lo = data;
            let sp = regs.sp;
            regs.sp = inc16(sp);
            self.next(CycleKind::MemRead, sp, 0, 3, 71);
        } else if step == 71 {
            regs.pc = (data as u16) * 256 + (self.pending.lo as u16);
            self.boundary(regs, int_active);
        } else if step == 50 {
            // LD (IX+d),n: displacement, value, then the write
            self.pending.lo = data;
            self.read_at_pc(regs, 51);
        } else if step == 51 {
            self.pending.hi = data;
            self.next(CycleKind::Internal, regs.pc, 0, 2, 52);
        } else if step == 52 {
            let addr = self.operand_addr(regs);
            self.next(CycleKind::MemWrite, addr, self.pending.hi, 3, 13);
        } else if step == 60 {
            self.pending.lo = data;
            self.read_at_pc(regs, 61);
        } else if step == 61 {
            self.pending.opcode = data;
            self.next(CycleKind::Internal, regs.pc, 0, 2, 62);
        } else if step == 62 {
            let addr = self.operand_addr(regs);
            self.next(CycleKind::MemRead, addr, 0, 3, 63);
        } else if step == 63 {
            let (v, f) = cb(op, data, regs.f0);
            regs.f0 = f;
            if x == 1 {
                self.boundary(regs, int_active);
            } else {
                let addr = self.operand_addr(regs);
                self.next(CycleKind::MemWrite, addr, v, 3, 13);
            }
        } else if self.pending.prefix == 0xcb && step == 20 {
            let (v, f) = cb(op, data, regs.f0);
            regs.f0 = f;
            if x == 1 {
                self.boundary(regs, int_active);
            } else {
                let addr = regs.hl0.full;
                self.next(CycleKind::MemWrite, addr, v, 3, 13);
            }
        } else if step == 10 {
            self.pending.lo = data;
            self.next(CycleKind::Internal, regs.pc, 0, 5, 11);
        } else if step == 11 {
            self.access(regs);
        } else if step == 12 {
            if x == 1 {
                if y != 6 {
                    regs.set8(y, data);
                }
                self.boundary(regs, int_active);
            } else if x == 2 {
                let (a, f) = alu(y, regs.a0, data, regs.f0);
                regs.a0 = a;
                regs.f0 = f;
                self.boundary(regs, int_active);
            } else {
                let (v, f) = if z == 4 {
                    inc8(data, regs.f0)
                } else {
                    dec8(data, regs.f0)
                };
                regs.f0 = f;
                let addr = self.operand_addr(regs);
                self.next(CycleKind::MemWrite, addr, v, 3, 13);
            }
        } else if step == 13 {
            self.boundary(regs, int_active);
        } else if x == 0 && z == 6 {
            // LD r,n and LD (HL),n
            if step == 1 && y == 6 {
                let addr = regs.hl0.full;
                self.next(CycleKind::MemWrite, addr, data, 3, 2);
            } else {
                if step == 1 {
                    regs.set8(y, data);
                }
                self.boundary(regs, int_active);
            }
        } else if x == 3 && z == 6 {
            let (a, f) = alu(y, regs.a0, data, regs.f0);
            regs.a0 = a;
            regs.f0 = f;
            self.boundary(regs, int_active);
        } else {
            self.resume_flow(regs, data, int_active);
        }
    }

    /// Later steps of the 16-bit loads, jumps, calls, returns, stack
    /// and I/O instructions.
    fn resume_flow(&mut self, regs: &mut Registers, data: u8, int_active: bool)
        ensures
            final(self).wf(),
            final(self).cycle.t == 0,
            final(self).cycle.waits == 0,
            final(self).memory_pages == old(self).memory_pages,
            final(self).reset_edges == old(self).reset_edges,
            final(self).nmi_prev == old(self).nmi_prev,
    {
        let op = self.pending.opcode;
        let step = self.pending.step;
        let x = op / 64;
        let y = (op / 8) % 8;
        let z = op % 8;
        if (x == 0 && z == 1 && y % 2 == 0) || op == 0xc3 || op == 0xcd || (x == 3 && (z
            == 2 || z == 4)) || op == 0x32 || op == 0x3a || op == 0x22 || op == 0x2a {
            // LD dd,nn; JP (cc,)nn; CALL (cc,)nn; LD (nn),A; LD A,(nn);
            // LD (nn),HL; LD HL,(nn)
            if step == 1 {
                self.pending.lo = data;
                self.read_at_pc(regs, 2);
            } else if step == 2 {
                self.pending.hi = data;
                let nn = (data as u16) * 256 + (self.pending.lo as u16);
                if x == 0 && z == 1 {
                    set_pair(regs, y / 2, self.pending.prefix, false, nn);
                    self.boundary(regs, int_active);
                } else if op == 0x3a {
                    self.next(CycleKind::MemRead, nn, 0, 3, 3);
                } else if op == 0x32 {
                    self.next(CycleKind::MemWrite, nn, regs.a0, 3, 4);
                } else if op == 0x2a {
                    self.next(CycleKind::MemRead, nn, 0, 3, 80);
                } else if op == 0x22 {
                    let v = Register16 { full: get_pair(regs, 2, self.pending.prefix, false) };
                    self.next(CycleKind::MemWrite, nn, v.lo(), 3, 82);
                } else if op == 0xc3 || (z == 2 && condition(y, regs.f0)) {
                    regs.pc = nn;
                    self.boundary(regs, int_active);
                } else if op == 0xcd || (z == 4 && condition(y, regs.f0)) {
                    self.next(CycleKind::Internal, regs.pc, 0, 1, 5);
                } else {
                    self.boundary(regs, int_active);
                }
            } else if step == 3 {
                regs.a0 = data;
                self.boundary(regs, int_active);
            } else if step == 5 {
                self.push_pc_hi(regs, 6);
            } else if step == 6 {
                self.push_pc_lo(regs, 7);
            } else if step == 7 {
                regs.pc = (self.pending.hi as u16) * 256 + (self.pending.lo as u16);
                self.boundary(regs, int_active);
            } else if step == 80 {
                let addr = inc16((self.pending.hi as u16) * 256 + (self.pending.lo as u16));
                self.pending.lo = data;
                self.next(CycleKind::MemRead, addr, 0, 3, 81);
            } else if step == 81 {
                let v = (data as u16) * 256 + (self.pending.lo as u16);
                set_pair(regs, 2, self.pending.prefix, false, v);
                self.boundary(regs, int_active);
            } else if step == 82 {
                let addr = inc16((self.pending.hi as u16) * 256 + (self.pending.lo as u16));
                let v = Register16 { full: get_pair(regs, 2, self.pending.prefix, false) };
                self.next(CycleKind::MemWrite, addr, v.hi(), 3, 83);
            } else {
                self.boundary(regs, int_active);
            }
        } else if x == 0 && z == 1 {
            // ADD HL,ss: seven internal T-states in all
            if step == 1 {
                self.next(CycleKind::Internal, regs.pc, 0, 3, 2);
            } else {
                self.boundary(regs, int_active);
            }
        } else if x == 0 && z == 2 {
            // LD (BC),A; LD A,(BC); LD (DE),A; LD A,(DE)
            if y % 2 == 1 {
                regs.a0 = data;
            }
            self.boundary(regs, int_active);
        } else if op == 0x10 {
            // DJNZ e
            if step == 41 {
                self.read_at_pc(regs, 42);
            } else if step == 42 {
                self.pending.lo = data;
                let b = regs.get8(0);
                let b = if b == 0 {
                    255
                } else {
                    b - 1
                };
                regs.set8(0, b);
                if b != 0 {
                    self.next(CycleKind::Internal, regs.pc, 0, 5, 43);
                } else {
                    self.boundary(regs, int_active);
                }
            } else {
                regs.pc = displace(regs.pc, self.pending.lo);
                self.boundary(regs, int_active);
            }
        } else if x == 3 && z == 1 && y % 2 == 0 {
            // POP qq
            if step == 1 {
                self.pending.lo = data;
                let sp = regs.sp;
                regs.sp = inc16(sp);
                self.next(CycleKind::MemRead, sp, 0, 3, 2);
            } else {
                let v = (data as u16) * 256 + (self.pending.lo as u16);
                set_pair(regs, y / 2, self.pending.prefix, true, v);
                self.boundary(regs, int_active);
            }
        } else if x == 3 && z == 5 && y % 2 == 0 {
            // PUSH qq
            if step == 1 {
                let v = Register16 { full: get_pair(regs, y / 2, self.pending.prefix, true) };
                regs.sp = dec16(regs.sp);
                self.next(CycleKind::MemWrite, regs.sp, v.hi(), 3, 2);
            } else if step == 2 {
                let v = Register16 { full: get_pair(regs, y / 2, self.pending.prefix, true) };
                regs.sp = dec16(regs.sp);
                self.next(CycleKind::MemWrite, regs.sp, v.lo(), 3, 3);
            } else {
                self.boundary(regs, int_active);
            }
        } else if x == 3 && z == 0 {
            // RET cc
            if step == 30 {
                if condition(y, regs.f0) {
                    let sp = regs.sp;
                    regs.sp = inc16(sp);
                    self.next(CycleKind::MemRead, sp, 0, 3, 31);
                } else {
                    self.boundary(regs, int_active);
                }
            } else if step == 31 {
                self.pending.lo = data;
                let sp = regs.sp;
                regs.sp = inc16(sp);
                self.next(CycleKind::MemRead, sp, 0, 3, 32);
            } else {
                regs.pc = (data as u16) * 256 + (self.pending.lo as u16);
                self.boundary(regs, int_active);
            }
        } else if op == 0xc9 {
            if step == 1 {
                self.pending.lo = data;
                let sp = regs.sp;
                regs.sp = inc16(sp);
                self.next(CycleKind::MemRead, sp, 0, 3, 2);
            } else {
                regs.pc = (data as u16) * 256 + (self.pending.lo as u16);
                self.boundary(regs, int_active);
            }
        } else if x == 3 && z == 7 {
            // RST p
            if step == 1 {
                self.push_pc_hi(regs, 2);
            } else if step == 2 {
                self.push_pc_lo(regs, 3);
            } else {
                regs.pc = (y as u16) * 8;
                self.boundary(regs, int_active);
            }
        } else if op == 0x18 || (x == 0 && z == 0 && y >= 4) {
            // JR e; JR cc,e
            if step == 1 {
                self.pending.lo = data;
                if op == 0x18 || condition(y - 4, regs.f0) {
                    self.next(CycleKind::Internal, regs.pc, 0, 5, 2);
                } else {
                    self.boundary(regs, int_active);
                }
            } else {
                regs.pc = displace(regs.pc, self.pending.lo);
                self.boundary(regs, int_active);
            }
        } else if op == 0xdb || op == 0xd3 {
            if step == 1 {
                let io_addr = (regs.a0 as u16) * 256 + (data as u16);
                if op == 0xdb {
                    self.next(CycleKind::IoRead, io_addr, 0, 4, 2);
                } else {
                    self.next(CycleKind::IoWrite, io_addr, regs.a0, 4, 2);
                }
            } else {
                if op == 0xdb {
                    regs.a0 = data;
                }
                self.boundary(regs, int_active);
            }
        } else {
            self.boundary(regs, int_active);
        }
    }
}


/// The register file after the opcode fetch itself: pc past the opcode
/// and R counted up.
pub open spec fn after_fetch(g: Registers) -> Registers {
    Registers { pc: ((g.pc + 1) % 65536) as u16, r: crate::registers::r_after_fetch(g.r), ..g }
}

/// Whether cycle `c` stalls on this edge: it stands at its wait sample
/// point and the wait input is active.
pub open spec fn stalls(c: BusCycle, wait: bool) -> bool {
    c.t == wait_point(c.kind) && wait
}

/// `v + 1`, saturating at the largest `u64`.
pub open spec fn sat_inc(v: u64) -> u64 {
    if v < u64::MAX {
        (v + 1) as u64
    } else {
        v
    }
}

/// The emulator once this edge's NMI input has been sampled: an
/// inactive-to-active change latches a pending NMI.
pub open spec fn sampled(pre: Emulator, inp: InputPins) -> Emulator {
    let nmi = inp.nmi == PinBistate::Active;
    Emulator {
        nmi_pending: pre.nmi_pending || (nmi && !pre.nmi_prev),
        nmi_prev: nmi,
        reset_edges: 0,
        ..pre
    }
}

/// One clock edge of a running processor (reset inactive, no reset
/// pending), from `pre` and `g` to `post` and `g2`, with `d_in` the
/// data bus as the host left it and `d_out` as the edge leaves it.
pub open spec fn run_rel(
    pre: Emulator,
    post: Emulator,
    g: Registers,
    g2: Registers,
    inp: InputPins,
    out: OutputPins,
    d_in: u8,
    d_out: u8,
) -> bool {
    let s = sampled(pre, inp);
    let c = pre.cycle;
    let held = c.t == 0 && c.waits == 0 && inp.busreq == PinBistate::Active;
    let stall = stalls(c, inp.wait == PinBistate::Active);
    let last = c.t + 1 >= c.len;
    let int_active = inp.int == PinBistate::Active;
    let s2 = Emulator { memory_pages: post.memory_pages, ..s };
    &&& held ==> post == s && g2 == g && out == released_outputs(pre.halted) && d_out == d_in
    &&& !held ==> out == outputs_for(c, c.t, g.i, g.r, pre.halted)
    &&& !held && stall ==> post == (Emulator { cycle: BusCycle { waits: sat_inc(c.waits), ..c }, ..s })
        && g2 == g
    &&& !held && !stall && !last ==> post == (Emulator {
        cycle: BusCycle {
            t: (c.t + 1) as u8,
            data: if c.kind == CycleKind::OpcodeFetch && c.t == 1 {
                read_spec(pre.memory_pages.view(), c.addr)
            } else {
                c.data
            },
            ..c
        },
        ..s
    }) && g2 == g
    &&& !held && !stall && last ==> post.cycle.t == 0 && post.cycle.waits == 0 && post.reset_edges == 0
    &&& !held && !stall && last && c.kind == CycleKind::MemRead ==> d_out == read_spec(
        pre.memory_pages.view(),
        c.addr,
    )
    &&& !held && !stall && last && c.kind != CycleKind::MemWrite ==> post.memory_pages
        == pre.memory_pages
    &&& !held && !stall && last && c.kind == CycleKind::MemWrite ==> (forall|a: u16|
        a != c.addr ==> #[trigger] read_spec(post.memory_pages.view(), a) == read_spec(
            pre.memory_pages.view(),
            a,
        )) && (rw_at(pre.memory_pages.view(), c.addr) ==> read_spec(post.memory_pages.view(), c.addr)
        == c.data) && (forall|a: u16|
        rw_at(pre.memory_pages.view(), a) ==> #[trigger] rw_at(post.memory_pages.view(), a))
    &&& !held && !stall && last && c.kind == CycleKind::OpcodeFetch && pre.halted ==> boundary_rel(
        s2,
        post,
        bump_r_spec(g),
        g2,
        int_active,
    )
    &&& !held && !stall && last && c.kind != CycleKind::OpcodeFetch ==> restart_rel(
        s2,
        post,
        if c.kind == CycleKind::IntAck {
            bump_r_spec(g)
        } else {
            g
        },
        g2,
        int_active,
    )
    &&& !held && !stall && last && c.kind == CycleKind::OpcodeFetch && !pre.halted
        && pre.pending.routine == Routine::Instr && pre.pending.step == 0
        && reg_op_spec(pre.pending.prefix, c.data, after_fetch(g)) is Some ==> boundary_rel(
        s2,
        post,
        reg_op_spec(pre.pending.prefix, c.data, after_fetch(g))->0,
        g2,
        int_active,
    )
}

/// One clock edge, from emulator `pre` and register file `g` to `post`
/// and `g2`. While reset is held its edges are counted and nothing else
/// moves; on release after at least `RESET_EDGES` of them the processor
/// restarts from the reset state; otherwise the edge runs the machine.
pub open spec fn clock_rel(
    pre: Emulator,
    post: Emulator,
    g: Registers,
    g2: Registers,
    inp: InputPins,
    out: OutputPins,
    d_in: u8,
    d_out: u8,
) -> bool {
    let reset = inp.reset == PinBistate::Active;
    &&& post.wf()
    &&& reset ==> post == (Emulator {
        reset_edges: if pre.reset_edges < 255 {
            (pre.reset_edges + 1) as u8
        } else {
            255
        },
        ..pre
    }) && g2 == g && out == reset_outputs() && d_out == d_in
    &&& !reset && pre.reset_edges >= RESET_EDGES ==> g2 == reset_spec() && post.cycle == fetch_at(0)
        && post.pending == fresh_pending() && !post.halted && !post.nmi_pending
        && post.reset_edges == 0 && post.memory_pages == pre.memory_pages && out
        == reset_outputs() && d_out == d_in
    &&& !reset && pre.reset_edges < RESET_EDGES ==> run_rel(pre, post, g, g2, inp, out, d_in, d_out)
}

impl Emulator {
    /// An emulator with every page unmapped, about to fetch from 0.
    pub fn new() -> (e: Emulator)
        ensures
            e.wf(),
            forall|p: int| 0 <= p < crate::mmu::PAGE_COUNT ==> (#[trigger] e.memory_pages.view()[p]) is None,
            e.cycle == fetch_at(0),
            e.pending == fresh_pending(),
            !e.halted,
            !e.nmi_pending,
            !e.nmi_prev,
            e.reset_edges == 0,
    {
        Emulator {
            memory_pages: PageTable::new(),
            cycle: BusCycle { kind: CycleKind::OpcodeFetch, addr: 0, data: 0, len: 4, t: 0, waits: 0 },
            pending: fresh(),
            halted: false,
            reset_edges: 0,
            nmi_prev: false,
            nmi_pending: false,
        }
    }

    /// Attaches `page` at slot `index`, handing back the page it
    /// replaces; fails on an index past the table or a page that is
    /// not exactly 256 bytes.
    pub fn attach_page(&mut self, index: usize, page: Memory) -> (r: Result<Option<Memory>, ConfigError>)
        ensures
            final(self).cycle == old(self).cycle,
            final(self).pending == old(self).pending,
            final(self).halted == old(self).halted,
            final(self).reset_edges == old(self).reset_edges,
            final(self).nmi_prev == old(self).nmi_prev,
            final(self).nmi_pending == old(self).nmi_pending,
            index >= crate::mmu::PAGE_COUNT ==> r == Err::<Option<Memory>, ConfigError>(
                ConfigError::PageIndexOutOfRange,
            ) && final(self).memory_pages.view() == old(self).memory_pages.view(),
            index < crate::mmu::PAGE_COUNT && page.bytes().len() != crate::mmu::PAGE_SIZE ==> r
                == Err::<Option<Memory>, ConfigError>(ConfigError::WrongPageSize)
                && final(self).memory_pages.view() == old(self).memory_pages.view(),
            index < crate::mmu::PAGE_COUNT && page.bytes().len() == crate::mmu::PAGE_SIZE ==> (r
                matches Ok(prev) && prev == old(self).memory_pages.view()[index as int]
                && final(self).memory_pages.view() == old(self).memory_pages.view().update(
                index as int,
                Some(page),
            )),
    {
        self.memory_pages.attach(index, page)
    }

    /// Empties slot `index`, handing its page back.
    pub fn detach_page(&mut self, index: usize) -> (r: Result<Option<Memory>, ConfigError>)
        ensures
            final(self).cycle == old(self).cycle,
            final(self).pending == old(self).pending,
            final(self).halted == old(self).halted,
            final(self).reset_edges == old(self).reset_edges,
            final(self).nmi_prev == old(self).nmi_prev,
            final(self).nmi_pending == old(self).nmi_pending,
            index >= crate::mmu::PAGE_COUNT ==> r == Err::<Option<Memory>, ConfigError>(
                ConfigError::PageIndexOutOfRange,
            ) && final(self).memory_pages.view() == old(self).memory_pages.view(),
            index < crate::mmu::PAGE_COUNT ==> (r matches Ok(prev) && prev
                == old(self).memory_pages.view()[index as int] && final(self).memory_pages.view()
                == old(self).memory_pages.view().update(index as int, None)),
    {
        self.memory_pages.detach(index)
    }

    /// The byte a memory read of `addr` yields.
    pub fn read_memory(&self, addr: u16) -> (v: u8)
        ensures
            v == read_spec(self.memory_pages.view(), addr),
    {
        self.memory_pages.read(addr)
    }

    /// Hands a completed cycle's data to the instruction engine; an
    /// opcode fetch first counts R and, unless halted, steps pc.
    fn finish(&mut self, regs: &mut Registers, data: u8, int_active: bool)
        ensures
            final(self).wf(),
            final(self).cycle.t == 0,
            final(self).cycle.waits == 0,
            final(self).memory_pages == old(self).memory_pages,
            final(self).reset_edges == old(self).reset_edges,
            final(self).nmi_prev == old(self).nmi_prev,
            old(self).cycle.kind == CycleKind::OpcodeFetch && !old(self).halted
                && old(self).pending.routine == Routine::Instr && old(self).pending.step == 0
                && reg_op_spec(old(self).pending.prefix, data, after_fetch(*old(regs))) is Some
                ==> boundary_rel(
                *old(self),
                *final(self),
                reg_op_spec(old(self).pending.prefix, data, after_fetch(*old(regs)))->0,
                *final(regs),
                int_active,
            ),
            old(self).cycle.kind == CycleKind::OpcodeFetch && old(self).halted ==> boundary_rel(
                *old(self),
                *final(self),
                bump_r_spec(*old(regs)),
                *final(regs),
                int_active,
            ),
            old(self).cycle.kind != CycleKind::OpcodeFetch ==> restart_rel(
                *old(self),
                *final(self),
                if old(self).cycle.kind == CycleKind::IntAck {
                    bump_r_spec(*old(regs))
                } else {
                    *old(regs)
                },
                *final(regs),
                int_active,
            ),
    {
        let k = self.cycle.kind;
        if k == CycleKind::OpcodeFetch {
            regs.bump_r();
            if self.halted {
                self.boundary(regs, int_active);
            } else {
                regs.pc = inc16(regs.pc);
                self.execute(regs, data, int_active);
            }
        } else {
            if k == CycleKind::IntAck {
                regs.bump_r();
            }
            self.execute(regs, data, int_active);
        }
    }

    /// Runs T-state `cycle.t` of the cycle in flight.
    fn tick(
        &mut self,
        inp: &InputPins,
        out: &mut OutputPins,
        io: &mut InputOutputPins,
        regs: &mut Registers,
    )
        requires
            old(self).wf(),
            old(self).reset_edges == 0,
            old(self).nmi_prev == (inp.nmi == PinBistate::Active),
            !(old(self).cycle.t == 0 && old(self).cycle.waits == 0 && inp.busreq
                == PinBistate::Active),
        ensures
            run_rel(*old(self), *final(self), *old(regs), *final(regs), *inp, *final(out), old(io).data_bus, final(io).data_bus),
            final(self).wf(),
    {
        assert(sampled(*self, *inp) == *self);
        let c = self.cycle;
        let t = c.t;
        let k = c.kind;
        *out = drive(&c, t, regs.i, regs.r, self.halted);
        if k == CycleKind::MemWrite || k == CycleKind::IoWrite {
            io.data_bus = c.data;
        }
        if k == CycleKind::OpcodeFetch && t == 1 {
            io.data_bus = self.memory_pages.read(c.addr);
        }
        if t == wait_point_of(k) && inp.wait.is_active() {
            if self.cycle.waits < u64::MAX {
                self.cycle.waits = self.cycle.waits + 1;
            }
            return;
        }
        if t + 1 < c.len {
            if k == CycleKind::OpcodeFetch && t == 1 {
                self.cycle.data = io.data_bus;
            }
            self.cycle.t = t + 1;
            return;
        }
        let data = if k == CycleKind::MemRead {
            let v = self.memory_pages.read(c.addr);
            io.data_bus = v;
            v
        } else if k == CycleKind::MemWrite {
            self.memory_pages.write(c.addr, c.data);
            c.data
        } else if k == CycleKind::IoRead || k == CycleKind::IntAck {
            io.data_bus
        } else if k == CycleKind::NmiAck {
            // no memory is read while an NMI is acknowledged; the engine sees 0
            0
        } else {
            c.data
        };
        self.finish(regs, data, inp.int.is_active());
    }

    /// Causes the emulator to evaluate its next clock edge, blocking
    /// until the edge is complete.
    ///
    /// While reset is active the edges are counted and the outputs go
    /// idle; releasing it after at least `RESET_EDGES` edges restarts the
    /// processor from the reset state. Otherwise an NMI edge is latched, a
    /// bus request is granted between cycles, and the next T-state of the
    /// cycle in flight is run: wait active at the cycle's sample point
    /// repeats that T-state, and the last T-state hands the cycle's data
    /// to the instruction engine.
    ///
    /// # Arguments
    /// * `input_pins` - (In) Current input pin state.
    /// * `output_pins` - (Out) Current output pin state.
    /// * `input_output_pins` - (In/Out) Current in/out pin state.
    /// * `registers` - (In/Out) Current registers state.
    pub fn on_clock(
        &mut self,
        input_pins: &InputPins,
        output_pins: &mut OutputPins,
        input_output_pins: &mut InputOutputPins,
        registers: &mut Registers,
    )
        requires
            old(self).wf(),
        ensures
            clock_rel(
                *old(self),
                *final(self),
                *old(registers),
                *final(registers),
                *input_pins,
                *final(output_pins),
                old(input_output_pins).data_bus,
                final(input_output_pins).data_bus,
            ),
    {
        if input_pins.reset.is_active() {
            if self.reset_edges < 255 {
                self.reset_edges = self.reset_edges + 1;
            }
            *output_pins = OutputPins::idle();
            return;
        }
        if self.reset_edges >= RESET_EDGES {
            *registers = Registers::after_reset();
            self.cycle = BusCycle { kind: CycleKind::OpcodeFetch, addr: 0, data: 0, len: 4, t: 0, waits: 0 };
            self.pending = fresh();
            self.halted = false;
            self.nmi_pending = false;
            self.nmi_prev = input_pins.nmi.is_active();
            self.reset_edges = 0;
            *output_pins = OutputPins::idle();
            return;
        }
        self.reset_edges = 0;
        let nmi = input_pins.nmi.is_active();
        if nmi && !self.nmi_prev {
            self.nmi_pending = true;
        }
        self.nmi_prev = nmi;
        if self.cycle.t == 0 && self.cycle.waits == 0 && input_pins.busreq.is_active() {
            *output_pins = OutputPins {
                address_bus: 0,
                busack: PinBistate::Active,
                halt: bistate(self.halted),
                iorq: PinTristate::Other,
                m1: PinBistate::Inactive,
                mreq: PinTristate::Other,
                read: PinTristate::Other,
                rfsh: PinBistate::Inactive,
                wr: PinBistate::Inactive,
            };
            return;
        }
        self.tick(input_pins, output_pins, input_output_pins, registers);
    }
}

/// Creates and returns a new emulator instance.
pub fn create_emulator() -> (e: Emulator)
    ensures
        e.wf(),
        forall|p: int| 0 <= p < crate::mmu::PAGE_COUNT ==> (#[trigger] e.memory_pages.view()[p]) is None,
        e.cycle == fetch_at(0),
        e.pending == fresh_pending(),
        !e.halted,
        !e.nmi_pending,
        e.reset_edges == 0,
{
    Emulator::new()
}


/// Every input pin inactive.
pub open spec fn quiet(inp: InputPins) -> bool {
    &&& inp.busreq == PinBistate::Inactive
    &&& inp.int == PinBistate::Inactive
    &&& inp.nmi == PinBistate::Inactive
    &&& inp.reset == PinBistate::Inactive
    &&& inp.wait == PinBistate::Inactive
}

/// Edges `k` to `k + 1` of a run of clock edges, for `k < n`.
pub open spec fn edges(
    s: Seq<Emulator>,
    g: Seq<Registers>,
    inp: Seq<InputPins>,
    out: Seq<OutputPins>,
    din: Seq<u8>,
    dout: Seq<u8>,
    n: nat,
) -> bool {
    &&& s.len() == n + 1
    &&& g.len() == n + 1
    &&& inp.len() == n
    &&& out.len() == n
    &&& din.len() == n
    &&& dout.len() == n
    &&& forall|k: int|
        0 <= k < n ==> #[trigger] clock_rel(
            s[k],
            s[k + 1],
            g[k],
            g[k + 1],
            inp[k],
            out[k],
            din[k],
            dout[k],
        )
}

proof fn lemma_reset_count(
    s: Seq<Emulator>,
    g: Seq<Registers>,
    inp: Seq<InputPins>,
    out: Seq<OutputPins>,
    din: Seq<u8>,
    dout: Seq<u8>,
    n: nat,
    k: nat,
)
    requires
        edges(s, g, inp, out, din, dout, n),
        k <= n,
        forall|j: int| 0 <= j < n ==> (#[trigger] inp[j]).reset == PinBistate::Active,
    ensures
        s[k as int].reset_edges >= if k < 3 { k } else { 3 },
    decreases k,
{
    if k > 0 {
        lemma_reset_count(s, g, inp, out, din, dout, n, (k - 1) as nat);
        let j = k - 1;
        assert(clock_rel(s[j], s[j + 1], g[j], g[j + 1], inp[j], out[j], din[j], dout[j]));
    }
}

/// Holding reset for at least `RESET_EDGES` edges and then releasing it
/// leaves pc, both interrupt flip-flops and the interrupt mode at zero,
/// whatever state the processor was in before.
pub proof fn lemma_reset_restarts(
    s: Seq<Emulator>,
    g: Seq<Registers>,
    inp: Seq<InputPins>,
    out: Seq<OutputPins>,
    din: Seq<u8>,
    dout: Seq<u8>,
    n: nat,
)
    requires
        n >= RESET_EDGES,
        edges(s, g, inp, out, din, dout, (n + 1) as nat),
        forall|j: int| 0 <= j < n ==> (#[trigger] inp[j]).reset == PinBistate::Active,
        inp[n as int].reset == PinBistate::Inactive,
    ensures
        g[n + 1int].pc == 0,
        !g[n + 1int].iff1,
        !g[n + 1int].iff2,
        g[n + 1int].im == 0,
        g[n + 1int] == reset_spec(),
        s[n + 1int].cycle == fetch_at(0),
        s[n + 1int].pending == fresh_pending(),
        !s[n + 1int].halted,
{
    let m = n + 1;
    assert(edges(s.take(m as int), g.take(m as int), inp.take(n as int), out.take(n as int), din.take(n as int), dout.take(n as int), n)) by {
        assert forall|k: int| 0 <= k < n implies #[trigger] clock_rel(
            s.take(m as int)[k],
            s.take(m as int)[k + 1],
            g.take(m as int)[k],
            g.take(m as int)[k + 1],
            inp.take(n as int)[k],
            out.take(n as int)[k],
            din.take(n as int)[k],
            dout.take(n as int)[k],
        ) by {
            assert(clock_rel(s[k], s[k + 1], g[k], g[k + 1], inp[k], out[k], din[k], dout[k]));
        }
    }
    lemma_reset_count(s.take(m as int), g.take(m as int), inp.take(n as int), out.take(n as int), din.take(n as int), dout.take(n as int), n, n);
    assert(clock_rel(s[n as int], s[m as int], g[n as int], g[m as int], inp[n as int], out[n as int], din[n as int], dout[n as int]));
}

/// A NOP fetched with every input inactive takes exactly four clock
/// edges: the cycle does not end before the fourth, and after it pc has
/// moved past the opcode, R has counted the fetch, every other register
/// is as it was, and the next opcode fetch is about to begin.
pub proof fn lemma_nop_timing(
    s: Seq<Emulator>,
    g: Seq<Registers>,
    inp: Seq<InputPins>,
    out: Seq<OutputPins>,
    din: Seq<u8>,
    dout: Seq<u8>,
)
    requires
        edges(s, g, inp, out, din, dout, 4),
        forall|k: int| 0 <= k < 4 ==> quiet(#[trigger] inp[k]),
        s[0].cycle == fetch_at(g[0].pc),
        s[0].pending == fresh_pending(),
        !s[0].halted,
        !s[0].nmi_pending,
        s[0].reset_edges == 0,
        read_spec(s[0].memory_pages.view(), g[0].pc) == 0x00,
    ensures
        forall|k: int| 1 <= k < 4 ==> (#[trigger] s[k]).cycle.kind == CycleKind::OpcodeFetch && s[k].cycle.t == k,
        g[4] == after_fetch(g[0]),
        s[4].cycle == fetch_at(((g[0].pc + 1) % 65536) as u16),
        s[4].pending == fresh_pending(),
        !s[4].halted,
{
    let k0: int = 0;
    assert(clock_rel(s[k0], s[k0 + 1], g[k0], g[k0 + 1], inp[k0], out[k0], din[k0], dout[k0]));
    assert(quiet(inp[0]));
    let k1: int = 1;
    assert(clock_rel(s[k1], s[k1 + 1], g[k1], g[k1 + 1], inp[k1], out[k1], din[k1], dout[k1]));
    assert(quiet(inp[1]));
    let k2: int = 2;
    assert(clock_rel(s[k2], s[k2 + 1], g[k2], g[k2 + 1], inp[k2], out[k2], din[k2], dout[k2]));
    assert(quiet(inp[2]));
    assert(s[3].cycle.data == 0);
    let k3: int = 3;
    assert(clock_rel(s[k3], s[k3 + 1], g[k3], g[k3 + 1], inp[k3], out[k3], din[k3], dout[k3]));
    assert(quiet(inp[3]));
    assert(reg_op_spec(0, 0, after_fetch(g[3])) == Some(after_fetch(g[3])));
}

proof fn lemma_wait_prefix(
    s: Seq<Emulator>,
    g: Seq<Registers>,
    inp: Seq<InputPins>,
    out: Seq<OutputPins>,
    din: Seq<u8>,
    dout: Seq<u8>,
    n: nat,
    k: nat,
)
    requires
        edges(s, g, inp, out, din, dout, n),
        k <= n,
        forall|j: int|
            0 <= j < n ==> (#[trigger] inp[j]).wait == PinBistate::Active && inp[j].reset
                == PinBistate::Inactive,
        s[0].reset_edges < RESET_EDGES,
        s[0].cycle.t == wait_point(s[0].cycle.kind),
        s[0].cycle.waits + n <= u64::MAX,
    ensures
        s[k as int].cycle == (BusCycle { waits: (s[0].cycle.waits + k) as u64, ..s[0].cycle }),
        g[k as int] == g[0],
        s[k as int].reset_edges < RESET_EDGES,
    decreases k,
{
    if k > 0 {
        lemma_wait_prefix(s, g, inp, out, din, dout, n, (k - 1) as nat);
        let j = k - 1;
        assert(clock_rel(s[j], s[j + 1], g[j], g[j + 1], inp[j], out[j], din[j], dout[j]));
    }
}

/// Holding wait active at the sample point of a cycle for `n` edges
/// adds exactly `n` wait states to it: the cycle does not move on, nor
/// complete, nor does any register change.
pub proof fn lemma_wait_stretches_cycle(
    s: Seq<Emulator>,
    g: Seq<Registers>,
    inp: Seq<InputPins>,
    out: Seq<OutputPins>,
    din: Seq<u8>,
    dout: Seq<u8>,
    n: nat,
)
    requires
        edges(s, g, inp, out, din, dout, n),
        forall|j: int|
            0 <= j < n ==> (#[trigger] inp[j]).wait == PinBistate::Active && inp[j].reset
                == PinBistate::Inactive,
        s[0].reset_edges < RESET_EDGES,
        s[0].cycle.t == wait_point(s[0].cycle.kind),
        s[0].cycle.waits + n <= u64::MAX,
    ensures
        forall|k: int|
            0 <= k <= n ==> (#[trigger] s[k]).cycle == (BusCycle {
                waits: (s[0].cycle.waits + k) as u64,
                ..s[0].cycle
            }) && g[k] == g[0],
{
    assert forall|k: int| 0 <= k <= n implies (#[trigger] s[k]).cycle == (BusCycle {
        waits: (s[0].cycle.waits + k) as u64,
        ..s[0].cycle
    }) && g[k] == g[0] by {
        lemma_wait_prefix(s, g, inp, out, din, dout, n, k as nat);
    }
}


/// The edge that completes a memory-read cycle leaves on the data bus
/// the byte mapped at the cycle's address, when its page is readable.
pub proof fn lemma_read_cycle_yields_mapped_byte(
    pre: Emulator,
    post: Emulator,
    g: Registers,
    g2: Registers,
    inp: InputPins,
    out: OutputPins,
    d_in: u8,
    d_out: u8,
    m: Memory,
)
    requires
        clock_rel(pre, post, g, g2, inp, out, d_in, d_out),
        inp.reset == PinBistate::Inactive,
        inp.wait == PinBistate::Inactive,
        inp.busreq == PinBistate::Inactive,
        pre.reset_edges < RESET_EDGES,
        pre.cycle.kind == CycleKind::MemRead,
        pre.cycle.t + 1 == pre.cycle.len,
        pre.memory_pages.view()[crate::mmu::page_of(pre.cycle.addr)] == Some(m),
        m.readable(),
        m.bytes().len() == crate::mmu::PAGE_SIZE,
    ensures
        d_out == m.bytes()[crate::mmu::offset_of(pre.cycle.addr)],
{
}


/// Executing EX AF,AF' twice in succession gives back the register file
/// it started from, but for pc and R, which count the two fetches.
pub proof fn lemma_ex_af_twice(g: Registers)
    ensures
        reg_op_spec(0, 0x08, after_fetch(reg_op_spec(0, 0x08, after_fetch(g))->0))->0 == after_fetch(
            after_fetch(g),
        ),
{
}


/// Every input pin inactive but the maskable interrupt request.
pub open spec fn only_int(inp: InputPins) -> bool {
    &&& inp.busreq == PinBistate::Inactive
    &&& inp.int == PinBistate::Active
    &&& inp.nmi == PinBistate::Inactive
    &&& inp.reset == PinBistate::Inactive
    &&& inp.wait == PinBistate::Inactive
}


proof fn lemma_halted_fetch_takes_interrupt(
    s: Seq<Emulator>,
    g: Seq<Registers>,
    inp: Seq<InputPins>,
    out: Seq<OutputPins>,
    din: Seq<u8>,
    dout: Seq<u8>,
)
    requires
        edges(s, g, inp, out, din, dout, 16),
        forall|k: int| 0 <= k < 16 ==> only_int(#[trigger] inp[k]),
        s[0].cycle == fetch_at(g[0].pc),
        s[0].pending == fresh_pending(),
        s[0].halted,
        !s[0].nmi_pending,
        s[0].reset_edges == 0,
        g[0].iff1,
        g[0].im == 1,
    ensures
        s[4].cycle == new_cycle(CycleKind::IntAck, g[0].pc, 0, 6),
        s[4].pending == (Pending { routine: Routine::IntMode1, ..fresh_pending() }),
        !s[4].halted,
        !s[4].nmi_pending,
        !s[4].halted,
        s[4].reset_edges == 0,
        s[4].memory_pages == s[0].memory_pages,
        g[4] == (Registers { iff1: false, iff2: false, ..bump_r_spec(g[0]) }),
{
    let k0: int = 0;
    assert(clock_rel(s[k0], s[k0 + 1], g[k0], g[k0 + 1], inp[k0], out[k0], din[k0], dout[k0]));
    assert(only_int(inp[k0]));
    let k1: int = 1;
    assert(clock_rel(s[k1], s[k1 + 1], g[k1], g[k1 + 1], inp[k1], out[k1], din[k1], dout[k1]));
    assert(only_int(inp[k1]));
    let k2: int = 2;
    assert(clock_rel(s[k2], s[k2 + 1], g[k2], g[k2 + 1], inp[k2], out[k2], din[k2], dout[k2]));
    assert(only_int(inp[k2]));
    let k3: int = 3;
    assert(clock_rel(s[k3], s[k3 + 1], g[k3], g[k3 + 1], inp[k3], out[k3], din[k3], dout[k3]));
    assert(only_int(inp[k3]));
}

proof fn lemma_mode1_acknowledge(
    s: Seq<Emulator>,
    g: Seq<Registers>,
    inp: Seq<InputPins>,
    out: Seq<OutputPins>,
    din: Seq<u8>,
    dout: Seq<u8>,
)
    requires
        edges(s, g, inp, out, din, dout, 16),
        forall|k: int| 0 <= k < 16 ==> only_int(#[trigger] inp[k]),
        s[4].cycle == new_cycle(CycleKind::IntAck, g[4].pc, 0, 6),
        s[4].pending == (Pending { routine: Routine::IntMode1, ..fresh_pending() }),
        !s[4].nmi_pending,
        !s[4].halted,
        s[4].reset_edges == 0,
    ensures
        s[10].cycle == new_cycle(CycleKind::MemWrite, ((g[4].sp + 65535) % 65536) as u16, hi_of(g[4].pc), 3),
        s[10].pending == (Pending { step: 1, routine: Routine::IntMode1, ..fresh_pending() }),
        !s[10].nmi_pending,
        !s[10].halted,
        s[10].reset_edges == 0,
        s[10].memory_pages == s[4].memory_pages,
        g[10] == (Registers { sp: ((g[4].sp + 65535) % 65536) as u16, ..bump_r_spec(g[4]) }),
{
    let k4: int = 4;
    assert(clock_rel(s[k4], s[k4 + 1], g[k4], g[k4 + 1], inp[k4], out[k4], din[k4], dout[k4]));
    assert(only_int(inp[k4]));
    let k5: int = 5;
    assert(clock_rel(s[k5], s[k5 + 1], g[k5], g[k5 + 1], inp[k5], out[k5], din[k5], dout[k5]));
    assert(only_int(inp[k5]));
    let k6: int = 6;
    assert(clock_rel(s[k6], s[k6 + 1], g[k6], g[k6 + 1], inp[k6], out[k6], din[k6], dout[k6]));
    assert(only_int(inp[k6]));
    let k7: int = 7;
    assert(clock_rel(s[k7], s[k7 + 1], g[k7], g[k7 + 1], inp[k7], out[k7], din[k7], dout[k7]));
    assert(only_int(inp[k7]));
    let k8: int = 8;
    assert(clock_rel(s[k8], s[k8 + 1], g[k8], g[k8 + 1], inp[k8], out[k8], din[k8], dout[k8]));
    assert(only_int(inp[k8]));
    let k9: int = 9;
    assert(clock_rel(s[k9], s[k9 + 1], g[k9], g[k9 + 1], inp[k9], out[k9], din[k9], dout[k9]));
    assert(only_int(inp[k9]));
}

proof fn lemma_mode1_push_high(
    s: Seq<Emulator>,
    g: Seq<Registers>,
    inp: Seq<InputPins>,
    out: Seq<OutputPins>,
    din: Seq<u8>,
    dout: Seq<u8>,
)
    requires
        edges(s, g, inp, out, din, dout, 16),
        forall|k: int| 0 <= k < 16 ==> only_int(#[trigger] inp[k]),
        s[10].cycle == new_cycle(CycleKind::MemWrite, g[10].sp, hi_of(g[10].pc), 3),
        s[10].pending == (Pending { step: 1, routine: Routine::IntMode1, ..fresh_pending() }),
        !s[10].nmi_pending,
        !s[10].halted,
        s[10].reset_edges == 0,
        rw_at(s[10].memory_pages.view(), g[10].sp),
        rw_at(s[10].memory_pages.view(), ((g[10].sp + 65535) % 65536) as u16),
    ensures
        s[13].cycle == new_cycle(CycleKind::MemWrite, ((g[10].sp + 65535) % 65536) as u16, lo_of(g[10].pc), 3),
        s[13].pending == (Pending { step: 2, routine: Routine::IntMode1, ..fresh_pending() }),
        !s[13].nmi_pending,
        !s[13].halted,
        s[13].reset_edges == 0,
        read_spec(s[13].memory_pages.view(), g[10].sp) == hi_of(g[10].pc),
        rw_at(s[13].memory_pages.view(), ((g[10].sp + 65535) % 65536) as u16),
        g[13] == (Registers { sp: ((g[10].sp + 65535) % 65536) as u16, ..g[10] }),
{
    let k10: int = 10;
    assert(clock_rel(s[k10], s[k10 + 1], g[k10], g[k10 + 1], inp[k10], out[k10], din[k10], dout[k10]));
    assert(only_int(inp[k10]));
    let k11: int = 11;
    assert(clock_rel(s[k11], s[k11 + 1], g[k11], g[k11 + 1], inp[k11], out[k11], din[k11], dout[k11]));
    assert(only_int(inp[k11]));
    let k12: int = 12;
    assert(clock_rel(s[k12], s[k12 + 1], g[k12], g[k12 + 1], inp[k12], out[k12], din[k12], dout[k12]));
    assert(only_int(inp[k12]));
}

proof fn lemma_mode1_push_low(
    s: Seq<Emulator>,
    g: Seq<Registers>,
    inp: Seq<InputPins>,
    out: Seq<OutputPins>,
    din: Seq<u8>,
    dout: Seq<u8>,
)
    requires
        edges(s, g, inp, out, din, dout, 16),
        forall|k: int| 0 <= k < 16 ==> only_int(#[trigger] inp[k]),
        s[13].cycle == new_cycle(CycleKind::MemWrite, g[13].sp, lo_of(g[13].pc), 3),
        s[13].pending == (Pending { step: 2, routine: Routine::IntMode1, ..fresh_pending() }),
        !s[13].nmi_pending,
        !s[13].halted,
        s[13].reset_edges == 0,
        !g[13].iff1,
        rw_at(s[13].memory_pages.view(), g[13].sp),
        g[13].sp != ((g[13].sp + 1) % 65536) as u16,
    ensures
        g[16] == (Registers { pc: 0x38, ..g[13] }),
        read_spec(s[16].memory_pages.view(), g[13].sp) == lo_of(g[13].pc),
        read_spec(s[16].memory_pages.view(), ((g[13].sp + 1) % 65536) as u16) == read_spec(
            s[13].memory_pages.view(),
            ((g[13].sp + 1) % 65536) as u16,
        ),
        s[16].cycle == fetch_at(0x38),
        !s[16].halted,
{
    let k13: int = 13;
    assert(clock_rel(s[k13], s[k13 + 1], g[k13], g[k13 + 1], inp[k13], out[k13], din[k13], dout[k13]));
    assert(only_int(inp[k13]));
    let k14: int = 14;
    assert(clock_rel(s[k14], s[k14 + 1], g[k14], g[k14 + 1], inp[k14], out[k14], din[k14], dout[k14]));
    assert(only_int(inp[k14]));
    let k15: int = 15;
    assert(clock_rel(s[k15], s[k15 + 1], g[k15], g[k15 + 1], inp[k15], out[k15], din[k15], dout[k15]));
    assert(only_int(inp[k15]));
}

/// A halted processor in interrupt mode 1 with interrupts enabled that
/// sees the interrupt request leaves HALT and, sixteen edges on, has
/// pushed the pc it halted at onto the stack (sp two lower, high byte
/// above low byte) and is about to fetch from 0x0038.
pub proof fn lemma_halt_then_mode1_interrupt(
    s: Seq<Emulator>,
    g: Seq<Registers>,
    inp: Seq<InputPins>,
    out: Seq<OutputPins>,
    din: Seq<u8>,
    dout: Seq<u8>,
)
    requires
        edges(s, g, inp, out, din, dout, 16),
        forall|k: int| 0 <= k < 16 ==> only_int(#[trigger] inp[k]),
        s[0].cycle == fetch_at(g[0].pc),
        s[0].pending == fresh_pending(),
        s[0].halted,
        !s[0].nmi_pending,
        s[0].reset_edges == 0,
        g[0].iff1,
        g[0].im == 1,
        rw_at(s[0].memory_pages.view(), ((g[0].sp + 65535) % 65536) as u16),
        rw_at(s[0].memory_pages.view(), ((g[0].sp + 65534) % 65536) as u16),
    ensures
        g[16].pc == 0x38,
        g[16].sp == (g[0].sp + 65534) % 65536,
        read_spec(s[16].memory_pages.view(), ((g[0].sp + 65534) % 65536) as u16) == lo_of(g[0].pc),
        read_spec(s[16].memory_pages.view(), ((g[0].sp + 65535) % 65536) as u16) == hi_of(g[0].pc),
        s[16].cycle == fetch_at(0x38),
        !s[16].halted,
        !g[16].iff1,
{
    lemma_halted_fetch_takes_interrupt(s, g, inp, out, din, dout);
    lemma_mode1_acknowledge(s, g, inp, out, din, dout);
    lemma_mode1_push_high(s, g, inp, out, din, dout);
    lemma_mode1_push_low(s, g, inp, out, din, dout);
}

} // verus!
