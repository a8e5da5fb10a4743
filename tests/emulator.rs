use fe2z80::alu::{acc, add8, alu, cb, dec8, inc8, parity, sub8};
use fe2z80::cpu::CycleKind;
use fe2z80::{
    create_emulator, ConfigError, Emulator, InputOutputPins, InputPins, Memory, OutputPins,
    PinBistate, PinTristate, Register16, Register16HiLo, Registers,
};

fn quiet() -> InputPins {
    InputPins {
        busreq: PinBistate::Inactive,
        int: PinBistate::Inactive,
        nmi: PinBistate::Inactive,
        reset: PinBistate::Inactive,
        wait: PinBistate::Inactive,
    }
}

fn regs() -> Registers {
    Registers {
        a0: 0x11,
        f0: 0x22,
        a1: 0x33,
        f1: 0x44,
        i: 0x00,
        r: 0x00,
        ix: 0x1000,
        iy: 0x2000,
        sp: 0x8000,
        pc: 0x0000,
        bc0: Register16::from_full(0x0102),
        de0: Register16::from_full(0x0304),
        hl0: Register16::from_full(0x0506),
        bc1: Register16::from_full(0x0708),
        de1: Register16::from_full(0x090a),
        hl1: Register16::from_full(0x0b0c),
        iff1: false,
        iff2: false,
        im: 0,
    }
}

fn page_with(bytes: &[(usize, u8)]) -> Vec<u8> {
    let mut v = vec![0u8; 256];
    for &(i, b) in bytes {
        v[i] = b;
    }
    v
}

struct Rig {
    emu: Emulator,
    regs: Registers,
    out: OutputPins,
    io: InputOutputPins,
}

impl Rig {
    fn new(program: &[(usize, u8)]) -> Rig {
        let mut emu = create_emulator();
        assert!(emu.attach_page(0, Memory::ReadOnly(page_with(program))).is_ok());
        Rig { emu, regs: regs(), out: OutputPins::idle(), io: InputOutputPins { data_bus: 0 } }
    }

    fn edge(&mut self, inp: &InputPins) {
        self.emu.on_clock(inp, &mut self.out, &mut self.io, &mut self.regs);
    }

    fn edges(&mut self, n: usize) {
        for _ in 0..n {
            self.edge(&quiet());
        }
    }
}

fn same_except_pc_r(a: &Registers, b: &Registers) -> bool {
    a.a0 == b.a0
        && a.f0 == b.f0
        && a.a1 == b.a1
        && a.f1 == b.f1
        && a.i == b.i
        && a.ix == b.ix
        && a.iy == b.iy
        && a.sp == b.sp
        && a.bc0 == b.bc0
        && a.de0 == b.de0
        && a.hl0 == b.hl0
        && a.bc1 == b.bc1
        && a.de1 == b.de1
        && a.hl1 == b.hl1
        && a.iff1 == b.iff1
        && a.iff2 == b.iff2
        && a.im == b.im
}

#[test]
fn nop_takes_four_edges_and_bumps_r() {
    let mut rig = Rig::new(&[(0, 0x00)]);
    let before = rig.regs;
    for t in 1..4u8 {
        rig.edges(1);
        assert_eq!(rig.emu.cycle.kind, CycleKind::OpcodeFetch);
        assert_eq!(rig.emu.cycle.t, t);
        assert_eq!(rig.regs.pc, 0);
    }
    rig.edges(1);
    assert_eq!(rig.regs.pc, 1);
    assert_eq!(rig.regs.r, 1);
    assert!(same_except_pc_r(&before, &rig.regs));
    assert_eq!(rig.emu.cycle.kind, CycleKind::OpcodeFetch);
    assert_eq!(rig.emu.cycle.addr, 1);
    assert_eq!(rig.emu.cycle.t, 0);
}

#[test]
fn fetch_drives_m1_then_refresh() {
    let mut rig = Rig::new(&[(0, 0x00)]);
    rig.regs.i = 0x3f;
    rig.regs.r = 0x05;
    rig.edges(1);
    assert_eq!(rig.out.m1, PinBistate::Active);
    assert_eq!(rig.out.mreq, PinTristate::Active);
    assert_eq!(rig.out.read, PinTristate::Active);
    assert_eq!(rig.out.address_bus, 0);
    rig.edges(2);
    assert_eq!(rig.out.m1, PinBistate::Inactive);
    assert_eq!(rig.out.rfsh, PinBistate::Active);
    assert_eq!(rig.out.address_bus, 0x3f05);
    rig.edges(1);
    assert_eq!(rig.regs.r, 0x06);
}

#[test]
fn r_keeps_bit_seven_when_counting() {
    let mut rig = Rig::new(&[(0, 0x00)]);
    rig.regs.r = 0xff;
    rig.edges(4);
    assert_eq!(rig.regs.r, 0x80);
}

#[test]
fn reset_after_three_edges_restarts() {
    let mut rig = Rig::new(&[(0, 0x00), (1, 0x00)]);
    rig.regs.pc = 0x1234;
    rig.regs.iff1 = true;
    rig.regs.iff2 = true;
    rig.regs.im = 2;
    rig.edges(2);
    let mut reset = quiet();
    reset.reset = PinBistate::Active;
    for _ in 0..3 {
        rig.edge(&reset);
    }
    rig.edge(&quiet());
    assert_eq!(rig.regs.pc, 0);
    assert!(!rig.regs.iff1);
    assert!(!rig.regs.iff2);
    assert_eq!(rig.regs.im, 0);
    assert_eq!(rig.regs.i, 0);
    assert_eq!(rig.regs.r, 0);
    assert_eq!(rig.regs.sp, 0xffff);
    assert_eq!(rig.emu.cycle.kind, CycleKind::OpcodeFetch);
    assert_eq!(rig.emu.cycle.addr, 0);
    assert_eq!(rig.emu.cycle.t, 0);
    assert!(!rig.emu.halted);
}

#[test]
fn short_reset_pulse_is_ignored() {
    let mut rig = Rig::new(&[(0, 0x00)]);
    rig.regs.pc = 0x0000;
    rig.regs.im = 1;
    rig.edges(1);
    let mut reset = quiet();
    reset.reset = PinBistate::Active;
    rig.edge(&reset);
    rig.edge(&reset);
    assert_eq!(rig.out.mreq, PinTristate::Inactive);
    rig.edges(3);
    assert_eq!(rig.regs.pc, 1);
    assert_eq!(rig.regs.im, 1);
}

#[test]
fn unmapped_read_is_open_bus_every_time() {
    let emu = create_emulator();
    for addr in [0x0000u16, 0x1234, 0xffff] {
        assert_eq!(emu.read_memory(addr), 0xff);
        assert_eq!(emu.read_memory(addr), 0xff);
    }
}

#[test]
fn write_only_page_reads_open_bus() {
    let mut emu = create_emulator();
    assert!(emu.attach_page(3, Memory::WriteOnly(vec![7u8; 256])).is_ok());
    assert_eq!(emu.read_memory(0x0310), 0xff);
}

#[test]
fn load_from_unmapped_memory_gives_open_bus() {
    // LD A,(HL) with HL pointing into an unmapped page
    let mut rig = Rig::new(&[(0, 0x7e)]);
    rig.regs.hl0 = Register16::from_full(0x4321);
    rig.edges(4 + 3);
    assert_eq!(rig.regs.a0, 0xff);
    assert_eq!(rig.io.data_bus, 0xff);
}

#[test]
fn read_cycle_puts_mapped_byte_on_data_bus() {
    // LD A,(HL) reading 0x5a from 0x12ab
    let mut rig = Rig::new(&[(0, 0x7e)]);
    assert!(rig.emu.attach_page(0x12, Memory::ReadOnly(page_with(&[(0xab, 0x5a)]))).is_ok());
    rig.regs.hl0 = Register16::from_full(0x12ab);
    rig.edges(4);
    assert_eq!(rig.emu.cycle.kind, CycleKind::MemRead);
    assert_eq!(rig.emu.cycle.addr, 0x12ab);
    rig.edges(3);
    assert_eq!(rig.io.data_bus, 0x5a);
    assert_eq!(rig.regs.a0, 0x5a);
    assert_eq!(rig.regs.pc, 1);
}

#[test]
fn every_offset_of_a_mapped_page_reads_back() {
    let mut emu = create_emulator();
    let bytes: Vec<u8> = (0..256u32).map(|i| (i * 7 + 3) as u8).collect();
    assert!(emu.attach_page(0x80, Memory::ReadWrite(bytes.clone())).is_ok());
    for off in 0..256u16 {
        assert_eq!(emu.read_memory(0x8000 + off), bytes[off as usize]);
    }
}

#[test]
fn attach_rejects_bad_index_and_size() {
    let mut emu = create_emulator();
    assert_eq!(
        emu.attach_page(256, Memory::ReadOnly(vec![0u8; 256])).err(),
        Some(ConfigError::PageIndexOutOfRange)
    );
    assert_eq!(
        emu.attach_page(1, Memory::ReadOnly(vec![0u8; 255])).err(),
        Some(ConfigError::WrongPageSize)
    );
    assert_eq!(emu.detach_page(300).err(), Some(ConfigError::PageIndexOutOfRange));
}

#[test]
fn detach_hands_back_the_page() {
    let mut emu = create_emulator();
    assert!(emu.attach_page(9, Memory::ReadWrite(vec![1u8; 256])).is_ok());
    assert_eq!(emu.read_memory(0x0900), 1);
    let back = emu.detach_page(9).ok().unwrap();
    assert!(matches!(back, Some(Memory::ReadWrite(_))));
    assert_eq!(emu.read_memory(0x0900), 0xff);
}

#[test]
fn memory_write_lands_and_read_only_drops() {
    // LD (HL),A twice: once into a read-write page, once into a read-only one
    let mut rig = Rig::new(&[(0, 0x77), (1, 0x77)]);
    assert!(rig.emu.attach_page(0x20, Memory::ReadWrite(vec![0u8; 256])).is_ok());
    assert!(rig.emu.attach_page(0x30, Memory::ReadOnly(vec![0u8; 256])).is_ok());
    rig.regs.a0 = 0x9c;
    rig.regs.hl0 = Register16::from_full(0x2010);
    rig.edges(4 + 3);
    assert_eq!(rig.emu.read_memory(0x2010), 0x9c);
    rig.regs.hl0 = Register16::from_full(0x3010);
    rig.edges(4 + 3);
    assert_eq!(rig.emu.read_memory(0x3010), 0);
}

#[test]
fn halt_then_mode_one_interrupt() {
    // IM 1; EI; HALT
    let mut rig = Rig::new(&[(0, 0xed), (1, 0x56), (2, 0xfb), (3, 0x76)]);
    assert!(rig.emu.attach_page(0x7f, Memory::ReadWrite(vec![0u8; 256])).is_ok());
    rig.edges(8 + 4 + 4);
    assert_eq!(rig.regs.im, 1);
    assert!(rig.regs.iff1);
    assert!(rig.emu.halted);
    assert_eq!(rig.regs.pc, 4);
    let r_before = rig.regs.r;
    rig.edges(8);
    assert!(rig.emu.halted);
    assert_eq!(rig.out.halt, PinBistate::Active);
    assert_eq!(rig.regs.pc, 4);
    assert_eq!(rig.regs.r, r_before + 2);
    let mut int = quiet();
    int.int = PinBistate::Active;
    // finish the halted fetch in flight, then the acknowledge and two pushes
    rig.edge(&int);
    rig.edge(&int);
    rig.edge(&int);
    rig.edge(&int);
    assert!(!rig.emu.halted);
    assert_eq!(rig.emu.cycle.kind, CycleKind::IntAck);
    let mut n = 0;
    while rig.regs.pc != 0x38 && n < 100 {
        rig.edge(&quiet());
        n += 1;
    }
    assert_eq!(n, 6 + 3 + 3);
    assert_eq!(rig.regs.pc, 0x38);
    assert_eq!(rig.regs.sp, 0x7ffe);
    assert_eq!(rig.emu.read_memory(0x7ffe), 0x04);
    assert_eq!(rig.emu.read_memory(0x7fff), 0x00);
    assert!(!rig.regs.iff1);
    assert!(!rig.regs.iff2);
}

#[test]
fn disabled_interrupt_is_not_taken() {
    let mut rig = Rig::new(&[(0, 0x00), (1, 0x00)]);
    let mut int = quiet();
    int.int = PinBistate::Active;
    for _ in 0..8 {
        rig.edge(&int);
    }
    assert_eq!(rig.regs.pc, 2);
}

#[test]
fn mode_two_interrupt_jumps_through_table() {
    let mut rig = Rig::new(&[(0, 0x00)]);
    let mut table = vec![0u8; 256];
    table[0x40] = 0x34;
    table[0x41] = 0x12;
    assert!(rig.emu.attach_page(0x11, Memory::ReadOnly(table)).is_ok());
    assert!(rig.emu.attach_page(0x7f, Memory::ReadWrite(vec![0u8; 256])).is_ok());
    rig.regs.i = 0x11;
    rig.regs.im = 2;
    rig.regs.iff1 = true;
    let mut int = quiet();
    int.int = PinBistate::Active;
    for _ in 0..4 {
        rig.edge(&int);
    }
    assert_eq!(rig.emu.cycle.kind, CycleKind::IntAck);
    rig.io.data_bus = 0x41;
    rig.edges(6 + 3 + 3 + 3 + 3);
    assert_eq!(rig.regs.pc, 0x1234);
    assert_eq!(rig.regs.sp, 0x7ffe);
    assert_eq!(rig.emu.read_memory(0x7ffe), 0x01);
}

#[test]
fn nmi_jumps_to_0066_and_keeps_iff2() {
    let mut rig = Rig::new(&[(0, 0x00)]);
    assert!(rig.emu.attach_page(0x7f, Memory::ReadWrite(vec![0u8; 256])).is_ok());
    rig.regs.iff1 = true;
    rig.regs.iff2 = true;
    let mut nmi = quiet();
    nmi.nmi = PinBistate::Active;
    rig.edge(&nmi);
    rig.edges(3);
    assert_eq!(rig.emu.cycle.kind, CycleKind::NmiAck);
    rig.edges(5 + 3 + 3);
    assert_eq!(rig.regs.pc, 0x66);
    assert!(!rig.regs.iff1);
    assert!(rig.regs.iff2);
    assert_eq!(rig.regs.sp, 0x7ffe);
    assert_eq!(rig.emu.read_memory(0x7ffe), 0x01);
}

#[test]
fn ex_af_twice_restores_registers() {
    let mut rig = Rig::new(&[(0, 0x08), (1, 0x08)]);
    let before = rig.regs;
    rig.edges(4);
    assert_eq!(rig.regs.a0, 0x33);
    assert_eq!(rig.regs.f0, 0x44);
    assert_eq!(rig.regs.a1, 0x11);
    assert_eq!(rig.regs.f1, 0x22);
    rig.edges(4);
    assert!(same_except_pc_r(&before, &rig.regs));
    assert_eq!(rig.regs.pc, 2);
}

#[test]
fn exx_swaps_pairs() {
    let mut r = regs();
    r.exx();
    assert_eq!(r.bc0.full, 0x0708);
    assert_eq!(r.hl1.full, 0x0506);
    r.exx();
    assert_eq!(r.bc0.full, 0x0102);
}

#[test]
fn wait_holds_the_fetch_cycle() {
    let mut rig = Rig::new(&[(0, 0x00)]);
    rig.edges(1);
    assert_eq!(rig.emu.cycle.t, 1);
    let mut wait = quiet();
    wait.wait = PinBistate::Active;
    for k in 1..=5u64 {
        rig.edge(&wait);
        assert_eq!(rig.emu.cycle.t, 1);
        assert_eq!(rig.emu.cycle.waits, k);
        assert_eq!(rig.regs.pc, 0);
    }
    rig.edges(2);
    assert_eq!(rig.regs.pc, 0);
    rig.edges(1);
    assert_eq!(rig.regs.pc, 1);
    assert_eq!(rig.emu.cycle.waits, 0);
}

#[test]
fn wait_stretches_memory_read() {
    // LD A,(HL): the read cycle's sample point is its second T-state
    let mut rig = Rig::new(&[(0, 0x7e)]);
    assert!(rig.emu.attach_page(0x40, Memory::ReadOnly(vec![0x21u8; 256])).is_ok());
    rig.regs.hl0 = Register16::from_full(0x4000);
    rig.edges(5);
    assert_eq!(rig.emu.cycle.kind, CycleKind::MemRead);
    let mut wait = quiet();
    wait.wait = PinBistate::Active;
    for _ in 0..3 {
        rig.edge(&wait);
    }
    assert_eq!(rig.emu.cycle.waits, 3);
    assert_eq!(rig.regs.a0, 0x11);
    rig.edges(2);
    assert_eq!(rig.regs.a0, 0x21);
}

#[test]
fn bus_request_floats_the_bus() {
    let mut rig = Rig::new(&[(0, 0x00)]);
    let mut req = quiet();
    req.busreq = PinBistate::Active;
    for _ in 0..3 {
        rig.edge(&req);
        assert_eq!(rig.out.busack, PinBistate::Active);
        assert_eq!(rig.out.mreq, PinTristate::Other);
        assert_eq!(rig.out.read, PinTristate::Other);
        assert_eq!(rig.emu.cycle.t, 0);
    }
    rig.edges(4);
    assert_eq!(rig.out.busack, PinBistate::Inactive);
    assert_eq!(rig.regs.pc, 1);
}

#[test]
fn jump_and_relative_jump() {
    // JP 0x0010; at 0x10: JR -2 (back to itself)
    let mut rig = Rig::new(&[(0, 0xc3), (1, 0x10), (2, 0x00), (0x10, 0x18), (0x11, 0xfe)]);
    rig.edges(4 + 3 + 3);
    assert_eq!(rig.regs.pc, 0x10);
    rig.edges(4 + 3 + 5);
    assert_eq!(rig.regs.pc, 0x10);
}

#[test]
fn call_and_return() {
    // CALL 0x0020; at 0x20: RET
    let mut rig = Rig::new(&[(0, 0xcd), (1, 0x20), (2, 0x00), (0x20, 0xc9)]);
    assert!(rig.emu.attach_page(0x7f, Memory::ReadWrite(vec![0u8; 256])).is_ok());
    rig.edges(4 + 3 + 3 + 1 + 3 + 3);
    assert_eq!(rig.regs.pc, 0x20);
    assert_eq!(rig.regs.sp, 0x7ffe);
    assert_eq!(rig.emu.read_memory(0x7ffe), 0x03);
    rig.edges(4 + 3 + 3);
    assert_eq!(rig.regs.pc, 0x03);
    assert_eq!(rig.regs.sp, 0x8000);
}

#[test]
fn load_immediate_and_add() {
    // LD B,0x05; ADD A,B; ADD A,0x70
    let mut rig = Rig::new(&[(0, 0x06), (1, 0x05), (2, 0x80), (3, 0xc6), (4, 0x70)]);
    rig.regs.a0 = 0x10;
    rig.edges(7 + 4 + 7);
    assert_eq!(rig.regs.bc0.hi(), 0x05);
    assert_eq!(rig.regs.a0, 0x85);
    assert_eq!(rig.regs.f0 & 0x80, 0x80);
    assert_eq!(rig.regs.f0 & 0x04, 0x04);
    assert_eq!(rig.regs.pc, 5);
}

#[test]
fn indexed_load_uses_displacement() {
    // LD IX,0x4010; LD A,(IX-2)
    let mut rig = Rig::new(&[(0, 0xdd), (1, 0x21), (2, 0x10), (3, 0x40), (4, 0xdd), (5, 0x7e), (6, 0xfe)]);
    assert!(rig.emu.attach_page(0x40, Memory::ReadOnly(page_with(&[(0x0e, 0x77)]))).is_ok());
    rig.edges(4 + 4 + 3 + 3);
    assert_eq!(rig.regs.ix, 0x4010);
    rig.edges(4 + 4 + 3 + 5 + 3);
    assert_eq!(rig.regs.a0, 0x77);
    assert_eq!(rig.regs.pc, 7);
}

#[test]
fn io_write_and_read_cycles() {
    // OUT (0x20),A; IN A,(0x30)
    let mut rig = Rig::new(&[(0, 0xd3), (1, 0x20), (2, 0xdb), (3, 0x30)]);
    rig.regs.a0 = 0x42;
    rig.edges(4 + 3 + 2);
    assert_eq!(rig.emu.cycle.kind, CycleKind::IoWrite);
    assert_eq!(rig.out.iorq, PinTristate::Active);
    assert_eq!(rig.out.wr, PinBistate::Active);
    assert_eq!(rig.out.address_bus, 0x4220);
    assert_eq!(rig.io.data_bus, 0x42);
    rig.edges(2);
    rig.edges(4 + 3 + 3);
    assert_eq!(rig.emu.cycle.kind, CycleKind::IoRead);
    rig.io.data_bus = 0x99;
    rig.edges(1);
    assert_eq!(rig.regs.a0, 0x99);
}

#[test]
fn increment_decrement_flags() {
    assert_eq!(inc8(0x7f, 0x01), (0x80, 0x80 | 0x10 | 0x04 | 0x01));
    assert_eq!(dec8(0x01, 0x00), (0x00, 0x40 | 0x02));
    assert_eq!(inc8(0xff, 0x00), (0x00, 0x40 | 0x10));
}

#[test]
fn add_and_sub_exact_flags() {
    assert_eq!(add8(0x7f, 0x01, 0), (0x80, 0x94));
    assert_eq!(add8(0xff, 0x01, 0), (0x00, 0x51));
    assert_eq!(sub8(0x00, 0x01, 0), (0xff, 0xbb));
    assert_eq!(sub8(0x05, 0x05, 0), (0x00, 0x42));
}

#[test]
fn logic_ops_and_compare() {
    assert_eq!(alu(4, 0xf0, 0x3c, 0), (0x30, 0x34));
    assert_eq!(alu(5, 0xff, 0xff, 0), (0x00, 0x44));
    assert_eq!(alu(6, 0x01, 0x02, 0), (0x03, 0x04));
    let (a, f) = alu(7, 0x10, 0x28, 0);
    assert_eq!(a, 0x10);
    assert_eq!(f & 0x01, 0x01);
    assert_eq!(f & 0x28, 0x28);
    assert!(parity(0x03));
    assert!(!parity(0x07));
    assert!(parity(0x00));
}

#[test]
fn register_pair_halves_compose() {
    let r = Register16::from_hilo(Register16HiLo { hi: 0x12, lo: 0x34 });
    assert_eq!(r.full, 0x1234);
    assert_eq!(r.hi(), 0x12);
    assert_eq!(r.lo(), 0x34);
    let mut r = r;
    r.set_hi(0xab);
    assert_eq!(r.full, 0xab34);
    r.set_lo(0xcd);
    assert_eq!(r.full, 0xabcd);
    let h = r.hilo();
    assert_eq!((h.hi, h.lo), (0xab, 0xcd));
}

#[test]
fn push_and_pop_round_trip() {
    // LD BC,0x1234; PUSH BC; POP DE; PUSH AF; POP HL
    let mut rig = Rig::new(&[(0, 0x01), (1, 0x34), (2, 0x12), (3, 0xc5), (4, 0xd1), (5, 0xf5), (6, 0xe1)]);
    assert!(rig.emu.attach_page(0x7f, Memory::ReadWrite(vec![0u8; 256])).is_ok());
    rig.edges(10 + 11);
    assert_eq!(rig.regs.sp, 0x7ffe);
    assert_eq!(rig.emu.read_memory(0x7fff), 0x12);
    assert_eq!(rig.emu.read_memory(0x7ffe), 0x34);
    rig.edges(10);
    assert_eq!(rig.regs.de0.full, 0x1234);
    assert_eq!(rig.regs.sp, 0x8000);
    rig.edges(11 + 10);
    assert_eq!(rig.regs.hl0.full, 0x1122);
}

#[test]
fn djnz_counts_b_down() {
    // LD B,3; INC A; DJNZ -3
    let mut rig = Rig::new(&[(0, 0x06), (1, 0x03), (2, 0x3c), (3, 0x10), (4, 0xfd)]);
    rig.edges(7 + 3 * 4 + 2 * 13 + 8);
    assert_eq!(rig.regs.a0, 0x14);
    assert_eq!(rig.regs.bc0.hi(), 0);
    assert_eq!(rig.regs.pc, 5);
}

#[test]
fn conditional_jumps_follow_flags() {
    // XOR A; JP Z,0x0010; at 0x10: JR NZ,+5; JR Z,-2
    let mut rig = Rig::new(&[(0, 0xaf), (1, 0xca), (2, 0x10), (3, 0x00), (0x10, 0x20), (0x11, 0x05), (0x12, 0x28), (0x13, 0xfe)]);
    rig.edges(4 + 10);
    assert_eq!(rig.regs.a0, 0);
    assert_eq!(rig.regs.f0 & 0x40, 0x40);
    assert_eq!(rig.regs.pc, 0x10);
    rig.edges(7);
    assert_eq!(rig.regs.pc, 0x12);
    rig.edges(12);
    assert_eq!(rig.regs.pc, 0x12);
}

#[test]
fn conditional_call_and_return() {
    // XOR A; CALL NZ,0x0020; CALL Z,0x0020; at 0x20: RET NZ; RET Z
    let mut rig = Rig::new(&[
        (0, 0xaf),
        (1, 0xc4),
        (2, 0x20),
        (3, 0x00),
        (4, 0xcc),
        (5, 0x20),
        (6, 0x00),
        (0x20, 0xc0),
        (0x21, 0xc8),
    ]);
    assert!(rig.emu.attach_page(0x7f, Memory::ReadWrite(vec![0u8; 256])).is_ok());
    rig.edges(4 + 10);
    assert_eq!(rig.regs.pc, 4);
    assert_eq!(rig.regs.sp, 0x8000);
    rig.edges(17);
    assert_eq!(rig.regs.pc, 0x20);
    assert_eq!(rig.regs.sp, 0x7ffe);
    rig.edges(5);
    assert_eq!(rig.regs.pc, 0x21);
    rig.edges(11);
    assert_eq!(rig.regs.pc, 7);
    assert_eq!(rig.regs.sp, 0x8000);
}

#[test]
fn sixteen_bit_add_sets_half_carry() {
    // LD HL,0x0fff; LD BC,0x0001; ADD HL,BC
    let mut rig = Rig::new(&[(0, 0x21), (1, 0xff), (2, 0x0f), (3, 0x01), (4, 0x01), (5, 0x00), (6, 0x09)]);
    rig.regs.f0 = 0;
    rig.edges(10 + 10 + 11);
    assert_eq!(rig.regs.hl0.full, 0x1000);
    assert_eq!(rig.regs.f0 & 0x10, 0x10);
    assert_eq!(rig.regs.f0 & 0x01, 0);
    assert_eq!(rig.regs.pc, 7);
}

#[test]
fn increment_and_decrement_pairs() {
    // INC DE; DEC BC
    let mut rig = Rig::new(&[(0, 0x13), (1, 0x0b)]);
    rig.edges(6 + 6);
    assert_eq!(rig.regs.de0.full, 0x0305);
    assert_eq!(rig.regs.bc0.full, 0x0101);
}

#[test]
fn cb_rotate_bit_and_set() {
    // LD B,0x81; RLC B; BIT 7,B; SET 0,(HL)
    let mut rig = Rig::new(&[(0, 0x06), (1, 0x81), (2, 0xcb), (3, 0x00), (4, 0xcb), (5, 0x78), (6, 0xcb), (7, 0xc6)]);
    assert!(rig.emu.attach_page(0x50, Memory::ReadWrite(vec![0u8; 256])).is_ok());
    rig.regs.hl0 = Register16::from_full(0x5005);
    rig.edges(7 + 8);
    assert_eq!(rig.regs.bc0.hi(), 0x03);
    assert_eq!(rig.regs.f0 & 0x01, 0x01);
    rig.edges(8);
    assert_eq!(rig.regs.f0 & 0x40, 0x40);
    assert_eq!(rig.regs.bc0.hi(), 0x03);
    rig.edges(14);
    assert_eq!(rig.emu.read_memory(0x5005), 0x01);
    assert_eq!(rig.regs.pc, 8);
}

#[test]
fn load_and_store_absolute() {
    // LD A,0x5a; LD (0x7f00),A; LD A,0x00; LD A,(0x7f00)
    let mut rig = Rig::new(&[(0, 0x3e), (1, 0x5a), (2, 0x32), (3, 0x00), (4, 0x7f), (5, 0x3e), (6, 0x00), (7, 0x3a), (8, 0x00), (9, 0x7f)]);
    assert!(rig.emu.attach_page(0x7f, Memory::ReadWrite(vec![0u8; 256])).is_ok());
    rig.edges(7 + 13);
    assert_eq!(rig.emu.read_memory(0x7f00), 0x5a);
    rig.edges(7);
    assert_eq!(rig.regs.a0, 0);
    rig.edges(13);
    assert_eq!(rig.regs.a0, 0x5a);
}

#[test]
fn interrupt_modes_set_by_ed_prefix() {
    // IM 2; LD A,0x3c; LD I,A
    let mut rig = Rig::new(&[(0, 0xed), (1, 0x5e), (2, 0x3e), (3, 0x3c), (4, 0xed), (5, 0x47)]);
    rig.edges(8);
    assert_eq!(rig.regs.im, 2);
    rig.edges(7 + 8);
    assert_eq!(rig.regs.i, 0x3c);
}

#[test]
fn cb_shift_and_bit_values() {
    assert_eq!(cb(0x38, 0x81, 0).0, 0x40);
    assert_eq!(cb(0x38, 0x81, 0).1 & 0x01, 0x01);
    assert_eq!(cb(0x28, 0x81, 0).0, 0xc0);
    assert_eq!(cb(0x80, 0xff, 0x12), (0xfe, 0x12));
    assert_eq!(cb(0xff, 0x00, 0x12), (0x80, 0x12));
    assert_eq!(cb(0x47, 0x01, 0).1 & 0x40, 0);
}

#[test]
fn indexed_store_and_bit_operations() {
    // LD IX,0x5000; LD (IX+5),0x99; RES 0,(IX+5); BIT 0,(IX+5)
    let mut rig = Rig::new(&[
        (0, 0xdd),
        (1, 0x21),
        (2, 0x00),
        (3, 0x50),
        (4, 0xdd),
        (5, 0x36),
        (6, 0x05),
        (7, 0x99),
        (8, 0xdd),
        (9, 0xcb),
        (10, 0x05),
        (11, 0x86),
        (12, 0xdd),
        (13, 0xcb),
        (14, 0x05),
        (15, 0x46),
    ]);
    assert!(rig.emu.attach_page(0x50, Memory::ReadWrite(vec![0u8; 256])).is_ok());
    rig.edges(14 + 19);
    assert_eq!(rig.emu.read_memory(0x5005), 0x99);
    assert_eq!(rig.regs.pc, 8);
    rig.edges(22);
    assert_eq!(rig.emu.read_memory(0x5005), 0x98);
    assert_eq!(rig.regs.pc, 12);
    rig.edges(19);
    assert_eq!(rig.regs.f0 & 0x40, 0x40);
    assert_eq!(rig.regs.pc, 16);
}

#[test]
fn accumulator_one_byte_ops() {
    assert_eq!(acc(0x2f, 0x11, 0x00), (0xee, 0x3a));
    assert_eq!(acc(0x07, 0x80, 0x00), (0x01, 0x01));
    assert_eq!(acc(0x1f, 0x01, 0x00), (0x00, 0x01));
    assert_eq!(acc(0x17, 0x00, 0x01), (0x01, 0x00));
    assert_eq!(acc(0x37, 0x00, 0xc4), (0x00, 0xc5));
    assert_eq!(acc(0x3f, 0x00, 0x01), (0x00, 0x10));
}

#[test]
fn flag_ops_and_exchange_run_in_four_edges() {
    // SCF; CCF; CPL; RLCA; EX DE,HL
    let mut rig = Rig::new(&[(0, 0x37), (1, 0x3f), (2, 0x2f), (3, 0x07), (4, 0xeb)]);
    rig.regs.f0 = 0;
    rig.edges(4);
    assert_eq!(rig.regs.f0 & 0x01, 0x01);
    rig.edges(4);
    assert_eq!(rig.regs.f0 & 0x11, 0x10);
    rig.edges(4);
    assert_eq!(rig.regs.a0, 0xee);
    rig.edges(4);
    assert_eq!(rig.regs.a0, 0xdd);
    assert_eq!(rig.regs.f0 & 0x01, 0x01);
    rig.edges(4);
    assert_eq!(rig.regs.de0.full, 0x0506);
    assert_eq!(rig.regs.hl0.full, 0x0304);
    assert_eq!(rig.regs.pc, 5);
}

#[test]
fn mode_zero_interrupt_runs_the_bus_byte() {
    // the interrupting device supplies RST 38h
    let mut rig = Rig::new(&[(0, 0x00)]);
    assert!(rig.emu.attach_page(0x7f, Memory::ReadWrite(vec![0u8; 256])).is_ok());
    rig.regs.im = 0;
    rig.regs.iff1 = true;
    let mut int = quiet();
    int.int = PinBistate::Active;
    for _ in 0..4 {
        rig.edge(&int);
    }
    assert_eq!(rig.emu.cycle.kind, CycleKind::IntAck);
    rig.io.data_bus = 0xff;
    rig.edges(6);
    assert_eq!(rig.regs.pc, 1);
    rig.edges(1 + 3 + 3);
    assert_eq!(rig.regs.pc, 0x38);
    assert_eq!(rig.regs.sp, 0x7ffe);
    assert_eq!(rig.emu.read_memory(0x7ffe), 0x01);
}

#[test]
fn nmi_wakes_a_halted_processor() {
    // HALT
    let mut rig = Rig::new(&[(0, 0x76)]);
    assert!(rig.emu.attach_page(0x7f, Memory::ReadWrite(vec![0u8; 256])).is_ok());
    rig.edges(4 + 8);
    assert!(rig.emu.halted);
    let mut nmi = quiet();
    nmi.nmi = PinBistate::Active;
    rig.edge(&nmi);
    for _ in 0..3 {
        rig.edge(&nmi);
    }
    assert!(!rig.emu.halted);
    assert_eq!(rig.emu.cycle.kind, CycleKind::NmiAck);
    rig.edges(5 + 3 + 3);
    assert_eq!(rig.regs.pc, 0x66);
    assert_eq!(rig.emu.read_memory(0x7ffe), 0x01);
    // a level held active is one edge: no second NMI follows
    for _ in 0..4 {
        rig.edge(&nmi);
    }
    assert_eq!(rig.regs.pc, 0x67);
}

#[test]
fn retn_restores_iff1_from_iff2() {
    // NOP at 0; the NMI handler at 0x66 is RETN
    let mut rig = Rig::new(&[(0, 0x00), (0x66, 0xed), (0x67, 0x45)]);
    assert!(rig.emu.attach_page(0x7f, Memory::ReadWrite(vec![0u8; 256])).is_ok());
    rig.regs.iff1 = true;
    rig.regs.iff2 = true;
    let mut nmi = quiet();
    nmi.nmi = PinBistate::Active;
    rig.edge(&nmi);
    rig.edges(3 + 5 + 3 + 3);
    assert_eq!(rig.regs.pc, 0x66);
    assert!(!rig.regs.iff1);
    rig.edges(4 + 4 + 3 + 3);
    assert_eq!(rig.regs.pc, 1);
    assert!(rig.regs.iff1);
    assert_eq!(rig.regs.sp, 0x8000);
}

#[test]
fn neg_and_load_from_i() {
    // LD A,1; NEG; LD A,I
    let mut rig = Rig::new(&[(0, 0x3e), (1, 0x01), (2, 0xed), (3, 0x44), (4, 0xed), (5, 0x57)]);
    rig.regs.i = 0x80;
    rig.regs.iff2 = true;
    rig.edges(7 + 8);
    assert_eq!(rig.regs.a0, 0xff);
    assert_eq!(rig.regs.f0 & 0x03, 0x03);
    rig.edges(8);
    assert_eq!(rig.regs.a0, 0x80);
    assert_eq!(rig.regs.f0 & 0x84, 0x84);
}

#[test]
fn sixteen_bit_absolute_load_and_store() {
    // LD (0x7f00),HL; LD HL,0; LD HL,(0x7f00)
    let mut rig = Rig::new(&[(0, 0x22), (1, 0x00), (2, 0x7f), (3, 0x21), (4, 0x00), (5, 0x00), (6, 0x2a), (7, 0x00), (8, 0x7f)]);
    assert!(rig.emu.attach_page(0x7f, Memory::ReadWrite(vec![0u8; 256])).is_ok());
    rig.regs.hl0 = Register16::from_full(0x1234);
    rig.edges(16);
    assert_eq!(rig.emu.read_memory(0x7f00), 0x34);
    assert_eq!(rig.emu.read_memory(0x7f01), 0x12);
    rig.edges(10);
    assert_eq!(rig.regs.hl0.full, 0);
    rig.edges(16);
    assert_eq!(rig.regs.hl0.full, 0x1234);
    assert_eq!(rig.regs.pc, 9);
}

#[test]
fn ldir_copies_a_block() {
    let mut rig = Rig::new(&[(0, 0xed), (1, 0xb0)]);
    assert!(rig.emu.attach_page(0x40, Memory::ReadOnly(page_with(&[(0, 1), (1, 2), (2, 3)]))).is_ok());
    assert!(rig.emu.attach_page(0x7f, Memory::ReadWrite(vec![0u8; 256])).is_ok());
    rig.regs.hl0 = Register16::from_full(0x4000);
    rig.regs.de0 = Register16::from_full(0x7f00);
    rig.regs.bc0 = Register16::from_full(3);
    rig.edges(21);
    assert_eq!(rig.regs.pc, 0);
    assert_eq!(rig.regs.bc0.full, 2);
    rig.edges(21 + 16);
    assert_eq!(rig.emu.read_memory(0x7f00), 1);
    assert_eq!(rig.emu.read_memory(0x7f01), 2);
    assert_eq!(rig.emu.read_memory(0x7f02), 3);
    assert_eq!(rig.regs.bc0.full, 0);
    assert_eq!(rig.regs.hl0.full, 0x4003);
    assert_eq!(rig.regs.de0.full, 0x7f03);
    assert_eq!(rig.regs.pc, 2);
    assert_eq!(rig.regs.f0 & 0x04, 0);
}

#[test]
fn in_and_out_through_c() {
    // IN B,(C); OUT (C),A
    let mut rig = Rig::new(&[(0, 0xed), (1, 0x40), (2, 0xed), (3, 0x79)]);
    rig.regs.f0 = 0;
    rig.edges(8);
    assert_eq!(rig.emu.cycle.kind, CycleKind::IoRead);
    assert_eq!(rig.emu.cycle.addr, 0x0102);
    rig.io.data_bus = 0x81;
    rig.edges(4);
    assert_eq!(rig.regs.bc0.hi(), 0x81);
    assert_eq!(rig.regs.f0 & 0x84, 0x84);
    rig.edges(8 + 2);
    assert_eq!(rig.emu.cycle.kind, CycleKind::IoWrite);
    assert_eq!(rig.out.address_bus, 0x8102);
    assert_eq!(rig.out.wr, PinBistate::Active);
    assert_eq!(rig.io.data_bus, 0x11);
}
