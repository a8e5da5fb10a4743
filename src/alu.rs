//! The arithmetic and logic unit: results and flag bytes of the 8- and
//! 16-bit operations, each stated exactly as a spec function.
use vstd::prelude::*;
use crate::registers::{FLAG_C, FLAG_H, FLAG_N, FLAG_PV, FLAG_S, FLAG_X, FLAG_Y, FLAG_Z};

verus! {

/// `f` when `b` holds, else 0: one flag's contribution to the F byte.
pub open spec fn flag(b: bool, f: u8) -> int {
    if b {
        f as int
    } else {
        0
    }
}

/// Number of one bits in `v`.
pub open spec fn ones(v: nat) -> nat
    decreases v,
{
    if v == 0 {
        0
    } else {
        v % 2 + ones(v / 2)
    }
}

/// Whether `v` has an even number of one bits.
pub open spec fn parity_even(v: u8) -> bool {
    ones(v as nat) % 2 == 0
}

/// Sign, zero and the two undocumented copies of bits 5 and 3 of `r`.
pub open spec fn szxy(r: u8) -> int {
    flag(r >= 128, FLAG_S) + flag(r == 0, FLAG_Z) + flag((r / 32) % 2 == 1, FLAG_Y) + flag(
        (r / 8) % 2 == 1,
        FLAG_X,
    )
}

/// Result and flags of `a + b + c` (ADD when `c` is 0, ADC otherwise).
pub open spec fn add_spec(a: u8, b: u8, c: nat) -> (u8, u8) {
    let r = ((a + b + c) % 256) as u8;
    let f = szxy(r) + flag((a % 16 + b % 16 + c) >= 16, FLAG_H) + flag(
        (a < 128) == (b < 128) && (r < 128) != (a < 128),
        FLAG_PV,
    ) + flag(a + b + c >= 256, FLAG_C);
    (r, f as u8)
}

/// Result and flags of `a - b - c` (SUB when `c` is 0, SBC otherwise).
pub open spec fn sub_spec(a: u8, b: u8, c: nat) -> (u8, u8) {
    let r = ((a - b - c + 512) % 256) as u8;
    let f = szxy(r) + flag(a % 16 < b % 16 + c, FLAG_H) + flag(
        (a < 128) != (b < 128) && (r < 128) != (a < 128),
        FLAG_PV,
    ) + FLAG_N + flag(a < b + c, FLAG_C);
    (r, f as u8)
}

/// Flags of a logical operation with result `r`; AND also sets H.
pub open spec fn logic_flags(r: u8, half: bool) -> u8 {
    (szxy(r) + flag(half, FLAG_H) + flag(parity_even(r), FLAG_PV)) as u8
}

/// Carry bit of the flag byte `f`, as 0 or 1.
pub open spec fn carry_of(f: u8) -> nat {
    (f % 2) as nat
}

/// New accumulator and flags of the eight accumulator operations,
/// selected by `op`: ADD, ADC, SUB, SBC, AND, XOR, OR, CP. CP leaves
/// the accumulator and copies bits 5 and 3 of the operand into F.
pub open spec fn alu_spec(op: u8, a: u8, b: u8, f: u8) -> (u8, u8) {
    if op == 0 {
        add_spec(a, b, 0)
    } else if op == 1 {
        add_spec(a, b, carry_of(f))
    } else if op == 2 {
        sub_spec(a, b, 0)
    } else if op == 3 {
        sub_spec(a, b, carry_of(f))
    } else if op == 4 {
        (a & b, logic_flags(a & b, true))
    } else if op == 5 {
        (a ^ b, logic_flags(a ^ b, false))
    } else if op == 6 {
        (a | b, logic_flags(a | b, false))
    } else {
        let f2 = sub_spec(a, b, 0).1;
        (a, (f2 as int - flag((f2 / 32) % 2 == 1, FLAG_Y) - flag((f2 / 8) % 2 == 1, FLAG_X) + flag(
            (b / 32) % 2 == 1,
            FLAG_Y,
        ) + flag((b / 8) % 2 == 1, FLAG_X)) as u8)
    }
}

/// Result and flags of INC: the carry of `f` is kept.
pub open spec fn inc_spec(a: u8, f: u8) -> (u8, u8) {
    let r = ((a + 1) % 256) as u8;
    (r, (szxy(r) + flag(a % 16 == 15, FLAG_H) + flag(a == 127, FLAG_PV) + carry_of(f)) as u8)
}

/// Result and flags of DEC: the carry of `f` is kept.
pub open spec fn dec_spec(a: u8, f: u8) -> (u8, u8) {
    let r = ((a + 255) % 256) as u8;
    (r, (szxy(r) + flag(a % 16 == 0, FLAG_H) + flag(a == 128, FLAG_PV) + FLAG_N + carry_of(
        f,
    )) as u8)
}

fn flag_exec(b: bool, f: u8) -> (r: u8)
    ensures
        r == flag(b, f),
{
    if b {
        f
    } else {
        0
    }
}

fn szxy_exec(r: u8) -> (v: u8)
    ensures
        v == szxy(r),
        v <= 0xe8,
{
    flag_exec(r >= 128, FLAG_S) + flag_exec(r == 0, FLAG_Z) + flag_exec((r / 32) % 2 == 1, FLAG_Y)
        + flag_exec((r / 8) % 2 == 1, FLAG_X)
}

/// Whether `v` has an even number of one bits.
pub fn parity(v: u8) -> (r: bool)
    ensures
        r == parity_even(v),
{
    let mut x: u8 = v;
    let mut odd: bool = false;
    while x > 0
        invariant
            (ones(x as nat) + if odd { 1nat } else { 0nat }) % 2 == ones(v as nat) % 2,
        decreases x,
    {
        if x % 2 == 1 {
            odd = !odd;
        }
        x = x / 2;
    }
    !odd
}

/// ADD / ADC: `a + b + c` with its flags.
pub fn add8(a: u8, b: u8, c: u8) -> (r: (u8, u8))
    requires
        c <= 1,
    ensures
        r == add_spec(a, b, c as nat),
{
    let sum: u16 = a as u16 + b as u16 + c as u16;
    let res: u8 = (sum % 256) as u8;
    let f = szxy_exec(res) + flag_exec((a % 16 + b % 16 + c) >= 16, FLAG_H) + flag_exec(
        (a < 128) == (b < 128) && (res < 128) != (a < 128),
        FLAG_PV,
    ) + flag_exec(sum >= 256, FLAG_C);
    (res, f)
}

/// SUB / SBC: `a - b - c` with its flags.
pub fn sub8(a: u8, b: u8, c: u8) -> (r: (u8, u8))
    requires
        c <= 1,
    ensures
        r == sub_spec(a, b, c as nat),
{
    let diff: u16 = (a as u16 + 512) - b as u16 - c as u16;
    let res: u8 = (diff % 256) as u8;
    let f = szxy_exec(res) + flag_exec(a % 16 < b % 16 + c, FLAG_H) + flag_exec(
        (a < 128) != (b < 128) && (res < 128) != (a < 128),
        FLAG_PV,
    ) + FLAG_N + flag_exec((a as u16) < (b as u16) + (c as u16), FLAG_C);
    (res, f)
}

fn logic_flags_exec(r: u8, half: bool) -> (f: u8)
    ensures
        f == logic_flags(r, half),
{
    szxy_exec(r) + flag_exec(half, FLAG_H) + flag_exec(parity(r), FLAG_PV)
}

/// Applies accumulator operation `op` (ADD, ADC, SUB, SBC, AND, XOR,
/// OR, CP) to `a` and `b` under flags `f`.
pub fn alu(op: u8, a: u8, b: u8, f: u8) -> (r: (u8, u8))
    ensures
        r == alu_spec(op, a, b, f),
{
    if op == 0 {
        add8(a, b, 0)
    } else if op == 1 {
        add8(a, b, f % 2)
    } else if op == 2 {
        sub8(a, b, 0)
    } else if op == 3 {
        sub8(a, b, f % 2)
    } else if op == 4 {
        (a & b, logic_flags_exec(a & b, true))
    } else if op == 5 {
        (a ^ b, logic_flags_exec(a ^ b, false))
    } else if op == 6 {
        (a | b, logic_flags_exec(a | b, false))
    } else {
        let f2 = sub8(a, b, 0).1;
        let base = f2 - flag_exec((f2 / 32) % 2 == 1, FLAG_Y) - flag_exec((f2 / 8) % 2 == 1, FLAG_X);
        (a, base + flag_exec((b / 32) % 2 == 1, FLAG_Y) + flag_exec((b / 8) % 2 == 1, FLAG_X))
    }
}

/// INC: `a + 1` with its flags, carry kept.
pub fn inc8(a: u8, f: u8) -> (r: (u8, u8))
    ensures
        r == inc_spec(a, f),
{
    let res: u8 = if a == 255 { 0 } else { a + 1 };
    (res, szxy_exec(res) + flag_exec(a % 16 == 15, FLAG_H) + flag_exec(a == 127, FLAG_PV) + f % 2)
}

/// DEC: `a - 1` with its flags, carry kept.
pub fn dec8(a: u8, f: u8) -> (r: (u8, u8))
    ensures
        r == dec_spec(a, f),
{
    let res: u8 = if a == 0 { 255 } else { a - 1 };
    (res, szxy_exec(res) + flag_exec(a % 16 == 0, FLAG_H) + flag_exec(a == 128, FLAG_PV) + FLAG_N + f
        % 2)
}


/// `2^b` for a bit index `b` below 8.
pub open spec fn weight(b: u8) -> u8 {
    if b == 0 {
        1
    } else if b == 1 {
        2
    } else if b == 2 {
        4
    } else if b == 3 {
        8
    } else if b == 4 {
        16
    } else if b == 5 {
        32
    } else if b == 6 {
        64
    } else {
        128
    }
}

/// Whether bit `b` of `v` is set.
pub open spec fn bit_set(v: u8, b: u8) -> bool {
    (v / weight(b)) % 2 == 1
}

/// Result of rotate or shift `y` (RLC, RRC, RL, RR, SLA, SRA, SLL, SRL)
/// of `v`, with `c` the carry flag going in.
pub open spec fn shift_result(y: u8, v: u8, c: nat) -> u8 {
    let up = (v * 2) % 256;
    let down = v / 2;
    (if y == 0 {
        up + v / 128
    } else if y == 1 {
        down + (v % 2) * 128
    } else if y == 2 {
        up + c
    } else if y == 3 {
        down + c * 128
    } else if y == 4 {
        up
    } else if y == 5 {
        down + (v / 128) * 128
    } else if y == 6 {
        up + 1
    } else {
        down as int
    }) as u8
}

/// Carry out of rotate or shift `y` of `v`: bit 7 for the left
/// moves (even `y`), bit 0 for the right ones.
pub open spec fn shift_carry(y: u8, v: u8) -> bool {
    if y % 2 == 0 {
        v >= 128
    } else {
        v % 2 == 1
    }
}

/// Result and flags of the CB-prefixed operation `op` on `v` under
/// flags `f`: rotates and shifts, BIT (result unchanged), RES and SET
/// (flags unchanged).
pub open spec fn cb_spec(op: u8, v: u8, f: u8) -> (u8, u8) {
    let x = op / 64;
    let y = (op / 8) % 8;
    if x == 0 {
        let r = shift_result(y, v, carry_of(f));
        (r, (szxy(r) + flag(parity_even(r), FLAG_PV) + flag(shift_carry(y, v), FLAG_C)) as u8)
    } else if x == 1 {
        let b = bit_set(v, y);
        (v, (flag(!b, FLAG_Z) + flag(!b, FLAG_PV) + FLAG_H + flag(y == 7 && b, FLAG_S) + flag(
            (v / 32) % 2 == 1,
            FLAG_Y,
        ) + flag((v / 8) % 2 == 1, FLAG_X) + carry_of(f)) as u8)
    } else if x == 2 {
        ((if bit_set(v, y) {
            v - weight(y)
        } else {
            v as int
        }) as u8, f)
    } else {
        ((if bit_set(v, y) {
            v as int
        } else {
            v + weight(y)
        }) as u8, f)
    }
}

fn weight_of(b: u8) -> (w: u8)
    ensures
        w == weight(b),
{
    if b == 0 {
        1
    } else if b == 1 {
        2
    } else if b == 2 {
        4
    } else if b == 3 {
        8
    } else if b == 4 {
        16
    } else if b == 5 {
        32
    } else if b == 6 {
        64
    } else {
        128
    }
}

/// Applies the CB-prefixed operation `op` to `v` under flags `f`.
pub fn cb(op: u8, v: u8, f: u8) -> (r: (u8, u8))
    ensures
        r == cb_spec(op, v, f),
{
    let x = op / 64;
    let y = (op / 8) % 8;
    if x == 0 {
        let up: u8 = ((v as u16 * 2) % 256) as u8;
        let down: u8 = v / 2;
        let c: u8 = f % 2;
        let res: u8 = if y == 0 {
            up + v / 128
        } else if y == 1 {
            down + (v % 2) * 128
        } else if y == 2 {
            up + c
        } else if y == 3 {
            down + c * 128
        } else if y == 4 {
            up
        } else if y == 5 {
            down + (v / 128) * 128
        } else if y == 6 {
            up + 1
        } else {
            down
        };
        let cout = if y % 2 == 0 {
            v >= 128
        } else {
            v % 2 == 1
        };
        (res, szxy_exec(res) + flag_exec(parity(res), FLAG_PV) + flag_exec(cout, FLAG_C))
    } else {
        let w = weight_of(y);
        let b = (v / w) % 2 == 1;
        if x == 1 {
            (v, flag_exec(!b, FLAG_Z) + flag_exec(!b, FLAG_PV) + FLAG_H + flag_exec(y == 7 && b, FLAG_S)
                + flag_exec((v / 32) % 2 == 1, FLAG_Y) + flag_exec((v / 8) % 2 == 1, FLAG_X) + f % 2)
        } else if x == 2 {
            (if b {
                v - w
            } else {
                v
            }, f)
        } else {
            (if b {
                v
            } else {
                v + w
            }, f)
        }
    }
}


/// Whether condition `y` (NZ, Z, NC, C, PO, PE, P, M) holds under flags `f`.
pub open spec fn cond_spec(y: u8, f: u8) -> bool {
    if y == 0 {
        (f / 64) % 2 == 0
    } else if y == 1 {
        (f / 64) % 2 == 1
    } else if y == 2 {
        f % 2 == 0
    } else if y == 3 {
        f % 2 == 1
    } else if y == 4 {
        (f / 4) % 2 == 0
    } else if y == 5 {
        (f / 4) % 2 == 1
    } else if y == 6 {
        f < 128
    } else {
        f >= 128
    }
}

/// Tests condition `y` against flags `f`.
pub fn condition(y: u8, f: u8) -> (r: bool)
    ensures
        r == cond_spec(y, f),
{
    if y == 0 {
        (f / 64) % 2 == 0
    } else if y == 1 {
        (f / 64) % 2 == 1
    } else if y == 2 {
        f % 2 == 0
    } else if y == 3 {
        f % 2 == 1
    } else if y == 4 {
        (f / 4) % 2 == 0
    } else if y == 5 {
        (f / 4) % 2 == 1
    } else if y == 6 {
        f < 128
    } else {
        f >= 128
    }
}

/// Result and flags of the 16-bit ADD: S, Z and P/V are kept, H is
/// the carry out of bit 11, C the carry out of bit 15, and the two
/// undocumented bits copy bits 13 and 11 of the result.
pub open spec fn add16_spec(a: u16, b: u16, f: u8) -> (u16, u8) {
    let r = ((a + b) % 65536) as u16;
    let hi = r / 256;
    (r, (flag(f >= 128, FLAG_S) + flag((f / 64) % 2 == 1, FLAG_Z) + flag((f / 4) % 2 == 1, FLAG_PV)
        + flag((hi / 32) % 2 == 1, FLAG_Y) + flag((hi / 8) % 2 == 1, FLAG_X) + flag(
        a % 4096 + b % 4096 >= 4096,
        FLAG_H,
    ) + flag(a + b >= 65536, FLAG_C)) as u8)
}

/// 16-bit ADD with its flags.
pub fn add16(a: u16, b: u16, f: u8) -> (r: (u16, u8))
    ensures
        r == add16_spec(a, b, f),
{
    let sum: u32 = a as u32 + b as u32;
    let res: u16 = (sum % 65536) as u16;
    let hi = res / 256;
    (res, flag_exec(f >= 128, FLAG_S) + flag_exec((f / 64) % 2 == 1, FLAG_Z) + flag_exec(
        (f / 4) % 2 == 1,
        FLAG_PV,
    ) + flag_exec((hi / 32) % 2 == 1, FLAG_Y) + flag_exec((hi / 8) % 2 == 1, FLAG_X) + flag_exec(
        a % 4096 + b % 4096 >= 4096,
        FLAG_H,
    ) + flag_exec(sum >= 65536, FLAG_C))
}


/// Sign, zero and parity / overflow of `f`, kept as they are.
pub open spec fn keep_szp(f: u8) -> int {
    flag(f >= 128, FLAG_S) + flag((f / 64) % 2 == 1, FLAG_Z) + flag((f / 4) % 2 == 1, FLAG_PV)
}

/// The two undocumented flag bits copied from bits 5 and 3 of `r`.
pub open spec fn xy(r: u8) -> int {
    flag((r / 32) % 2 == 1, FLAG_Y) + flag((r / 8) % 2 == 1, FLAG_X)
}

/// New accumulator and flags of the one-byte accumulator operations
/// RLCA (0x07), RRCA (0x0f), RLA (0x17), RRA (0x1f), CPL (0x2f), SCF
/// (0x37) and CCF (0x3f); S, Z and P/V are kept by all of them.
pub open spec fn acc_spec(op: u8, a: u8, f: u8) -> (u8, u8) {
    let y = op / 8;
    if op == 0x2f {
        let r = (255 - a) as u8;
        (r, (keep_szp(f) + xy(r) + FLAG_H + FLAG_N + carry_of(f)) as u8)
    } else if op == 0x37 {
        (a, (keep_szp(f) + xy(a) + FLAG_C) as u8)
    } else if op == 0x3f {
        (a, (keep_szp(f) + xy(a) + flag(carry_of(f) == 1, FLAG_H) + flag(carry_of(f) == 0, FLAG_C)) as u8)
    } else {
        let r = shift_result(y, a, carry_of(f));
        (r, (keep_szp(f) + xy(r) + flag(shift_carry(y, a), FLAG_C)) as u8)
    }
}

/// Runs one of the one-byte accumulator operations named in `acc_spec`.
pub fn acc(op: u8, a: u8, f: u8) -> (r: (u8, u8))
    requires
        op == 0x07 || op == 0x0f || op == 0x17 || op == 0x1f || op == 0x2f || op == 0x37 || op
            == 0x3f,
    ensures
        r == acc_spec(op, a, f),
{
    let keep = flag_exec(f >= 128, FLAG_S) + flag_exec((f / 64) % 2 == 1, FLAG_Z) + flag_exec(
        (f / 4) % 2 == 1,
        FLAG_PV,
    );
    if op == 0x2f {
        let r = 255 - a;
        (r, keep + flag_exec((r / 32) % 2 == 1, FLAG_Y) + flag_exec((r / 8) % 2 == 1, FLAG_X) + FLAG_H
            + FLAG_N + f % 2)
    } else if op == 0x37 {
        (a, keep + flag_exec((a / 32) % 2 == 1, FLAG_Y) + flag_exec((a / 8) % 2 == 1, FLAG_X) + FLAG_C)
    } else if op == 0x3f {
        (a, keep + flag_exec((a / 32) % 2 == 1, FLAG_Y) + flag_exec((a / 8) % 2 == 1, FLAG_X)
            + flag_exec(f % 2 == 1, FLAG_H) + flag_exec(f % 2 == 0, FLAG_C))
    } else {
        let rot = cb(op, a, f).0;
        let cout = if op == 0x07 || op == 0x17 {
            a >= 128
        } else {
            a % 2 == 1
        };
        (rot, keep + flag_exec((rot / 32) % 2 == 1, FLAG_Y) + flag_exec((rot / 8) % 2 == 1, FLAG_X)
            + flag_exec(cout, FLAG_C))
    }
}


/// Flags of LD A,I and LD A,R loading `v`: sign and zero of `v`, P/V
/// from IFF2, carry kept, H and N clear.
pub open spec fn ld_ir_spec(v: u8, iff2: bool, f: u8) -> u8 {
    (szxy(v) + flag(iff2, FLAG_PV) + carry_of(f)) as u8
}

/// Computes the flags of LD A,I and LD A,R.
pub fn ld_ir_flags(v: u8, iff2: bool, f: u8) -> (r: u8)
    ensures
        r == ld_ir_spec(v, iff2, f),
{
    szxy_exec(v) + flag_exec(iff2, FLAG_PV) + f % 2
}


/// Flags of IN r,(C) reading `v`: sign, zero and parity of `v`, carry kept.
pub open spec fn in_spec(v: u8, f: u8) -> u8 {
    (szxy(v) + flag(parity_even(v), FLAG_PV) + carry_of(f)) as u8
}

/// Computes the flags of IN r,(C).
pub fn in_flags(v: u8, f: u8) -> (r: u8)
    ensures
        r == in_spec(v, f),
{
    szxy_exec(v) + flag_exec(parity(v), FLAG_PV) + f % 2
}

/// Flags after one step of a block copy: S, Z and C kept, P/V set while
/// the count `bc` is not yet zero, H and N clear.
pub open spec fn block_spec(bc: u16, f: u8) -> u8 {
    (flag(f >= 128, FLAG_S) + flag((f / 64) % 2 == 1, FLAG_Z) + flag(bc != 0, FLAG_PV) + carry_of(
        f,
    )) as u8
}

/// Computes the flags after one step of a block copy.
pub fn block_flags(bc: u16, f: u8) -> (r: u8)
    ensures
        r == block_spec(bc, f),
{
    flag_exec(f >= 128, FLAG_S) + flag_exec((f / 64) % 2 == 1, FLAG_Z) + flag_exec(bc != 0, FLAG_PV)
        + f % 2
}

} // verus!
