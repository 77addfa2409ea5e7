use vstd::prelude::*;

use crate::instruction::{opcode_entry, DecodedInstr, Instruction};
use crate::machine::{
    adc, adc_carry, adc_overflow, adc_result, dec_x, execute, halted, load_a, load_x, load_y, step,
    status_after_carry_overflow, status_after_load, steps, zero_negative_bits,
};
use crate::registers::{bit_value, unsigned_of, Registers, Status};

verus! {

/// The flag selected by the single bit `b` after a masked replace comes from
/// `new` where `mask` selects it and from `old` elsewhere.
pub proof fn lemma_merge_flag(old: u8, mask: u8, new: u8, b: u8)
    requires
        b == 0x01 || b == 0x02 || b == 0x40 || b == 0x80,
    ensures
        (((old & !mask) | (new & mask)) & b != 0) == (if mask & b != 0 {
            new & b != 0
        } else {
            old & b != 0
        }),
{
    assert((((old & !mask) | (new & mask)) & b != 0) == (if mask & b != 0 {
        new & b != 0
    } else {
        old & b != 0
    })) by (bit_vector)
        requires
            b == 0x01 || b == 0x02 || b == 0x40 || b == 0x80,
    ;
}

/// Loading a value sets Zero exactly when it is zero and Negative exactly when
/// it is below zero, and keeps Carry, Overflow and every other bit.
pub proof fn lemma_load_flags(bits: u8, value: i8)
    ensures
        (Status { bits: status_after_load(bits, value) }).zero() == (value == 0),
        (Status { bits: status_after_load(bits, value) }).negative() == (value < 0),
        (Status { bits: status_after_load(bits, value) }).carry() == (Status { bits }).carry(),
        (Status { bits: status_after_load(bits, value) }).overflow() == (Status {
            bits,
        }).overflow(),
        status_after_load(bits, value) & !0x82u8 == bits & !0x82u8,
{
    let n = zero_negative_bits(value) as u8;
    assert(n == 0 || n == 2 || n == 0x80);
    lemma_merge_flag(bits, 0x82, n, 0x01);
    lemma_merge_flag(bits, 0x82, n, 0x02);
    lemma_merge_flag(bits, 0x82, n, 0x40);
    lemma_merge_flag(bits, 0x82, n, 0x80);
    assert(0x82u8 & 0x01u8 == 0 && 0x82u8 & 0x02u8 != 0 && 0x82u8 & 0x40u8 == 0 && 0x82u8
        & 0x80u8 != 0) by (bit_vector);
    assert(0u8 & 0x02u8 == 0 && 0u8 & 0x80u8 == 0 && 2u8 & 0x02u8 != 0 && 2u8 & 0x80u8 == 0
        && 0x80u8 & 0x02u8 == 0 && 0x80u8 & 0x80u8 != 0) by (bit_vector);
    assert(((bits & !0x82u8) | (n & 0x82u8)) & !0x82u8 == bits & !0x82u8) by (bit_vector);
}

/// Setting Carry and Overflow after an addition sets them to the given values
/// and keeps every other bit.
pub proof fn lemma_carry_overflow_flags(bits: u8, carry: bool, overflow: bool)
    ensures
        (Status { bits: status_after_carry_overflow(bits, carry, overflow) }).carry() == carry,
        (Status { bits: status_after_carry_overflow(bits, carry, overflow) }).overflow()
            == overflow,
        status_after_carry_overflow(bits, carry, overflow) & !0x41u8 == bits & !0x41u8,
{
    let n = (bit_value(carry, 0x01) + bit_value(overflow, 0x40)) as u8;
    assert(n == 0 || n == 1 || n == 0x40 || n == 0x41);
    lemma_merge_flag(bits, 0x41, n, 0x01);
    lemma_merge_flag(bits, 0x41, n, 0x40);
    assert(0x41u8 & 0x01u8 != 0 && 0x41u8 & 0x40u8 != 0) by (bit_vector);
    assert(0u8 & 0x01u8 == 0 && 0u8 & 0x40u8 == 0 && 1u8 & 0x01u8 != 0 && 1u8 & 0x40u8 == 0
        && 0x40u8 & 0x01u8 == 0 && 0x40u8 & 0x40u8 != 0 && 0x41u8 & 0x01u8 != 0 && 0x41u8
        & 0x40u8 != 0) by (bit_vector);
    assert(((bits & !0x41u8) | (n & 0x41u8)) & !0x41u8 == bits & !0x41u8) by (bit_vector);
}

/// After an addition with carry, every flag is what the addition rule gives:
/// Carry when the unsigned sum passed 255,
/// Overflow on an impossible sign change, Zero and Negative from the result.
/// The other registers and status bits are kept.
pub proof fn lemma_adc_flags(r: Registers, v: i8)
    ensures
        ({
            let a = r.accumulator;
            let c = r.status.carry();
            let after = adc(r, v);
            &&& after.accumulator == adc_result(a, c, v)
            &&& after.status.carry() == adc_carry(a, c, v)
            &&& after.status.overflow() == adc_overflow(a, c, v)
            &&& after.status.zero() == (after.accumulator == 0)
            &&& after.status.negative() == (after.accumulator < 0)
            &&& after.status.bits & 0x3cu8 == r.status.bits & 0x3cu8
            &&& after.index_x == r.index_x
            &&& after.index_y == r.index_y
            &&& after.program_counter == r.program_counter
        }),
{
    let a = r.accumulator;
    let c = r.status.carry();
    let cv = status_after_carry_overflow(r.status.bits, adc_carry(a, c, v), adc_overflow(a, c, v));
    lemma_carry_overflow_flags(r.status.bits, adc_carry(a, c, v), adc_overflow(a, c, v));
    lemma_load_flags(cv, adc_result(a, c, v));
    let fin = status_after_load(cv, adc_result(a, c, v));
    let old_bits = r.status.bits;
    assert(fin & 0x3cu8 == old_bits & 0x3cu8) by (bit_vector)
        requires
            fin & !0x82u8 == cv & !0x82u8,
            cv & !0x41u8 == old_bits & !0x41u8,
    ;
}

/// The accumulator after an addition with carry is, as an unsigned byte, the
/// unsigned sum of accumulator, carry and operand modulo 256.
pub proof fn lemma_adc_wraparound(r: Registers, v: i8)
    ensures
        unsigned_of(adc(r, v).accumulator) == (unsigned_of(r.accumulator) + bit_value(
            r.status.carry(),
            1,
        ) + unsigned_of(v)) % 256,
{
}

/// Carry is set after an addition exactly when the unsigned sum passed 255.
pub proof fn lemma_adc_carry_on_wrap(r: Registers, v: i8)
    ensures
        adc(r, v).status.carry() == (unsigned_of(r.accumulator) + bit_value(r.status.carry(), 1)
            + unsigned_of(v) > 255),
{
    lemma_adc_flags(r, v);
}

/// The sign of a byte: 1, -1 or 0.
pub open spec fn sign(x: i8) -> int {
    if x > 0 {
        1
    } else if x < 0 {
        -1
    } else {
        0
    }
}

/// Overflow is set after an addition exactly when accumulator and operand are
/// both positive or both negative and the result's sign differs from theirs.
pub proof fn lemma_adc_overflow_on_sign_change(r: Registers, v: i8)
    ensures
        adc(r, v).status.overflow() == (sign(r.accumulator) == sign(v) && sign(v) != 0 && sign(
            adc(r, v).accumulator,
        ) != sign(v)),
{
    lemma_adc_flags(r, v);
}

/// An addition sets Zero and Negative only as loading its result into the
/// accumulator does.
pub proof fn lemma_adc_zero_negative_by_load(r: Registers, v: i8)
    ensures
        adc(r, v).status.zero() == load_a(r, adc(r, v).accumulator).status.zero(),
        adc(r, v).status.negative() == load_a(r, adc(r, v).accumulator).status.negative(),
{
    lemma_adc_flags(r, v);
    lemma_load_flags(r.status.bits, adc(r, v).accumulator);
}

/// Loading any register keeps Carry and Overflow.
pub proof fn lemma_load_keeps_carry_overflow(r: Registers, value: i8)
    ensures
        load_a(r, value).status.carry() == r.status.carry(),
        load_a(r, value).status.overflow() == r.status.overflow(),
        load_x(r, value).status.carry() == r.status.carry(),
        load_x(r, value).status.overflow() == r.status.overflow(),
        load_y(r, value).status.carry() == r.status.carry(),
        load_y(r, value).status.overflow() == r.status.overflow(),
{
    lemma_load_flags(r.status.bits, value);
}

/// Decrementing index X when it holds 0, the least unsigned byte, gives 255,
/// the greatest, which as a signed byte is -1: Negative set, Zero clear.
pub proof fn lemma_dec_x_wraps_from_zero(r: Registers)
    requires
        r.index_x == 0,
    ensures
        dec_x(r).index_x == -1,
        unsigned_of(dec_x(r).index_x) == 255,
        dec_x(r).status.negative(),
        !dec_x(r).status.zero(),
{
    lemma_load_flags(r.status.bits, -1i8);
}

/// Decrementing index X when it holds -128, the least signed byte, gives 127,
/// the greatest: Negative and Zero clear.
pub proof fn lemma_dec_x_wraps_from_signed_min(r: Registers)
    requires
        r.index_x == -128,
    ensures
        dec_x(r).index_x == 127,
        !dec_x(r).status.negative(),
        !dec_x(r).status.zero(),
{
    lemma_load_flags(r.status.bits, 127i8);
}

/// The registers after executing the instructions of `ds` in order.
pub open spec fn execute_all(r: Registers, mem: Seq<u8>, ds: Seq<DecodedInstr>) -> Registers
    decreases ds.len(),
{
    if ds.len() == 0 {
        r
    } else {
        execute(execute_all(r, mem, ds.drop_last()), mem, ds.last())
    }
}

/// Executing no-operations any number of times, with any operands, leaves
/// every register and status bit as it was.
pub proof fn lemma_nops_change_nothing(r: Registers, mem: Seq<u8>, ds: Seq<DecodedInstr>)
    requires
        forall|i: int| 0 <= i < ds.len() ==> (#[trigger] ds[i]).0 == Instruction::NOP,
    ensures
        execute_all(r, mem, ds) == r,
    decreases ds.len(),
{
    if ds.len() > 0 {
        assert(ds.last() == ds[ds.len() - 1]);
        lemma_nops_change_nothing(r, mem, ds.drop_last());
    }
}

/// Whether `b` is a no-operation opcode that takes no operand bytes.
pub open spec fn is_bare_nop(b: u8) -> bool {
    match opcode_entry(b) {
        Some((instr, am)) => instr == Instruction::NOP && am.extra_bytes_spec() == 0,
        None => false,
    }
}

/// One cycle at a bare no-operation byte moves the program counter by one
/// and changes nothing else.
pub proof fn lemma_step_bare_nop(r: Registers, mem: Seq<u8>)
    requires
        mem.len() == 0x10000,
        is_bare_nop(mem[r.program_counter as int]),
    ensures
        step(r, mem) == (Registers {
            program_counter: ((r.program_counter + 1) % 0x10000) as u16,
            ..r
        }),
{
    let (instr, am) = opcode_entry(mem[r.program_counter as int])->0;
    assert(instr == Instruction::NOP);
    assert(am.extra_bytes_spec() == 0);
}

/// A cycle at a byte that is no opcode changes nothing.
pub proof fn lemma_step_halted(r: Registers, mem: Seq<u8>)
    requires
        halted(r, mem),
    ensures
        step(r, mem) == r,
{
}

/// Where `k` bare no-operation bytes start at the program counter and the
/// byte after them is no opcode, `n` cycles move the program counter by
/// `n`, but no further than `k`, and change nothing else.
pub proof fn lemma_steps_over_nops(r: Registers, mem: Seq<u8>, k: nat, n: nat)
    requires
        mem.len() == 0x10000,
        k < 0x10000,
        forall|i: int| 0 <= i < k ==> is_bare_nop(#[trigger] mem[(r.program_counter + i) % 0x10000]),
        opcode_entry(mem[(r.program_counter + k) % 0x10000]) is None,
    ensures
        steps(r, mem, n) == (Registers {
            program_counter: ((r.program_counter + if n < k { n } else { k }) % 0x10000) as u16,
            ..r
        }),
    decreases n,
{
    let pc0 = r.program_counter as int;
    if n == 0 {
        assert(pc0 % 0x10000 == pc0);
    } else {
        let m = (n - 1) as nat;
        lemma_steps_over_nops(r, mem, k, m);
        let j: int = if m < k { m as int } else { k as int };
        let prev = steps(r, mem, m);
        assert(prev.program_counter as int == (pc0 + j) % 0x10000);
        if m < k {
            assert(is_bare_nop(mem[(pc0 + j) % 0x10000]));
            lemma_step_bare_nop(prev, mem);
            assert(((pc0 + j) % 0x10000 + 1) % 0x10000 == (pc0 + j + 1) % 0x10000);
        } else {
            lemma_step_halted(prev, mem);
        }
    }
}

/// A run over `k` bare no-operation bytes that end at a byte that is no
/// opcode stops with the program counter moved by `k` and every other
/// register and status bit as it was; here `fin` is any result that `run`'s
/// contract allows.
pub proof fn lemma_run_over_nops(r: Registers, mem: Seq<u8>, k: nat, fin: Registers)
    requires
        mem.len() == 0x10000,
        k < 0x10000,
        forall|i: int| 0 <= i < k ==> is_bare_nop(#[trigger] mem[(r.program_counter + i) % 0x10000]),
        opcode_entry(mem[(r.program_counter + k) % 0x10000]) is None,
        exists|n: nat| fin == steps(r, mem, n),
        halted(fin, mem) || steps(r, mem, u64::MAX as nat) == fin,
    ensures
        fin == (Registers {
            program_counter: ((r.program_counter + k) % 0x10000) as u16,
            ..r
        }),
{
    let n = choose|n: nat| fin == steps(r, mem, n);
    lemma_steps_over_nops(r, mem, k, n);
    lemma_steps_over_nops(r, mem, k, u64::MAX as nat);
    if halted(fin, mem) && n < k {
        assert(is_bare_nop(mem[(r.program_counter + n) % 0x10000]));
    }
}

} // verus!
