use vstd::prelude::*;

use crate::instruction::{lookup_opcode, opcode_entry, DecodedInstr, Instruction, OpInput};
use crate::memory::{slice_at, Memory};
use crate::registers::{
    bit_value, merge_bits, signed_of, to_signed, to_unsigned, unsigned_of, Registers, Status,
    StatusArgs, PS_CARRY, PS_NEGATIVE, PS_OVERFLOW, PS_ZERO,
};

verus! {

/// Mask of the Zero and Negative flags.
pub const ZERO_NEGATIVE_MASK: u8 = 0x82;

/// Mask of the Carry and Overflow flags.
pub const CARRY_OVERFLOW_MASK: u8 = 0x41;

/// The Zero and Negative bits that loading `value` produces.
pub open spec fn zero_negative_bits(value: i8) -> int {
    bit_value(value == 0, 0x02) + bit_value(value < 0, 0x80)
}

/// The status after loading `value`: Zero and Negative follow the value, the
/// other bits are kept.
pub open spec fn status_after_load(bits: u8, value: i8) -> u8 {
    merge_bits(bits, ZERO_NEGATIVE_MASK, zero_negative_bits(value) as u8)
}

/// The registers after loading `value` into the accumulator.
pub open spec fn load_a(r: Registers, value: i8) -> Registers {
    Registers {
        accumulator: value,
        status: Status { bits: status_after_load(r.status.bits, value) },
        ..r
    }
}

/// The registers after loading `value` into index X.
pub open spec fn load_x(r: Registers, value: i8) -> Registers {
    Registers { index_x: value, status: Status { bits: status_after_load(r.status.bits, value) }, ..r }
}

/// The registers after loading `value` into index Y.
pub open spec fn load_y(r: Registers, value: i8) -> Registers {
    Registers { index_y: value, status: Status { bits: status_after_load(r.status.bits, value) }, ..r }
}

/// The unsigned sum of an addition with carry, before it wraps.
pub open spec fn adc_sum(a: i8, carry: bool, v: i8) -> int {
    unsigned_of(a) + bit_value(carry, 1) + unsigned_of(v)
}

/// The accumulator after an addition with carry: the sum modulo 256.
pub open spec fn adc_result(a: i8, carry: bool, v: i8) -> i8 {
    signed_of(adc_sum(a, carry, v) % 256) as i8
}

/// Carry out of an addition: the unsigned sum passed 255, so it wrapped.
pub open spec fn adc_carry(a: i8, carry: bool, v: i8) -> bool {
    adc_sum(a, carry, v) > 255
}

/// Signed overflow: two negative operands gave a non-negative result, or two
/// positive ones a non-positive result.
pub open spec fn adc_overflow(a: i8, carry: bool, v: i8) -> bool {
    let r = adc_result(a, carry, v);
    (a < 0 && v < 0 && r >= 0) || (a > 0 && v > 0 && r <= 0)
}

/// The status after an addition sets Carry and Overflow, before the result
/// is loaded.
pub open spec fn status_after_carry_overflow(bits: u8, carry: bool, overflow: bool) -> u8 {
    merge_bits(bits, CARRY_OVERFLOW_MASK, (bit_value(carry, 0x01) + bit_value(overflow, 0x40)) as u8)
}

/// The registers after adding `v` and the carry flag to the accumulator.
pub open spec fn adc(r: Registers, v: i8) -> Registers {
    let a = r.accumulator;
    let c = r.status.carry();
    let flagged = Registers {
        status: Status {
            bits: status_after_carry_overflow(
                r.status.bits,
                adc_carry(a, c, v),
                adc_overflow(a, c, v),
            ),
        },
        ..r
    };
    load_a(flagged, adc_result(a, c, v))
}

/// `x - 1` with two's-complement wraparound.
pub open spec fn decremented(x: i8) -> i8 {
    signed_of((unsigned_of(x) + 255) % 256) as i8
}

/// The registers after decrementing index X.
pub open spec fn dec_x(r: Registers) -> Registers {
    load_x(r, decremented(r.index_x))
}

/// The signed value that an operand stands for: the immediate byte, or the
/// byte at the address; an implied operand has none.
pub open spec fn operand_value(op: OpInput, mem: Seq<u8>) -> Option<i8> {
    match op {
        OpInput::UseImmediate(b) => Some(signed_of(b as int) as i8),
        OpInput::UseAddress(addr) => Some(signed_of(mem[addr as int] as int) as i8),
        OpInput::UseImplied => None,
    }
}

/// The registers after executing `d` on `r` with memory `mem`. Instructions
/// without semantics here, and operand kinds that an instruction does not
/// take, leave the registers as they are.
pub open spec fn execute(r: Registers, mem: Seq<u8>, d: DecodedInstr) -> Registers {
    let value = operand_value(d.1, mem);
    match d.0 {
        Instruction::ADC => if value is Some { adc(r, value->0) } else { r },
        Instruction::LDA => if value is Some { load_a(r, value->0) } else { r },
        Instruction::LDX => if value is Some { load_x(r, value->0) } else { r },
        Instruction::LDY => if value is Some { load_y(r, value->0) } else { r },
        Instruction::DEX => if d.1 is UseImplied { dec_x(r) } else { r },
        _ => r,
    }
}

/// Fetch and decode at the program counter: the decoded instruction and the
/// registers with the program counter moved past it, or `None` where the
/// byte there is no opcode.
pub open spec fn decode(r: Registers, mem: Seq<u8>) -> Option<(DecodedInstr, Registers)> {
    let pc = r.program_counter as int;
    match opcode_entry(mem[pc]) {
        None => None,
        Some((instr, am)) => {
            let n = am.extra_bytes_spec();
            let operand = am.resolve(r, mem, slice_at(mem, pc + 1, n));
            Some(
                (
                    (instr, operand),
                    Registers { program_counter: ((pc + 1 + n) % 0x10000) as u16, ..r },
                ),
            )
        },
    }
}

/// Whether the byte at the program counter is no opcode: the halt condition.
pub open spec fn halted(r: Registers, mem: Seq<u8>) -> bool {
    opcode_entry(mem[r.program_counter as int]) is None
}

/// One cycle: decode, then execute; a halted machine stays as it is.
pub open spec fn step(r: Registers, mem: Seq<u8>) -> Registers {
    match decode(r, mem) {
        None => r,
        Some((d, next)) => execute(next, mem, d),
    }
}

/// The registers after `n` cycles.
pub open spec fn steps(r: Registers, mem: Seq<u8>, n: nat) -> Registers
    decreases n,
{
    if n == 0 {
        r
    } else {
        step(steps(r, mem, (n - 1) as nat), mem)
    }
}

/// The emulated processor: its registers and its memory.
pub struct Machine {
    pub registers: Registers,
    pub memory: Memory,
}

impl Machine {
    pub open spec fn wf(&self) -> bool {
        self.memory.wf()
    }

    /// Whether this is a fresh machine: registers zero, memory zero-filled.
    pub open spec fn is_fresh(&self) -> bool {
        &&& self.wf()
        &&& self.registers.accumulator == 0
        &&& self.registers.index_x == 0
        &&& self.registers.index_y == 0
        &&& self.registers.program_counter == 0
        &&& self.registers.status.bits == 0
        &&& forall|i: int| 0 <= i < 0x10000 ==> self.memory@[i] == 0
    }

    /// A fresh machine.
    pub fn new() -> (r: Machine)
        ensures
            r.is_fresh(),
    {
        Machine { registers: Registers::new(), memory: Memory::new() }
    }

    /// Replace the whole machine by a fresh one.
    pub fn reset(&mut self)
        ensures
            final(self).is_fresh(),
    {
        *self = Machine::new();
    }

    /// Store `value` in `register` and set Zero and Negative from it, leaving
    /// the other flags alone.
    fn load_register_with_flags(register: &mut i8, status: &mut Status, value: i8)
        ensures
            *final(register) == value,
            final(status).bits == status_after_load(old(status).bits, value),
    {
        *register = value;

        let is_zero = value == 0;
        let is_negative = value < 0;

        let mut args = StatusArgs::none();
        args.zero = is_zero;
        args.negative = is_negative;
        assert(PS_ZERO | PS_NEGATIVE == ZERO_NEGATIVE_MASK) by (bit_vector);
        status.set_with_mask(PS_ZERO | PS_NEGATIVE, Status::new(args));
    }

    /// Load `value` into index X, setting Zero and Negative.
    pub fn load_x_register(&mut self, value: i8)
        ensures
            final(self).registers == load_x(old(self).registers, value),
            final(self).memory == old(self).memory,
    {
        Machine::load_register_with_flags(
            &mut self.registers.index_x,
            &mut self.registers.status,
            value,
        );
    }

    /// Load `value` into index Y, setting Zero and Negative.
    pub fn load_y_register(&mut self, value: i8)
        ensures
            final(self).registers == load_y(old(self).registers, value),
            final(self).memory == old(self).memory,
    {
        Machine::load_register_with_flags(
            &mut self.registers.index_y,
            &mut self.registers.status,
            value,
        );
    }

    /// Load `value` into the accumulator, setting Zero and Negative.
    pub fn load_accumulator(&mut self, value: i8)
        ensures
            final(self).registers == load_a(old(self).registers, value),
            final(self).memory == old(self).memory,
    {
        Machine::load_register_with_flags(
            &mut self.registers.accumulator,
            &mut self.registers.status,
            value,
        );
    }

    /// Add `value` and the carry flag to the accumulator in binary (decimal
    /// mode is not modeled), setting Carry and Overflow, then Zero and
    /// Negative through `load_accumulator`.
    pub fn add_with_carry(&mut self, value: i8)
        ensures
            final(self).registers == adc(old(self).registers, value),
            final(self).memory == old(self).memory,
    {
        let a_before: i8 = self.registers.accumulator;
        let c_before: i8 = self.registers.status.get_carry();
        let sum: u16 = to_unsigned(a_before) as u16 + c_before as u16 + to_unsigned(value) as u16;
        let a_after_unsigned: u8 = (sum % 256) as u8;
        let a_after: i8 = to_signed(a_after_unsigned);

        let did_carry = sum > 255;

        let did_overflow = (a_before < 0 && value < 0 && a_after >= 0) || (a_before > 0 && value
            > 0 && a_after <= 0);

        assert(PS_CARRY | PS_OVERFLOW == CARRY_OVERFLOW_MASK) by (bit_vector);
        let mask = PS_CARRY | PS_OVERFLOW;

        let mut args = StatusArgs::none();
        args.carry = did_carry;
        args.overflow = did_overflow;
        self.registers.status.set_with_mask(mask, Status::new(args));

        self.load_accumulator(a_after);
    }

    /// Read the opcode at the program counter and look it up. For a defined
    /// opcode, resolve its operand bytes, move the program counter past them,
    /// and return the instruction with its operand; for an undefined one
    /// return `None` and change nothing.
    pub fn fetch_next_and_decode(&mut self) -> (r: Option<DecodedInstr>)
        requires
            old(self).wf(),
        ensures
            final(self).wf(),
            final(self).memory == old(self).memory,
            match decode(old(self).registers, old(self).memory@) {
                None => r is None && final(self).registers == old(self).registers,
                Some((d, next)) => r == Some(d) && final(self).registers == next,
            },
    {
        let pc: u16 = self.registers.program_counter;
        let x: u8 = self.memory.get_byte(pc);

        match lookup_opcode(x) {
            Some((instr, am)) => {
                let extra_bytes: u16 = am.extra_bytes();
                let num_bytes: u16 = 1 + extra_bytes;

                let data_start: u16 = pc.wrapping_add(1);

                let slice = self.memory.get_slice(data_start, extra_bytes);
                proof {
                    assert(slice@ =~= slice_at(self.memory@, pc + 1, extra_bytes as nat));
                }
                let am_out = am.process(self, &slice);

                self.registers.program_counter = pc.wrapping_add(num_bytes);

                Some((instr, am_out))
            },
            None => None,
        }
    }

    /// The signed value of an operand: the immediate byte or the byte at the
    /// address.
    fn operand_value(&self, op: OpInput) -> (r: Option<i8>)
        requires
            self.wf(),
        ensures
            r == operand_value(op, self.memory@),
    {
        match op {
            OpInput::UseImmediate(val) => Some(to_signed(val)),
            OpInput::UseAddress(addr) => Some(to_signed(self.memory.get_byte(addr))),
            OpInput::UseImplied => None,
        }
    }

    /// Carry out a decoded instruction. Instructions without semantics here
    /// and unexpected operand kinds are no-ops.
    pub fn execute_instruction(&mut self, decoded_instr: DecodedInstr)
        requires
            old(self).wf(),
        ensures
            final(self).wf(),
            final(self).memory == old(self).memory,
            final(self).registers == execute(
                old(self).registers,
                old(self).memory@,
                decoded_instr,
            ),
    {
        let (instr, op) = decoded_instr;
        let value = self.operand_value(op);
        match instr {
            Instruction::ADC => {
                if let Some(v) = value {
                    self.add_with_carry(v);
                }
            },
            Instruction::LDA => {
                if let Some(v) = value {
                    self.load_accumulator(v);
                }
            },
            Instruction::LDX => {
                if let Some(v) = value {
                    self.load_x_register(v);
                }
            },
            Instruction::LDY => {
                if let Some(v) = value {
                    self.load_y_register(v);
                }
            },
            Instruction::DEX => {
                if let OpInput::UseImplied = op {
                    self.dec_x();
                }
            },
            _ => {},
        }
    }

    /// Decode and execute one instruction; `false`, with nothing changed,
    /// where the byte at the program counter is no opcode.
    pub fn step(&mut self) -> (r: bool)
        requires
            old(self).wf(),
        ensures
            final(self).wf(),
            final(self).memory == old(self).memory,
            r == !halted(old(self).registers, old(self).memory@),
            final(self).registers == step(old(self).registers, old(self).memory@),
    {
        if let Some(decoded_instr) = self.fetch_next_and_decode() {
            self.execute_instruction(decoded_instr);
            true
        } else {
            false
        }
    }

    /// Run until the byte at the program counter is no opcode. The cycle
    /// count is kept in 64 bits, so the loop also ends after 2^64 - 1 cycles.
    pub fn run(&mut self)
        requires
            old(self).wf(),
        ensures
            final(self).wf(),
            final(self).memory@ == old(self).memory@,
            exists|n: nat| final(self).registers == steps(old(self).registers, old(self).memory@, n),
            halted(final(self).registers, final(self).memory@) || steps(
                old(self).registers,
                old(self).memory@,
                u64::MAX as nat,
            ) == final(self).registers,
            halted(old(self).registers, old(self).memory@) ==> final(self).registers == old(
                self,
            ).registers,
    {
        let ghost r0 = self.registers;
        let ghost mem = self.memory@;
        let mut count: u64 = 0;
        while count < u64::MAX
            invariant
                self.wf(),
                mem == old(self).memory@,
                r0 == old(self).registers,
                self.memory@ == mem,
                self.registers == steps(r0, mem, count as nat),
                halted(r0, mem) ==> self.registers == r0,
            decreases u64::MAX - count,
        {
            if !self.step() {
                assert(self.registers == steps(r0, mem, count as nat));
                return;
            }
            count = count + 1;
        }
        assert(self.registers == steps(r0, mem, count as nat));
    }

    /// Decrement index X with wraparound, setting Zero and Negative.
    pub fn dec_x(&mut self)
        ensures
            final(self).registers == dec_x(old(self).registers),
            final(self).memory == old(self).memory,
    {
        let val = to_unsigned(self.registers.index_x);
        self.load_x_register(to_signed(val.wrapping_sub(1)));
    }
}

} // verus!
