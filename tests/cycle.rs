use emu6502::instruction::{lookup_opcode, AddressingMode, Instruction, OpInput};
use emu6502::machine::Machine;
use emu6502::registers::{
    to_signed, to_unsigned, Status, StatusArgs, PS_CARRY, PS_DECIMAL_MODE, PS_NEGATIVE,
    PS_OVERFLOW, PS_ZERO,
};

fn flags(m: &Machine) -> (bool, bool, bool, bool) {
    let s = &m.registers.status;
    (s.contains(PS_CARRY), s.contains(PS_ZERO), s.contains(PS_OVERFLOW), s.contains(PS_NEGATIVE))
}

#[test]
fn adc_fresh_one_clears_all_flags() {
    let mut m = Machine::new();
    m.add_with_carry(1);
    assert_eq!(m.registers.accumulator, 1);
    assert_eq!(flags(&m), (false, false, false, false));
    m.add_with_carry(-1);
    assert_eq!(m.registers.accumulator, 0);
    assert_eq!(flags(&m), (true, true, false, false));
}

#[test]
fn adc_opposite_values_cancel_with_carry() {
    let mut m = Machine::new();
    m.add_with_carry(127);
    m.add_with_carry(-127);
    assert_eq!(m.registers.accumulator, 0);
    assert_eq!(flags(&m), (true, true, false, false));
}

#[test]
fn adc_positive_overflow() {
    let mut m = Machine::new();
    m.add_with_carry(127);
    m.add_with_carry(1);
    assert_eq!(m.registers.accumulator, -128);
    assert_eq!(flags(&m), (false, false, true, true));
}

#[test]
fn adc_negative_overflow_wraps_to_zero() {
    let mut m = Machine::new();
    m.load_accumulator(-128);
    m.add_with_carry(-128);
    assert_eq!(m.registers.accumulator, 0);
    assert_eq!(flags(&m), (true, true, true, false));
}

#[test]
fn adc_unsigned_sum_modulo_256() {
    for a in [-128i8, -77, -1, 0, 1, 64, 127] {
        for v in [-128i8, -3, -1, 0, 1, 90, 127] {
            for c in [false, true] {
                let mut m = Machine::new();
                m.load_accumulator(a);
                if c {
                    m.registers.status.insert(PS_CARRY);
                }
                m.add_with_carry(v);
                let sum = to_unsigned(a) as u32 + c as u32 + to_unsigned(v) as u32;
                assert_eq!(to_unsigned(m.registers.accumulator) as u32, sum % 256);
                let wrapped = sum > 255;
                assert_eq!(m.registers.status.contains(PS_CARRY), wrapped);
                let r = m.registers.accumulator;
                let overflow = (a > 0 && v > 0 && r <= 0) || (a < 0 && v < 0 && r >= 0);
                assert_eq!(m.registers.status.contains(PS_OVERFLOW), overflow);
                assert_eq!(m.registers.status.contains(PS_ZERO), r == 0);
                assert_eq!(m.registers.status.contains(PS_NEGATIVE), r < 0);
            }
        }
    }
}

#[test]
fn adc_carry_in_with_minus_one_wraps_with_carry() {
    let mut m = Machine::new();
    m.load_accumulator(5);
    m.registers.status.insert(PS_CARRY);
    m.add_with_carry(-1);
    assert_eq!(m.registers.accumulator, 5);
    assert_eq!(m.registers.status.contains(PS_CARRY), true);

    let mut m = Machine::new();
    m.add_with_carry(1);
    m.add_with_carry(-1);
    m.add_with_carry(-1);
    assert_eq!(m.registers.accumulator, 0);
    assert_eq!(flags(&m), (true, true, false, false));
}

#[test]
fn adc_keeps_other_status_bits() {
    let mut m = Machine::new();
    m.registers.status.insert(PS_DECIMAL_MODE);
    m.add_with_carry(3);
    assert!(m.registers.status.contains(PS_DECIMAL_MODE));
    assert_eq!(m.registers.accumulator, 3);
}

#[test]
fn loads_keep_carry_and_overflow() {
    let mut m = Machine::new();
    m.registers.status.insert(PS_CARRY | PS_OVERFLOW);
    m.load_accumulator(0);
    m.load_x_register(-5);
    m.load_y_register(9);
    assert_eq!(m.registers.accumulator, 0);
    assert_eq!(m.registers.index_x, -5);
    assert_eq!(m.registers.index_y, 9);
    assert_eq!(flags(&m), (true, false, true, false));
    m.load_y_register(0);
    assert_eq!(flags(&m), (true, true, true, false));
}

#[test]
fn dec_x_counts_down_through_zero() {
    let mut m = Machine::new();
    for _ in 0..4 {
        m.dec_x();
    }
    assert_eq!(m.registers.index_x, -4);
    m.load_x_register(5);
    for _ in 0..4 {
        m.dec_x();
    }
    assert_eq!(m.registers.index_x, 1);
    m.dec_x();
    assert_eq!(m.registers.index_x, 0);
    assert!(m.registers.status.contains(PS_ZERO));
    m.dec_x();
    assert_eq!(m.registers.index_x, -1);
    assert!(m.registers.status.contains(PS_NEGATIVE));
}

#[test]
fn dec_x_wraps_at_signed_minimum() {
    let mut m = Machine::new();
    m.load_x_register(-128);
    m.dec_x();
    assert_eq!(m.registers.index_x, 127);
    assert_eq!(flags(&m), (false, false, false, false));
}

#[test]
fn dec_x_wraps_at_unsigned_minimum() {
    let mut m = Machine::new();
    m.dec_x();
    assert_eq!(to_unsigned(m.registers.index_x), 255);
    assert_eq!(flags(&m), (false, false, false, true));
}

#[test]
fn nop_repeated_changes_nothing() {
    let mut m = Machine::new();
    m.load_accumulator(-7);
    m.registers.status.insert(PS_CARRY);
    let before = m.registers;
    for _ in 0..10 {
        m.execute_instruction((Instruction::NOP, OpInput::UseImplied));
    }
    assert_eq!(m.registers, before);
}

#[test]
fn unimplemented_instruction_is_a_no_op() {
    let mut m = Machine::new();
    let before = m.registers;
    m.execute_instruction((Instruction::STA, OpInput::UseAddress(0x10)));
    m.execute_instruction((Instruction::DEX, OpInput::UseImmediate(3)));
    m.execute_instruction((Instruction::LDA, OpInput::UseImplied));
    assert_eq!(m.registers, before);
    assert_eq!(m.memory.get_byte(0x10), 0);
}

#[test]
fn execute_reads_operand_from_memory() {
    let mut m = Machine::new();
    m.memory.set_byte(0x1234, 0xfe);
    m.execute_instruction((Instruction::LDA, OpInput::UseAddress(0x1234)));
    assert_eq!(m.registers.accumulator, -2);
    m.execute_instruction((Instruction::ADC, OpInput::UseImmediate(3)));
    assert_eq!(m.registers.accumulator, 1);
    assert!(m.registers.status.contains(PS_CARRY));
    m.execute_instruction((Instruction::LDY, OpInput::UseImmediate(0x80)));
    assert_eq!(m.registers.index_y, -128);
    m.execute_instruction((Instruction::LDX, OpInput::UseAddress(0x1234)));
    m.execute_instruction((Instruction::DEX, OpInput::UseImplied));
    assert_eq!(m.registers.index_x, -3);
}

#[test]
fn run_halts_on_undefined_opcode_without_change() {
    let mut m = Machine::new();
    m.memory.set_byte(0, 0x02);
    let before = m.registers;
    m.run();
    assert_eq!(m.registers, before);
}

#[test]
fn fetch_advances_past_operand() {
    let mut m = Machine::new();
    m.memory.set_byte(0, 0xa9);
    m.memory.set_byte(1, 0x42);
    m.memory.set_byte(2, 0x6d);
    m.memory.set_byte(3, 0x34);
    m.memory.set_byte(4, 0x12);
    assert_eq!(
        m.fetch_next_and_decode(),
        Some((Instruction::LDA, OpInput::UseImmediate(0x42)))
    );
    assert_eq!(m.registers.program_counter, 2);
    assert_eq!(
        m.fetch_next_and_decode(),
        Some((Instruction::ADC, OpInput::UseAddress(0x1234)))
    );
    assert_eq!(m.registers.program_counter, 5);
    m.memory.set_byte(5, 0xff);
    assert_eq!(m.fetch_next_and_decode(), None);
    assert_eq!(m.registers.program_counter, 5);
}

#[test]
fn fetch_resolves_indexed_modes() {
    let mut m = Machine::new();
    m.load_x_register(-1);
    m.load_y_register(2);
    m.memory.set_byte(0, 0xb5);
    m.memory.set_byte(1, 0x10);
    assert_eq!(
        m.fetch_next_and_decode(),
        Some((Instruction::LDA, OpInput::UseAddress(0x0f)))
    );
    m.memory.set_byte(2, 0xb1);
    m.memory.set_byte(3, 0x20);
    m.memory.set_byte(0x20, 0xff);
    m.memory.set_byte(0x21, 0x30);
    assert_eq!(
        m.fetch_next_and_decode(),
        Some((Instruction::LDA, OpInput::UseAddress(0x3101)))
    );
    m.memory.set_byte(4, 0xd0);
    m.memory.set_byte(5, 0xfa);
    assert_eq!(
        m.fetch_next_and_decode(),
        Some((Instruction::BNE, OpInput::UseAddress(0x0000)))
    );
    assert_eq!(m.registers.program_counter, 6);
}

#[test]
fn run_executes_program_until_undefined_opcode() {
    let mut m = Machine::new();
    let program = [0xa9u8, 0x05, 0x69, 0x03, 0xa2, 0x01, 0xca, 0xea, 0x02];
    for (i, b) in program.iter().enumerate() {
        m.memory.set_byte(i as u16, *b);
    }
    m.run();
    assert_eq!(m.registers.accumulator, 8);
    assert_eq!(m.registers.index_x, 0);
    assert!(m.registers.status.contains(PS_ZERO));
    assert_eq!(m.registers.program_counter, 8);
}

#[test]
fn reset_restores_fresh_machine() {
    let mut m = Machine::new();
    m.load_accumulator(9);
    m.memory.set_byte(7, 1);
    m.reset();
    assert_eq!(m.registers.accumulator, 0);
    assert_eq!(m.memory.get_byte(7), 0);
}

#[test]
fn opcode_table_entries() {
    assert_eq!(lookup_opcode(0x69), Some((Instruction::ADC, AddressingMode::Immediate)));
    assert_eq!(lookup_opcode(0xca), Some((Instruction::DEX, AddressingMode::Implied)));
    assert_eq!(lookup_opcode(0x6c), Some((Instruction::JMP, AddressingMode::Indirect)));
    assert_eq!(lookup_opcode(0x02), None);
    assert_eq!(AddressingMode::Absolute.extra_bytes(), 2);
    assert_eq!(AddressingMode::Implied.extra_bytes(), 0);
}

#[test]
fn status_masked_replace() {
    let mut s = Status::new(StatusArgs { carry: true, zero: true, ..StatusArgs::none() });
    assert_eq!(s.bits, 0x03);
    let rhs = Status::new(StatusArgs { negative: true, ..StatusArgs::none() });
    s.set_with_mask(PS_ZERO | PS_NEGATIVE, rhs);
    assert_eq!(s.bits, 0x81);
    assert_eq!(s.get_carry(), 1);
    assert_eq!(to_signed(0xff), -1);
}

#[test]
fn nops_with_any_operands_change_nothing() {
    let mut m = Machine::new();
    m.load_y_register(-9);
    m.memory.set_byte(0x44, 0x12);
    let before = m.registers;
    m.execute_instruction((Instruction::NOP, OpInput::UseImmediate(7)));
    m.execute_instruction((Instruction::NOP, OpInput::UseAddress(0x44)));
    m.execute_instruction((Instruction::NOP, OpInput::UseImplied));
    assert_eq!(m.registers, before);
    assert_eq!(m.memory.get_byte(0x44), 0x12);
}

#[test]
fn run_over_nop_bytes_moves_only_the_program_counter() {
    let mut m = Machine::new();
    m.load_accumulator(3);
    m.registers.program_counter = 0xfffe;
    m.memory.set_byte(0xfffe, 0xea);
    m.memory.set_byte(0xffff, 0xea);
    m.memory.set_byte(0x0000, 0xea);
    m.memory.set_byte(0x0001, 0x02);
    let before = m.registers;
    m.run();
    assert_eq!(m.registers.program_counter, 0x0001);
    m.registers.program_counter = before.program_counter;
    assert_eq!(m.registers, before);
}
