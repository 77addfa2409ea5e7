use vstd::prelude::*;

use crate::machine::Machine;
use crate::memory::byte_at;
use crate::registers::{signed_of, to_signed, to_unsigned, unsigned_of, Registers};

verus! {

/// The instructions of the processor, by mnemonic.
#[derive(Clone, Copy, Debug, PartialEq, Eq, Structural)]
pub enum Instruction {
    ADC,
    AND,
    ASL,
    BCC,
    BCS,
    BEQ,
    BIT,
    BMI,
    BNE,
    BPL,
    BRK,
    BVC,
    BVS,
    CLC,
    CLD,
    CLI,
    CLV,
    CMP,
    CPX,
    CPY,
    DEC,
    DEX,
    DEY,
    EOR,
    INC,
    INX,
    INY,
    JMP,
    JSR,
    LDA,
    LDX,
    LDY,
    LSR,
    NOP,
    ORA,
    PHA,
    PHP,
    PLA,
    PLP,
    ROL,
    ROR,
    RTI,
    RTS,
    SBC,
    SEC,
    SED,
    SEI,
    STA,
    STX,
    STY,
    TAX,
    TAY,
    TSX,
    TXA,
    TXS,
    TYA,
}

/// How the bytes that follow an opcode become its operand.
#[derive(Clone, Copy, Debug, PartialEq, Eq, Structural)]
pub enum AddressingMode {
    Accumulator,
    Implied,
    Immediate,
    ZeroPage,
    ZeroPageX,
    ZeroPageY,
    Relative,
    Absolute,
    AbsoluteX,
    AbsoluteY,
    Indirect,
    IndexedIndirectX,
    IndirectIndexedY,
}

/// A resolved operand.
#[derive(Clone, Copy, Debug, PartialEq, Eq, Structural)]
pub enum OpInput {
    UseImplied,
    UseImmediate(u8),
    UseAddress(u16),
}

/// An instruction paired with its resolved operand, as decoding produces it.
pub type DecodedInstr = (Instruction, OpInput);

/// Little-endian 16-bit word from two bytes.
pub open spec fn word(lo: u8, hi: u8) -> int {
    lo as int + 256 * (hi as int)
}

impl AddressingMode {
    pub open spec fn extra_bytes_spec(self) -> nat {
        match self {
            AddressingMode::Accumulator | AddressingMode::Implied => 0,
            AddressingMode::Immediate
            | AddressingMode::ZeroPage
            | AddressingMode::ZeroPageX
            | AddressingMode::ZeroPageY
            | AddressingMode::Relative
            | AddressingMode::IndexedIndirectX
            | AddressingMode::IndirectIndexedY => 1,
            AddressingMode::Absolute
            | AddressingMode::AbsoluteX
            | AddressingMode::AbsoluteY
            | AddressingMode::Indirect => 2,
        }
    }

    /// Number of operand bytes after the opcode.
    pub fn extra_bytes(self) -> (r: u16)
        ensures
            r as nat == self.extra_bytes_spec(),
    {
        match self {
            AddressingMode::Accumulator | AddressingMode::Implied => 0,
            AddressingMode::Immediate
            | AddressingMode::ZeroPage
            | AddressingMode::ZeroPageX
            | AddressingMode::ZeroPageY
            | AddressingMode::Relative
            | AddressingMode::IndexedIndirectX
            | AddressingMode::IndirectIndexedY => 1,
            AddressingMode::Absolute
            | AddressingMode::AbsoluteX
            | AddressingMode::AbsoluteY
            | AddressingMode::Indirect => 2,
        }
    }

    /// The operand that the bytes `arr` give in this mode, for an instruction
    /// at `regs.program_counter`, reading pointers from `mem`.
    pub open spec fn resolve(self, regs: Registers, mem: Seq<u8>, arr: Seq<u8>) -> OpInput {
        match self {
            AddressingMode::Accumulator | AddressingMode::Implied => OpInput::UseImplied,
            AddressingMode::Immediate => OpInput::UseImmediate(arr[0]),
            AddressingMode::ZeroPage => OpInput::UseAddress(arr[0] as u16),
            AddressingMode::ZeroPageX => OpInput::UseAddress(
                ((arr[0] + unsigned_of(regs.index_x)) % 256) as u16,
            ),
            AddressingMode::ZeroPageY => OpInput::UseAddress(
                ((arr[0] + unsigned_of(regs.index_y)) % 256) as u16,
            ),
            AddressingMode::Relative => OpInput::UseAddress(
                ((regs.program_counter + 2 + signed_of(arr[0] as int)) % 0x10000) as u16,
            ),
            AddressingMode::Absolute => OpInput::UseAddress(word(arr[0], arr[1]) as u16),
            AddressingMode::AbsoluteX => OpInput::UseAddress(
                ((word(arr[0], arr[1]) + unsigned_of(regs.index_x)) % 0x10000) as u16,
            ),
            AddressingMode::AbsoluteY => OpInput::UseAddress(
                ((word(arr[0], arr[1]) + unsigned_of(regs.index_y)) % 0x10000) as u16,
            ),
            AddressingMode::Indirect => {
                let ptr = word(arr[0], arr[1]);
                OpInput::UseAddress(word(byte_at(mem, ptr), byte_at(mem, ptr + 1)) as u16)
            },
            AddressingMode::IndexedIndirectX => {
                let zp = (arr[0] + unsigned_of(regs.index_x)) % 256;
                OpInput::UseAddress(word(mem[zp], mem[(zp + 1) % 256]) as u16)
            },
            AddressingMode::IndirectIndexedY => {
                let base = word(mem[arr[0] as int], mem[(arr[0] + 1) % 256]);
                OpInput::UseAddress(((base + unsigned_of(regs.index_y)) % 0x10000) as u16)
            },
        }
    }

    /// Resolve the operand bytes `arr` in this mode.
    pub fn process(self, machine: &Machine, arr: &Vec<u8>) -> (r: OpInput)
        requires
            machine.wf(),
            arr@.len() == self.extra_bytes_spec(),
        ensures
            r == self.resolve(machine.registers, machine.memory@, arr@),
    {
        let regs = &machine.registers;
        match self {
            AddressingMode::Accumulator | AddressingMode::Implied => OpInput::UseImplied,
            AddressingMode::Immediate => OpInput::UseImmediate(arr[0]),
            AddressingMode::ZeroPage => OpInput::UseAddress(arr[0] as u16),
            AddressingMode::ZeroPageX => {
                OpInput::UseAddress(arr[0].wrapping_add(to_unsigned(regs.index_x)) as u16)
            },
            AddressingMode::ZeroPageY => {
                OpInput::UseAddress(arr[0].wrapping_add(to_unsigned(regs.index_y)) as u16)
            },
            AddressingMode::Relative => {
                let offset: i8 = to_signed(arr[0]);
                let next: u16 = regs.program_counter.wrapping_add(2);
                OpInput::UseAddress(next.wrapping_add_signed(offset as i16))
            },
            AddressingMode::Absolute => OpInput::UseAddress(make_word(arr[0], arr[1])),
            AddressingMode::AbsoluteX => {
                let base = make_word(arr[0], arr[1]);
                OpInput::UseAddress(base.wrapping_add(to_unsigned(regs.index_x) as u16))
            },
            AddressingMode::AbsoluteY => {
                let base = make_word(arr[0], arr[1]);
                OpInput::UseAddress(base.wrapping_add(to_unsigned(regs.index_y) as u16))
            },
            AddressingMode::Indirect => {
                let ptr = make_word(arr[0], arr[1]);
                let lo = machine.memory.get_byte(ptr);
                let hi = machine.memory.get_byte(ptr.wrapping_add(1));
                OpInput::UseAddress(make_word(lo, hi))
            },
            AddressingMode::IndexedIndirectX => {
                let zp: u8 = arr[0].wrapping_add(to_unsigned(regs.index_x));
                let lo = machine.memory.get_byte(zp as u16);
                let hi = machine.memory.get_byte(zp.wrapping_add(1) as u16);
                OpInput::UseAddress(make_word(lo, hi))
            },
            AddressingMode::IndirectIndexedY => {
                let lo = machine.memory.get_byte(arr[0] as u16);
                let hi = machine.memory.get_byte(arr[0].wrapping_add(1) as u16);
                let base = make_word(lo, hi);
                OpInput::UseAddress(base.wrapping_add(to_unsigned(regs.index_y) as u16))
            },
        }
    }
}

/// Little-endian 16-bit word from two bytes.
pub fn make_word(lo: u8, hi: u8) -> (r: u16)
    ensures
        r as int == word(lo, hi),
{
    lo as u16 + 256 * (hi as u16)
}

/// The opcode table: the instruction and addressing mode of each defined
/// opcode, `None` for an undefined one.
pub open spec fn opcode_entry(op: u8) -> Option<(Instruction, AddressingMode)> {
    match op {
        0x00 => Some((Instruction::BRK, AddressingMode::Implied)),
        0x01 => Some((Instruction::ORA, AddressingMode::IndexedIndirectX)),
        0x05 => Some((Instruction::ORA, AddressingMode::ZeroPage)),
        0x06 => Some((Instruction::ASL, AddressingMode::ZeroPage)),
        0x08 => Some((Instruction::PHP, AddressingMode::Implied)),
        0x09 => Some((Instruction::ORA, AddressingMode::Immediate)),
        0x0A => Some((Instruction::ASL, AddressingMode::Accumulator)),
        0x0D => Some((Instruction::ORA, AddressingMode::Absolute)),
        0x0E => Some((Instruction::ASL, AddressingMode::Absolute)),
        0x10 => Some((Instruction::BPL, AddressingMode::Relative)),
        0x11 => Some((Instruction::ORA, AddressingMode::IndirectIndexedY)),
        0x15 => Some((Instruction::ORA, AddressingMode::ZeroPageX)),
        0x16 => Some((Instruction::ASL, AddressingMode::ZeroPageX)),
        0x18 => Some((Instruction::CLC, AddressingMode::Implied)),
        0x19 => Some((Instruction::ORA, AddressingMode::AbsoluteY)),
        0x1D => Some((Instruction::ORA, AddressingMode::AbsoluteX)),
        0x1E => Some((Instruction::ASL, AddressingMode::AbsoluteX)),
        0x20 => Some((Instruction::JSR, AddressingMode::Absolute)),
        0x21 => Some((Instruction::AND, AddressingMode::IndexedIndirectX)),
        0x24 => Some((Instruction::BIT, AddressingMode::ZeroPage)),
        0x25 => Some((Instruction::AND, AddressingMode::ZeroPage)),
        0x26 => Some((Instruction::ROL, AddressingMode::ZeroPage)),
        0x28 => Some((Instruction::PLP, AddressingMode::Implied)),
        0x29 => Some((Instruction::AND, AddressingMode::Immediate)),
        0x2A => Some((Instruction::ROL, AddressingMode::Accumulator)),
        0x2C => Some((Instruction::BIT, AddressingMode::Absolute)),
        0x2D => Some((Instruction::AND, AddressingMode::Absolute)),
        0x2E => Some((Instruction::ROL, AddressingMode::Absolute)),
        0x30 => Some((Instruction::BMI, AddressingMode::Relative)),
        0x31 => Some((Instruction::AND, AddressingMode::IndirectIndexedY)),
        0x35 => Some((Instruction::AND, AddressingMode::ZeroPageX)),
        0x36 => Some((Instruction::ROL, AddressingMode::ZeroPageX)),
        0x38 => Some((Instruction::SEC, AddressingMode::Implied)),
        0x39 => Some((Instruction::AND, AddressingMode::AbsoluteY)),
        0x3D => Some((Instruction::AND, AddressingMode::AbsoluteX)),
        0x3E => Some((Instruction::ROL, AddressingMode::AbsoluteX)),
        0x40 => Some((Instruction::RTI, AddressingMode::Implied)),
        0x41 => Some((Instruction::EOR, AddressingMode::IndexedIndirectX)),
        0x45 => Some((Instruction::EOR, AddressingMode::ZeroPage)),
        0x46 => Some((Instruction::LSR, AddressingMode::ZeroPage)),
        0x48 => Some((Instruction::PHA, AddressingMode::Implied)),
        0x49 => Some((Instruction::EOR, AddressingMode::Immediate)),
        0x4A => Some((Instruction::LSR, AddressingMode::Accumulator)),
        0x4C => Some((Instruction::JMP, AddressingMode::Absolute)),
        0x4D => Some((Instruction::EOR, AddressingMode::Absolute)),
        0x4E => Some((Instruction::LSR, AddressingMode::Absolute)),
        0x50 => Some((Instruction::BVC, AddressingMode::Relative)),
        0x51 => Some((Instruction::EOR, AddressingMode::IndirectIndexedY)),
        0x55 => Some((Instruction::EOR, AddressingMode::ZeroPageX)),
        0x56 => Some((Instruction::LSR, AddressingMode::ZeroPageX)),
        0x58 => Some((Instruction::CLI, AddressingMode::Implied)),
        0x59 => Some((Instruction::EOR, AddressingMode::AbsoluteY)),
        0x5D => Some((Instruction::EOR, AddressingMode::AbsoluteX)),
        0x5E => Some((Instruction::LSR, AddressingMode::AbsoluteX)),
        0x60 => Some((Instruction::RTS, AddressingMode::Implied)),
        0x61 => Some((Instruction::ADC, AddressingMode::IndexedIndirectX)),
        0x65 => Some((Instruction::ADC, AddressingMode::ZeroPage)),
        0x66 => Some((Instruction::ROR, AddressingMode::ZeroPage)),
        0x68 => Some((Instruction::PLA, AddressingMode::Implied)),
        0x69 => Some((Instruction::ADC, AddressingMode::Immediate)),
        0x6A => Some((Instruction::ROR, AddressingMode::Accumulator)),
        0x6C => Some((Instruction::JMP, AddressingMode::Indirect)),
        0x6D => Some((Instruction::ADC, AddressingMode::Absolute)),
        0x6E => Some((Instruction::ROR, AddressingMode::Absolute)),
        0x70 => Some((Instruction::BVS, AddressingMode::Relative)),
        0x71 => Some((Instruction::ADC, AddressingMode::IndirectIndexedY)),
        0x75 => Some((Instruction::ADC, AddressingMode::ZeroPageX)),
        0x76 => Some((Instruction::ROR, AddressingMode::ZeroPageX)),
        0x78 => Some((Instruction::SEI, AddressingMode::Implied)),
        0x79 => Some((Instruction::ADC, AddressingMode::AbsoluteY)),
        0x7D => Some((Instruction::ADC, AddressingMode::AbsoluteX)),
        0x7E => Some((Instruction::ROR, AddressingMode::AbsoluteX)),
        0x81 => Some((Instruction::STA, AddressingMode::IndexedIndirectX)),
        0x84 => Some((Instruction::STY, AddressingMode::ZeroPage)),
        0x85 => Some((Instruction::STA, AddressingMode::ZeroPage)),
        0x86 => Some((Instruction::STX, AddressingMode::ZeroPage)),
        0x88 => Some((Instruction::DEY, AddressingMode::Implied)),
        0x8A => Some((Instruction::TXA, AddressingMode::Implied)),
        0x8C => Some((Instruction::STY, AddressingMode::Absolute)),
        0x8D => Some((Instruction::STA, AddressingMode::Absolute)),
        0x8E => Some((Instruction::STX, AddressingMode::Absolute)),
        0x90 => Some((Instruction::BCC, AddressingMode::Relative)),
        0x91 => Some((Instruction::STA, AddressingMode::IndirectIndexedY)),
        0x94 => Some((Instruction::STY, AddressingMode::ZeroPageX)),
        0x95 => Some((Instruction::STA, AddressingMode::ZeroPageX)),
        0x96 => Some((Instruction::STX, AddressingMode::ZeroPageY)),
        0x98 => Some((Instruction::TYA, AddressingMode::Implied)),
        0x99 => Some((Instruction::STA, AddressingMode::AbsoluteY)),
        0x9A => Some((Instruction::TXS, AddressingMode::Implied)),
        0x9D => Some((Instruction::STA, AddressingMode::AbsoluteX)),
        0xA0 => Some((Instruction::LDY, AddressingMode::Immediate)),
        0xA1 => Some((Instruction::LDA, AddressingMode::IndexedIndirectX)),
        0xA2 => Some((Instruction::LDX, AddressingMode::Immediate)),
        0xA4 => Some((Instruction::LDY, AddressingMode::ZeroPage)),
        0xA5 => Some((Instruction::LDA, AddressingMode::ZeroPage)),
        0xA6 => Some((Instruction::LDX, AddressingMode::ZeroPage)),
        0xA8 => Some((Instruction::TAY, AddressingMode::Implied)),
        0xA9 => Some((Instruction::LDA, AddressingMode::Immediate)),
        0xAA => Some((Instruction::TAX, AddressingMode::Implied)),
        0xAC => Some((Instruction::LDY, AddressingMode::Absolute)),
        0xAD => Some((Instruction::LDA, AddressingMode::Absolute)),
        0xAE => Some((Instruction::LDX, AddressingMode::Absolute)),
        0xB0 => Some((Instruction::BCS, AddressingMode::Relative)),
        0xB1 => Some((Instruction::LDA, AddressingMode::IndirectIndexedY)),
        0xB4 => Some((Instruction::LDY, AddressingMode::ZeroPageX)),
        0xB5 => Some((Instruction::LDA, AddressingMode::ZeroPageX)),
        0xB6 => Some((Instruction::LDX, AddressingMode::ZeroPageY)),
        0xB8 => Some((Instruction::CLV, AddressingMode::Implied)),
        0xB9 => Some((Instruction::LDA, AddressingMode::AbsoluteY)),
        0xBA => Some((Instruction::TSX, AddressingMode::Implied)),
        0xBC => Some((Instruction::LDY, AddressingMode::AbsoluteX)),
        0xBD => Some((Instruction::LDA, AddressingMode::AbsoluteX)),
        0xBE => Some((Instruction::LDX, AddressingMode::AbsoluteY)),
        0xC0 => Some((Instruction::CPY, AddressingMode::Immediate)),
        0xC1 => Some((Instruction::CMP, AddressingMode::IndexedIndirectX)),
        0xC4 => Some((Instruction::CPY, AddressingMode::ZeroPage)),
        0xC5 => Some((Instruction::CMP, AddressingMode::ZeroPage)),
        0xC6 => Some((Instruction::DEC, AddressingMode::ZeroPage)),
        0xC8 => Some((Instruction::INY, AddressingMode::Implied)),
        0xC9 => Some((Instruction::CMP, AddressingMode::Immediate)),
        0xCA => Some((Instruction::DEX, AddressingMode::Implied)),
        0xCC => Some((Instruction::CPY, AddressingMode::Absolute)),
        0xCD => Some((Instruction::CMP, AddressingMode::Absolute)),
        0xCE => Some((Instruction::DEC, AddressingMode::Absolute)),
        0xD0 => Some((Instruction::BNE, AddressingMode::Relative)),
        0xD1 => Some((Instruction::CMP, AddressingMode::IndirectIndexedY)),
        0xD5 => Some((Instruction::CMP, AddressingMode::ZeroPageX)),
        0xD6 => Some((Instruction::DEC, AddressingMode::ZeroPageX)),
        0xD8 => Some((Instruction::CLD, AddressingMode::Implied)),
        0xD9 => Some((Instruction::CMP, AddressingMode::AbsoluteY)),
        0xDD => Some((Instruction::CMP, AddressingMode::AbsoluteX)),
        0xDE => Some((Instruction::DEC, AddressingMode::AbsoluteX)),
        0xE0 => Some((Instruction::CPX, AddressingMode::Immediate)),
        0xE1 => Some((Instruction::SBC, AddressingMode::IndexedIndirectX)),
        0xE4 => Some((Instruction::CPX, AddressingMode::ZeroPage)),
        0xE5 => Some((Instruction::SBC, AddressingMode::ZeroPage)),
        0xE6 => Some((Instruction::INC, AddressingMode::ZeroPage)),
        0xE8 => Some((Instruction::INX, AddressingMode::Implied)),
        0xE9 => Some((Instruction::SBC, AddressingMode::Immediate)),
        0xEA => Some((Instruction::NOP, AddressingMode::Implied)),
        0xEC => Some((Instruction::CPX, AddressingMode::Absolute)),
        0xED => Some((Instruction::SBC, AddressingMode::Absolute)),
        0xEE => Some((Instruction::INC, AddressingMode::Absolute)),
        0xF0 => Some((Instruction::BEQ, AddressingMode::Relative)),
        0xF1 => Some((Instruction::SBC, AddressingMode::IndirectIndexedY)),
        0xF5 => Some((Instruction::SBC, AddressingMode::ZeroPageX)),
        0xF6 => Some((Instruction::INC, AddressingMode::ZeroPageX)),
        0xF8 => Some((Instruction::SED, AddressingMode::Implied)),
        0xF9 => Some((Instruction::SBC, AddressingMode::AbsoluteY)),
        0xFD => Some((Instruction::SBC, AddressingMode::AbsoluteX)),
        0xFE => Some((Instruction::INC, AddressingMode::AbsoluteX)),
        _ => None,
    }
}

/// Look up `op` in the opcode table.
pub fn lookup_opcode(op: u8) -> (r: Option<(Instruction, AddressingMode)>)
    ensures
        r == opcode_entry(op),
{
    match op {
        0x00 => Some((Instruction::BRK, AddressingMode::Implied)),
        0x01 => Some((Instruction::ORA, AddressingMode::IndexedIndirectX)),
        0x05 => Some((Instruction::ORA, AddressingMode::ZeroPage)),
        0x06 => Some((Instruction::ASL, AddressingMode::ZeroPage)),
        0x08 => Some((Instruction::PHP, AddressingMode::Implied)),
        0x09 => Some((Instruction::ORA, AddressingMode::Immediate)),
        0x0A => Some((Instruction::ASL, AddressingMode::Accumulator)),
        0x0D => Some((Instruction::ORA, AddressingMode::Absolute)),
        0x0E => Some((Instruction::ASL, AddressingMode::Absolute)),
        0x10 => Some((Instruction::BPL, AddressingMode::Relative)),
        0x11 => Some((Instruction::ORA, AddressingMode::IndirectIndexedY)),
        0x15 => Some((Instruction::ORA, AddressingMode::ZeroPageX)),
        0x16 => Some((Instruction::ASL, AddressingMode::ZeroPageX)),
        0x18 => Some((Instruction::CLC, AddressingMode::Implied)),
        0x19 => Some((Instruction::ORA, AddressingMode::AbsoluteY)),
        0x1D => Some((Instruction::ORA, AddressingMode::AbsoluteX)),
        0x1E => Some((Instruction::ASL, AddressingMode::AbsoluteX)),
        0x20 => Some((Instruction::JSR, AddressingMode::Absolute)),
        0x21 => Some((Instruction::AND, AddressingMode::IndexedIndirectX)),
        0x24 => Some((Instruction::BIT, AddressingMode::ZeroPage)),
        0x25 => Some((Instruction::AND, AddressingMode::ZeroPage)),
        0x26 => Some((Instruction::ROL, AddressingMode::ZeroPage)),
        0x28 => Some((Instruction::PLP, AddressingMode::Implied)),
        0x29 => Some((Instruction::AND, AddressingMode::Immediate)),
        0x2A => Some((Instruction::ROL, AddressingMode::Accumulator)),
        0x2C => Some((Instruction::BIT, AddressingMode::Absolute)),
        0x2D => Some((Instruction::AND, AddressingMode::Absolute)),
        0x2E => Some((Instruction::ROL, AddressingMode::Absolute)),
        0x30 => Some((Instruction::BMI, AddressingMode::Relative)),
        0x31 => Some((Instruction::AND, AddressingMode::IndirectIndexedY)),
        0x35 => Some((Instruction::AND, AddressingMode::ZeroPageX)),
        0x36 => Some((Instruction::ROL, AddressingMode::ZeroPageX)),
        0x38 => Some((Instruction::SEC, AddressingMode::Implied)),
        0x39 => Some((Instruction::AND, AddressingMode::AbsoluteY)),
        0x3D => Some((Instruction::AND, AddressingMode::AbsoluteX)),
        0x3E => Some((Instruction::ROL, AddressingMode::AbsoluteX)),
        0x40 => Some((Instruction::RTI, AddressingMode::Implied)),
        0x41 => Some((Instruction::EOR, AddressingMode::IndexedIndirectX)),
        0x45 => Some((Instruction::EOR, AddressingMode::ZeroPage)),
        0x46 => Some((Instruction::LSR, AddressingMode::ZeroPage)),
        0x48 => Some((Instruction::PHA, AddressingMode::Implied)),
        0x49 => Some((Instruction::EOR, AddressingMode::Immediate)),
        0x4A => Some((Instruction::LSR, AddressingMode::Accumulator)),
        0x4C => Some((Instruction::JMP, AddressingMode::Absolute)),
        0x4D => Some((Instruction::EOR, AddressingMode::Absolute)),
        0x4E => Some((Instruction::LSR, AddressingMode::Absolute)),
        0x50 => Some((Instruction::BVC, AddressingMode::Relative)),
        0x51 => Some((Instruction::EOR, AddressingMode::IndirectIndexedY)),
        0x55 => Some((Instruction::EOR, AddressingMode::ZeroPageX)),
        0x56 => Some((Instruction::LSR, AddressingMode::ZeroPageX)),
        0x58 => Some((Instruction::CLI, AddressingMode::Implied)),
        0x59 => Some((Instruction::EOR, AddressingMode::AbsoluteY)),
        0x5D => Some((Instruction::EOR, AddressingMode::AbsoluteX)),
        0x5E => Some((Instruction::LSR, AddressingMode::AbsoluteX)),
        0x60 => Some((Instruction::RTS, AddressingMode::Implied)),
        0x61 => Some((Instruction::ADC, AddressingMode::IndexedIndirectX)),
        0x65 => Some((Instruction::ADC, AddressingMode::ZeroPage)),
        0x66 => Some((Instruction::ROR, AddressingMode::ZeroPage)),
        0x68 => Some((Instruction::PLA, AddressingMode::Implied)),
        0x69 => Some((Instruction::ADC, AddressingMode::Immediate)),
        0x6A => Some((Instruction::ROR, AddressingMode::Accumulator)),
        0x6C => Some((Instruction::JMP, AddressingMode::Indirect)),
        0x6D => Some((Instruction::ADC, AddressingMode::Absolute)),
        0x6E => Some((Instruction::ROR, AddressingMode::Absolute)),
        0x70 => Some((Instruction::BVS, AddressingMode::Relative)),
        0x71 => Some((Instruction::ADC, AddressingMode::IndirectIndexedY)),
        0x75 => Some((Instruction::ADC, AddressingMode::ZeroPageX)),
        0x76 => Some((Instruction::ROR, AddressingMode::ZeroPageX)),
        0x78 => Some((Instruction::SEI, AddressingMode::Implied)),
        0x79 => Some((Instruction::ADC, AddressingMode::AbsoluteY)),
        0x7D => Some((Instruction::ADC, AddressingMode::AbsoluteX)),
        0x7E => Some((Instruction::ROR, AddressingMode::AbsoluteX)),
        0x81 => Some((Instruction::STA, AddressingMode::IndexedIndirectX)),
        0x84 => Some((Instruction::STY, AddressingMode::ZeroPage)),
        0x85 => Some((Instruction::STA, AddressingMode::ZeroPage)),
        0x86 => Some((Instruction::STX, AddressingMode::ZeroPage)),
        0x88 => Some((Instruction::DEY, AddressingMode::Implied)),
        0x8A => Some((Instruction::TXA, AddressingMode::Implied)),
        0x8C => Some((Instruction::STY, AddressingMode::Absolute)),
        0x8D => Some((Instruction::STA, AddressingMode::Absolute)),
        0x8E => Some((Instruction::STX, AddressingMode::Absolute)),
        0x90 => Some((Instruction::BCC, AddressingMode::Relative)),
        0x91 => Some((Instruction::STA, AddressingMode::IndirectIndexedY)),
        0x94 => Some((Instruction::STY, AddressingMode::ZeroPageX)),
        0x95 => Some((Instruction::STA, AddressingMode::ZeroPageX)),
        0x96 => Some((Instruction::STX, AddressingMode::ZeroPageY)),
        0x98 => Some((Instruction::TYA, AddressingMode::Implied)),
        0x99 => Some((Instruction::STA, AddressingMode::AbsoluteY)),
        0x9A => Some((Instruction::TXS, AddressingMode::Implied)),
        0x9D => Some((Instruction::STA, AddressingMode::AbsoluteX)),
        0xA0 => Some((Instruction::LDY, AddressingMode::Immediate)),
        0xA1 => Some((Instruction::LDA, AddressingMode::IndexedIndirectX)),
        0xA2 => Some((Instruction::LDX, AddressingMode::Immediate)),
        0xA4 => Some((Instruction::LDY, AddressingMode::ZeroPage)),
        0xA5 => Some((Instruction::LDA, AddressingMode::ZeroPage)),
        0xA6 => Some((Instruction::LDX, AddressingMode::ZeroPage)),
        0xA8 => Some((Instruction::TAY, AddressingMode::Implied)),
        0xA9 => Some((Instruction::LDA, AddressingMode::Immediate)),
        0xAA => Some((Instruction::TAX, AddressingMode::Implied)),
        0xAC => Some((Instruction::LDY, AddressingMode::Absolute)),
        0xAD => Some((Instruction::LDA, AddressingMode::Absolute)),
        0xAE => Some((Instruction::LDX, AddressingMode::Absolute)),
        0xB0 => Some((Instruction::BCS, AddressingMode::Relative)),
        0xB1 => Some((Instruction::LDA, AddressingMode::IndirectIndexedY)),
        0xB4 => Some((Instruction::LDY, AddressingMode::ZeroPageX)),
        0xB5 => Some((Instruction::LDA, AddressingMode::ZeroPageX)),
        0xB6 => Some((Instruction::LDX, AddressingMode::ZeroPageY)),
        0xB8 => Some((Instruction::CLV, AddressingMode::Implied)),
        0xB9 => Some((Instruction::LDA, AddressingMode::AbsoluteY)),
        0xBA => Some((Instruction::TSX, AddressingMode::Implied)),
        0xBC => Some((Instruction::LDY, AddressingMode::AbsoluteX)),
        0xBD => Some((Instruction::LDA, AddressingMode::AbsoluteX)),
        0xBE => Some((Instruction::LDX, AddressingMode::AbsoluteY)),
        0xC0 => Some((Instruction::CPY, AddressingMode::Immediate)),
        0xC1 => Some((Instruction::CMP, AddressingMode::IndexedIndirectX)),
        0xC4 => Some((Instruction::CPY, AddressingMode::ZeroPage)),
        0xC5 => Some((Instruction::CMP, AddressingMode::ZeroPage)),
        0xC6 => Some((Instruction::DEC, AddressingMode::ZeroPage)),
        0xC8 => Some((Instruction::INY, AddressingMode::Implied)),
        0xC9 => Some((Instruction::CMP, AddressingMode::Immediate)),
        0xCA => Some((Instruction::DEX, AddressingMode::Implied)),
        0xCC => Some((Instruction::CPY, AddressingMode::Absolute)),
        0xCD => Some((Instruction::CMP, AddressingMode::Absolute)),
        0xCE => Some((Instruction::DEC, AddressingMode::Absolute)),
        0xD0 => Some((Instruction::BNE, AddressingMode::Relative)),
        0xD1 => Some((Instruction::CMP, AddressingMode::IndirectIndexedY)),
        0xD5 => Some((Instruction::CMP, AddressingMode::ZeroPageX)),
        0xD6 => Some((Instruction::DEC, AddressingMode::ZeroPageX)),
        0xD8 => Some((Instruction::CLD, AddressingMode::Implied)),
        0xD9 => Some((Instruction::CMP, AddressingMode::AbsoluteY)),
        0xDD => Some((Instruction::CMP, AddressingMode::AbsoluteX)),
        0xDE => Some((Instruction::DEC, AddressingMode::AbsoluteX)),
        0xE0 => Some((Instruction::CPX, AddressingMode::Immediate)),
        0xE1 => Some((Instruction::SBC, AddressingMode::IndexedIndirectX)),
        0xE4 => Some((Instruction::CPX, AddressingMode::ZeroPage)),
        0xE5 => Some((Instruction::SBC, AddressingMode::ZeroPage)),
        0xE6 => Some((Instruction::INC, AddressingMode::ZeroPage)),
        0xE8 => Some((Instruction::INX, AddressingMode::Implied)),
        0xE9 => Some((Instruction::SBC, AddressingMode::Immediate)),
        0xEA => Some((Instruction::NOP, AddressingMode::Implied)),
        0xEC => Some((Instruction::CPX, AddressingMode::Absolute)),
        0xED => Some((Instruction::SBC, AddressingMode::Absolute)),
        0xEE => Some((Instruction::INC, AddressingMode::Absolute)),
        0xF0 => Some((Instruction::BEQ, AddressingMode::Relative)),
        0xF1 => Some((Instruction::SBC, AddressingMode::IndirectIndexedY)),
        0xF5 => Some((Instruction::SBC, AddressingMode::ZeroPageX)),
        0xF6 => Some((Instruction::INC, AddressingMode::ZeroPageX)),
        0xF8 => Some((Instruction::SED, AddressingMode::Implied)),
        0xF9 => Some((Instruction::SBC, AddressingMode::AbsoluteY)),
        0xFD => Some((Instruction::SBC, AddressingMode::AbsoluteX)),
        0xFE => Some((Instruction::INC, AddressingMode::AbsoluteX)),
        _ => None,
    }
}

} // verus!
