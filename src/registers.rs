use vstd::prelude::*;

verus! {

/// Carry flag.
pub const PS_CARRY: u8 = 0x01;
/// Zero flag.
pub const PS_ZERO: u8 = 0x02;
/// Interrupt-disable flag.
pub const PS_DISABLE_INTERRUPTS: u8 = 0x04;
/// Decimal-mode flag (decimal arithmetic itself is not modeled).
pub const PS_DECIMAL_MODE: u8 = 0x08;
/// Break flag.
pub const PS_BRK: u8 = 0x10;
/// The bit that the chip never uses.
pub const PS_UNUSED: u8 = 0x20;
/// Overflow flag.
pub const PS_OVERFLOW: u8 = 0x40;
/// Negative flag.
pub const PS_NEGATIVE: u8 = 0x80;

/// The unsigned byte with the same bits as the signed byte `x`.
pub open spec fn unsigned_of(x: i8) -> int {
    if x < 0 { x + 256 } else { x as int }
}

/// The signed byte with the same bits as the unsigned byte `b` (`0 <= b < 256`).
pub open spec fn signed_of(b: int) -> int {
    if b < 128 { b } else { b - 256 }
}

/// Reinterpret the bits of a signed byte as unsigned.
pub fn to_unsigned(x: i8) -> (r: u8)
    ensures
        r as int == unsigned_of(x),
{
    if x < 0 {
        (x as i16 + 256) as u8
    } else {
        x as u8
    }
}

/// Reinterpret the bits of an unsigned byte as signed.
pub fn to_signed(b: u8) -> (r: i8)
    ensures
        r as int == signed_of(b as int),
{
    if b < 128 {
        b as i8
    } else {
        (b as i16 - 256) as i8
    }
}

/// Replace the bits of `old` selected by `mask` with those of `new`.
pub open spec fn merge_bits(old: u8, mask: u8, new: u8) -> u8 {
    (old & !mask) | (new & mask)
}

/// The processor status register: a set of eight flag bits.
#[derive(Clone, Copy, Debug, PartialEq, Eq, Structural)]
pub struct Status {
    pub bits: u8,
}

/// One boolean per status flag, used to build a `Status`.
#[derive(Clone, Copy, Debug)]
pub struct StatusArgs {
    pub negative: bool,
    pub overflow: bool,
    pub unused: bool,
    pub brk: bool,
    pub decimal_mode: bool,
    pub disable_interrupts: bool,
    pub zero: bool,
    pub carry: bool,
}

pub open spec fn bit_value(b: bool, weight: int) -> int {
    if b { weight } else { 0 }
}

impl StatusArgs {
    /// The byte whose bits are the flags that are set.
    pub open spec fn packed(self) -> int {
        bit_value(self.carry, 0x01) + bit_value(self.zero, 0x02) + bit_value(
            self.disable_interrupts,
            0x04,
        ) + bit_value(self.decimal_mode, 0x08) + bit_value(self.brk, 0x10) + bit_value(
            self.unused,
            0x20,
        ) + bit_value(self.overflow, 0x40) + bit_value(self.negative, 0x80)
    }

    /// All flags clear.
    pub fn none() -> (r: StatusArgs)
        ensures
            r.packed() == 0,
    {
        StatusArgs {
            negative: false,
            overflow: false,
            unused: false,
            brk: false,
            decimal_mode: false,
            disable_interrupts: false,
            zero: false,
            carry: false,
        }
    }
}

impl Status {
    pub open spec fn carry(self) -> bool {
        self.bits & 0x01 != 0
    }

    pub open spec fn zero(self) -> bool {
        self.bits & 0x02 != 0
    }

    pub open spec fn overflow(self) -> bool {
        self.bits & 0x40 != 0
    }

    pub open spec fn negative(self) -> bool {
        self.bits & 0x80 != 0
    }

    /// The status with exactly the flags of `args` set.
    pub fn new(args: StatusArgs) -> (r: Status)
        ensures
            r.bits as int == args.packed(),
    {
        let mut bits: u8 = 0;
        if args.carry {
            bits = bits + 0x01;
        }
        if args.zero {
            bits = bits + 0x02;
        }
        if args.disable_interrupts {
            bits = bits + 0x04;
        }
        if args.decimal_mode {
            bits = bits + 0x08;
        }
        if args.brk {
            bits = bits + 0x10;
        }
        if args.unused {
            bits = bits + 0x20;
        }
        if args.overflow {
            bits = bits + 0x40;
        }
        if args.negative {
            bits = bits + 0x80;
        }
        Status { bits }
    }

    /// The empty status.
    pub fn empty() -> (r: Status)
        ensures
            r.bits == 0,
    {
        Status { bits: 0 }
    }

    /// Whether every bit of `mask` is set.
    pub fn contains(&self, mask: u8) -> (r: bool)
        ensures
            r == (self.bits & mask == mask),
    {
        self.bits & mask == mask
    }

    /// Set every bit of `mask`.
    pub fn insert(&mut self, mask: u8)
        ensures
            final(self).bits == old(self).bits | mask,
    {
        self.bits = self.bits | mask;
    }

    /// Clear every bit of `mask`.
    pub fn remove(&mut self, mask: u8)
        ensures
            final(self).bits == old(self).bits & !mask,
    {
        self.bits = self.bits & !mask;
    }

    /// Masked replace: the bits selected by `mask` are taken from `rhs`, the
    /// others keep their value.
    pub fn set_with_mask(&mut self, mask: u8, rhs: Status)
        ensures
            final(self).bits == merge_bits(old(self).bits, mask, rhs.bits),
    {
        self.bits = (self.bits & !mask) | (rhs.bits & mask);
    }

    /// The carry flag as the number added by an addition with carry.
    pub fn get_carry(&self) -> (r: i8)
        ensures
            r == (if self.carry() { 1i8 } else { 0i8 }),
    {
        if self.bits & PS_CARRY != 0 {
            1
        } else {
            0
        }
    }
}

/// The register file of the processor.
#[derive(Clone, Copy, Debug, PartialEq, Eq, Structural)]
pub struct Registers {
    pub accumulator: i8,
    pub index_x: i8,
    pub index_y: i8,
    pub program_counter: u16,
    pub status: Status,
}

impl Registers {
    /// All registers zero, all flags clear.
    pub fn new() -> (r: Registers)
        ensures
            r.accumulator == 0,
            r.index_x == 0,
            r.index_y == 0,
            r.program_counter == 0,
            r.status.bits == 0,
    {
        Registers {
            accumulator: 0,
            index_x: 0,
            index_y: 0,
            program_counter: 0,
            status: Status::empty(),
        }
    }
}

} // verus!
