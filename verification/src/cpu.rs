//! The execution unit: owns the register file, the program counter, the
//! stack pointer and the memory bus, and runs the fetch, decode, execute,
//! commit cycle one instruction per step.

use crate::instructions::{
    ArithmaticTarget, Instruction, Jump, LoadByteSource, LoadByteTarget, LoadType, spec_from_byte,
};
use crate::membus::MemoryBus;
use crate::registers::{
    FlagRegister, Registers, spec_flag_byte, spec_flags_of_byte, word_hi, word_lo, word_of,
};
use vstd::prelude::*;

verus! {

/// 16-bit addition wrapping modulo 0x10000.
pub open spec fn wrap_add16(x: u16, d: u16) -> u16 {
    if x + d > 0xFFFF {
        (x + d - 0x10000) as u16
    } else {
        (x + d) as u16
    }
}

/// 16-bit subtraction wrapping modulo 0x10000.
pub open spec fn wrap_sub16(x: u16, d: u16) -> u16 {
    if x - d < 0 {
        (x - d + 0x10000) as u16
    } else {
        (x - d) as u16
    }
}

/// The abstract CPU state a step acts on: the register file, the program
/// counter, the stack pointer, and the bus contents as a sequence of bytes.
pub struct CpuState {
    pub regs: Registers,
    pub pc: u16,
    pub sp: u16,
    pub mem: Seq<u8>,
}

/// The one failure a step can report: the fetched opcode byte, in its
/// prefixed or unprefixed mode, has no entry in the decode tables. The host
/// decides what to do about it; the core never aborts.
#[derive(Clone, Copy, PartialEq, Eq, Structural, Debug)]
pub struct UnknownOpcode {
    pub byte: u8,
    pub prefixed: bool,
}

/// Byte value of the prefix opcode that switches decoding to the second
/// opcode space.
pub const CB_PREFIX: u8 = 0xCB;

/// Whether the fetch at PC sees the CB prefix byte.
pub open spec fn spec_fetch_prefixed(s: CpuState) -> bool {
    s.mem[s.pc as int] == CB_PREFIX
}

/// The opcode byte a fetch decodes: the byte at PC, or the byte after the
/// CB prefix when one is present.
pub open spec fn spec_fetch_opcode(s: CpuState) -> u8 {
    if spec_fetch_prefixed(s) {
        s.mem[wrap_add16(s.pc, 1) as int]
    } else {
        s.mem[s.pc as int]
    }
}

/// The CPU proper.
pub struct CPU {
    pub registers: Registers,
    pub pc: u16,
    pub sp: u16,
    pub bus: MemoryBus,
}

impl View for CPU {
    type V = CpuState;

    open spec fn view(&self) -> CpuState {
        CpuState { regs: self.registers, pc: self.pc, sp: self.sp, mem: self.bus@ }
    }
}

/// The value an 8-bit operand selector reads: a register, or the packed
/// flag byte for F.
pub open spec fn spec_reg8(r: Registers, t: ArithmaticTarget) -> u8 {
    match t {
        ArithmaticTarget::A => r.a,
        ArithmaticTarget::B => r.b,
        ArithmaticTarget::C => r.c,
        ArithmaticTarget::D => r.d,
        ArithmaticTarget::E => r.e,
        ArithmaticTarget::F => spec_flag_byte(r.f),
        ArithmaticTarget::H => r.h,
        ArithmaticTarget::L => r.l,
    }
}

/// The register file after an 8-bit operand selector is written: writing F
/// re-derives the four flags from the byte, discarding its low nibble.
pub open spec fn spec_with_reg8(r: Registers, t: ArithmaticTarget, v: u8) -> Registers {
    match t {
        ArithmaticTarget::A => Registers { a: v, ..r },
        ArithmaticTarget::B => Registers { b: v, ..r },
        ArithmaticTarget::C => Registers { c: v, ..r },
        ArithmaticTarget::D => Registers { d: v, ..r },
        ArithmaticTarget::E => Registers { e: v, ..r },
        ArithmaticTarget::F => Registers { f: spec_flags_of_byte(v), ..r },
        ArithmaticTarget::H => Registers { h: v, ..r },
        ArithmaticTarget::L => Registers { l: v, ..r },
    }
}

/// ADD result: A plus the operand, wrapping at 8 bits.
pub open spec fn spec_add_result(a: u8, v: u8) -> u8 {
    ((a + v) % 0x100) as u8
}

/// ADD flags: zero iff the wrapped sum is zero, subtract false, carry iff
/// the sum exceeds 0xFF, half-carry iff the low nibbles alone overflow.
pub open spec fn spec_add_flags(a: u8, v: u8) -> FlagRegister {
    FlagRegister {
        zero: (a + v) % 0x100 == 0,
        subtract: false,
        half_carry: a % 0x10 + v % 0x10 > 0xF,
        carry: a + v > 0xFF,
    }
}

/// SUB result: A minus the operand, wrapping at 8 bits.
pub open spec fn spec_sub_result(a: u8, v: u8) -> u8 {
    if a >= v {
        (a - v) as u8
    } else {
        (a - v + 0x100) as u8
    }
}

/// SUB flags: zero iff the operands are equal, subtract true, carry iff the
/// subtraction borrows, half-carry iff the low nibbles alone borrow.
pub open spec fn spec_sub_flags(a: u8, v: u8) -> FlagRegister {
    FlagRegister { zero: a == v, subtract: true, half_carry: a % 0x10 < v % 0x10, carry: a < v }
}

/// RLC result: the byte rotated left by one, bit 7 moving to bit 0.
pub open spec fn spec_rlc_result(v: u8) -> u8 {
    (v % 0x80 * 2 + v / 0x80) as u8
}

/// RLC flags: the evicted bit 7 moves into carry; zero iff the rotated byte
/// is zero; subtract and half-carry are cleared.
pub open spec fn spec_rlc_flags(v: u8) -> FlagRegister {
    FlagRegister {
        zero: spec_rlc_result(v) == 0,
        subtract: false,
        half_carry: false,
        carry: v >= 0x80,
    }
}

/// Whether a branch condition holds of the current flags.
pub open spec fn spec_condition(f: FlagRegister, j: Jump) -> bool {
    match j {
        Jump::NotZero => !f.zero,
        Jump::Zero => f.zero,
        Jump::NotCarry => !f.carry,
        Jump::Carry => f.carry,
        Jump::Always => true,
    }
}

/// The little-endian 16-bit word following the opcode at `pc`: low byte at
/// pc + 1, high byte at pc + 2, both addresses wrapping.
pub open spec fn spec_next_word(mem: Seq<u8>, pc: u16) -> u16 {
    word_of(mem[wrap_add16(pc, 2) as int], mem[wrap_add16(pc, 1) as int])
}

/// Memory after a 16-bit push at `sp`: the high byte at sp - 1, the low
/// byte at sp - 2, both addresses wrapping.
pub open spec fn spec_push_mem(mem: Seq<u8>, sp: u16, value: u16) -> Seq<u8> {
    mem.update(wrap_sub16(sp, 1) as int, word_hi(value)).update(
        wrap_sub16(sp, 2) as int,
        word_lo(value),
    )
}

/// The stack pointer after a push: decremented by 2, wrapping.
pub open spec fn spec_push_sp(sp: u16) -> u16 {
    wrap_sub16(sp, 2)
}

/// The word a pop reads at `sp`: low byte at sp, high byte at sp + 1,
/// wrapping.
pub open spec fn spec_pop_value(mem: Seq<u8>, sp: u16) -> u16 {
    word_of(mem[wrap_add16(sp, 1) as int], mem[sp as int])
}

/// The stack pointer after a pop: incremented by 2, wrapping.
pub open spec fn spec_pop_sp(sp: u16) -> u16 {
    wrap_add16(sp, 2)
}

/// The instruction families this execution unit covers. The decoder only
/// produces instructions in this set; the remaining families of the
/// instruction type are declared for the decode tables to grow into.
pub open spec fn implemented(instruction: Instruction) -> bool {
    match instruction {
        Instruction::ADD(_) => true,
        Instruction::SUB(_) => true,
        Instruction::RLC(_) => true,
        Instruction::JP(_) => true,
        Instruction::LD(_) => true,
        Instruction::CALL(_) => true,
        Instruction::RET(_) => true,
        Instruction::NOP() => true,
        _ => false,
    }
}

/// The value an 8-bit load source yields in a given state.
pub open spec fn spec_ld_source(s: CpuState, source: LoadByteSource) -> u8 {
    match source {
        LoadByteSource::A => s.regs.a,
        LoadByteSource::B => s.regs.b,
        LoadByteSource::C => s.regs.c,
        LoadByteSource::D => s.regs.d,
        LoadByteSource::E => s.regs.e,
        LoadByteSource::H => s.regs.h,
        LoadByteSource::L => s.regs.l,
        LoadByteSource::D8 => s.mem[wrap_add16(s.pc, 1) as int],
        LoadByteSource::HLI => s.mem[word_of(s.regs.h, s.regs.l) as int],
    }
}

/// The state after an 8-bit load target is written.
pub open spec fn spec_ld_target(s: CpuState, target: LoadByteTarget, v: u8) -> CpuState {
    match target {
        LoadByteTarget::A => CpuState { regs: Registers { a: v, ..s.regs }, ..s },
        LoadByteTarget::B => CpuState { regs: Registers { b: v, ..s.regs }, ..s },
        LoadByteTarget::C => CpuState { regs: Registers { c: v, ..s.regs }, ..s },
        LoadByteTarget::D => CpuState { regs: Registers { d: v, ..s.regs }, ..s },
        LoadByteTarget::E => CpuState { regs: Registers { e: v, ..s.regs }, ..s },
        LoadByteTarget::H => CpuState { regs: Registers { h: v, ..s.regs }, ..s },
        LoadByteTarget::L => CpuState { regs: Registers { l: v, ..s.regs }, ..s },
        LoadByteTarget::HLI => CpuState {
            mem: s.mem.update(word_of(s.regs.h, s.regs.l) as int, v),
            ..s
        },
    }
}

/// The effect of one implemented instruction on the CPU state: the state
/// after execution (PC not yet committed) paired with the next PC value the
/// dispatcher returns. Instruction length and branch targets are both
/// expressed through the returned PC. Unimplemented families leave the
/// state and PC unchanged; `execute` never accepts them.
pub open spec fn spec_execute(s: CpuState, instruction: Instruction) -> (CpuState, u16) {
    match instruction {
        Instruction::ADD(target) => {
            let v = spec_reg8(s.regs, target);
            let regs = Registers {
                a: spec_add_result(s.regs.a, v),
                f: spec_add_flags(s.regs.a, v),
                ..s.regs
            };
            (CpuState { regs, ..s }, wrap_add16(s.pc, 1))
        },
        Instruction::SUB(target) => {
            let v = spec_reg8(s.regs, target);
            let regs = Registers {
                a: spec_sub_result(s.regs.a, v),
                f: spec_sub_flags(s.regs.a, v),
                ..s.regs
            };
            (CpuState { regs, ..s }, wrap_add16(s.pc, 1))
        },
        Instruction::RLC(target) => {
            let v = spec_reg8(s.regs, target);
            let flagged = Registers { f: spec_rlc_flags(v), ..s.regs };
            let regs = spec_with_reg8(flagged, target, spec_rlc_result(v));
            (CpuState { regs, ..s }, wrap_add16(s.pc, 2))
        },
        Instruction::JP(test) => {
            let npc = if spec_condition(s.regs.f, test) {
                spec_next_word(s.mem, s.pc)
            } else {
                wrap_add16(s.pc, 3)
            };
            (s, npc)
        },
        Instruction::LD(LoadType::Byte(target, source)) => {
            let v = spec_ld_source(s, source);
            let len: u16 = if source is D8 {
                2
            } else {
                1
            };
            (spec_ld_target(s, target, v), wrap_add16(s.pc, len))
        },
        Instruction::CALL(test) => {
            if spec_condition(s.regs.f, test) {
                let mem = spec_push_mem(s.mem, s.sp, wrap_add16(s.pc, 3));
                (
                    CpuState { sp: spec_push_sp(s.sp), mem, ..s },
                    spec_next_word(mem, s.pc),
                )
            } else {
                (s, wrap_add16(s.pc, 3))
            }
        },
        Instruction::RET(test) => {
            if spec_condition(s.regs.f, test) {
                (CpuState { sp: spec_pop_sp(s.sp), ..s }, spec_pop_value(s.mem, s.sp))
            } else {
                (s, wrap_add16(s.pc, 1))
            }
        },
        Instruction::NOP() => (s, wrap_add16(s.pc, 1)),
        _ => (s, s.pc),
    }
}

impl CPU {
    /// Well-formed: the bus spans the whole address space.
    pub open spec fn wf(self) -> bool {
        self.bus.wf()
    }

    /// Read the byte immediately following the opcode.
    pub fn read_next_byte(&self) -> (r: u8)
        requires
            self.wf(),
        ensures
            r == self@.mem[wrap_add16(self.pc, 1) as int],
    {
        self.bus.read_byte(self.pc.wrapping_add(1))
    }

    /// Read the little-endian 16-bit word following the opcode.
    pub fn read_next_word(&self) -> (r: u16)
        requires
            self.wf(),
        ensures
            r == spec_next_word(self@.mem, self.pc),
    {
        let lsb: u16 = self.bus.read_byte(self.pc.wrapping_add(1)) as u16;
        let msb: u16 = self.bus.read_byte(self.pc.wrapping_add(2)) as u16;
        msb * 0x100 + lsb
    }

    /// ADD's arithmetic: set the four flags from A and the operand, and
    /// return the wrapped sum; A itself is written by the dispatcher.
    pub fn add(&mut self, value: u8) -> (r: u8)
        ensures
            r == spec_add_result(old(self).registers.a, value),
            final(self).registers == (Registers {
                f: spec_add_flags(old(self).registers.a, value),
                ..old(self).registers
            }),
            final(self).pc == old(self).pc,
            final(self).sp == old(self).sp,
            final(self).bus == old(self).bus,
    {
        let a: u8 = self.registers.a;
        let sum: u16 = a as u16 + value as u16;
        let new_value: u8 = (sum % 0x100) as u8;
        self.registers.f = FlagRegister {
            zero: new_value == 0,
            subtract: false,
            half_carry: a % 0x10 + value % 0x10 > 0xF,
            carry: sum > 0xFF,
        };
        new_value
    }

    /// SUB's arithmetic: set the four flags from A and the operand, and
    /// return the wrapped difference; A itself is written by the dispatcher.
    pub fn sub(&mut self, value: u8) -> (r: u8)
        ensures
            r == spec_sub_result(old(self).registers.a, value),
            final(self).registers == (Registers {
                f: spec_sub_flags(old(self).registers.a, value),
                ..old(self).registers
            }),
            final(self).pc == old(self).pc,
            final(self).sp == old(self).sp,
            final(self).bus == old(self).bus,
    {
        let a: u8 = self.registers.a;
        let new_value: u8 = if a >= value {
            a - value
        } else {
            (a as u16 + 0x100 - value as u16) as u8
        };
        self.registers.f = FlagRegister {
            zero: new_value == 0,
            subtract: true,
            half_carry: a % 0x10 < value % 0x10,
            carry: a < value,
        };
        new_value
    }

    /// Branch resolution for JP: taken, PC comes from the word following the
    /// opcode; not taken, PC advances past the 3-byte instruction.
    pub fn jump(&self, should_jump: bool) -> (r: u16)
        requires
            self.wf(),
        ensures
            r == if should_jump {
                spec_next_word(self@.mem, self.pc)
            } else {
                wrap_add16(self.pc, 3)
            },
    {
        if should_jump {
            self.read_next_word()
        } else {
            self.pc.wrapping_add(3)
        }
    }

    /// Push a 16-bit value: decrement SP and write the high byte, decrement
    /// SP again and write the low byte.
    pub fn push(&mut self, value: u16)
        requires
            old(self).wf(),
        ensures
            final(self).wf(),
            final(self)@.mem == spec_push_mem(old(self)@.mem, old(self).sp, value),
            final(self).sp == spec_push_sp(old(self).sp),
            final(self).registers == old(self).registers,
            final(self).pc == old(self).pc,
    {
        self.sp = self.sp.wrapping_sub(1);
        self.bus.write_byte(self.sp, (value / 0x100) as u8);

        self.sp = self.sp.wrapping_sub(1);
        self.bus.write_byte(self.sp, (value % 0x100) as u8);
    }

    /// Pop a 16-bit value: read the low byte at SP and the high byte just
    /// above it, incrementing SP past both.
    pub fn pop(&mut self) -> (r: u16)
        requires
            old(self).wf(),
        ensures
            final(self).wf(),
            r == spec_pop_value(old(self)@.mem, old(self).sp),
            final(self).sp == spec_pop_sp(old(self).sp),
            final(self)@.mem == old(self)@.mem,
            final(self).registers == old(self).registers,
            final(self).pc == old(self).pc,
    {
        let lsb: u16 = self.bus.read_byte(self.sp) as u16;
        self.sp = self.sp.wrapping_add(1);

        let msb: u16 = self.bus.read_byte(self.sp) as u16;
        self.sp = self.sp.wrapping_add(1);

        msb * 0x100 + lsb
    }

    /// Branch resolution for CALL: taken, push the address of the following
    /// instruction and jump to the word after the opcode; not taken, advance
    /// past the 3-byte instruction.
    pub fn call(&mut self, should_jump: bool) -> (r: u16)
        requires
            old(self).wf(),
        ensures
            final(self).wf(),
            should_jump ==> final(self)@.mem == spec_push_mem(
                old(self)@.mem,
                old(self).sp,
                wrap_add16(old(self).pc, 3),
            ),
            should_jump ==> final(self).sp == spec_push_sp(old(self).sp),
            should_jump ==> r == spec_next_word(final(self)@.mem, old(self).pc),
            !should_jump ==> final(self)@.mem == old(self)@.mem,
            !should_jump ==> final(self).sp == old(self).sp,
            !should_jump ==> r == wrap_add16(old(self).pc, 3),
            final(self).registers == old(self).registers,
            final(self).pc == old(self).pc,
    {
        let next_pc: u16 = self.pc.wrapping_add(3);
        if should_jump {
            self.push(next_pc);
            self.read_next_word()
        } else {
            next_pc
        }
    }

    /// Read the register an 8-bit operand selector names; F reads the
    /// packed flag byte.
    fn reg8(&self, target: ArithmaticTarget) -> (r: u8)
        ensures
            r == spec_reg8(self.registers, target),
    {
        match target {
            ArithmaticTarget::A => self.registers.a,
            ArithmaticTarget::B => self.registers.b,
            ArithmaticTarget::C => self.registers.c,
            ArithmaticTarget::D => self.registers.d,
            ArithmaticTarget::E => self.registers.e,
            ArithmaticTarget::F => u8::from(self.registers.f),
            ArithmaticTarget::H => self.registers.h,
            ArithmaticTarget::L => self.registers.l,
        }
    }

    /// Write the register an 8-bit operand selector names; writing F
    /// re-derives the four flags from the byte.
    fn set_reg8(&mut self, target: ArithmaticTarget, v: u8)
        ensures
            final(self).registers == spec_with_reg8(old(self).registers, target, v),
            final(self).pc == old(self).pc,
            final(self).sp == old(self).sp,
            final(self).bus == old(self).bus,
    {
        match target {
            ArithmaticTarget::A => self.registers.a = v,
            ArithmaticTarget::B => self.registers.b = v,
            ArithmaticTarget::C => self.registers.c = v,
            ArithmaticTarget::D => self.registers.d = v,
            ArithmaticTarget::E => self.registers.e = v,
            ArithmaticTarget::F => self.registers.f = FlagRegister::from(v),
            ArithmaticTarget::H => self.registers.h = v,
            ArithmaticTarget::L => self.registers.l = v,
        }
    }

    /// Test a branch condition against the current flags.
    fn condition(&self, test: Jump) -> (r: bool)
        ensures
            r == spec_condition(self.registers.f, test),
    {
        match test {
            Jump::NotZero => !self.registers.f.zero,
            Jump::Zero => self.registers.f.zero,
            Jump::NotCarry => !self.registers.f.carry,
            Jump::Carry => self.registers.f.carry,
            Jump::Always => true,
        }
    }

    /// Branch resolution for RET: taken, pop the return address; not taken,
    /// advance past the 1-byte instruction.
    pub fn return_(&mut self, should_jump: bool) -> (r: u16)
        requires
            old(self).wf(),
        ensures
            final(self).wf(),
            should_jump ==> r == spec_pop_value(old(self)@.mem, old(self).sp),
            should_jump ==> final(self).sp == spec_pop_sp(old(self).sp),
            !should_jump ==> r == wrap_add16(old(self).pc, 1),
            !should_jump ==> final(self).sp == old(self).sp,
            final(self)@.mem == old(self)@.mem,
            final(self).registers == old(self).registers,
            final(self).pc == old(self).pc,
    {
        if should_jump {
            self.pop()
        } else {
            self.pc.wrapping_add(1)
        }
    }

    /// Dispatch one implemented instruction: perform its effect on the
    /// registers, stack pointer and bus, and return the next PC value; the
    /// caller commits PC.
    pub fn execute(&mut self, instruction: Instruction) -> (r: u16)
        requires
            old(self).wf(),
            implemented(instruction),
        ensures
            final(self).wf(),
            final(self)@ == spec_execute(old(self)@, instruction).0,
            r == spec_execute(old(self)@, instruction).1,
    {
        match instruction {
            Instruction::ADD(target) => {
                let value = self.reg8(target);
                let new_value = self.add(value);
                self.registers.a = new_value;
                self.pc.wrapping_add(1)
            },
            Instruction::SUB(target) => {
                let value = self.reg8(target);
                let new_value = self.sub(value);
                self.registers.a = new_value;
                self.pc.wrapping_add(1)
            },
            Instruction::RLC(target) => {
                let value = self.reg8(target);
                let rotated: u8 = value % 0x80 * 2 + value / 0x80;
                self.registers.f = FlagRegister {
                    zero: rotated == 0,
                    subtract: false,
                    half_carry: false,
                    carry: value >= 0x80,
                };
                self.set_reg8(target, rotated);
                self.pc.wrapping_add(2)
            },
            Instruction::JP(test) => {
                let jump_condition = self.condition(test);
                self.jump(jump_condition)
            },
            Instruction::LD(load_type) => {
                match load_type {
                    LoadType::Byte(target, source) => {
                        let source_value = match source {
                            LoadByteSource::A => self.registers.a,
                            LoadByteSource::B => self.registers.b,
                            LoadByteSource::C => self.registers.c,
                            LoadByteSource::D => self.registers.d,
                            LoadByteSource::E => self.registers.e,
                            LoadByteSource::H => self.registers.h,
                            LoadByteSource::L => self.registers.l,
                            LoadByteSource::D8 => self.read_next_byte(),
                            LoadByteSource::HLI => self.bus.read_byte(self.registers.get_hl()),
                        };
                        match target {
                            LoadByteTarget::A => self.registers.a = source_value,
                            LoadByteTarget::B => self.registers.b = source_value,
                            LoadByteTarget::C => self.registers.c = source_value,
                            LoadByteTarget::D => self.registers.d = source_value,
                            LoadByteTarget::E => self.registers.e = source_value,
                            LoadByteTarget::H => self.registers.h = source_value,
                            LoadByteTarget::L => self.registers.l = source_value,
                            LoadByteTarget::HLI => self.bus.write_byte(
                                self.registers.get_hl(),
                                source_value,
                            ),
                        }
                        match source {
                            LoadByteSource::D8 => self.pc.wrapping_add(2),
                            _ => self.pc.wrapping_add(1),
                        }
                    },
                }
            },
            Instruction::CALL(test) => {
                let jump_condition = self.condition(test);
                self.call(jump_condition)
            },
            Instruction::RET(test) => {
                let jump_condition = self.condition(test);
                self.return_(jump_condition)
            },
            Instruction::NOP() => self.pc.wrapping_add(1),
            _ => {
                proof {
                    assert(false);
                }
                0
            },
        }
    }

    /// One full fetch, decode, execute, commit cycle. On success the decoded
    /// instruction's effect is applied and its next PC committed; an opcode
    /// byte absent from the decode tables is reported and leaves the state
    /// untouched.
    pub fn step(&mut self) -> (r: Result<(), UnknownOpcode>)
        requires
            old(self).wf(),
        ensures
            final(self).wf(),
            ({
                let pre = old(self)@;
                let prefixed = spec_fetch_prefixed(pre);
                let opcode = spec_fetch_opcode(pre);
                match spec_from_byte(opcode, prefixed) {
                    Some(instruction) => r == Ok::<(), UnknownOpcode>(()) && final(self)@
                        == (CpuState {
                        pc: spec_execute(pre, instruction).1,
                        ..spec_execute(pre, instruction).0
                    }),
                    None => r == Err::<(), UnknownOpcode>(UnknownOpcode { byte: opcode, prefixed })
                        && final(self)@ == pre,
                }
            }),
    {
        let instruction_byte = self.bus.read_byte(self.pc);
        let prefixed = instruction_byte == CB_PREFIX;
        let opcode = if prefixed {
            self.bus.read_byte(self.pc.wrapping_add(1))
        } else {
            instruction_byte
        };

        match Instruction::from_byte(opcode, prefixed) {
            Some(instruction) => {
                let next_pc = self.execute(instruction);
                self.pc = next_pc;
                Ok(())
            },
            None => Err(UnknownOpcode { byte: opcode, prefixed }),
        }
    }
}

/// Stack round trip: popping right after a push returns the pushed word
/// unchanged and restores the stack pointer to its pre-push value, for every
/// memory image, stack pointer and word.
pub proof fn lemma_push_pop_round_trip(mem: Seq<u8>, sp: u16, value: u16)
    requires
        mem.len() == 0x10000,
    ensures
        spec_pop_value(spec_push_mem(mem, sp, value), spec_push_sp(sp)) == value,
        spec_pop_sp(spec_push_sp(sp)) == sp,
{
    assert(wrap_add16(spec_push_sp(sp), 1) == wrap_sub16(sp, 1));
    assert(wrap_sub16(sp, 1) != wrap_sub16(sp, 2));
    crate::registers::lemma_composite_round_trip(value);
}

} // verus!
