use lr35902_core::cpu::{CPU, UnknownOpcode};
use lr35902_core::instructions::{
    ArithmaticTarget, Instruction, Jump, LoadByteSource, LoadByteTarget, LoadType,
};
use lr35902_core::membus::MemoryBus;
use lr35902_core::registers::{FlagRegister, Registers};

fn zero_flags() -> FlagRegister {
    FlagRegister { zero: false, subtract: false, half_carry: false, carry: false }
}

fn fresh_cpu() -> CPU {
    CPU {
        registers: Registers { a: 0, b: 0, c: 0, d: 0, e: 0, f: zero_flags(), h: 0, l: 0 },
        pc: 0,
        sp: 0,
        bus: MemoryBus::new(),
    }
}

#[test]
fn bus_is_total_over_the_address_range() {
    let mut cpu = fresh_cpu();
    assert_eq!(cpu.bus.read_byte(0x0000), 0);
    assert_eq!(cpu.bus.read_byte(0xFFFF), 0);
    cpu.bus.write_byte(0x0000, 0x11);
    cpu.bus.write_byte(0xFFFF, 0x99);
    assert_eq!(cpu.bus.read_byte(0x0000), 0x11);
    assert_eq!(cpu.bus.read_byte(0xFFFF), 0x99);
}

#[test]
fn nop_wraps_pc_at_the_16_bit_boundary() {
    let mut cpu = fresh_cpu();
    cpu.pc = 0xFFFF;
    let next_pc = cpu.execute(Instruction::NOP());
    assert_eq!(next_pc, 0x0000);
}

#[test]
fn add_scenario() {
    let mut cpu = fresh_cpu();
    cpu.registers.a = 0x3A;
    cpu.registers.b = 0x05;
    cpu.pc = 0x0100;
    let next_pc = cpu.execute(Instruction::ADD(ArithmaticTarget::B));
    assert_eq!(cpu.registers.a, 0x3F);
    assert_eq!(cpu.registers.f, zero_flags());
    assert_eq!(next_pc, 0x0101);
}

#[test]
fn sub_scenario() {
    let mut cpu = fresh_cpu();
    cpu.registers.a = 0x00;
    cpu.registers.b = 0x01;
    let next_pc = cpu.execute(Instruction::SUB(ArithmaticTarget::B));
    assert_eq!(cpu.registers.a, 0xFF);
    assert_eq!(
        cpu.registers.f,
        FlagRegister { zero: false, subtract: true, half_carry: true, carry: true }
    );
    assert_eq!(next_pc, 0x0001);
}

#[test]
fn add_flag_formula_all_operands() {
    for a in 0..=255u8 {
        for v in 0..=255u8 {
            let mut cpu = fresh_cpu();
            cpu.registers.a = a;
            cpu.registers.b = v;
            cpu.execute(Instruction::ADD(ArithmaticTarget::B));
            let sum: u16 = a as u16 + v as u16;
            assert_eq!(cpu.registers.a, (sum % 0x100) as u8);
            assert_eq!(cpu.registers.f.zero, sum % 0x100 == 0);
            assert_eq!(cpu.registers.f.subtract, false);
            assert_eq!(cpu.registers.f.half_carry, (a & 0xF) + (v & 0xF) > 0xF);
            assert_eq!(cpu.registers.f.carry, sum > 0xFF);
        }
    }
}

#[test]
fn sub_flag_formula_all_operands() {
    for a in 0..=255u8 {
        for v in 0..=255u8 {
            let mut cpu = fresh_cpu();
            cpu.registers.a = a;
            cpu.registers.b = v;
            cpu.execute(Instruction::SUB(ArithmaticTarget::B));
            assert_eq!(cpu.registers.a, a.wrapping_sub(v));
            assert_eq!(cpu.registers.f.zero, a == v);
            assert_eq!(cpu.registers.f.subtract, true);
            assert_eq!(cpu.registers.f.half_carry, (a & 0xF) < (v & 0xF));
            assert_eq!(cpu.registers.f.carry, a < v);
        }
    }
}

#[test]
fn add_sources_h_not_e() {
    let mut cpu = fresh_cpu();
    cpu.registers.h = 0x20;
    cpu.registers.e = 0x05;
    cpu.execute(Instruction::ADD(ArithmaticTarget::H));
    assert_eq!(cpu.registers.a, 0x20);
}

#[test]
fn add_reads_the_packed_flag_byte_for_f() {
    let mut cpu = fresh_cpu();
    cpu.registers.a = 0x01;
    cpu.registers.f = FlagRegister { carry: true, ..zero_flags() };
    cpu.execute(Instruction::ADD(ArithmaticTarget::F));
    assert_eq!(cpu.registers.a, 0x11);
}

#[test]
fn jp_scenario() {
    let mut cpu = fresh_cpu();
    cpu.pc = 0x0100;
    cpu.bus.write_byte(0x0101, 0x50);
    cpu.bus.write_byte(0x0102, 0x01);
    let taken = cpu.execute(Instruction::JP(Jump::Always));
    assert_eq!(taken, 0x0150);

    cpu.registers.f.zero = true;
    let not_taken = cpu.execute(Instruction::JP(Jump::NotZero));
    assert_eq!(not_taken, 0x0103);

    let taken_on_zero = cpu.execute(Instruction::JP(Jump::Zero));
    assert_eq!(taken_on_zero, 0x0150);
}

#[test]
fn jp_reads_its_word_across_the_address_wrap() {
    let mut cpu = fresh_cpu();
    cpu.pc = 0xFFFE;
    cpu.bus.write_byte(0xFFFF, 0x34);
    cpu.bus.write_byte(0x0000, 0x12);
    let next_pc = cpu.execute(Instruction::JP(Jump::Always));
    assert_eq!(next_pc, 0x1234);
}

#[test]
fn call_and_ret_scenario() {
    let mut cpu = fresh_cpu();
    cpu.pc = 0x0200;
    cpu.sp = 0xFFFE;
    cpu.bus.write_byte(0x0201, 0x00);
    cpu.bus.write_byte(0x0202, 0x03);
    let next_pc = cpu.execute(Instruction::CALL(Jump::Always));
    assert_eq!(next_pc, 0x0300);
    assert_eq!(cpu.sp, 0xFFFC);
    assert_eq!(cpu.bus.read_byte(0xFFFC), 0x03);
    assert_eq!(cpu.bus.read_byte(0xFFFD), 0x02);

    cpu.pc = next_pc;
    let return_pc = cpu.execute(Instruction::RET(Jump::Always));
    assert_eq!(return_pc, 0x0203);
    assert_eq!(cpu.sp, 0xFFFE);
}

#[test]
fn call_not_taken_advances_three_bytes() {
    let mut cpu = fresh_cpu();
    cpu.pc = 0x0200;
    cpu.sp = 0xFFFE;
    let next_pc = cpu.execute(Instruction::CALL(Jump::Carry));
    assert_eq!(next_pc, 0x0203);
    assert_eq!(cpu.sp, 0xFFFE);
}

#[test]
fn ret_not_taken_advances_one_byte() {
    let mut cpu = fresh_cpu();
    cpu.pc = 0x0300;
    cpu.registers.f.zero = true;
    let next_pc = cpu.execute(Instruction::RET(Jump::NotZero));
    assert_eq!(next_pc, 0x0301);
}

#[test]
fn push_pop_round_trip() {
    let mut cpu = fresh_cpu();
    cpu.sp = 0xFFFE;
    for x in [0u16, 1, 0x00FF, 0x0150, 0xABCD, 0xFFFF] {
        cpu.push(x);
        assert_eq!(cpu.sp, 0xFFFC);
        let popped = cpu.pop();
        assert_eq!(popped, x);
        assert_eq!(cpu.sp, 0xFFFE);
    }
}

#[test]
fn push_pop_round_trip_across_the_address_wrap() {
    let mut cpu = fresh_cpu();
    cpu.sp = 0x0001;
    cpu.push(0xBEEF);
    assert_eq!(cpu.sp, 0xFFFF);
    assert_eq!(cpu.bus.read_byte(0x0000), 0xBE);
    assert_eq!(cpu.bus.read_byte(0xFFFF), 0xEF);
    assert_eq!(cpu.pop(), 0xBEEF);
    assert_eq!(cpu.sp, 0x0001);
}

#[test]
fn push_writes_high_byte_first() {
    let mut cpu = fresh_cpu();
    cpu.sp = 0x8000;
    cpu.push(0x0203);
    assert_eq!(cpu.bus.read_byte(0x7FFF), 0x02);
    assert_eq!(cpu.bus.read_byte(0x7FFE), 0x03);
    assert_eq!(cpu.sp, 0x7FFE);
}

#[test]
fn ld_register_to_register() {
    let mut cpu = fresh_cpu();
    cpu.registers.a = 0x42;
    let next_pc = cpu.execute(Instruction::LD(
        LoadType::Byte(LoadByteTarget::B, LoadByteSource::A),
    ));
    assert_eq!(cpu.registers.b, 0x42);
    assert_eq!(next_pc, 0x0001);
}

#[test]
fn ld_immediate_is_two_bytes_long() {
    let mut cpu = fresh_cpu();
    cpu.pc = 0x0100;
    cpu.bus.write_byte(0x0101, 0x7E);
    let next_pc = cpu.execute(Instruction::LD(
        LoadType::Byte(LoadByteTarget::C, LoadByteSource::D8),
    ));
    assert_eq!(cpu.registers.c, 0x7E);
    assert_eq!(next_pc, 0x0102);
}

#[test]
fn ld_through_hl() {
    let mut cpu = fresh_cpu();
    cpu.registers.set_hl(0x9000);
    cpu.registers.a = 0x5A;
    cpu.execute(Instruction::LD(LoadType::Byte(LoadByteTarget::HLI, LoadByteSource::A)));
    assert_eq!(cpu.bus.read_byte(0x9000), 0x5A);

    cpu.bus.write_byte(0x9000, 0xC3);
    cpu.execute(Instruction::LD(LoadType::Byte(LoadByteTarget::D, LoadByteSource::HLI)));
    assert_eq!(cpu.registers.d, 0xC3);
}

#[test]
fn rlc_rotates_and_sets_carry() {
    let mut cpu = fresh_cpu();
    cpu.registers.b = 0x85;
    let next_pc = cpu.execute(Instruction::RLC(ArithmaticTarget::B));
    assert_eq!(cpu.registers.b, 0x0B);
    assert_eq!(
        cpu.registers.f,
        FlagRegister { zero: false, subtract: false, half_carry: false, carry: true }
    );
    assert_eq!(next_pc, 0x0002);
}

#[test]
fn rlc_zero_flag() {
    let mut cpu = fresh_cpu();
    cpu.registers.b = 0x00;
    cpu.registers.f.carry = true;
    cpu.execute(Instruction::RLC(ArithmaticTarget::B));
    assert_eq!(cpu.registers.b, 0x00);
    assert_eq!(
        cpu.registers.f,
        FlagRegister { zero: true, subtract: false, half_carry: false, carry: false }
    );
}

#[test]
fn rlc_on_f_rederives_the_flags_from_the_rotated_byte() {
    let mut cpu = fresh_cpu();
    cpu.registers.f = FlagRegister { carry: true, ..zero_flags() };
    cpu.execute(Instruction::RLC(ArithmaticTarget::F));
    assert_eq!(
        cpu.registers.f,
        FlagRegister { zero: false, subtract: false, half_carry: true, carry: false }
    );
}

#[test]
fn decode_tables() {
    assert_eq!(
        Instruction::from_byte(0x02, false),
        Some(Instruction::ADD(ArithmaticTarget::A))
    );
    assert_eq!(
        Instruction::from_byte(0x00, true),
        Some(Instruction::RLC(ArithmaticTarget::B))
    );
    assert_eq!(Instruction::from_byte(0x00, false), None);
    assert_eq!(Instruction::from_byte(0x02, true), None);
    assert_eq!(
        Instruction::from_byte_not_prefixed(0x02),
        Some(Instruction::ADD(ArithmaticTarget::A))
    );
    assert_eq!(
        Instruction::from_byte_prefixed(0x00),
        Some(Instruction::RLC(ArithmaticTarget::B))
    );
    assert_eq!(Instruction::from_byte_not_prefixed(0xFF), None);
    assert_eq!(Instruction::from_byte_prefixed(0xFF), None);
}

#[test]
fn step_executes_a_decoded_opcode() {
    let mut cpu = fresh_cpu();
    cpu.registers.a = 0x21;
    cpu.bus.write_byte(0x0000, 0x02);
    let r = cpu.step();
    assert_eq!(r, Ok(()));
    assert_eq!(cpu.registers.a, 0x42);
    assert_eq!(cpu.pc, 0x0001);
}

#[test]
fn step_executes_a_prefixed_opcode() {
    let mut cpu = fresh_cpu();
    cpu.registers.b = 0x85;
    cpu.bus.write_byte(0x0000, 0xCB);
    cpu.bus.write_byte(0x0001, 0x00);
    let r = cpu.step();
    assert_eq!(r, Ok(()));
    assert_eq!(cpu.registers.b, 0x0B);
    assert!(cpu.registers.f.carry);
    assert_eq!(cpu.pc, 0x0002);
}

#[test]
fn step_reports_an_unknown_opcode_and_leaves_the_state() {
    let mut cpu = fresh_cpu();
    cpu.registers.a = 0x21;
    cpu.pc = 0x0100;
    cpu.bus.write_byte(0x0100, 0xFF);
    let r = cpu.step();
    assert_eq!(r, Err(UnknownOpcode { byte: 0xFF, prefixed: false }));
    assert_eq!(cpu.pc, 0x0100);
    assert_eq!(cpu.registers.a, 0x21);
}

#[test]
fn step_reports_an_unknown_prefixed_opcode() {
    let mut cpu = fresh_cpu();
    cpu.bus.write_byte(0x0000, 0xCB);
    cpu.bus.write_byte(0x0001, 0x01);
    let r = cpu.step();
    assert_eq!(r, Err(UnknownOpcode { byte: 0x01, prefixed: true }));
    assert_eq!(cpu.pc, 0x0000);
}

#[test]
fn read_next_byte_and_word() {
    let mut cpu = fresh_cpu();
    cpu.pc = 0x0100;
    cpu.bus.write_byte(0x0101, 0x50);
    cpu.bus.write_byte(0x0102, 0x01);
    assert_eq!(cpu.read_next_byte(), 0x50);
    assert_eq!(cpu.read_next_word(), 0x0150);
}
