use mos6502::{Memory, CARRY, CPU, NEGATIVE, OVERFLOW, ZERO};

fn flag(cpu: &CPU, mask: u8) -> bool {
    cpu.status & mask != 0
}

#[test]
fn new_cpu_is_all_zero() {
    let cpu = CPU::new();
    assert_eq!(cpu.register_a, 0);
    assert_eq!(cpu.register_x, 0);
    assert_eq!(cpu.register_y, 0);
    assert_eq!(cpu.status, 0);
    assert_eq!(cpu.stack_pointer, 0);
    assert_eq!(cpu.program_counter, 0);
}

#[test]
fn loads_report_on_the_value_and_keep_carry_and_overflow() {
    for value in 0..=255u8 {
        for status in [0x00u8, CARRY, OVERFLOW, CARRY | OVERFLOW, 0xFF] {
            let mut a = CPU::new();
            a.status = status;
            a.lda(value);
            let mut x = CPU::new();
            x.status = status;
            x.ldx(value);
            let mut y = CPU::new();
            y.status = status;
            y.ldy(value);
            assert_eq!((a.register_a, x.register_x, y.register_y), (value, value, value));
            for cpu in [a, x, y] {
                assert_eq!(flag(&cpu, ZERO), value == 0);
                assert_eq!(flag(&cpu, NEGATIVE), value & 0x80 != 0);
                assert_eq!(cpu.status & CARRY, status & CARRY);
                assert_eq!(cpu.status & OVERFLOW, status & OVERFLOW);
            }
        }
    }
}

#[test]
fn increment_wraps_to_zero() {
    let mut cpu = CPU::new();
    cpu.register_x = 0xFF;
    cpu.inx();
    assert_eq!(cpu.register_x, 0x00);
    assert!(flag(&cpu, ZERO));
    assert!(!flag(&cpu, NEGATIVE));
    assert_eq!(cpu.inc(0xFF), 0x00);
    assert!(flag(&cpu, ZERO));
}

#[test]
fn decrement_wraps_to_ff() {
    let mut cpu = CPU::new();
    cpu.register_y = 0x00;
    cpu.dey();
    assert_eq!(cpu.register_y, 0xFF);
    assert!(flag(&cpu, NEGATIVE));
    assert!(!flag(&cpu, ZERO));
    assert_eq!(cpu.dec(0x00), 0xFF);
    assert!(flag(&cpu, NEGATIVE));
}

#[test]
fn adc_carry_chain() {
    let mut cpu = CPU::new();
    cpu.register_a = 0xFF;
    cpu.adc(0x01);
    assert_eq!(cpu.register_a, 0x00);
    assert!(flag(&cpu, CARRY));
    assert!(flag(&cpu, ZERO));
    assert!(!flag(&cpu, OVERFLOW));
}

#[test]
fn adc_signed_overflow() {
    let mut cpu = CPU::new();
    cpu.register_a = 0x7F;
    cpu.adc(0x01);
    assert_eq!(cpu.register_a, 0x80);
    assert!(flag(&cpu, OVERFLOW));
    assert!(flag(&cpu, NEGATIVE));
    assert!(!flag(&cpu, CARRY));
}

#[test]
fn adc_adds_the_incoming_carry() {
    let mut cpu = CPU::new();
    cpu.register_a = 0x10;
    cpu.sec();
    cpu.adc(0x22);
    assert_eq!(cpu.register_a, 0x33);
    assert_eq!(cpu.status, 0x00);
}

#[test]
fn adc_of_two_negatives_overflows() {
    let mut cpu = CPU::new();
    cpu.register_a = 0x80;
    cpu.adc(0xFF);
    assert_eq!(cpu.register_a, 0x7F);
    assert_eq!(cpu.status, CARRY | OVERFLOW);
}

#[test]
fn sbc_subtracts_with_carry_as_no_borrow() {
    let mut cpu = CPU::new();
    cpu.register_a = 0x50;
    cpu.sec();
    cpu.sbc(0x10);
    assert_eq!(cpu.register_a, 0x40);
    assert_eq!(cpu.status, CARRY);

    let mut cpu = CPU::new();
    cpu.register_a = 0x50;
    cpu.sbc(0x10);
    assert_eq!(cpu.register_a, 0x3F);
    assert_eq!(cpu.status, CARRY);

    let mut cpu = CPU::new();
    cpu.register_a = 0x00;
    cpu.sec();
    cpu.sbc(0x01);
    assert_eq!(cpu.register_a, 0xFF);
    assert_eq!(cpu.status, NEGATIVE);

    let mut cpu = CPU::new();
    cpu.register_a = 0x80;
    cpu.sec();
    cpu.sbc(0x01);
    assert_eq!(cpu.register_a, 0x7F);
    assert_eq!(cpu.status, CARRY | OVERFLOW);
}

#[test]
fn sbc_undoes_adc_with_the_complementary_carry() {
    for a in 0..=255u8 {
        for b in 0..=255u8 {
            for carry in [false, true] {
                let mut cpu = CPU::new();
                cpu.register_a = a;
                cpu.set_flag(CARRY, carry);
                cpu.adc(b);
                cpu.set_flag(CARRY, !carry);
                cpu.sbc(b);
                assert_eq!(cpu.register_a, a);
            }
        }
    }
}

#[test]
fn compare_sets_carry_iff_register_is_not_below() {
    for register in [0x00u8, 0x01, 0x7F, 0x80, 0xFF] {
        for value in [0x00u8, 0x01, 0x7F, 0x80, 0xFF] {
            let mut cpu = CPU::new();
            cpu.register_a = register;
            cpu.register_x = register;
            cpu.register_y = register;
            cpu.cmp(value);
            assert_eq!(flag(&cpu, CARRY), register >= value);
            assert_eq!(flag(&cpu, ZERO), register == value);
            assert_eq!(flag(&cpu, NEGATIVE), register.wrapping_sub(value) & 0x80 != 0);
            let after_cmp = cpu.status;
            cpu.status = 0;
            cpu.cpx(value);
            assert_eq!(cpu.status, after_cmp);
            cpu.status = 0;
            cpu.cpy(value);
            assert_eq!(cpu.status, after_cmp);
            assert_eq!((cpu.register_a, cpu.register_x, cpu.register_y), (register, register, register));
        }
    }
}

#[test]
fn logic_operations_work_on_the_accumulator() {
    let mut cpu = CPU::new();
    cpu.status = CARRY | OVERFLOW;
    cpu.register_a = 0b1100_1010;
    cpu.and(0b1010_0110);
    assert_eq!(cpu.register_a, 0b1000_0010);
    assert_eq!(cpu.status, CARRY | OVERFLOW | NEGATIVE);
    cpu.eor(0b1000_0010);
    assert_eq!(cpu.register_a, 0);
    assert_eq!(cpu.status, CARRY | OVERFLOW | ZERO);
    cpu.ora(0b0101_0000);
    assert_eq!(cpu.register_a, 0b0101_0000);
    assert_eq!(cpu.status, CARRY | OVERFLOW);
}

#[test]
fn bit_copies_bits_six_and_seven_of_the_operand() {
    let mut cpu = CPU::new();
    cpu.register_a = 0x0F;
    cpu.status = CARRY;
    cpu.bit(0xC0);
    assert_eq!(cpu.register_a, 0x0F);
    assert_eq!(cpu.status, CARRY | ZERO | OVERFLOW | NEGATIVE);
    cpu.bit(0x01);
    assert_eq!(cpu.status, CARRY);
    cpu.bit(0x41);
    assert_eq!(cpu.status, CARRY | OVERFLOW);
}

#[test]
fn shifts_move_the_lost_bit_into_carry() {
    let mut cpu = CPU::new();
    cpu.register_a = 0b1000_0001;
    cpu.asl_accumulator();
    assert_eq!(cpu.register_a, 0b0000_0010);
    assert_eq!(cpu.status, CARRY);

    let mut cpu = CPU::new();
    cpu.register_a = 0b1000_0001;
    cpu.lsr_accumulator();
    assert_eq!(cpu.register_a, 0b0100_0000);
    assert_eq!(cpu.status, CARRY);

    let mut cpu = CPU::new();
    cpu.register_a = 0x80;
    cpu.asl_accumulator();
    assert_eq!(cpu.register_a, 0);
    assert_eq!(cpu.status, CARRY | ZERO);

    let mut cpu = CPU::new();
    cpu.status = CARRY;
    cpu.register_a = 0x40;
    cpu.asl_accumulator();
    assert_eq!(cpu.register_a, 0x80);
    assert_eq!(cpu.status, NEGATIVE);
}

#[test]
fn rotates_move_carry_into_the_free_bit() {
    let mut cpu = CPU::new();
    cpu.status = CARRY;
    cpu.register_a = 0b0100_0000;
    cpu.rol_accumulator();
    assert_eq!(cpu.register_a, 0b1000_0001);
    assert_eq!(cpu.status, NEGATIVE);

    let mut cpu = CPU::new();
    cpu.status = CARRY;
    cpu.register_a = 0b0000_0010;
    cpu.ror_accumulator();
    assert_eq!(cpu.register_a, 0b1000_0001);
    assert_eq!(cpu.status, NEGATIVE);

    let mut cpu = CPU::new();
    cpu.register_a = 0b1000_0000;
    cpu.rol_accumulator();
    assert_eq!(cpu.register_a, 0);
    assert_eq!(cpu.status, CARRY | ZERO);

    let mut cpu = CPU::new();
    cpu.register_a = 0b0000_0001;
    cpu.ror_accumulator();
    assert_eq!(cpu.register_a, 0);
    assert_eq!(cpu.status, CARRY | ZERO);

    let mut cpu = CPU::new();
    assert_eq!(cpu.rol(0xFF), 0xFE);
    assert_eq!(cpu.status, CARRY | NEGATIVE);
    assert_eq!(cpu.ror(0x00), 0x80);
    assert_eq!(cpu.status, NEGATIVE);
}

#[test]
fn flag_instructions_touch_one_bit() {
    let mut cpu = CPU::new();
    cpu.sec();
    assert_eq!(cpu.status, 0x01);
    cpu.sei();
    assert_eq!(cpu.status, 0x05);
    cpu.sed();
    assert_eq!(cpu.status, 0x0D);
    cpu.status = 0xFF;
    cpu.clc();
    assert_eq!(cpu.status, 0xFE);
    cpu.cli();
    assert_eq!(cpu.status, 0xFA);
    cpu.cld();
    assert_eq!(cpu.status, 0xF2);
    cpu.clv();
    assert_eq!(cpu.status, 0xB2);
    assert!(cpu.flag(NEGATIVE));
    assert!(!cpu.flag(CARRY));
}

#[test]
fn stack_pointer_transfers_use_the_stack_pointer() {
    let mut cpu = CPU::new();
    cpu.status = CARRY;
    cpu.register_x = 0xFD;
    cpu.txs();
    assert_eq!(cpu.stack_pointer, 0xFD);
    assert_eq!(cpu.status, CARRY);
    cpu.register_x = 0;
    cpu.tsx();
    assert_eq!(cpu.register_x, 0xFD);
    assert_eq!(cpu.status, CARRY | NEGATIVE);
}

#[test]
fn push_then_pull_gives_the_value_back() {
    let mut memory = Memory::from_image(vec![0; 0x200]);
    for pointer in [0xFFu8, 0x80, 0x01, 0x00] {
        let mut cpu = CPU::new();
        cpu.stack_pointer = pointer;
        assert!(cpu.push(&mut memory, 0xAB));
        assert_eq!(cpu.stack_pointer, pointer.wrapping_sub(1));
        assert_eq!(memory.read_byte(0x0100 + pointer as u16), Some(0xAB));
        assert_eq!(cpu.pull(&memory), Some(0xAB));
        assert_eq!(cpu.stack_pointer, pointer);
    }
}

#[test]
fn stack_instructions_follow_the_conventions() {
    let mut memory = Memory::from_image(vec![0; 0x200]);
    let mut cpu = CPU::new();
    cpu.stack_pointer = 0xFF;
    cpu.register_a = 0x80;
    cpu.status = CARRY;
    assert!(cpu.pha(&mut memory));
    assert!(cpu.php(&mut memory));
    assert_eq!(memory.read_byte(0x01FF), Some(0x80));
    assert_eq!(memory.read_byte(0x01FE), Some(0x31));
    assert_eq!(cpu.stack_pointer, 0xFD);
    assert_eq!(cpu.status, CARRY);
    cpu.register_a = 0;
    assert!(cpu.pla(&memory));
    assert_eq!(cpu.register_a, 0x31);
    assert_eq!(cpu.status, CARRY);
    assert!(cpu.plp(&memory));
    assert_eq!(cpu.status, 0x80);
    assert_eq!(cpu.stack_pointer, 0xFF);
}

#[test]
fn stack_outside_the_memory_is_refused() {
    let mut memory = Memory::from_image(vec![0; 0x180]);
    let mut cpu = CPU::new();
    cpu.stack_pointer = 0x80;
    let before = cpu;
    assert!(!cpu.push(&mut memory, 1));
    assert_eq!(cpu, before);
    cpu.stack_pointer = 0x7F;
    let before = cpu;
    assert_eq!(cpu.pull(&memory), None);
    assert!(!cpu.pla(&memory));
    assert!(!cpu.plp(&memory));
    assert_eq!(cpu, before);
    assert!(cpu.push(&mut memory, 7));
    assert_eq!(memory.read_byte(0x017F), Some(7));
}
