use mos6502::CPU;

#[test]
fn test_0xa9_lda_immediate_load_data() {
    let mut cpu = CPU::new();
    cpu.interpret(vec![0xa9, 0x05, 0x00]).unwrap();
    assert_eq!(cpu.register_a, 5);
    assert!(cpu.status & 0b0000_0010 == 0);
    assert!(cpu.status & 0b1000_0000 == 0);
}

#[test]
fn test_0xa9_lda_zero_flag() {
    let mut cpu = CPU::new();
    cpu.interpret(vec![0xa9, 0x00, 0x00]).unwrap();
    assert!(cpu.status & 0b0000_0010 == 0b10);
}

#[test]
fn test_0xa9_lda_negative_flag() {
    let mut cpu = CPU::new();
    cpu.interpret(vec![0xa9, 0xff, 0x00]).unwrap();
    assert!(cpu.status & 0b1000_0000 == 0b1000_0000);
}

#[test]
fn test_0xaa_tax_move_a_to_x() {
    let mut cpu = CPU::new();
    cpu.register_a = 10;
    cpu.interpret(vec![0xaa, 0x00]).unwrap();
    assert_eq!(cpu.register_x, 10);
}

#[test]
fn test_5_ops_working_together() {
    let mut cpu = CPU::new();
    cpu.interpret(vec![0xa9, 0xc0, 0xaa, 0xe8, 0x00]).unwrap();
    assert_eq!(cpu.register_x, 0xc1);
}

#[test]
fn test_inx_overflow() {
    let mut cpu = CPU::new();
    cpu.register_x = 0xff;
    cpu.interpret(vec![0xe8, 0xe8, 0x00]).unwrap();
    assert_eq!(cpu.register_x, 1);
}

#[test]
fn test_0xc0_cpy_equal() {
    let mut cpu = CPU::new();
    cpu.register_y = 0x10;
    cpu.interpret(vec![0xc0, 0x10, 0x00]).unwrap();
    assert!(cpu.status & 0b0000_0010 != 0);
    assert!(cpu.status & 0b0000_0001 != 0);
}

#[test]
fn test_0xc0_cpy_less_than() {
    let mut cpu = CPU::new();
    cpu.register_y = 0x05;
    cpu.interpret(vec![0xc0, 0x10, 0x00]).unwrap();
    assert!(cpu.status & 0b0000_0010 == 0);
    assert!(cpu.status & 0b0000_0001 == 0);
    assert!(cpu.status & 0b1000_0000 != 0);
}

#[test]
fn test_0xc0_cpy_greater_than() {
    let mut cpu = CPU::new();
    cpu.register_y = 0x20;
    cpu.interpret(vec![0xc0, 0x10, 0x00]).unwrap();
    assert!(cpu.status & 0b0000_0010 == 0);
    assert!(cpu.status & 0b0000_0001 != 0);
    assert!(cpu.status & 0b1000_0000 == 0);
}

#[test]
fn test_0xe0_cpx_equal() {
    let mut cpu = CPU::new();
    cpu.register_x = 0x42;
    cpu.interpret(vec![0xe0, 0x42, 0x00]).unwrap();
    assert!(cpu.status & 0b0000_0010 != 0);
    assert!(cpu.status & 0b0000_0001 != 0);
    assert!(cpu.status & 0b1000_0000 == 0);
}

#[test]
fn test_0xe0_cpx_less_than() {
    let mut cpu = CPU::new();
    cpu.register_x = 0x10;
    cpu.interpret(vec![0xe0, 0x20, 0x00]).unwrap();
    assert!(cpu.status & 0b0000_0010 == 0);
    assert!(cpu.status & 0b0000_0001 == 0);
    assert!(cpu.status & 0b1000_0000 != 0);
}

#[test]
fn test_0xe0_cpx_greater_than() {
    let mut cpu = CPU::new();
    cpu.register_x = 0x30;
    cpu.interpret(vec![0xe0, 0x10, 0x00]).unwrap();
    assert!(cpu.status & 0b0000_0010 == 0);
    assert!(cpu.status & 0b0000_0001 != 0);
    assert!(cpu.status & 0b1000_0000 == 0);
}

#[test]
fn test_0xa2_ldx_immediate() {
    let mut cpu = CPU::new();
    cpu.interpret(vec![0xa2, 0x0F, 0x00]).unwrap();
    assert_eq!(cpu.register_x, 0x0F);
    assert!(cpu.status & 0b0000_0010 == 0);
    assert!(cpu.status & 0b1000_0000 == 0);
}

#[test]
fn test_0xa2_ldx_zero_flag() {
    let mut cpu = CPU::new();
    cpu.interpret(vec![0xa2, 0x00, 0x00]).unwrap();
    assert_eq!(cpu.register_x, 0x00);
    assert!(cpu.status & 0b0000_0010 != 0);
}

#[test]
fn test_0xa2_ldx_negative_flag() {
    let mut cpu = CPU::new();
    cpu.interpret(vec![0xa2, 0xFF, 0x00]).unwrap();
    assert_eq!(cpu.register_x, 0xFF);
    assert!(cpu.status & 0b1000_0000 != 0);
}

#[test]
fn test_0xa0_ldy_immediate() {
    let mut cpu = CPU::new();
    cpu.interpret(vec![0xa0, 0x42, 0x00]).unwrap();
    assert_eq!(cpu.register_y, 0x42);
    assert!(cpu.status & 0b0000_0010 == 0);
    assert!(cpu.status & 0b1000_0000 == 0);
}

#[test]
fn test_0xa0_ldy_zero_flag() {
    let mut cpu = CPU::new();
    cpu.interpret(vec![0xa0, 0x00, 0x00]).unwrap();
    assert_eq!(cpu.register_y, 0x00);
    assert!(cpu.status & 0b0000_0010 != 0);
}

#[test]
fn test_0xa0_ldy_negative_flag() {
    let mut cpu = CPU::new();
    cpu.interpret(vec![0xa0, 0x80, 0x00]).unwrap();
    assert_eq!(cpu.register_y, 0x80);
    assert!(cpu.status & 0b1000_0000 != 0);
}

#[test]
fn test_iny_basic_increment() {
    let mut cpu = CPU::new();
    cpu.register_y = 0x10;
    cpu.iny();
    assert_eq!(cpu.register_y, 0x11);
    assert_eq!(cpu.status & 0b0000_0010, 0);
    assert_eq!(cpu.status & 0b1000_0000, 0);
}

#[test]
fn test_iny_overflow_wraps_to_zero() {
    let mut cpu = CPU::new();
    cpu.register_y = 0xFF;
    cpu.iny();
    assert_eq!(cpu.register_y, 0x00);
    assert_ne!(cpu.status & 0b0000_0010, 0);
    assert_eq!(cpu.status & 0b1000_0000, 0);
}

#[test]
fn test_iny_sets_negative_flag() {
    let mut cpu = CPU::new();
    cpu.register_y = 0x7F;
    cpu.iny();
    assert_eq!(cpu.register_y, 0x80);
    assert_eq!(cpu.status & 0b0000_0010, 0);
    assert_ne!(cpu.status & 0b1000_0000, 0);
}

#[test]
fn test_tya_transfer() {
    let mut cpu = CPU::new();
    cpu.register_y = 0x42;
    cpu.register_a = 0x00;
    cpu.tya();
    assert_eq!(cpu.register_a, 0x42);
    assert_eq!(cpu.status & 0b0000_0010, 0);
    assert_eq!(cpu.status & 0b1000_0000, 0);
}

#[test]
fn test_tya_sets_zero_flag() {
    let mut cpu = CPU::new();
    cpu.register_y = 0x00;
    cpu.register_a = 0xFF;
    cpu.tya();
    assert_eq!(cpu.register_a, 0x00);
    assert_ne!(cpu.status & 0b0000_0010, 0);
    assert_eq!(cpu.status & 0b1000_0000, 0);
}

#[test]
fn test_tya_sets_negative_flag() {
    let mut cpu = CPU::new();
    cpu.register_y = 0x80;
    cpu.register_a = 0x00;
    cpu.tya();
    assert_eq!(cpu.register_a, 0x80);
    assert_eq!(cpu.status & 0b0000_0010, 0);
    assert_ne!(cpu.status & 0b1000_0000, 0);
}

#[test]
fn test_txa_transfer() {
    let mut cpu = CPU::new();
    cpu.register_x = 0x42;
    cpu.register_a = 0x00;
    cpu.txa();
    assert_eq!(cpu.register_a, 0x42);
    assert_eq!(cpu.status & 0b0000_0010, 0);
    assert_eq!(cpu.status & 0b1000_0000, 0);
}

#[test]
fn test_txa_sets_zero_flag() {
    let mut cpu = CPU::new();
    cpu.register_x = 0x00;
    cpu.register_a = 0xFF;
    cpu.txa();
    assert_eq!(cpu.register_a, 0x00);
    assert_ne!(cpu.status & 0b0000_0010, 0);
    assert_eq!(cpu.status & 0b1000_0000, 0);
}

#[test]
fn test_txa_sets_negative_flag() {
    let mut cpu = CPU::new();
    cpu.register_x = 0x80;
    cpu.register_a = 0x00;
    cpu.txa();
    assert_eq!(cpu.register_a, 0x80);
    assert_eq!(cpu.status & 0b0000_0010, 0);
    assert_ne!(cpu.status & 0b1000_0000, 0);
}

#[test]
fn test_dex_basic_decrement() {
    let mut cpu = CPU::new();
    cpu.register_x = 0x10;
    cpu.dex();
    assert_eq!(cpu.register_x, 0x0F);
    assert_eq!(cpu.status & 0b0000_0010, 0);
    assert_eq!(cpu.status & 0b1000_0000, 0);
}

#[test]
fn test_dex_underflow_wraps_to_ff() {
    let mut cpu = CPU::new();
    cpu.register_x = 0x00;
    cpu.dex();
    assert_eq!(cpu.register_x, 0xFF);
    assert_eq!(cpu.status & 0b0000_0010, 0);
    assert_ne!(cpu.status & 0b1000_0000, 0);
}

#[test]
fn test_dex_sets_zero_flag() {
    let mut cpu = CPU::new();
    cpu.register_x = 0x01;
    cpu.dex();
    assert_eq!(cpu.register_x, 0x00);
    assert_ne!(cpu.status & 0b0000_0010, 0);
    assert_eq!(cpu.status & 0b1000_0000, 0);
}

#[test]
fn test_tay_transfer() {
    let mut cpu = CPU::new();
    cpu.register_a = 0x37;
    cpu.register_y = 0x00;
    cpu.tay();
    assert_eq!(cpu.register_y, 0x37);
    assert_eq!(cpu.status & 0b0000_0010, 0);
    assert_eq!(cpu.status & 0b1000_0000, 0);
}

#[test]
fn test_tay_sets_zero_flag() {
    let mut cpu = CPU::new();
    cpu.register_a = 0x00;
    cpu.register_y = 0xFF;
    cpu.tay();
    assert_eq!(cpu.register_y, 0x00);
    assert_ne!(cpu.status & 0b0000_0010, 0);
    assert_eq!(cpu.status & 0b1000_0000, 0);
}

#[test]
fn test_tay_sets_negative_flag() {
    let mut cpu = CPU::new();
    cpu.register_a = 0x80;
    cpu.register_y = 0x00;
    cpu.tay();
    assert_eq!(cpu.register_y, 0x80);
    assert_eq!(cpu.status & 0b0000_0010, 0);
    assert_ne!(cpu.status & 0b1000_0000, 0);
}

#[test]
fn test_dey_basic_decrement() {
    let mut cpu = CPU::new();
    cpu.register_y = 0x10;
    cpu.dey();
    assert_eq!(cpu.register_y, 0x0F);
    assert_eq!(cpu.status & 0b0000_0010, 0);
    assert_eq!(cpu.status & 0b1000_0000, 0);
}

#[test]
fn test_dey_wraps_to_ff() {
    let mut cpu = CPU::new();
    cpu.register_y = 0x00;
    cpu.dey();
    assert_eq!(cpu.register_y, 0xFF);
    assert_eq!(cpu.status & 0b0000_0010, 0);
    assert_ne!(cpu.status & 0b1000_0000, 0);
}

#[test]
fn test_dey_sets_zero_flag() {
    let mut cpu = CPU::new();
    cpu.register_y = 0x01;
    cpu.dey();
    assert_eq!(cpu.register_y, 0x00);
    assert_ne!(cpu.status & 0b0000_0010, 0);
    assert_eq!(cpu.status & 0b1000_0000, 0);
}
