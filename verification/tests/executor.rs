use z80::cpu::Cpu;
use z80::cpu_status::CPUStatus;
use z80::mmu::Mmu;

/// A window with the given bytes, the first in the most significant place.
fn window(b0: u8, b1: u8, b2: u8, b3: u8) -> u32 {
    (b0 as u32) << 24 | (b1 as u32) << 16 | (b2 as u32) << 8 | b3 as u32
}

#[test]
fn power_on_state() {
    let cpu = Cpu::new();
    assert_eq!(cpu.reg_pc(), 0);
    assert_eq!(cpu.reg_sp, 0);
    assert_eq!(cpu.reg_a, 0);
    assert_eq!(cpu.reg_f, CPUStatus::new());
    assert_eq!(cpu.reg_f_prime, CPUStatus::new());
    assert_eq!((cpu.reg_b, cpu.reg_c, cpu.reg_d, cpu.reg_e, cpu.reg_h, cpu.reg_l), (0, 0, 0, 0, 0, 0));
    assert_eq!((cpu.reg_ix, cpu.reg_iy, cpu.reg_i, cpu.reg_r), (0, 0, 0, 0));
    assert!(cpu.interrupt_enable);
}

#[test]
fn set_pc_changes_the_program_counter_only() {
    let mut cpu = Cpu::new();
    let before = cpu;
    cpu.set_pc(0xBEEF);
    assert_eq!(cpu.reg_pc(), 0xBEEF);
    let mut want = before;
    want.reg_pc = 0xBEEF;
    assert_eq!(cpu, want);
}

#[test]
fn nop_changes_only_the_program_counter() {
    let mut cpu = Cpu::new();
    let mut mmu = Mmu::new();
    cpu.set_pc(0x4000);
    cpu.reg_a = 0x12;
    cpu.reg_sp = 0x8000;
    cpu.reg_f.set_carry(true);
    let before = cpu;
    assert!(cpu.do_instruction(window(0x00, 0, 0, 0), &mut mmu));
    let mut want = before;
    want.reg_pc = 0x4001;
    assert_eq!(cpu, want);
    for addr in 0..=0xFFFFu16 {
        assert_eq!(mmu.read_mem(addr), 0);
    }
}

#[test]
fn jp_sets_the_program_counter_from_anywhere() {
    for start in [0x0000u16, 0x0100, 0x7FFF, 0xFFFD, 0xFFFF] {
        let mut cpu = Cpu::new();
        let mut mmu = Mmu::new();
        cpu.set_pc(start);
        assert!(cpu.do_instruction(window(0xC3, 0x34, 0x12, 0), &mut mmu));
        assert_eq!(cpu.reg_pc(), 0x1234);
    }
}

#[test]
fn and_immediate_sets_the_fixed_flags() {
    let mut cpu = Cpu::new();
    let mut mmu = Mmu::new();
    cpu.reg_a = 0x0F;
    cpu.reg_f = CPUStatus::from(0xFF);
    assert!(cpu.do_instruction(window(0xE6, 0x0F, 0, 0), &mut mmu));
    assert_eq!(cpu.reg_a, 0x0F);
    assert!(!cpu.reg_f.zero());
    assert!(!cpu.reg_f.sign());
    assert!(cpu.reg_f.half_carry());
    assert!(!cpu.reg_f.carry());
    assert!(!cpu.reg_f.overflow());
    assert!(!cpu.reg_f.add_sub());
    assert_eq!(cpu.reg_pc(), 2);
}

#[test]
fn and_immediate_to_zero_sets_zero() {
    let mut cpu = Cpu::new();
    let mut mmu = Mmu::new();
    cpu.reg_a = 0xF0;
    assert!(cpu.do_instruction(window(0xE6, 0x0F, 0, 0), &mut mmu));
    assert_eq!(cpu.reg_a, 0x00);
    assert!(cpu.reg_f.zero());
    assert!(!cpu.reg_f.sign());
    assert!(cpu.reg_f.half_carry());
}

#[test]
fn and_immediate_with_high_bit_sets_sign() {
    let mut cpu = Cpu::new();
    let mut mmu = Mmu::new();
    cpu.reg_a = 0xF0;
    assert!(cpu.do_instruction(window(0xE6, 0x81, 0, 0), &mut mmu));
    assert_eq!(cpu.reg_a, 0x80);
    assert!(cpu.reg_f.sign());
    assert!(!cpu.reg_f.zero());
}

#[test]
fn and_keeps_the_undefined_bits() {
    let mut cpu = Cpu::new();
    let mut mmu = Mmu::new();
    cpu.reg_f.set_bit_3(true);
    cpu.reg_f.set_bit_5(true);
    assert!(cpu.do_instruction(window(0xE6, 0x00, 0, 0), &mut mmu));
    assert!(cpu.reg_f.bit_3());
    assert!(cpu.reg_f.bit_5());
}

#[test]
fn or_c_clears_half_carry_and_carry() {
    let mut cpu = Cpu::new();
    let mut mmu = Mmu::new();
    cpu.reg_a = 0x81;
    cpu.reg_c = 0x12;
    cpu.reg_f = CPUStatus::from(0xFF);
    cpu.reg_f.set_half_carry(true);
    assert!(cpu.do_instruction(window(0xB1, 0, 0, 0), &mut mmu));
    assert_eq!(cpu.reg_a, 0x93);
    assert_eq!(cpu.reg_c, 0x12);
    assert!(cpu.reg_f.sign());
    assert!(!cpu.reg_f.zero());
    assert!(!cpu.reg_f.half_carry());
    assert!(!cpu.reg_f.carry());
    assert!(!cpu.reg_f.add_sub());
    assert!(!cpu.reg_f.overflow());
    assert_eq!(cpu.reg_pc(), 1);
}

#[test]
fn or_of_zeros_sets_zero() {
    let mut cpu = Cpu::new();
    let mut mmu = Mmu::new();
    assert!(cpu.do_instruction(window(0xB1, 0, 0, 0), &mut mmu));
    assert_eq!(cpu.reg_a, 0);
    assert!(cpu.reg_f.zero());
    assert!(!cpu.reg_f.sign());
}

#[test]
fn xor_reads_the_byte_that_hl_points_to() {
    let mut cpu = Cpu::new();
    let mut mmu = Mmu::new();
    mmu.write_mem(0x2345, 0xFF);
    cpu.reg_h = 0x23;
    cpu.reg_l = 0x45;
    cpu.reg_a = 0x0F;
    cpu.reg_f.set_carry(true);
    assert!(cpu.do_instruction(window(0xAE, 0, 0, 0), &mut mmu));
    assert_eq!(cpu.reg_a, 0xF0);
    assert!(cpu.reg_f.sign());
    assert!(!cpu.reg_f.zero());
    assert!(!cpu.reg_f.half_carry());
    assert!(!cpu.reg_f.carry());
    assert!(!cpu.reg_f.add_sub());
    assert_eq!(mmu.read_mem(0x2345), 0xFF);
}

#[test]
fn xor_with_itself_gives_zero() {
    let mut cpu = Cpu::new();
    let mut mmu = Mmu::new();
    mmu.write_mem(0x0010, 0x5A);
    cpu.reg_l = 0x10;
    cpu.reg_a = 0x5A;
    assert!(cpu.do_instruction(window(0xAE, 0, 0, 0), &mut mmu));
    assert_eq!(cpu.reg_a, 0);
    assert!(cpu.reg_f.zero());
}

#[test]
fn cp_of_equal_values_sets_zero_and_clears_carry() {
    let mut cpu = Cpu::new();
    let mut mmu = Mmu::new();
    cpu.reg_c = 0x05;
    cpu.reg_a = 0x05;
    cpu.reg_f.set_carry(true);
    assert!(cpu.do_instruction(window(0xB9, 0, 0, 0), &mut mmu));
    assert!(cpu.reg_f.zero());
    assert!(!cpu.reg_f.carry());
    assert!(cpu.reg_f.add_sub());
    assert!(!cpu.reg_f.sign());
    assert!(!cpu.reg_f.half_carry());
    assert!(!cpu.reg_f.overflow());
    assert_eq!(cpu.reg_a, 0x05);
    assert_eq!(cpu.reg_c, 0x05);
}

#[test]
fn cp_with_a_larger_value_sets_carry() {
    let mut cpu = Cpu::new();
    let mut mmu = Mmu::new();
    cpu.reg_a = 0x01;
    cpu.reg_c = 0x02;
    assert!(cpu.do_instruction(window(0xB9, 0, 0, 0), &mut mmu));
    // 0x01 - 0x02 wraps to 0xFF
    assert!(cpu.reg_f.carry());
    assert!(cpu.reg_f.sign());
    assert!(!cpu.reg_f.zero());
    assert!(cpu.reg_f.half_carry());
    assert!(cpu.reg_f.add_sub());
    assert_eq!(cpu.reg_a, 0x01);
}

#[test]
fn cp_takes_half_carry_from_bit_five_of_the_difference() {
    let mut cpu = Cpu::new();
    let mut mmu = Mmu::new();
    cpu.reg_a = 0x30;
    cpu.reg_c = 0x10;
    assert!(cpu.do_instruction(window(0xB9, 0, 0, 0), &mut mmu));
    // difference 0x20
    assert!(cpu.reg_f.half_carry());
    cpu.reg_a = 0x50;
    cpu.reg_c = 0x10;
    assert!(cpu.do_instruction(window(0xB9, 0, 0, 0), &mut mmu));
    // difference 0x40
    assert!(!cpu.reg_f.half_carry());
}

#[test]
fn dec_a_from_the_smallest_negative_sets_overflow() {
    let mut cpu = Cpu::new();
    let mut mmu = Mmu::new();
    cpu.reg_a = 0x80;
    cpu.reg_f.set_carry(true);
    assert!(cpu.do_instruction(window(0x3D, 0, 0, 0), &mut mmu));
    assert_eq!(cpu.reg_a, 0x7F);
    assert!(cpu.reg_f.overflow());
    assert!(!cpu.reg_f.sign());
    assert!(!cpu.reg_f.zero());
    assert!(cpu.reg_f.half_carry());
    assert!(cpu.reg_f.add_sub());
    assert!(cpu.reg_f.carry());
}

#[test]
fn dec_a_wraps_from_zero() {
    let mut cpu = Cpu::new();
    let mut mmu = Mmu::new();
    cpu.reg_a = 0x00;
    assert!(cpu.do_instruction(window(0x3D, 0, 0, 0), &mut mmu));
    assert_eq!(cpu.reg_a, 0xFF);
    assert!(!cpu.reg_f.overflow());
    assert!(cpu.reg_f.sign());
    assert!(!cpu.reg_f.zero());
    assert!(cpu.reg_f.add_sub());
    assert!(!cpu.reg_f.carry());
}

#[test]
fn dec_a_to_zero_sets_zero() {
    let mut cpu = Cpu::new();
    let mut mmu = Mmu::new();
    cpu.reg_a = 0x01;
    assert!(cpu.do_instruction(window(0x3D, 0, 0, 0), &mut mmu));
    assert_eq!(cpu.reg_a, 0x00);
    assert!(cpu.reg_f.zero());
    assert!(!cpu.reg_f.sign());
    assert!(!cpu.reg_f.half_carry());
    assert!(!cpu.reg_f.overflow());
}

#[test]
fn inc_l_from_the_largest_positive_sets_overflow() {
    let mut cpu = Cpu::new();
    let mut mmu = Mmu::new();
    cpu.reg_l = 0x7F;
    cpu.reg_f.set_carry(true);
    cpu.reg_f.set_add_sub(true);
    assert!(cpu.do_instruction(window(0x2C, 0, 0, 0), &mut mmu));
    assert_eq!(cpu.reg_l, 0x80);
    assert!(cpu.reg_f.overflow());
    assert!(cpu.reg_f.sign());
    assert!(!cpu.reg_f.zero());
    assert!(!cpu.reg_f.half_carry());
    assert!(!cpu.reg_f.add_sub());
    assert!(cpu.reg_f.carry());
}

#[test]
fn inc_l_wraps_to_zero() {
    let mut cpu = Cpu::new();
    let mut mmu = Mmu::new();
    cpu.reg_l = 0xFF;
    assert!(cpu.do_instruction(window(0x2C, 0, 0, 0), &mut mmu));
    assert_eq!(cpu.reg_l, 0x00);
    assert!(cpu.reg_f.zero());
    assert!(!cpu.reg_f.overflow());
    assert!(!cpu.reg_f.sign());
    assert!(!cpu.reg_f.carry());
}

#[test]
fn inc_l_takes_half_carry_from_bit_four_of_the_result() {
    let mut cpu = Cpu::new();
    let mut mmu = Mmu::new();
    cpu.reg_l = 0x0F;
    assert!(cpu.do_instruction(window(0x2C, 0, 0, 0), &mut mmu));
    assert_eq!(cpu.reg_l, 0x10);
    assert!(cpu.reg_f.half_carry());
    cpu.reg_l = 0x20;
    assert!(cpu.do_instruction(window(0x2C, 0, 0, 0), &mut mmu));
    assert_eq!(cpu.reg_l, 0x21);
    assert!(!cpu.reg_f.half_carry());
}

#[test]
fn rrca_moves_bit_zero_to_carry_and_bit_seven() {
    let mut cpu = Cpu::new();
    let mut mmu = Mmu::new();
    cpu.reg_a = 0x01;
    cpu.reg_f.set_half_carry(true);
    cpu.reg_f.set_add_sub(true);
    cpu.reg_f.set_zero(true);
    cpu.reg_f.set_sign(true);
    cpu.reg_f.set_overflow(true);
    assert!(cpu.do_instruction(window(0x0F, 0, 0, 0), &mut mmu));
    assert_eq!(cpu.reg_a, 0x80);
    assert!(cpu.reg_f.carry());
    assert!(!cpu.reg_f.half_carry());
    assert!(!cpu.reg_f.add_sub());
    assert!(cpu.reg_f.zero());
    assert!(cpu.reg_f.sign());
    assert!(cpu.reg_f.overflow());
}

#[test]
fn rrca_of_an_even_value_clears_carry() {
    let mut cpu = Cpu::new();
    let mut mmu = Mmu::new();
    cpu.reg_a = 0x02;
    cpu.reg_f.set_carry(true);
    assert!(cpu.do_instruction(window(0x0F, 0, 0, 0), &mut mmu));
    assert_eq!(cpu.reg_a, 0x01);
    assert!(!cpu.reg_f.carry());
}

#[test]
fn rrca_rotates_every_value() {
    for a in 0..=255u8 {
        let mut cpu = Cpu::new();
        let mut mmu = Mmu::new();
        cpu.reg_a = a;
        assert!(cpu.do_instruction(window(0x0F, 0, 0, 0), &mut mmu));
        assert_eq!(cpu.reg_a, a.rotate_right(1));
        assert_eq!(cpu.reg_f.carry(), a & 1 == 1);
    }
}

#[test]
fn call_pushes_the_return_address() {
    let mut cpu = Cpu::new();
    let mut mmu = Mmu::new();
    cpu.set_pc(0x0100);
    cpu.reg_sp = 0xFF00;
    assert!(cpu.do_instruction(window(0xCD, 0x00, 0x02, 0), &mut mmu));
    assert_eq!(cpu.reg_pc(), 0x0200);
    assert_eq!(cpu.reg_sp, 0xFEFE);
    assert_eq!(mmu.read_mem(0xFEFE), 0x03);
    assert_eq!(mmu.read_mem(0xFEFF), 0x01);
}

#[test]
fn call_then_ret_instruction_comes_back_behind_the_call() {
    let mut cpu = Cpu::new();
    let mut mmu = Mmu::new();
    cpu.set_pc(0x0100);
    cpu.reg_sp = 0xFF00;
    assert!(cpu.do_instruction(window(0xCD, 0x00, 0x02, 0), &mut mmu));
    assert!(cpu.do_instruction(window(0xC9, 0, 0, 0), &mut mmu));
    assert_eq!(cpu.reg_pc(), 0x0103);
    assert_eq!(cpu.reg_sp, 0xFF00);
}

#[test]
fn call_if_carry_is_taken_with_carry() {
    let mut cpu = Cpu::new();
    let mut mmu = Mmu::new();
    cpu.set_pc(0x1000);
    cpu.reg_sp = 0x2000;
    cpu.reg_f.set_carry(true);
    assert!(cpu.do_instruction(window(0xDC, 0x78, 0x56, 0), &mut mmu));
    assert_eq!(cpu.reg_pc(), 0x5678);
    assert_eq!(cpu.reg_sp, 0x1FFE);
    assert_eq!(mmu.read_mem(0x1FFF), 0x10);
    assert_eq!(mmu.read_mem(0x1FFE), 0x03);
}

#[test]
fn call_if_carry_falls_through_without_carry() {
    let mut cpu = Cpu::new();
    let mut mmu = Mmu::new();
    cpu.set_pc(0x1000);
    cpu.reg_sp = 0x2000;
    assert!(cpu.do_instruction(window(0xDC, 0x78, 0x56, 0), &mut mmu));
    assert_eq!(cpu.reg_pc(), 0x1003);
    assert_eq!(cpu.reg_sp, 0x2000);
    assert_eq!(mmu.read_mem(0x1FFF), 0);
    assert_eq!(mmu.read_mem(0x1FFE), 0);
}

#[test]
fn ret_reads_low_byte_first() {
    let mut cpu = Cpu::new();
    let mut mmu = Mmu::new();
    mmu.write_mem(0x3000, 0xCD);
    mmu.write_mem(0x3001, 0xAB);
    cpu.reg_sp = 0x3000;
    assert!(cpu.do_instruction(window(0xC9, 0, 0, 0), &mut mmu));
    assert_eq!(cpu.reg_pc(), 0xABCD);
    assert_eq!(cpu.reg_sp, 0x3002);
}

#[test]
fn di_clears_the_interrupt_latch_only() {
    let mut cpu = Cpu::new();
    let mut mmu = Mmu::new();
    cpu.reg_a = 0x77;
    let before = cpu;
    assert!(cpu.do_instruction(window(0xF3, 0, 0, 0), &mut mmu));
    let mut want = before;
    want.interrupt_enable = false;
    want.reg_pc = 1;
    assert_eq!(cpu, want);
}

#[test]
fn ex_af_swaps_accumulator_and_flags_with_the_shadow_pair() {
    let mut cpu = Cpu::new();
    let mut mmu = Mmu::new();
    cpu.reg_a = 0x11;
    cpu.reg_f = CPUStatus::from(0x41);
    cpu.reg_f.set_half_carry(true);
    cpu.reg_a_prime = 0x22;
    cpu.reg_f_prime = CPUStatus::from(0x80);
    cpu.reg_b = 0x33;
    cpu.reg_b_prime = 0x44;
    let before = cpu;
    assert!(cpu.do_instruction(window(0x08, 0, 0, 0), &mut mmu));
    assert_eq!(cpu.reg_a, 0x22);
    assert_eq!(cpu.reg_f, before.reg_f_prime);
    assert_eq!(cpu.reg_a_prime, 0x11);
    assert_eq!(cpu.reg_f_prime, before.reg_f);
    assert!(cpu.reg_f_prime.half_carry());
    assert_eq!(cpu.reg_b, 0x33);
    assert_eq!(cpu.reg_b_prime, 0x44);
}

#[test]
fn ex_af_twice_restores_the_registers() {
    let mut cpu = Cpu::new();
    let mut mmu = Mmu::new();
    cpu.reg_a = 0x11;
    cpu.reg_f = CPUStatus::from(0x41);
    cpu.reg_a_prime = 0x22;
    let before = cpu;
    assert!(cpu.do_instruction(window(0x08, 0, 0, 0), &mut mmu));
    assert!(cpu.do_instruction(window(0x08, 0, 0, 0), &mut mmu));
    let mut want = before;
    want.reg_pc = 2;
    assert_eq!(cpu, want);
}

#[test]
fn jr_nz_jumps_forward_from_the_next_instruction() {
    let mut cpu = Cpu::new();
    let mut mmu = Mmu::new();
    cpu.set_pc(0x0100);
    assert!(cpu.do_instruction(window(0x20, 0x05, 0, 0), &mut mmu));
    assert_eq!(cpu.reg_pc(), 0x0107);
}

#[test]
fn jr_nz_jumps_backward() {
    let mut cpu = Cpu::new();
    let mut mmu = Mmu::new();
    cpu.set_pc(0x0100);
    assert!(cpu.do_instruction(window(0x20, 0xFE, 0, 0), &mut mmu));
    assert_eq!(cpu.reg_pc(), 0x0100);
    assert!(cpu.do_instruction(window(0x20, 0x80, 0, 0), &mut mmu));
    assert_eq!(cpu.reg_pc(), 0x0082);
}

#[test]
fn jr_nz_falls_through_when_zero_is_set() {
    let mut cpu = Cpu::new();
    let mut mmu = Mmu::new();
    cpu.set_pc(0x0100);
    cpu.reg_f.set_zero(true);
    assert!(cpu.do_instruction(window(0x20, 0x05, 0, 0), &mut mmu));
    assert_eq!(cpu.reg_pc(), 0x0102);
}

#[test]
fn jr_z_tests_the_zero_flag() {
    let mut cpu = Cpu::new();
    let mut mmu = Mmu::new();
    cpu.set_pc(0x0100);
    assert!(cpu.do_instruction(window(0x28, 0x10, 0, 0), &mut mmu));
    assert_eq!(cpu.reg_pc(), 0x0102);
    cpu.reg_f.set_zero(true);
    assert!(cpu.do_instruction(window(0x28, 0x10, 0, 0), &mut mmu));
    assert_eq!(cpu.reg_pc(), 0x0114);
}

#[test]
fn jr_nc_tests_the_carry_flag() {
    let mut cpu = Cpu::new();
    let mut mmu = Mmu::new();
    cpu.set_pc(0x0100);
    assert!(cpu.do_instruction(window(0x30, 0x7F, 0, 0), &mut mmu));
    assert_eq!(cpu.reg_pc(), 0x0181);
    cpu.reg_f.set_carry(true);
    assert!(cpu.do_instruction(window(0x30, 0x7F, 0, 0), &mut mmu));
    assert_eq!(cpu.reg_pc(), 0x0183);
}

#[test]
fn relative_jumps_wrap_around_the_address_space() {
    let mut cpu = Cpu::new();
    let mut mmu = Mmu::new();
    cpu.set_pc(0xFFFE);
    assert!(cpu.do_instruction(window(0x20, 0x02, 0, 0), &mut mmu));
    assert_eq!(cpu.reg_pc(), 0x0002);
    cpu.set_pc(0x0000);
    assert!(cpu.do_instruction(window(0x20, 0xF0, 0, 0), &mut mmu));
    assert_eq!(cpu.reg_pc(), 0xFFF2);
}

#[test]
fn program_counter_wraps_when_it_advances() {
    let mut cpu = Cpu::new();
    let mut mmu = Mmu::new();
    cpu.set_pc(0xFFFF);
    assert!(cpu.do_instruction(window(0x00, 0, 0, 0), &mut mmu));
    assert_eq!(cpu.reg_pc(), 0x0000);
    cpu.set_pc(0xFFFE);
    assert!(cpu.do_instruction(window(0x3E, 0x42, 0, 0), &mut mmu));
    assert_eq!(cpu.reg_pc(), 0x0000);
    assert_eq!(cpu.reg_a, 0x42);
}

#[test]
fn loads_between_registers() {
    let mut cpu = Cpu::new();
    let mut mmu = Mmu::new();
    cpu.reg_c = 0x11;
    assert!(cpu.do_instruction(window(0x79, 0, 0, 0), &mut mmu));
    assert_eq!(cpu.reg_a, 0x11);

    cpu.reg_a = 0x22;
    assert!(cpu.do_instruction(window(0x47, 0, 0, 0), &mut mmu));
    assert_eq!(cpu.reg_b, 0x22);

    cpu.reg_e = 0x33;
    assert!(cpu.do_instruction(window(0x43, 0, 0, 0), &mut mmu));
    assert_eq!(cpu.reg_b, 0x33);

    cpu.reg_a = 0x44;
    assert!(cpu.do_instruction(window(0x4F, 0, 0, 0), &mut mmu));
    assert_eq!(cpu.reg_c, 0x44);
    assert_eq!(cpu.reg_pc(), 4);
    assert_eq!(cpu.reg_f, CPUStatus::new());
}

#[test]
fn load_immediate_into_a() {
    let mut cpu = Cpu::new();
    let mut mmu = Mmu::new();
    assert!(cpu.do_instruction(window(0x3E, 0x99, 0xAA, 0xBB), &mut mmu));
    assert_eq!(cpu.reg_a, 0x99);
    assert_eq!(cpu.reg_pc(), 2);
}

#[test]
fn load_a_from_memory() {
    let mut cpu = Cpu::new();
    let mut mmu = Mmu::new();
    mmu.write_mem(0x1234, 0x5A);
    assert!(cpu.do_instruction(window(0x3A, 0x34, 0x12, 0), &mut mmu));
    assert_eq!(cpu.reg_a, 0x5A);
    assert_eq!(cpu.reg_pc(), 3);
}

#[test]
fn store_a_to_memory() {
    let mut cpu = Cpu::new();
    let mut mmu = Mmu::new();
    cpu.reg_a = 0xA5;
    let before = cpu;
    assert!(cpu.do_instruction(window(0x32, 0x00, 0xF0, 0), &mut mmu));
    assert_eq!(mmu.read_mem(0xF000), 0xA5);
    assert_eq!(mmu.read_mem(0xF001), 0);
    assert_eq!(mmu.read_mem(0x00F0), 0);
    let mut want = before;
    want.reg_pc = 3;
    assert_eq!(cpu, want);
}

#[test]
fn load_hl_immediate() {
    let mut cpu = Cpu::new();
    let mut mmu = Mmu::new();
    assert!(cpu.do_instruction(window(0x21, 0xCD, 0xAB, 0), &mut mmu));
    assert_eq!(cpu.reg_h, 0xAB);
    assert_eq!(cpu.reg_l, 0xCD);
    assert_eq!(cpu.reg_pc(), 3);
}

#[test]
fn invalid_opcode_halts_behind_the_instruction() {
    let mut cpu = Cpu::new();
    let mut mmu = Mmu::new();
    cpu.set_pc(0x0200);
    cpu.reg_a = 0x12;
    let before = cpu;
    assert!(!cpu.do_instruction(window(0xFF, 0x12, 0x34, 0x56), &mut mmu));
    let mut want = before;
    want.reg_pc = 0x0201;
    assert_eq!(cpu, want);
}

#[test]
fn prefixed_opcodes_halt() {
    for prefix in [0xCBu8, 0xED, 0xDD, 0xFD] {
        let mut cpu = Cpu::new();
        let mut mmu = Mmu::new();
        let before = cpu;
        assert!(!cpu.do_instruction(window(prefix, 0x00, 0x00, 0x00), &mut mmu));
        let mut want = before;
        want.reg_pc = 1;
        assert_eq!(cpu, want);
    }
}

#[test]
fn opcodes_that_are_decoded_but_not_carried_out_halt() {
    // ADD HL,BC; DEC C; LD B,B; LD C,C; LD SP,nn
    for (byte, len) in [(0x29u8, 1u16), (0x0D, 1), (0x40, 1), (0x49, 1), (0x31, 3)] {
        let mut cpu = Cpu::new();
        let mut mmu = Mmu::new();
        cpu.reg_c = 9;
        cpu.reg_h = 1;
        let before = cpu;
        assert!(!cpu.do_instruction(window(byte, 0x11, 0x22, 0x33), &mut mmu));
        let mut want = before;
        want.reg_pc = len;
        assert_eq!(cpu, want);
    }
}

#[test]
fn every_first_byte_moves_the_program_counter_by_its_length() {
    for byte in 0..=255u8 {
        // Leave out what changes the program counter by itself.
        if [0xC3u8, 0xC9, 0xCD, 0xDC, 0x20, 0x28, 0x30].contains(&byte) {
            continue;
        }
        let mut cpu = Cpu::new();
        let mut mmu = Mmu::new();
        cpu.set_pc(0x1000);
        let (_, len, _) = z80::instruction::Opcode::from_halfword((byte as u16) << 8);
        cpu.do_instruction(window(byte, 0, 0, 0), &mut mmu);
        assert_eq!(cpu.reg_pc(), 0x1000 + len as u16, "byte {:#04x}", byte);
    }
}

#[test]
fn bytes_behind_a_one_byte_instruction_are_ignored() {
    for byte in [0x00u8, 0x08, 0x0F, 0x2C, 0x3D, 0x79, 0xB1, 0xB9, 0xF3] {
        let mut first = Cpu::new();
        let mut second = Cpu::new();
        let mut mmu_first = Mmu::new();
        let mut mmu_second = Mmu::new();
        first.reg_a = 0x35;
        first.reg_c = 0x53;
        second.reg_a = 0x35;
        second.reg_c = 0x53;
        assert!(first.do_instruction(window(byte, 0x00, 0x00, 0x00), &mut mmu_first));
        assert!(second.do_instruction(window(byte, 0xAB, 0xCD, 0xEF), &mut mmu_second));
        assert_eq!(first, second, "byte {:#04x}", byte);
    }
}

#[test]
fn bytes_behind_a_two_byte_instruction_are_ignored() {
    for byte in [0x3Eu8, 0xE6, 0x20, 0x28, 0x30] {
        let mut first = Cpu::new();
        let mut second = Cpu::new();
        let mut mmu_first = Mmu::new();
        let mut mmu_second = Mmu::new();
        first.reg_a = 0x35;
        second.reg_a = 0x35;
        assert!(first.do_instruction(window(byte, 0x12, 0x00, 0x00), &mut mmu_first));
        assert!(second.do_instruction(window(byte, 0x12, 0xCD, 0xEF), &mut mmu_second));
        assert_eq!(first, second, "byte {:#04x}", byte);
    }
}

#[test]
fn the_fourth_byte_is_ignored_without_a_prefix() {
    let mut first = Cpu::new();
    let mut second = Cpu::new();
    let mut mmu_first = Mmu::new();
    let mut mmu_second = Mmu::new();
    assert!(first.do_instruction(window(0x21, 0x34, 0x12, 0x00), &mut mmu_first));
    assert!(second.do_instruction(window(0x21, 0x34, 0x12, 0xFF), &mut mmu_second));
    assert_eq!(first, second);
    assert_eq!((first.reg_h, first.reg_l), (0x12, 0x34));
}
