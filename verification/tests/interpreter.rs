use magpie::apple1::Apple1;
use magpie::cpu::MOS6502;
use magpie::ehbasic::Ehbasic;
use magpie::instruction::{decode, AddressMode, Instruction, Operation};
use magpie::machine::Halt;
use magpie::platform::Platform;

const ORIGIN: u16 = 0x0200;

fn machine(program: &[u8]) -> MOS6502<Ehbasic> {
    let mut bus = Ehbasic::new();
    bus.load(program.to_vec(), ORIGIN);
    let mut cpu = MOS6502::new(Box::new(bus));
    let mut regs = cpu.registers();
    regs.reg_pc = ORIGIN;
    cpu.set_registers(regs);
    cpu
}

fn steps(cpu: &mut MOS6502<Ehbasic>, count: usize) {
    for _ in 0..count {
        assert!(cpu.checked_step());
    }
}

#[test]
fn lda_then_adc_without_overflow() {
    let mut cpu = machine(&[0xa9, 0x50, 0x69, 0x10]);
    steps(&mut cpu, 2);
    let regs = cpu.registers();
    assert_eq!(regs.reg_a, 0x60);
    assert_eq!(regs.f_overflow, false);
    assert_eq!(regs.f_carry, false);
    assert_eq!(regs.f_negative, false);
    assert_eq!(regs.f_zero, false);
    assert_eq!(regs.reg_pc, 0x0204);
    assert_eq!(cpu.get_cycle_count(), 4);
}

#[test]
fn lda_then_adc_overflowing_into_the_sign() {
    let mut cpu = machine(&[0xa9, 0x50, 0x69, 0x50]);
    steps(&mut cpu, 2);
    let regs = cpu.registers();
    assert_eq!(regs.reg_a, 0xa0);
    assert_eq!(regs.f_overflow, true);
    assert_eq!(regs.f_carry, false);
    assert_eq!(regs.f_negative, true);
}

#[test]
fn lda_then_adc_of_two_negatives() {
    let mut cpu = machine(&[0xa9, 0xd0, 0x69, 0x90]);
    steps(&mut cpu, 2);
    let regs = cpu.registers();
    assert_eq!(regs.reg_a, 0x60);
    assert_eq!(regs.f_overflow, true);
    assert_eq!(regs.f_carry, true);
}

#[test]
fn lda_then_adc_wrapping_to_zero() {
    let mut cpu = machine(&[0xa9, 0x80, 0x69, 0x80]);
    steps(&mut cpu, 2);
    let regs = cpu.registers();
    assert_eq!(regs.reg_a, 0x00);
    assert_eq!(regs.f_zero, true);
    assert_eq!(regs.f_carry, true);
    assert_eq!(regs.f_overflow, true);
}

#[test]
fn new_processor_is_running_with_an_empty_stack() {
    let mut cpu = MOS6502::new(Box::new(Ehbasic::new()));
    let regs = cpu.registers();
    assert_eq!((regs.reg_a, regs.reg_x, regs.reg_y), (0, 0, 0));
    assert_eq!(regs.reg_sp, 0xff);
    assert_eq!(regs.reg_pc, 0);
    assert!(regs.f_break);
    assert!(!regs.f_negative && !regs.f_overflow && !regs.f_decimal);
    assert!(!regs.f_interrupt && !regs.f_zero && !regs.f_carry);
    assert!(cpu.is_running());
    assert_eq!(cpu.get_cycle_count(), 0);
    assert_eq!(cpu.halt(), None);
    assert_eq!(cpu.history_len(), 0);
}

#[test]
fn reset_reads_the_vector_and_restarts() {
    let mut bus = Ehbasic::new();
    bus.load(vec![0x34, 0x12], 0xfffc);
    let mut cpu = MOS6502::new(Box::new(bus));
    assert!(cpu.checked_step());
    assert!(!cpu.is_running());
    assert_eq!(cpu.get_cycle_count(), 7);
    let mut regs = cpu.registers();
    regs.reg_a = 1;
    regs.reg_x = 2;
    regs.reg_y = 3;
    regs.f_carry = true;
    regs.f_decimal = true;
    cpu.set_registers(regs);
    cpu.reset();
    let regs = cpu.registers();
    assert_eq!(regs.reg_pc, 0x1234);
    assert_eq!(regs.reg_sp, 0xfd);
    assert_eq!((regs.reg_a, regs.reg_x, regs.reg_y), (0, 0, 0));
    assert!(regs.f_break);
    assert!(!regs.f_negative && !regs.f_overflow && !regs.f_decimal);
    assert!(!regs.f_interrupt && !regs.f_zero && !regs.f_carry);
    assert!(cpu.is_running());
    assert_eq!(cpu.halt(), None);
    assert_eq!(cpu.get_cycle_count(), 0);
}

#[test]
fn reset_on_the_apple_enters_the_monitor() {
    let mut bus = Apple1::new();
    bus.load(Vec::new(), 0x4000);
    let mut cpu = MOS6502::new(Box::new(bus));
    cpu.reset();
    assert_eq!(cpu.registers().reg_pc, 0xff00);
    assert_eq!(cpu.registers().reg_sp, 0xfd);
    assert!(cpu.is_running());
}

#[test]
fn stack_returns_what_was_pushed() {
    let mut cpu = machine(&[]);
    for b in [0x00u8, 0x01, 0x7f, 0x80, 0xab, 0xff] {
        let before = cpu.registers().reg_sp;
        cpu.stack_push(b);
        assert_eq!(cpu.registers().reg_sp, before.wrapping_sub(1));
        assert_eq!(cpu.stack_pull(), b);
        assert_eq!(cpu.registers().reg_sp, before);
    }
    assert!(cpu.is_running());
    let mut apple = MOS6502::new(Box::new(Apple1::new()));
    apple.reset();
    apple.stack_push(0x5a);
    assert_eq!(apple.read_u8(0x01fd), 0x5a);
    assert_eq!(apple.registers().reg_sp, 0xfc);
    assert_eq!(apple.stack_pull(), 0x5a);
    assert_eq!(apple.registers().reg_sp, 0xfd);
}

#[test]
fn stack_is_last_in_first_out() {
    let mut cpu = machine(&[]);
    cpu.stack_push(1);
    cpu.stack_push(2);
    cpu.stack_push(3);
    assert_eq!(cpu.read_u8(0x01ff), 1);
    assert_eq!(cpu.read_u8(0x01fe), 2);
    assert_eq!(cpu.read_u8(0x01fd), 3);
    assert_eq!(cpu.stack_pull(), 3);
    assert_eq!(cpu.stack_pull(), 2);
    assert_eq!(cpu.stack_pull(), 1);
    assert_eq!(cpu.registers().reg_sp, 0xff);
}

#[test]
fn push_at_the_bottom_of_the_stack_stops_the_processor() {
    let mut cpu = machine(&[]);
    let mut regs = cpu.registers();
    regs.reg_sp = 2;
    cpu.set_registers(regs);
    cpu.stack_push(0x11);
    assert!(cpu.is_running());
    assert_eq!(cpu.registers().reg_sp, 1);
    cpu.stack_push(0x22);
    assert!(!cpu.is_running());
    assert_eq!(cpu.halt(), Some(Halt::StackOverflow));
    assert_eq!(cpu.registers().reg_sp, 0);
    assert_eq!(cpu.read_u8(0x0101), 0x22);
    cpu.stack_push(0x33);
    assert_eq!(cpu.registers().reg_sp, 0xff);
    assert_eq!(cpu.read_u8(0x0100), 0x33);
}

#[test]
fn pull_from_an_empty_stack_stops_the_processor() {
    let mut cpu = machine(&[]);
    cpu.write_u8(0x0100, 0x77);
    assert_eq!(cpu.registers().reg_sp, 0xff);
    assert_eq!(cpu.stack_pull(), 0x77);
    assert_eq!(cpu.registers().reg_sp, 0x00);
    assert!(!cpu.is_running());
    assert_eq!(cpu.halt(), Some(Halt::StackUnderflow));
}

#[test]
fn call_and_return_land_after_the_call() {
    let mut program = vec![0u8; 0x11];
    program[0] = 0x20;
    program[1] = 0x10;
    program[2] = 0x02;
    program[0x10] = 0x60;
    let mut cpu = machine(&program);
    steps(&mut cpu, 1);
    assert_eq!(cpu.registers().reg_pc, 0x0210);
    assert_eq!(cpu.registers().reg_sp, 0xfd);
    assert_eq!(cpu.read_u8(0x01ff), 0x02);
    assert_eq!(cpu.read_u8(0x01fe), 0x02);
    assert_eq!(cpu.get_cycle_count(), 6);
    steps(&mut cpu, 1);
    assert_eq!(cpu.registers().reg_pc, 0x0203);
    assert_eq!(cpu.registers().reg_sp, 0xff);
    assert_eq!(cpu.get_cycle_count(), 12);
    assert!(cpu.is_running());
}

#[test]
fn return_from_interrupt_restores_flags_and_address() {
    let mut cpu = machine(&[0x40]);
    cpu.stack_push(0x12);
    cpu.stack_push(0x34);
    cpu.stack_push(0xc3);
    steps(&mut cpu, 1);
    let regs = cpu.registers();
    assert_eq!(regs.reg_pc, 0x1234);
    assert_eq!(regs.reg_sp, 0xff);
    assert!(regs.f_negative && regs.f_overflow && regs.f_zero && regs.f_carry);
    assert!(!regs.f_break && !regs.f_decimal && !regs.f_interrupt);
    assert_eq!(cpu.get_cycle_count(), 6);
}

#[test]
fn break_stops_the_processor() {
    let mut cpu = machine(&[0x00]);
    let mut regs = cpu.registers();
    regs.f_break = false;
    cpu.set_registers(regs);
    assert!(cpu.checked_step());
    assert!(!cpu.is_running());
    assert_eq!(cpu.halt(), Some(Halt::Break));
    assert!(cpu.registers().f_break);
    assert_eq!(cpu.registers().reg_pc, 0x0201);
    assert_eq!(cpu.get_cycle_count(), 7);
}

#[test]
fn undefined_opcode_stops_the_processor() {
    let mut cpu = machine(&[0x02]);
    assert!(!cpu.checked_step());
    assert!(!cpu.is_running());
    assert_eq!(cpu.halt(), Some(Halt::UndefinedOpcode(0x02)));
    assert_eq!(cpu.registers().reg_pc, 0x0201);
    assert_eq!(cpu.get_cycle_count(), 0);
    assert_eq!(cpu.history_len(), 0);

    let mut cpu = machine(&[0xea, 0xff]);
    assert_eq!(cpu.run(100), 2);
    assert_eq!(cpu.halt(), Some(Halt::UndefinedOpcode(0xff)));
    assert_eq!(cpu.registers().reg_pc, 0x0202);
    assert_eq!(cpu.history_len(), 1);
}

#[test]
fn step_executes_one_instruction() {
    let mut cpu = machine(&[0xa2, 0x07, 0xe8]);
    cpu.step();
    assert_eq!(cpu.registers().reg_x, 7);
    assert_eq!(cpu.registers().reg_pc, 0x0202);
    cpu.step();
    assert_eq!(cpu.registers().reg_x, 8);
    assert_eq!(cpu.get_cycle_count(), 4);
}

#[test]
fn run_stops_at_the_cycle_target() {
    let mut cpu = machine(&[0xea, 0xea, 0xea, 0xea, 0xea]);
    assert_eq!(cpu.run(4), 4);
    assert_eq!(cpu.registers().reg_pc, 0x0202);
    assert!(cpu.is_running());
    assert_eq!(cpu.run(3), 4);
    assert_eq!(cpu.registers().reg_pc, 0x0204);
    assert_eq!(cpu.run(0), 0);
    assert_eq!(cpu.registers().reg_pc, 0x0204);
    assert_eq!(cpu.run(-5), 0);
    assert_eq!(cpu.get_cycle_count(), 0);
}

#[test]
fn run_stops_at_a_break() {
    let mut cpu = machine(&[0xea, 0xea, 0xea, 0x00, 0xea]);
    assert_eq!(cpu.run(100), 13);
    assert!(!cpu.is_running());
    assert_eq!(cpu.registers().reg_pc, 0x0204);
    assert_eq!(cpu.run(100), 0);
    assert_eq!(cpu.registers().reg_pc, 0x0204);
}

#[test]
fn branches_cost_one_cycle_more_when_taken() {
    let mut cpu = machine(&[0x18, 0x90, 0x02, 0xea, 0xea, 0xb0, 0x10]);
    steps(&mut cpu, 2);
    assert_eq!(cpu.registers().reg_pc, 0x0205);
    assert_eq!(cpu.get_cycle_count(), 5);
    steps(&mut cpu, 1);
    assert_eq!(cpu.registers().reg_pc, 0x0207);
    assert_eq!(cpu.get_cycle_count(), 7);
}

#[test]
fn branch_offsets_are_signed() {
    let mut cpu = machine(&[0xea, 0xd0, 0xfd]);
    steps(&mut cpu, 2);
    assert_eq!(cpu.registers().reg_pc, 0x0200);
    let mut cpu = machine(&[0xd0, 0x7f]);
    steps(&mut cpu, 1);
    assert_eq!(cpu.registers().reg_pc, 0x0281);
    let mut cpu = machine(&[0xd0, 0x80]);
    steps(&mut cpu, 1);
    assert_eq!(cpu.registers().reg_pc, 0x0182);
}

#[test]
fn every_branch_tests_its_own_flag() {
    let cases: [(u8, u8, bool); 8] = [
        (0x90, 0x01, false),
        (0xb0, 0x01, true),
        (0xf0, 0x02, true),
        (0xd0, 0x02, false),
        (0x30, 0x80, true),
        (0x10, 0x80, false),
        (0x70, 0x40, true),
        (0x50, 0x40, false),
    ];
    for (opcode, mask, taken_when_set) in cases {
        for set in [false, true] {
            let mut cpu = machine(&[opcode, 0x10]);
            cpu.set_status_registers(if set { mask } else { 0 });
            steps(&mut cpu, 1);
            let taken = set == taken_when_set;
            assert_eq!(cpu.registers().reg_pc, if taken { 0x0212 } else { 0x0202 });
            assert_eq!(cpu.get_cycle_count(), if taken { 3 } else { 2 });
        }
    }
}

#[test]
fn zero_page_indexing_stays_in_page_zero() {
    let mut cpu = machine(&[0xa9, 0x77, 0x85, 0x7f, 0xa9, 0x00, 0xa2, 0xff, 0xb5, 0x80]);
    steps(&mut cpu, 5);
    assert_eq!(cpu.registers().reg_a, 0x77);
    assert_eq!(cpu.get_cycle_count(), 13);
    let mut cpu = machine(&[0xa2, 0x55, 0xa0, 0x90, 0x96, 0x80]);
    steps(&mut cpu, 3);
    assert_eq!(cpu.read_u8(0x0010), 0x55);
    assert_eq!(cpu.read_u8(0x0110), 0x00);
}

#[test]
fn absolute_indexing_adds_the_index() {
    let mut cpu = machine(&[0xa9, 0x42, 0xa2, 0x05, 0x9d, 0x00, 0x30, 0xa0, 0x05, 0xb9, 0x00, 0x30]);
    steps(&mut cpu, 3);
    assert_eq!(cpu.read_u8(0x3005), 0x42);
    assert_eq!(cpu.get_cycle_count(), 9);
    steps(&mut cpu, 2);
    assert_eq!(cpu.registers().reg_a, 0x42);
    assert_eq!(cpu.get_cycle_count(), 15);
    let mut cpu = machine(&[0xa2, 0x02, 0xa9, 0x99, 0x9d, 0xff, 0xff]);
    steps(&mut cpu, 3);
    assert_eq!(cpu.read_u8(0x0001), 0x99);
}

#[test]
fn indirect_y_pointer_wraps_in_page_zero() {
    let program = [
        0xa9, 0x34, 0x85, 0xff, 0xa9, 0x12, 0x85, 0x00, 0xa9, 0x99, 0x8d, 0x36, 0x12, 0xa0, 0x02,
        0xa9, 0x00, 0xb1, 0xff,
    ];
    let mut cpu = machine(&program);
    steps(&mut cpu, 9);
    assert_eq!(cpu.registers().reg_a, 0x99);
    assert_eq!(cpu.registers().f_negative, true);
    assert_eq!(cpu.get_cycle_count(), 2 + 3 + 2 + 3 + 2 + 4 + 2 + 2 + 5);
}

#[test]
fn indirect_x_pointer_wraps_in_page_zero() {
    let program = [
        0xa9, 0x78, 0x85, 0x0f, 0xa9, 0x56, 0x85, 0x10, 0xa9, 0xee, 0xa2, 0x90, 0x81, 0x7f, 0xa9,
        0x00, 0xa1, 0x7f,
    ];
    let mut cpu = machine(&program);
    steps(&mut cpu, 7);
    assert_eq!(cpu.read_u8(0x5678), 0xee);
    steps(&mut cpu, 2);
    assert_eq!(cpu.registers().reg_a, 0xee);
    assert_eq!(cpu.get_cycle_count(), 2 + 3 + 2 + 3 + 2 + 2 + 6 + 2 + 6);
}

#[test]
fn jumps_load_the_program_counter() {
    let mut cpu = machine(&[0x4c, 0x34, 0x12]);
    steps(&mut cpu, 1);
    assert_eq!(cpu.registers().reg_pc, 0x1234);
    assert_eq!(cpu.get_cycle_count(), 3);
    let mut cpu = machine(&[0x6c, 0x05, 0x02, 0x00, 0x00, 0xcd, 0xab]);
    steps(&mut cpu, 1);
    assert_eq!(cpu.registers().reg_pc, 0xabcd);
    assert_eq!(cpu.get_cycle_count(), 5);
}

#[test]
fn increment_and_decrement_memory_set_flags() {
    let mut cpu = machine(&[0xa9, 0xff, 0x85, 0x10, 0xe6, 0x10, 0xc6, 0x10, 0xce, 0x10, 0x00]);
    steps(&mut cpu, 3);
    assert_eq!(cpu.read_u8(0x0010), 0x00);
    assert_eq!(cpu.registers().f_zero, true);
    assert_eq!(cpu.registers().f_negative, false);
    assert_eq!(cpu.registers().reg_a, 0xff);
    assert_eq!(cpu.get_cycle_count(), 10);
    steps(&mut cpu, 1);
    assert_eq!(cpu.read_u8(0x0010), 0xff);
    assert_eq!(cpu.registers().f_zero, false);
    assert_eq!(cpu.registers().f_negative, true);
    steps(&mut cpu, 1);
    assert_eq!(cpu.read_u8(0x0010), 0xfe);
    assert_eq!(cpu.get_cycle_count(), 21);
}

#[test]
fn index_registers_wrap() {
    let mut cpu = machine(&[0xca, 0x88, 0xe8, 0xc8]);
    steps(&mut cpu, 2);
    assert_eq!(cpu.registers().reg_x, 0xff);
    assert_eq!(cpu.registers().reg_y, 0xff);
    assert_eq!(cpu.registers().f_negative, true);
    steps(&mut cpu, 2);
    assert_eq!(cpu.registers().reg_x, 0x00);
    assert_eq!(cpu.registers().reg_y, 0x00);
    assert_eq!(cpu.registers().f_zero, true);
    assert_eq!(cpu.get_cycle_count(), 8);
}

#[test]
fn transfers_set_flags_except_into_the_stack_pointer() {
    let mut cpu = machine(&[0xa2, 0x80, 0xa9, 0x00, 0x9a, 0xba, 0xa8, 0x8a, 0x98, 0xaa]);
    steps(&mut cpu, 3);
    assert_eq!(cpu.registers().reg_sp, 0x80);
    assert_eq!(cpu.registers().f_zero, true);
    assert_eq!(cpu.registers().f_negative, false);
    assert_eq!(cpu.get_cycle_count(), 6);
    steps(&mut cpu, 1);
    assert_eq!(cpu.registers().reg_x, 0x80);
    assert_eq!(cpu.registers().f_zero, false);
    assert_eq!(cpu.registers().f_negative, true);
    steps(&mut cpu, 1);
    assert_eq!(cpu.registers().reg_y, 0x00);
    assert_eq!(cpu.registers().f_zero, true);
    steps(&mut cpu, 1);
    assert_eq!(cpu.registers().reg_a, 0x80);
    assert_eq!(cpu.registers().f_negative, true);
    steps(&mut cpu, 1);
    assert_eq!(cpu.registers().reg_a, 0x00);
    steps(&mut cpu, 1);
    assert_eq!(cpu.registers().reg_x, 0x00);
    assert_eq!(cpu.get_cycle_count(), 16);
}

#[test]
fn flag_instructions_write_one_flag() {
    let mut cpu = machine(&[0x38, 0xf8, 0x78, 0x18, 0xd8, 0x58, 0xb8]);
    cpu.set_status_registers(0x40);
    steps(&mut cpu, 3);
    assert_eq!(cpu.get_status_registers(), 0x40 | 0x20 | 0x01 | 0x08 | 0x04);
    steps(&mut cpu, 4);
    assert_eq!(cpu.get_status_registers(), 0x20);
    assert_eq!(cpu.get_cycle_count(), 14);
}

#[test]
fn logic_instructions_combine_with_the_accumulator() {
    let mut cpu = machine(&[0xa9, 0xcc, 0x29, 0xaa, 0x09, 0x11, 0x49, 0xff]);
    steps(&mut cpu, 2);
    assert_eq!(cpu.registers().reg_a, 0x88);
    assert_eq!(cpu.registers().f_negative, true);
    steps(&mut cpu, 1);
    assert_eq!(cpu.registers().reg_a, 0x99);
    steps(&mut cpu, 1);
    assert_eq!(cpu.registers().reg_a, 0x66);
    assert_eq!(cpu.registers().f_negative, false);
}

#[test]
fn compare_instructions_use_their_own_register() {
    let mut cpu = machine(&[0xa9, 0x10, 0xa2, 0x20, 0xa0, 0x30, 0xc9, 0x20, 0xe0, 0x20, 0xc0, 0x20]);
    steps(&mut cpu, 4);
    assert_eq!(cpu.registers().f_carry, false);
    assert_eq!(cpu.registers().f_zero, false);
    assert_eq!(cpu.registers().f_negative, true);
    steps(&mut cpu, 1);
    assert_eq!(cpu.registers().f_carry, true);
    assert_eq!(cpu.registers().f_zero, true);
    assert_eq!(cpu.registers().f_negative, false);
    steps(&mut cpu, 1);
    assert_eq!(cpu.registers().f_carry, true);
    assert_eq!(cpu.registers().f_zero, false);
    assert_eq!(cpu.registers().f_negative, false);
    assert_eq!(cpu.registers().reg_a, 0x10);
}

#[test]
fn bit_instruction_copies_operand_bits() {
    let mut cpu = machine(&[0xa9, 0x0f, 0x85, 0x20, 0xa9, 0xc0, 0x85, 0x21, 0xa9, 0x0f, 0x24, 0x21, 0x2c, 0x20, 0x00]);
    steps(&mut cpu, 6);
    assert_eq!(cpu.registers().f_zero, true);
    assert_eq!(cpu.registers().f_negative, true);
    assert_eq!(cpu.registers().f_overflow, true);
    steps(&mut cpu, 1);
    assert_eq!(cpu.registers().f_zero, false);
    assert_eq!(cpu.registers().f_negative, false);
    assert_eq!(cpu.registers().f_overflow, false);
    assert_eq!(cpu.get_cycle_count(), 2 + 3 + 2 + 3 + 2 + 3 + 4);
}

#[test]
fn shifts_work_on_accumulator_and_memory() {
    let mut cpu = machine(&[0xa9, 0x81, 0x0a, 0x85, 0x30, 0x26, 0x30, 0x66, 0x30, 0x4e, 0x30, 0x00, 0x6a]);
    steps(&mut cpu, 2);
    assert_eq!(cpu.registers().reg_a, 0x02);
    assert_eq!(cpu.registers().f_carry, true);
    steps(&mut cpu, 2);
    assert_eq!(cpu.read_u8(0x0030), 0x05);
    assert_eq!(cpu.registers().f_carry, false);
    steps(&mut cpu, 1);
    assert_eq!(cpu.read_u8(0x0030), 0x02);
    assert_eq!(cpu.registers().f_carry, true);
    steps(&mut cpu, 1);
    assert_eq!(cpu.read_u8(0x0030), 0x01);
    assert_eq!(cpu.registers().f_carry, false);
    assert_eq!(cpu.get_cycle_count(), 2 + 2 + 3 + 5 + 5 + 6);
    steps(&mut cpu, 1);
    assert_eq!(cpu.registers().reg_a, 0x01);
}

#[test]
fn stack_instructions_move_accumulator_and_flags() {
    let mut cpu = machine(&[0xa9, 0x80, 0x48, 0x08, 0xa9, 0x00, 0x68, 0x28]);
    steps(&mut cpu, 3);
    assert_eq!(cpu.read_u8(0x01ff), 0x80);
    assert_eq!(cpu.read_u8(0x01fe), 0xb0);
    assert_eq!(cpu.registers().reg_sp, 0xfd);
    assert_eq!(cpu.get_cycle_count(), 8);
    steps(&mut cpu, 2);
    assert_eq!(cpu.registers().reg_a, 0xb0);
    assert_eq!(cpu.registers().f_negative, true);
    assert_eq!(cpu.get_cycle_count(), 14);
    steps(&mut cpu, 1);
    assert_eq!(cpu.get_status_registers(), 0xa0);
    assert_eq!(cpu.registers().reg_sp, 0xff);
    assert_eq!(cpu.get_cycle_count(), 18);
}

#[test]
fn program_counter_wraps_at_the_top_of_memory() {
    let mut bus = Ehbasic::new();
    bus.load(vec![0xa9], 0xffff);
    let mut cpu = MOS6502::new(Box::new(bus));
    cpu.write_u8(0x0000, 0x42);
    let mut regs = cpu.registers();
    regs.reg_pc = 0xffff;
    cpu.set_registers(regs);
    assert!(cpu.checked_step());
    assert_eq!(cpu.registers().reg_a, 0x42);
    assert_eq!(cpu.registers().reg_pc, 0x0001);
}

#[test]
fn history_keeps_the_latest_thousand_instructions() {
    let mut cpu = machine(&vec![0xea; 1005]);
    steps(&mut cpu, 3);
    assert_eq!(cpu.history_len(), 3);
    let latest = cpu.history_frame(0).unwrap();
    assert_eq!(latest.pc, 0x0203);
    assert_eq!(latest.op, 0xea);
    assert_eq!(latest.operation, Operation::Nop);
    assert_eq!(latest.registers, 0x30);
    assert_eq!(cpu.history_frame(2).unwrap().pc, 0x0201);
    assert_eq!(cpu.history_frame(3), None);
    steps(&mut cpu, 1002);
    assert_eq!(cpu.history_len(), 1000);
    assert_eq!(cpu.history_frame(0).unwrap().pc, 0x0200 + 1005);
    assert_eq!(cpu.history_frame(999).unwrap().pc, 0x0200 + 6);
    assert_eq!(cpu.history_frame(1000), None);
}

#[test]
fn history_records_registers_after_the_instruction() {
    let mut cpu = machine(&[0xa9, 0x80, 0xa2, 0x01, 0xa0, 0x02]);
    steps(&mut cpu, 3);
    let frame = cpu.history_frame(0).unwrap();
    assert_eq!((frame.a, frame.x, frame.y), (0x80, 0x01, 0x02));
    assert_eq!(frame.op, 0xa0);
    assert_eq!(frame.operation, Operation::Ldy);
    assert_eq!(frame.pc, 0x0206);
    let first = cpu.history_frame(2).unwrap();
    assert_eq!((first.a, first.x, first.y), (0x80, 0x00, 0x00));
    assert_eq!(first.registers, 0xb0);
    assert_eq!(first.operation, Operation::Lda);
}

#[test]
fn decode_knows_the_documented_opcodes() {
    assert_eq!(
        decode(0x69),
        Some(Instruction { operation: Operation::Adc, mode: AddressMode::Immediate, cycles: 2 })
    );
    assert_eq!(
        decode(0x91),
        Some(Instruction { operation: Operation::Sta, mode: AddressMode::IndirectY, cycles: 6 })
    );
    assert_eq!(
        decode(0xb1),
        Some(Instruction { operation: Operation::Lda, mode: AddressMode::IndirectY, cycles: 5 })
    );
    assert_eq!(
        decode(0x1e),
        Some(Instruction { operation: Operation::Asl, mode: AddressMode::AbsoluteX, cycles: 7 })
    );
    assert_eq!(
        decode(0xbe),
        Some(Instruction { operation: Operation::Ldx, mode: AddressMode::AbsoluteY, cycles: 4 })
    );
    assert_eq!(
        decode(0x96),
        Some(Instruction { operation: Operation::Stx, mode: AddressMode::ZeroPageY, cycles: 4 })
    );
    assert_eq!(
        decode(0x6c),
        Some(Instruction { operation: Operation::Jmp, mode: AddressMode::Indirect, cycles: 5 })
    );
    assert_eq!(
        decode(0x00),
        Some(Instruction { operation: Operation::Brk, mode: AddressMode::Implied, cycles: 7 })
    );
    assert_eq!(
        decode(0xf0),
        Some(Instruction { operation: Operation::Beq, mode: AddressMode::Relative, cycles: 2 })
    );
    assert_eq!(
        decode(0x0a),
        Some(Instruction { operation: Operation::Asl, mode: AddressMode::Accumulator, cycles: 2 })
    );
    for undefined in [0x02u8, 0x03, 0x04, 0x80, 0x89, 0x9e, 0x9c, 0xff, 0x1a, 0x3c] {
        assert_eq!(decode(undefined), None);
    }
    let documented = (0..=255u8).filter(|opcode| decode(*opcode).is_some()).count();
    assert_eq!(documented, 151);
}

#[test]
fn keys_reach_the_bus_through_the_processor() {
    let mut cpu = MOS6502::new(Box::new(Apple1::new()));
    assert!(cpu.key_ready());
    cpu.key_pressed(0x41);
    assert!(!cpu.key_ready());
    assert_eq!(cpu.read_u8(0xd010), 0xc1);
    assert!(cpu.key_ready());
    cpu.write_u8(0xd012, 0xc8);
    cpu.write_u8(0xd012, 0xc9);
    assert_eq!(cpu.take_output(), vec![0x48, 0x49]);
    assert_eq!(cpu.take_output(), Vec::<u8>::new());
}
