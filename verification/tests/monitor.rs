use magpie::apple1::Apple1;
use magpie::cpu::MOS6502;
use magpie::platform::Platform;

fn boot(program: Vec<u8>) -> MOS6502<Apple1> {
    let mut apple = Apple1::new();
    apple.load(program, 0x4000);
    let mut cpu = MOS6502::new(Box::new(apple));
    cpu.reset();
    cpu
}

fn type_line(cpu: &mut MOS6502<Apple1>, line: &str) {
    for key in line.bytes() {
        let mut slices = 0;
        while !cpu.key_ready() {
            cpu.run(2048);
            slices += 1;
            assert!(slices < 100, "the monitor never read the keyboard");
        }
        cpu.key_pressed(key);
        cpu.run(2048);
    }
    cpu.run(20000);
}

fn shown(cpu: &mut MOS6502<Apple1>) -> String {
    cpu.take_output().iter().map(|b| *b as char).collect()
}

#[test]
fn monitor_starts_at_the_reset_vector() {
    let mut cpu = boot(Vec::new());
    assert_eq!(cpu.registers().reg_pc, 0xff00);
    assert!(cpu.is_running());
    assert_eq!(cpu.get_cycle_count(), 0);
}

#[test]
fn monitor_prompts_with_a_backslash() {
    let mut cpu = boot(Vec::new());
    let spent = cpu.run(2048);
    assert!(spent >= 2048);
    assert!(cpu.is_running());
    assert_eq!(shown(&mut cpu), "\\\n");
}

#[test]
fn monitor_examines_memory() {
    let mut cpu = boot(vec![0xa9, 0x41, 0x00]);
    cpu.run(2048);
    type_line(&mut cpu, "4000.4002\r");
    let text = shown(&mut cpu);
    assert!(text.contains("4000: A9 41 00"), "display was {:?}", text);
    assert!(cpu.is_running());
    type_line(&mut cpu, "FF00\r");
    let text = shown(&mut cpu);
    assert!(text.contains("FF00: D8"), "display was {:?}", text);
}

#[test]
fn monitor_stores_and_runs_a_program() {
    let mut cpu = boot(Vec::new());
    cpu.run(2048);
    type_line(&mut cpu, "0300: A9 C8 20 EF FF 00\r");
    assert_eq!(cpu.read_u8(0x0300), 0xa9);
    assert_eq!(cpu.read_u8(0x0305), 0x00);
    shown(&mut cpu);
    type_line(&mut cpu, "0300R\r");
    let text = shown(&mut cpu);
    assert!(text.contains("0300: A9"), "display was {:?}", text);
    assert!(text.ends_with('H'), "display was {:?}", text);
    assert!(!cpu.is_running());
    assert_eq!(cpu.halt(), Some(magpie::machine::Halt::Break));
    assert_eq!(cpu.registers().reg_pc, 0x0306);
    assert_eq!(cpu.registers().reg_a, 0xc8);
}

#[test]
fn program_loaded_at_the_default_base_runs_to_its_break() {
    let mut apple = Apple1::new();
    apple.load(vec![0xa2, 0x03, 0xca, 0xd0, 0xfd, 0x00], 0x4000);
    let mut cpu = MOS6502::new(Box::new(apple));
    cpu.reset();
    let mut regs = cpu.registers();
    regs.reg_pc = 0x4000;
    cpu.set_registers(regs);
    let spent = cpu.run(1000);
    assert_eq!(spent, 2 + 3 * 2 + 2 * 3 + 2 + 7);
    assert!(!cpu.is_running());
    assert_eq!(cpu.registers().reg_x, 0);
    assert_eq!(cpu.registers().reg_pc, 0x4006);
    assert_eq!(cpu.history_len(), 1 + 3 + 3 + 1);
}
