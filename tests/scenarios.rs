use r8080::cpu::{Interpreter8080, Register16, RegisterFlags, Registers, CPU8080};
use r8080::{Bus8080, Device8080, Memory, SystemBus};

/// Port 0 stops the processor; port 1 makes the CP/M console calls
/// (C = 2 prints E, C = 9 prints the `$`-terminated string at DE).
struct ConsoleDevice {
    output: Vec<u8>,
}

impl Device8080 for ConsoleDevice {
    fn in_b(&mut self, _: &mut Registers, _: &mut Memory, _: u8) -> u8 {
        0xFF
    }

    fn out_b(&mut self, regs: &mut Registers, memory: &mut Memory, port: u8, _: u8) {
        match port {
            0x00 => regs.running = false,
            0x01 => match regs.c {
                0x02 => self.output.push(regs.e),
                0x09 => {
                    let mut address = regs.get_16(&Register16::DE);
                    while memory.read_b(address) != b'$' {
                        self.output.push(memory.read_b(address));
                        address = address.wrapping_add(1);
                    }
                }
                other => panic!("undefined console call {:02X}", other),
            },
            other => panic!("out to unconnected port {:02X}", other),
        }
    }
}

fn machine(at: u16, program: &[u8]) -> Interpreter8080<SystemBus<ConsoleDevice>> {
    let mut bus = SystemBus::new(ConsoleDevice { output: Vec::new() });
    bus.write_buffer(at, program.to_vec());
    let mut cpu = Interpreter8080::new(bus);
    cpu.force_jump(at);
    cpu
}

#[test]
fn mvi_add_out_stops_with_sum() {
    let mut cpu = machine(0, &[0x3E, 0x05, 0x06, 0x03, 0x80, 0xD3, 0x00]);
    cpu.run();
    let r = cpu.registers();
    assert_eq!(r.a, 8);
    assert!(!r.get_flag(RegisterFlags::Carry));
    assert!(!r.get_flag(RegisterFlags::HalfCarry));
    assert!(!r.get_flag(RegisterFlags::Zero));
    assert!(!r.get_flag(RegisterFlags::Sign));
    assert!(!r.get_flag(RegisterFlags::Parity));
    assert!(!cpu.is_running());
}

#[test]
fn adi_wraps_to_zero_with_carry_and_half_carry() {
    let mut cpu = machine(0, &[0x3E, 0xFF, 0xC6, 0x01, 0xD3, 0x00]);
    cpu.run();
    let r = cpu.registers();
    assert_eq!(r.a, 0);
    assert!(r.get_flag(RegisterFlags::Zero));
    assert!(r.get_flag(RegisterFlags::Carry));
    assert!(r.get_flag(RegisterFlags::HalfCarry));
    assert!(r.get_flag(RegisterFlags::Parity));
    assert!(!r.get_flag(RegisterFlags::Sign));
}

/// A CP/M-style run: OUT 0 at 0x0000 stops, OUT 1; RET at 0x0005 is the console.
fn cpm_machine(program: &[u8]) -> Interpreter8080<SystemBus<ConsoleDevice>> {
    let mut cpu = machine(0x0100, program);
    let mut bus = SystemBus::new(ConsoleDevice { output: Vec::new() });
    bus.write_buffer(0x0000, vec![0xD3, 0x00]);
    bus.write_buffer(0x0005, vec![0xD3, 0x01, 0xC9]);
    bus.write_buffer(0x0100, program.to_vec());
    cpu.set_bus(bus);
    cpu
}

#[test]
fn console_calls_print_a_string_and_a_character() {
    let mut program = vec![
        0x31, 0x00, 0xF0, // LXI SP, 0xF000
        0x0E, 0x09, // MVI C, 9
        0x11, 0x20, 0x01, // LXI D, 0x0120
        0xCD, 0x05, 0x00, // CALL 5
        0x0E, 0x02, // MVI C, 2
        0x1E, b'!', // MVI E, '!'
        0xCD, 0x05, 0x00, // CALL 5
        0xC3, 0x00, 0x00, // JMP 0
    ];
    program.resize(0x20, 0);
    program.extend_from_slice(b"8080 OK$");
    let mut cpu = cpm_machine(&program);
    cpu.run();
    assert_eq!(cpu.get_bus().device.output, b"8080 OK!".to_vec());
    assert!(!cpu.is_running());
}

#[test]
fn push_then_pop_gives_each_pair_back() {
    // LXI SP,0x8000; LXI B,0x1234; LXI D,0x5678; LXI H,0x9ABC;
    // PUSH B; POP B; PUSH D; POP D; PUSH H; POP H; OUT 0
    let mut cpu = machine(
        0,
        &[
            0x31, 0x00, 0x80, 0x01, 0x34, 0x12, 0x11, 0x78, 0x56, 0x21, 0xBC, 0x9A, 0xC5, 0xC1,
            0xD5, 0xD1, 0xE5, 0xE1, 0xD3, 0x00,
        ],
    );
    cpu.run();
    let r = cpu.registers();
    assert_eq!(r.get_16(&Register16::BC), 0x1234);
    assert_eq!(r.get_16(&Register16::DE), 0x5678);
    assert_eq!(r.get_16(&Register16::HL), 0x9ABC);
    assert_eq!(r.sp, 0x8000);
    assert_eq!(cpu.get_bus().read_w(0x7FFE), 0x9ABC);
}

#[test]
fn push_pop_psw_fixes_the_reserved_flag_bits() {
    // LXI SP,0x8000; LXI H,0x42FF; PUSH H; POP PSW; PUSH PSW; POP PSW; OUT 0
    let mut cpu = machine(
        0,
        &[0x31, 0x00, 0x80, 0x21, 0xFF, 0x42, 0xE5, 0xF1, 0xF5, 0xF1, 0xD3, 0x00],
    );
    cpu.run();
    let r = cpu.registers();
    assert_eq!(r.a, 0x42);
    assert_eq!(r.f, 0xD7);
    assert_eq!(r.f & 0x02, 0x02);
    assert_eq!(r.f & 0x28, 0);
    assert_eq!(r.sp, 0x8000);
    assert_eq!(cpu.get_bus().read_w(0x7FFE), 0x42D7);
}

#[test]
fn two_exchanges_restore_de_and_hl() {
    // LXI D,0x1111; LXI H,0x2222; XCHG; OUT 0
    let mut cpu = machine(0, &[0x11, 0x11, 0x11, 0x21, 0x22, 0x22, 0xEB, 0xD3, 0x00]);
    cpu.run();
    assert_eq!(cpu.registers().get_16(&Register16::DE), 0x2222);
    assert_eq!(cpu.registers().get_16(&Register16::HL), 0x1111);
    let mut cpu = machine(0, &[0x11, 0x11, 0x11, 0x21, 0x22, 0x22, 0xEB, 0xEB, 0xD3, 0x00]);
    cpu.run();
    assert_eq!(cpu.registers().get_16(&Register16::DE), 0x1111);
    assert_eq!(cpu.registers().get_16(&Register16::HL), 0x2222);
}

#[test]
fn call_then_ret_returns_after_the_call() {
    // 0x0000: LXI SP,0x4000; CALL 0x0010; OUT 0   0x0010: RET
    let mut program = vec![0x31, 0x00, 0x40, 0xCD, 0x10, 0x00, 0xD3, 0x00];
    program.resize(0x10, 0);
    program.push(0xC9);
    let mut cpu = machine(0, &program);
    cpu.step();
    cpu.step();
    assert_eq!(cpu.registers().pc, 0x0010);
    assert_eq!(cpu.registers().sp, 0x3FFE);
    assert_eq!(cpu.get_bus().read_w(0x3FFE), 0x0006);
    cpu.step();
    assert_eq!(cpu.registers().pc, 0x0006);
    assert_eq!(cpu.registers().sp, 0x4000);
    assert_eq!(cpu.get_executed_cycles(), 10 + 17 + 10);
}

#[test]
fn cycles_add_up_over_a_program() {
    // MVI A,5 (7); MVI B,3 (7); ADD B (4); LXI H,0x2000 (10); MOV M,A (7);
    // INR M (10); DCX H (5); NOP (4); OUT 0 (10)
    let mut cpu = machine(
        0,
        &[0x3E, 0x05, 0x06, 0x03, 0x80, 0x21, 0x00, 0x20, 0x77, 0x34, 0x2B, 0x00, 0xD3, 0x00],
    );
    cpu.run();
    assert_eq!(cpu.get_executed_cycles(), 7 + 7 + 4 + 10 + 7 + 10 + 5 + 4 + 10);
    assert_eq!(cpu.get_bus().read_b(0x2000), 9);
}

#[test]
fn conditional_branches_charge_taken_and_not_taken() {
    // XRA A (Z set, 4); CNZ (not taken, 11); CZ 0x0020 (taken, 17)
    // 0x0020: RNZ (not taken, 5); RZ (taken, 11)
    let mut program = vec![0xAF, 0xC4, 0x00, 0x30, 0xCC, 0x20, 0x00, 0xD3, 0x00];
    program.resize(0x20, 0);
    program.extend_from_slice(&[0xC0, 0xC8]);
    let mut cpu = machine(0, &program);
    for _ in 0..5 {
        cpu.step();
    }
    assert_eq!(cpu.registers().pc, 0x0007);
    assert_eq!(cpu.get_executed_cycles(), 4 + 11 + 17 + 5 + 11);
    cpu.run();
    assert_eq!(cpu.get_executed_cycles(), 4 + 11 + 17 + 5 + 11 + 10);
}

#[test]
fn halt_waits_for_an_interrupt() {
    // EI; HLT; then RST 1 injected: 0x0008 holds OUT 0
    let mut program = vec![0x31, 0x00, 0x40, 0xFB, 0x76];
    program.resize(8, 0);
    program.extend_from_slice(&[0xD3, 0x00]);
    let mut cpu = machine(0, &program);
    cpu.step();
    cpu.step();
    cpu.step();
    assert!(cpu.registers().halting);
    assert_eq!(cpu.registers().pc, 0x0005);
    let cycles = cpu.get_executed_cycles();
    cpu.step();
    assert_eq!(cpu.registers().pc, 0x0005);
    assert_eq!(cpu.get_executed_cycles(), cycles);
    cpu.push_interrupt(0xCF);
    cpu.step();
    assert!(!cpu.registers().halting);
    assert_eq!(cpu.registers().pc, 0x0008);
    assert_eq!(cpu.registers().sp, 0x3FFE);
    assert_eq!(cpu.get_bus().read_w(0x3FFE), 0x0005);
    cpu.run();
    assert!(!cpu.is_running());
}

#[test]
fn disabled_interrupts_leave_the_line_pending() {
    // DI; NOP; OUT 0, the line raised once DI has run
    let program = [0xF3, 0x00, 0xD3, 0x00];
    let mut cpu = machine(0, &program);
    cpu.step();
    assert!(!cpu.registers().interrupts);
    cpu.push_interrupt(0xFF);
    assert!(cpu.get_bus().has_interrupt());
    cpu.run();
    assert_eq!(cpu.registers().pc, 0x0004);
    assert_eq!(cpu.get_bus().pending, vec![0xFF]);
}

#[test]
fn stack_exchange_and_sixteen_bit_memory() {
    // LXI SP,0x5000; LXI H,0x1234; SHLD 0x5000; LXI H,0xABCD; XTHL;
    // LHLD 0x5000 -> HL = 0xABCD after XTHL stored it; DAD H; OUT 0
    let mut cpu = machine(
        0,
        &[
            0x31, 0x00, 0x50, 0x21, 0x34, 0x12, 0x22, 0x00, 0x50, 0x21, 0xCD, 0xAB, 0xE3, 0xD3,
            0x00,
        ],
    );
    cpu.run();
    assert_eq!(cpu.registers().get_16(&Register16::HL), 0x1234);
    assert_eq!(cpu.get_bus().read_w(0x5000), 0xABCD);
    let mut cpu = machine(0, &[0x21, 0x00, 0x90, 0x29, 0xD3, 0x00]);
    cpu.run();
    assert_eq!(cpu.registers().get_16(&Register16::HL), 0x2000);
    assert!(cpu.registers().get_flag(RegisterFlags::Carry));
}

#[test]
fn in_reads_the_port_into_a() {
    let mut cpu = machine(0, &[0xDB, 0x10, 0xD3, 0x00]);
    cpu.run();
    assert_eq!(cpu.registers().a, 0xFF);
    assert_eq!(cpu.get_executed_cycles(), 20);
}

#[test]
fn decimal_add_through_daa() {
    // MVI A,0x38; ADI 0x45; DAA; OUT 0  -> 0x83
    let mut cpu = machine(0, &[0x3E, 0x38, 0xC6, 0x45, 0x27, 0xD3, 0x00]);
    cpu.run();
    assert_eq!(cpu.registers().a, 0x83);
    assert!(!cpu.registers().get_flag(RegisterFlags::Carry));
}

#[test]
fn run_for_stops_at_its_limit() {
    // JMP 0 forever
    let mut cpu = machine(0, &[0xC3, 0x00, 0x00]);
    assert_eq!(cpu.run_for(100), 100);
    assert!(cpu.is_running());
    assert_eq!(cpu.get_executed_cycles(), 1000);
    cpu.stop();
    assert_eq!(cpu.run_for(100), 0);
}

#[test]
fn pc_wraps_past_the_top_of_memory() {
    let mut bus = SystemBus::new(ConsoleDevice { output: Vec::new() });
    bus.write_buffer(0xFFFF, vec![0x00]);
    bus.write_buffer(0x0000, vec![0xD3, 0x00]);
    let mut cpu = Interpreter8080::new(bus);
    cpu.force_jump(0xFFFF);
    cpu.step();
    assert_eq!(cpu.registers().pc, 0x0000);
    cpu.run();
    assert_eq!(cpu.registers().pc, 0x0002);
    assert_eq!(cpu.get_executed_cycles(), 4 + 10);
}

#[test]
fn buffer_may_end_at_the_last_address() {
    let mut bus = SystemBus::new(ConsoleDevice { output: Vec::new() });
    bus.write_buffer(0xFFFE, vec![0x11, 0x22]);
    assert_eq!(bus.read_w(0xFFFE), 0x2211);
    assert_eq!(bus.read_b(0x0000), 0x00);
}

#[test]
fn stack_pointer_wraps_on_push() {
    // SP starts at 0: PUSH B stores at 0xFFFE; POP D brings it back to 0
    let mut cpu = machine(0x100, &[0x01, 0xEF, 0xBE, 0xC5, 0xD1, 0xD3, 0x00]);
    cpu.run();
    assert_eq!(cpu.get_bus().read_w(0xFFFE), 0xBEEF);
    assert_eq!(cpu.registers().get_16(&Register16::DE), 0xBEEF);
    assert_eq!(cpu.registers().sp, 0x0000);
}

#[test]
fn interrupts_are_taken_oldest_first_between_instructions() {
    // LXI SP,0x4000; NOP; ... 0x0008: OUT 0 ; 0x0010: NOP, NOP, ...
    let mut program = vec![0x31, 0x00, 0x40, 0x00];
    program.resize(8, 0);
    program.extend_from_slice(&[0xD3, 0x00]);
    let mut cpu = machine(0, &program);
    cpu.step();
    cpu.push_interrupt(0xD7);
    cpu.push_interrupt(0xCF);
    cpu.step();
    assert_eq!(cpu.registers().pc, 0x0010);
    assert_eq!(cpu.get_bus().read_w(0x3FFE), 0x0003);
    cpu.step();
    assert_eq!(cpu.registers().pc, 0x0008);
    assert_eq!(cpu.get_bus().read_w(0x3FFC), 0x0010);
    assert!(!cpu.get_bus().has_interrupt());
    cpu.run();
    assert_eq!(cpu.get_executed_cycles(), 10 + 17 + 17 + 10);
}

#[test]
fn run_leaves_a_stopped_processor_as_it_is() {
    let mut cpu = machine(0, &[0x3E, 0x05, 0xD3, 0x00]);
    cpu.stop();
    cpu.run();
    assert_eq!(cpu.registers().pc, 0);
    assert_eq!(cpu.registers().a, 0);
    assert_eq!(cpu.get_executed_cycles(), 0);
}
