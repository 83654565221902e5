use helium::devices::peripheral::Peripheral;
use helium::devices::stdout_ascii_buffer::CharIOBuffer;
use helium::devices::term_link::TermLinkPort;
use helium::helium::cpu::CPU;
use helium::helium::io_controller::IOController;

fn machine(rom: Vec<u8>) -> CPU<CharIOBuffer> {
    let bus: IOController<CharIOBuffer> = IOController::new(false);
    let mut cpu = CPU::new(bus, rom);
    cpu.start();
    cpu
}

#[test]
fn load_immediate_then_halt() {
    // Load 0x2A into register A, then halt.
    let mut cpu = machine(vec![0x04, 0x2A, 0x00]);
    cpu.next();
    assert_eq!(cpu.registers[0], 0x2A);
    assert!(cpu.is_on);
    cpu.next();
    assert_eq!(cpu.registers[0], 0x2A);
    assert!(!cpu.is_on);
}

#[test]
fn shift_left_sets_carry_from_bit_seven() {
    let mut cpu = machine(vec![0x04, 0b1000_0001, 0x28, 0x00]);
    cpu.next();
    cpu.next();
    assert!(cpu.carry);
    assert_eq!(cpu.registers[0], 0b0000_0010);
}

#[test]
fn shift_right_sets_carry_from_bit_zero() {
    let mut cpu = machine(vec![0x04, 0b1000_0001, 0x24, 0x00]);
    cpu.next();
    cpu.next();
    assert!(cpu.carry);
    assert_eq!(cpu.registers[0], 0b0100_0000);
}

#[test]
fn rotate_right_is_circular() {
    let mut cpu = machine(vec![0x04, 0x81, 0x38, 0x00]);
    cpu.next();
    cpu.next();
    assert!(cpu.carry);
    assert_eq!(cpu.registers[0], 0xC0);
}

#[test]
fn rotate_left_is_circular() {
    let mut cpu = machine(vec![0x04, 0x81, 0x3C, 0x00]);
    cpu.next();
    cpu.next();
    assert!(cpu.carry);
    assert_eq!(cpu.registers[0], 0x03);
}

#[test]
fn program_counter_wraps_from_255_to_0() {
    // An unconditional jump to 255; the byte there is 0 (halt), and the
    // fetch advances the counter from 255 to 0 without failing.
    let mut cpu = machine(vec![0xE0, 0xFF]);
    cpu.next();
    assert_eq!(cpu.program_counter, 255);
    cpu.next();
    assert_eq!(cpu.program_counter, 0);
    assert!(!cpu.is_on);
}

#[test]
fn interrupt_round_trip() {
    // Load 0x10 into A, set the vector from A, enable interrupts, then nops.
    // At the vector sits a return-from-interrupt.
    let mut rom = vec![0x04, 0x10, 0x2C, 0x30, 0x37, 0x37];
    rom.resize(0x10, 0x37);
    rom.push(0x33);
    let mut cpu = machine(rom);
    cpu.next();
    cpu.next();
    cpu.next();
    assert_eq!(cpu.program_counter, 4);
    cpu.interrupt();
    // The next step traps: it saves the counter, jumps to the vector, and
    // executes the return there, which restores the counter.
    cpu.next();
    assert_eq!(cpu.secondary_counter, 4);
    assert_eq!(cpu.program_counter, 4);
    assert!(!cpu.in_interrupt);
    assert!(!cpu.interrupt_req);
}

#[test]
fn interrupt_latches_while_disabled() {
    // A software interrupt with interrupts disabled latches; the request is
    // taken on the first step after re-enabling.
    let mut cpu = machine(vec![0x34, 0x30, 0x37, 0x37]);
    cpu.next();
    assert!(cpu.interrupt_req);
    assert!(!cpu.in_interrupt);
    cpu.next();
    // Enabled only during this step's execute: the take phase had already run.
    assert!(!cpu.in_interrupt);
    cpu.next();
    assert!(cpu.in_interrupt);
    assert_eq!(cpu.secondary_counter, 2);
}

#[test]
fn return_from_interrupt_outside_interrupt_is_a_no_op() {
    let mut cpu = machine(vec![0x33, 0x37]);
    cpu.next();
    assert_eq!(cpu.program_counter, 1);
    assert!(!cpu.in_interrupt);
    assert!(cpu.is_on);
}

#[test]
fn return_outside_interrupt_still_polls_devices() {
    // The post-step runs on every cycle: a device request raised before a
    // step that executes return-from-interrupt with nothing in flight is
    // still polled and latched by that step.
    let mut bus: IOController<Peripheral> = IOController::new(false);
    bus.mount_device(51..54, Peripheral::TermLink(TermLinkPort::new(0b10)));
    let mut cpu = CPU::new(bus, vec![0x33, 0x37]);
    cpu.start();
    match &mut cpu.io_ctl.devices[0].device {
        Peripheral::TermLink(port) => port.note_byte(b'q'),
        _ => unreachable!(),
    }
    cpu.next();
    assert_eq!(cpu.program_counter, 1);
    assert!(cpu.interrupt_req);
    assert_eq!(cpu.interrupt_code, 0b10);
}

#[test]
fn unknown_opcode_is_a_logged_no_op() {
    let mut cpu = machine(vec![0x01, 0x37]);
    cpu.next();
    assert_eq!(cpu.unknown_log, vec![0x01]);
    assert_eq!(cpu.program_counter, 1);
    assert!(cpu.is_on);
}

#[test]
fn store_into_rom_is_rejected() {
    // Store register A at address 0, which the ROM image protects.
    let mut cpu = machine(vec![0x0C, 0x00, 0x37]);
    cpu.next();
    assert_eq!(cpu.memory.get(0), 0x0C);
}

#[test]
fn store_into_ram_lands() {
    let mut cpu = machine(vec![0x04, 0x07, 0x0C, 0x20]);
    cpu.next();
    cpu.next();
    assert_eq!(cpu.memory.get(0x20), 0x07);
}

#[test]
fn register_indirect_load_and_store() {
    // A = 0x99, B = 0x80; store A at mem[B]; load C from mem[B].
    // 0xD1: store reg 0 at mem[reg 1]; 0xC9: load reg 2 from mem[reg 1].
    let mut cpu = machine(vec![0x04, 0x99, 0x05, 0x80, 0xD1, 0xC9, 0x00]);
    cpu.next();
    cpu.next();
    cpu.next();
    assert_eq!(cpu.memory.get(0x80), 0x99);
    cpu.next();
    assert_eq!(cpu.registers[2], 0x99);
}

#[test]
fn add_with_carry_chain() {
    // A = 255, B = 1, then B = A + B: wraps to 0 with carry and zero set.
    let mut cpu = machine(vec![0x04, 0xFF, 0x05, 0x01, 0x41, 0x00]);
    cpu.next();
    cpu.next();
    cpu.next();
    assert_eq!(cpu.registers[1], 0);
    assert!(cpu.carry);
    assert!(cpu.zero);
}

#[test]
fn subtract_takes_the_plus_one_route() {
    // A = 3, B = 8, then B = B - A + 1 = 6.
    let mut cpu = machine(vec![0x04, 0x03, 0x05, 0x08, 0x51, 0x00]);
    cpu.next();
    cpu.next();
    cpu.next();
    assert_eq!(cpu.registers[1], 6);
    assert!(!cpu.carry);
    assert!(!cpu.overflow);
}

#[test]
fn logic_ops_update_zero_and_signed_only() {
    // A = 0xF0, B = 0x0F, then B = A & B = 0: zero set, signed clear.
    let mut cpu = machine(vec![0x04, 0xF0, 0x05, 0x0F, 0x81, 0x00]);
    cpu.next();
    cpu.next();
    cpu.next();
    assert_eq!(cpu.registers[1], 0);
    assert!(cpu.zero);
    assert!(!cpu.signed);
    assert!(!cpu.carry);
}

#[test]
fn flag_swap_exchanges_flags_and_register() {
    // A = 0b1111, then swap: every flag comes on, A takes the old flag byte.
    let mut cpu = machine(vec![0x04, 0x0F, 0x20, 0x00]);
    cpu.next();
    cpu.next();
    assert_eq!(cpu.registers[0], 0);
    assert!(cpu.signed && cpu.carry && cpu.overflow && cpu.zero);
}

#[test]
fn flags_pack_and_unpack() {
    let bus: IOController<CharIOBuffer> = IOController::new(false);
    let mut cpu = CPU::new(bus, Vec::new());
    cpu.flags_from_u8(0b1010);
    assert!(cpu.signed);
    assert!(!cpu.carry);
    assert!(cpu.overflow);
    assert!(!cpu.zero);
    assert_eq!(cpu.flags_into_u8(), 0b1010);
}

#[test]
fn conditional_jump_not_taken_falls_through() {
    // Jump-if-carry with carry clear: execution continues past the operand.
    let mut cpu = machine(vec![0xE2, 0x10, 0x37]);
    cpu.next();
    assert_eq!(cpu.program_counter, 2);
}

#[test]
fn conditional_jump_taken_on_carry() {
    // A = 255, A = A + A sets carry, then jump-if-carry to 0.
    let mut cpu = machine(vec![0x04, 0xFF, 0x40, 0xE2, 0x00]);
    cpu.next();
    cpu.next();
    assert!(cpu.carry);
    cpu.next();
    assert_eq!(cpu.program_counter, 0);
}

#[test]
fn relative_jump_adds_to_the_counter() {
    let mut cpu = machine(vec![0xF0, 0x03, 0x37, 0x37, 0x37, 0x00]);
    cpu.next();
    assert_eq!(cpu.program_counter, 5);
}

#[test]
fn soft_reset_zeroes_state_but_keeps_memory() {
    let mut cpu = machine(vec![0x04, 0x05, 0x36, 0x37]);
    cpu.next();
    assert_eq!(cpu.registers[0], 5);
    cpu.next();
    assert_eq!(cpu.registers[0], 0);
    assert_eq!(cpu.program_counter, 0);
    assert!(!cpu.carry && !cpu.overflow && !cpu.zero && !cpu.signed);
    assert_eq!(cpu.memory.get(0), 0x04);
    assert!(cpu.is_on);
}

#[test]
fn out_instruction_reaches_a_mounted_device() {
    let mut bus: IOController<CharIOBuffer> = IOController::new(false);
    bus.mount_device(0..50, CharIOBuffer::new());
    let mut cpu = CPU::new(bus, vec![0x04, 0x41, 0x18, 0x05, 0x00]);
    cpu.start();
    cpu.next();
    cpu.next();
    assert_eq!(cpu.io_ctl.devices[0].device.buffer[5], 0x41);
}

#[test]
fn in_instruction_reads_a_mounted_device() {
    let mut bus: IOController<CharIOBuffer> = IOController::new(false);
    bus.mount_device(0..50, CharIOBuffer::new());
    let mut cpu = CPU::new(bus, vec![0x10, 0x06, 0x00]);
    cpu.io_ctl.devices[0].device.buffer[6] = 0x55;
    cpu.start();
    cpu.next();
    assert_eq!(cpu.registers[0], 0x55);
}

#[test]
fn device_interrupt_latches_for_the_next_step() {
    // A terminal-link byte arrival is polled after the execute phase and
    // taken at the start of the following step.
    let mut bus: IOController<Peripheral> = IOController::new(false);
    bus.mount_device(51..54, Peripheral::TermLink(TermLinkPort::new(0b100)));
    // Set vector 0x10, enable interrupts, nops; 0x33 (return) at the vector.
    let mut rom = vec![0x04, 0x10, 0x2C, 0x30, 0x37, 0x37, 0x37];
    rom.resize(0x10, 0x37);
    rom.push(0x33);
    let mut cpu = CPU::new(bus, rom);
    cpu.start();
    cpu.next();
    cpu.next();
    cpu.next();
    match &mut cpu.io_ctl.devices[0].device {
        Peripheral::TermLink(port) => port.note_byte(b'k'),
        _ => unreachable!(),
    }
    // This step polls the device after executing: the request latches.
    cpu.next();
    assert!(cpu.interrupt_req);
    assert_eq!(cpu.interrupt_code, 0b100);
    // The following step takes it: the trap saves the counter, the return
    // at the vector restores it.
    cpu.next();
    assert_eq!(cpu.program_counter, 5);
    assert!(!cpu.in_interrupt);
}

#[test]
fn out_to_term_link_write_slot() {
    let mut bus: IOController<Peripheral> = IOController::new(false);
    bus.mount_device(51..54, Peripheral::TermLink(TermLinkPort::new(1)));
    let mut cpu = CPU::new(bus, vec![0x04, 0x5A, 0x18, 53, 0x00]);
    cpu.start();
    cpu.next();
    cpu.next();
    match &mut cpu.io_ctl.devices[0].device {
        Peripheral::TermLink(port) => assert_eq!(port.take_output(), Some(0x5A)),
        _ => unreachable!(),
    }
}
