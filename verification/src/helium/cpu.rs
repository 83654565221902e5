//! The execution engine: fetch, decode, execute, and the interrupt protocol.
//!
//! One call of [`CPU::next`] performs a full cycle: take a latched interrupt
//! (if enabled, pending and none in flight), fetch the opcode at the program
//! counter, decode it by its fixed bit fields, execute it, then fan the
//! per-cycle update out to the bus and poll the devices, latching any
//! aggregated interrupt request for the next cycle. The whole cycle is
//! specified by [`step_spec`], a function on the machine's abstract state.

use vstd::prelude::*;
use crate::devices::device::Device;
use crate::helium::alu;
use crate::helium::io_controller::{
    bus_after_poll, bus_read, bus_reset, bus_startup, bus_update, bus_write, poll_code, poll_log,
    BusView, IOController, LogLine,
};
use crate::helium::memory::{MemView, MemoryControl};

verus! {

/// A decoded instruction: one variant per opcode family, carrying the
/// operand fields extracted from the opcode byte.
#[derive(Clone, Copy, PartialEq, Eq, Structural, Debug)]
pub enum Instr {
    /// Stop the machine.
    Halt,
    /// Load the next byte into the register.
    LoadImm { reg: u8 },
    /// Load the memory byte at the immediate address into the register.
    LoadMem { reg: u8 },
    /// Store the register at the immediate memory address.
    StoreMem { reg: u8 },
    /// Read the bus at the immediate I/O address into the register.
    InImm { reg: u8 },
    /// Read the bus at the I/O address held by the register the operand names.
    InReg { reg: u8 },
    /// Write the register to the bus at the immediate I/O address.
    OutImm { reg: u8 },
    /// Write the register to the bus at the I/O address held by the register
    /// the operand names.
    OutReg { reg: u8 },
    /// Swap the packed flag byte with the register.
    FlagSwap { reg: u8 },
    /// Logical shift right by one; carry takes the bit shifted out.
    ShiftRight { reg: u8 },
    /// Logical shift left by one; carry takes the bit shifted out.
    ShiftLeft { reg: u8 },
    /// Set the interrupt vector from the register.
    SetIntVector { reg: u8 },
    /// Enable interrupts.
    IntEnable,
    /// Clear a pending interrupt request.
    IntClear,
    /// Disable interrupts.
    IntDisable,
    /// Return from an in-flight interrupt; a no-op when none is in flight.
    IntReturn,
    /// Raise a software interrupt with code 0.
    IntCall,
    /// Read the latched interrupt code into register 0.
    IntGetCode,
    /// Soft reset of the whole machine.
    SysReset,
    /// No operation.
    Nop,
    /// Rotate right by one; carry takes the bit rotated out.
    RotateRight { reg: u8 },
    /// Rotate left by one; carry takes the bit rotated out.
    RotateLeft { reg: u8 },
    /// Add register `reg_a` into `reg_b` with carry-in; `save` stores the sum.
    Add { reg_a: u8, reg_b: u8, save: bool },
    /// Subtract along `reg_b - reg_a` then `+ 1`; `save` stores the result.
    Sub { reg_a: u8, reg_b: u8, save: bool },
    /// Bitwise AND of the two registers into `reg_b`.
    And { reg_a: u8, reg_b: u8 },
    /// Bitwise XOR of the two registers into `reg_b`.
    Xor { reg_a: u8, reg_b: u8 },
    /// Bitwise OR of the two registers into `reg_b`.
    Or { reg_a: u8, reg_b: u8 },
    /// Copy register `reg_a` into `reg_b`.
    Move { reg_a: u8, reg_b: u8 },
    /// Load `reg_a` from the memory address held by `reg_b`.
    LoadInd { reg_a: u8, reg_b: u8 },
    /// Store `reg_a` at the memory address held by `reg_b`.
    StoreInd { reg_a: u8, reg_b: u8 },
    /// Conditional absolute jump; the target is the next byte, or the
    /// register it names when `indirect`.
    Jump { condition: u8, indirect: bool },
    /// Conditional relative jump; the offset is the next byte, or the
    /// register it names when `indirect`; the target wraps modulo 256.
    JumpRel { condition: u8, indirect: bool },
    /// Any opcode outside every family: a diagnostic no-op.
    Unknown { opcode: u8 },
}

/// The decode table: total over all 256 opcode bytes. The leading bits pick
/// the family, the trailing bits the 2-bit register operands, the 3-bit
/// condition code or the 1-bit addressing mode.
pub open spec fn decode(op: u8) -> Instr {
    if op == 0x00 {
        Instr::Halt
    } else if op / 4 == 1 {
        Instr::LoadImm { reg: op % 4 }
    } else if op / 4 == 2 {
        Instr::LoadMem { reg: op % 4 }
    } else if op / 4 == 3 {
        Instr::StoreMem { reg: op % 4 }
    } else if op / 4 == 4 {
        Instr::InImm { reg: op % 4 }
    } else if op / 4 == 5 {
        Instr::InReg { reg: op % 4 }
    } else if op / 4 == 6 {
        Instr::OutImm { reg: op % 4 }
    } else if op / 4 == 7 {
        Instr::OutReg { reg: op % 4 }
    } else if op / 4 == 8 {
        Instr::FlagSwap { reg: op % 4 }
    } else if op / 4 == 9 {
        Instr::ShiftRight { reg: op % 4 }
    } else if op / 4 == 10 {
        Instr::ShiftLeft { reg: op % 4 }
    } else if op / 4 == 11 {
        Instr::SetIntVector { reg: op % 4 }
    } else if op == 0x30 {
        Instr::IntEnable
    } else if op == 0x31 {
        Instr::IntClear
    } else if op == 0x32 {
        Instr::IntDisable
    } else if op == 0x33 {
        Instr::IntReturn
    } else if op == 0x34 {
        Instr::IntCall
    } else if op == 0x35 {
        Instr::IntGetCode
    } else if op == 0x36 {
        Instr::SysReset
    } else if op == 0x37 {
        Instr::Nop
    } else if op / 4 == 14 {
        Instr::RotateRight { reg: op % 4 }
    } else if op / 4 == 15 {
        Instr::RotateLeft { reg: op % 4 }
    } else if op / 16 == 4 {
        Instr::Add { reg_a: (op / 4) % 4, reg_b: op % 4, save: true }
    } else if op / 16 == 5 {
        Instr::Sub { reg_a: (op / 4) % 4, reg_b: op % 4, save: true }
    } else if op / 16 == 6 {
        Instr::Add { reg_a: (op / 4) % 4, reg_b: op % 4, save: false }
    } else if op / 16 == 7 {
        Instr::Sub { reg_a: (op / 4) % 4, reg_b: op % 4, save: false }
    } else if op / 16 == 8 {
        Instr::And { reg_a: (op / 4) % 4, reg_b: op % 4 }
    } else if op / 16 == 9 {
        Instr::Xor { reg_a: (op / 4) % 4, reg_b: op % 4 }
    } else if op / 16 == 10 {
        Instr::Or { reg_a: (op / 4) % 4, reg_b: op % 4 }
    } else if op / 16 == 11 {
        Instr::Move { reg_a: (op / 4) % 4, reg_b: op % 4 }
    } else if op / 16 == 12 {
        Instr::LoadInd { reg_a: (op / 4) % 4, reg_b: op % 4 }
    } else if op / 16 == 13 {
        Instr::StoreInd { reg_a: (op / 4) % 4, reg_b: op % 4 }
    } else if op / 16 == 14 {
        Instr::Jump { condition: (op / 2) % 8, indirect: op % 2 == 1 }
    } else if op / 16 == 15 {
        Instr::JumpRel { condition: (op / 2) % 8, indirect: op % 2 == 1 }
    } else {
        Instr::Unknown { opcode: op }
    }
}

/// Decodes one opcode byte, exactly as [`decode`] does.
pub fn decode_instr(op: u8) -> (i: Instr)
    ensures
        i == decode(op),
        instr_wf(i),
{
    if op == 0x00 {
        Instr::Halt
    } else if op / 4 == 1 {
        Instr::LoadImm { reg: op % 4 }
    } else if op / 4 == 2 {
        Instr::LoadMem { reg: op % 4 }
    } else if op / 4 == 3 {
        Instr::StoreMem { reg: op % 4 }
    } else if op / 4 == 4 {
        Instr::InImm { reg: op % 4 }
    } else if op / 4 == 5 {
        Instr::InReg { reg: op % 4 }
    } else if op / 4 == 6 {
        Instr::OutImm { reg: op % 4 }
    } else if op / 4 == 7 {
        Instr::OutReg { reg: op % 4 }
    } else if op / 4 == 8 {
        Instr::FlagSwap { reg: op % 4 }
    } else if op / 4 == 9 {
        Instr::ShiftRight { reg: op % 4 }
    } else if op / 4 == 10 {
        Instr::ShiftLeft { reg: op % 4 }
    } else if op / 4 == 11 {
        Instr::SetIntVector { reg: op % 4 }
    } else if op == 0x30 {
        Instr::IntEnable
    } else if op == 0x31 {
        Instr::IntClear
    } else if op == 0x32 {
        Instr::IntDisable
    } else if op == 0x33 {
        Instr::IntReturn
    } else if op == 0x34 {
        Instr::IntCall
    } else if op == 0x35 {
        Instr::IntGetCode
    } else if op == 0x36 {
        Instr::SysReset
    } else if op == 0x37 {
        Instr::Nop
    } else if op / 4 == 14 {
        Instr::RotateRight { reg: op % 4 }
    } else if op / 4 == 15 {
        Instr::RotateLeft { reg: op % 4 }
    } else if op / 16 == 4 {
        Instr::Add { reg_a: (op / 4) % 4, reg_b: op % 4, save: true }
    } else if op / 16 == 5 {
        Instr::Sub { reg_a: (op / 4) % 4, reg_b: op % 4, save: true }
    } else if op / 16 == 6 {
        Instr::Add { reg_a: (op / 4) % 4, reg_b: op % 4, save: false }
    } else if op / 16 == 7 {
        Instr::Sub { reg_a: (op / 4) % 4, reg_b: op % 4, save: false }
    } else if op / 16 == 8 {
        Instr::And { reg_a: (op / 4) % 4, reg_b: op % 4 }
    } else if op / 16 == 9 {
        Instr::Xor { reg_a: (op / 4) % 4, reg_b: op % 4 }
    } else if op / 16 == 10 {
        Instr::Or { reg_a: (op / 4) % 4, reg_b: op % 4 }
    } else if op / 16 == 11 {
        Instr::Move { reg_a: (op / 4) % 4, reg_b: op % 4 }
    } else if op / 16 == 12 {
        Instr::LoadInd { reg_a: (op / 4) % 4, reg_b: op % 4 }
    } else if op / 16 == 13 {
        Instr::StoreInd { reg_a: (op / 4) % 4, reg_b: op % 4 }
    } else if op / 16 == 14 {
        Instr::Jump { condition: (op / 2) % 8, indirect: op % 2 == 1 }
    } else if op / 16 == 15 {
        Instr::JumpRel { condition: (op / 2) % 8, indirect: op % 2 == 1 }
    } else {
        Instr::Unknown { opcode: op }
    }
}

/// Abstract state of the whole machine: the engine's context plus the
/// abstract states of the memory and the bus.
#[verifier::ext_equal]
pub ghost struct MachineView<DV> {
    pub regs: Seq<u8>,
    pub instruction_reg: u8,
    pub program_counter: u8,
    pub secondary_counter: u8,
    pub interrupt_addr: u8,
    pub interrupt_code: u8,
    pub interrupt_req: bool,
    pub interrupt_enabled: bool,
    pub in_interrupt: bool,
    pub carry: bool,
    pub overflow: bool,
    pub zero: bool,
    pub signed: bool,
    pub memory: MemView,
    pub bus: BusView<DV>,
    pub is_on: bool,
    pub unknown_log: Seq<u8>,
}

impl<DV> MachineView<DV> {
    /// Four registers and a full-size memory.
    pub open spec fn wf(self) -> bool {
        self.regs.len() == 4 && self.memory.wf()
    }
}

/// The counter value after one wrapping increment.
pub open spec fn wrap_inc(v: u8) -> u8 {
    if v == 255 {
        0u8
    } else {
        (v + 1) as u8
    }
}

/// The sum of counter and offset, wrapping modulo 256.
pub open spec fn wrap_add(a: u8, b: u8) -> u8 {
    ((a + b) % 256) as u8
}

/// The register byte shifted left by one, truncated.
pub open spec fn shl1(v: u8) -> u8 {
    ((v * 2) % 256) as u8
}

/// The register byte shifted right by one.
pub open spec fn shr1(v: u8) -> u8 {
    v / 2
}

/// The register byte rotated right by one: bit 0 moves to bit 7.
pub open spec fn rotr1(v: u8) -> u8 {
    (v / 2 + (v % 2) * 128) as u8
}

/// The register byte rotated left by one: bit 7 moves to bit 0.
pub open spec fn rotl1(v: u8) -> u8 {
    ((v * 2) % 256 + v / 128) as u8
}

/// The four flags packed into one byte: bit 3 signed, bit 2 carry,
/// bit 1 overflow, bit 0 zero.
pub open spec fn pack_flags(signed: bool, carry: bool, overflow: bool, zero: bool) -> u8 {
    ((if signed { 8int } else { 0int }) + (if carry { 4int } else { 0int }) + (if overflow {
        2int
    } else {
        0int
    }) + (if zero { 1int } else { 0int })) as u8
}

/// Whether the jump condition holds of the current flags. The eight codes:
/// always; carry set/clear; overflow set/clear; zero set/clear; signed set.
pub open spec fn cond_holds<DV>(m: MachineView<DV>, condition: u8) -> bool {
    if condition == 0 {
        true
    } else if condition == 1 {
        m.carry
    } else if condition == 2 {
        !m.carry
    } else if condition == 3 {
        m.overflow
    } else if condition == 4 {
        !m.overflow
    } else if condition == 5 {
        m.zero
    } else if condition == 6 {
        !m.zero
    } else {
        m.signed
    }
}

/// The interrupt-take phase: with interrupts enabled, none in flight and a
/// request pending, the program counter is saved into the secondary counter
/// and execution traps to the vector; otherwise nothing moves.
pub open spec fn take_interrupt_step<DV>(m: MachineView<DV>) -> MachineView<DV> {
    if m.interrupt_enabled && !m.in_interrupt && m.interrupt_req {
        MachineView {
            in_interrupt: true,
            interrupt_req: false,
            secondary_counter: m.program_counter,
            program_counter: m.interrupt_addr,
            ..m
        }
    } else {
        m
    }
}

/// The machine with the program counter advanced by one, wrapping.
pub open spec fn advance_pc<DV>(m: MachineView<DV>) -> MachineView<DV> {
    MachineView { program_counter: wrap_inc(m.program_counter), ..m }
}

/// The byte an immediate operand fetch consumes.
pub open spec fn operand_value<DV>(m: MachineView<DV>) -> u8 {
    m.memory.read(m.program_counter)
}

/// The fetch phase: the byte at the program counter lands in the instruction
/// register and the counter advances by one, wrapping.
pub open spec fn fetch_step<DV>(m: MachineView<DV>) -> MachineView<DV> {
    MachineView { instruction_reg: m.memory.read(m.program_counter), ..advance_pc(m) }
}

/// A soft reset: registers, counters, flags and the whole interrupt state
/// are re-zeroed, the reset is fanned out to every device, and the memory
/// contents persist.
pub open spec fn reset_step<D: Device>(m: MachineView<D::V>) -> MachineView<D::V> {
    MachineView {
        regs: seq![0u8, 0u8, 0u8, 0u8],
        program_counter: 0,
        secondary_counter: 0,
        instruction_reg: 0,
        interrupt_addr: 0,
        interrupt_code: 0,
        interrupt_req: false,
        interrupt_enabled: false,
        in_interrupt: false,
        carry: false,
        overflow: false,
        zero: false,
        signed: false,
        bus: BusView { mounts: bus_reset::<D>(m.bus.mounts), ..m.bus },
        ..m
    }
}

/// Operand fields extracted by the decode table are small: register numbers
/// fit in 2 bits and condition codes in 3.
pub open spec fn instr_wf(i: Instr) -> bool {
    match i {
        Instr::LoadImm { reg } => reg < 4,
        Instr::LoadMem { reg } => reg < 4,
        Instr::StoreMem { reg } => reg < 4,
        Instr::InImm { reg } => reg < 4,
        Instr::InReg { reg } => reg < 4,
        Instr::OutImm { reg } => reg < 4,
        Instr::OutReg { reg } => reg < 4,
        Instr::FlagSwap { reg } => reg < 4,
        Instr::ShiftRight { reg } => reg < 4,
        Instr::ShiftLeft { reg } => reg < 4,
        Instr::SetIntVector { reg } => reg < 4,
        Instr::RotateRight { reg } => reg < 4,
        Instr::RotateLeft { reg } => reg < 4,
        Instr::Add { reg_a, reg_b, save } => reg_a < 4 && reg_b < 4,
        Instr::Sub { reg_a, reg_b, save } => reg_a < 4 && reg_b < 4,
        Instr::And { reg_a, reg_b } => reg_a < 4 && reg_b < 4,
        Instr::Xor { reg_a, reg_b } => reg_a < 4 && reg_b < 4,
        Instr::Or { reg_a, reg_b } => reg_a < 4 && reg_b < 4,
        Instr::Move { reg_a, reg_b } => reg_a < 4 && reg_b < 4,
        Instr::LoadInd { reg_a, reg_b } => reg_a < 4 && reg_b < 4,
        Instr::StoreInd { reg_a, reg_b } => reg_a < 4 && reg_b < 4,
        Instr::Jump { condition, indirect } => condition < 8,
        Instr::JumpRel { condition, indirect } => condition < 8,
        _ => true,
    }
}

/// Loading an immediate: the operand byte lands in the register.
pub open spec fn step_load_imm<DV>(m: MachineView<DV>, reg: u8) -> MachineView<DV> {
    let m1 = advance_pc(m);
    MachineView { regs: m1.regs.update(reg as int, operand_value(m)), ..m1 }
}

/// Loading from an immediate address: the memory byte there lands in the
/// register.
pub open spec fn step_load_mem<DV>(m: MachineView<DV>, reg: u8) -> MachineView<DV> {
    let m1 = advance_pc(m);
    MachineView { regs: m1.regs.update(reg as int, m1.memory.read(operand_value(m))), ..m1 }
}

/// Storing to an immediate address; a ROM address rejects the write.
pub open spec fn step_store_mem<DV>(m: MachineView<DV>, reg: u8) -> MachineView<DV> {
    let m1 = advance_pc(m);
    MachineView { memory: m1.memory.write(operand_value(m), m1.regs[reg as int]), ..m1 }
}

/// Reading the bus at an immediate I/O address into the register.
pub open spec fn step_in_imm<D: Device>(m: MachineView<D::V>, reg: u8) -> MachineView<D::V> {
    let m1 = advance_pc(m);
    MachineView {
        regs: m1.regs.update(reg as int, bus_read::<D>(m1.bus.mounts, operand_value(m))),
        ..m1
    }
}

/// The register number an indirect-addressing operand selects; a value
/// outside the register file falls back to register 0.
pub open spec fn operand_reg(op: u8) -> u8 {
    if op > 3 {
        0u8
    } else {
        op
    }
}

/// Reading the bus at the I/O address held by the register the operand names.
pub open spec fn step_in_reg<D: Device>(m: MachineView<D::V>, reg: u8) -> MachineView<D::V> {
    let m1 = advance_pc(m);
    let io_addr = m1.regs[operand_reg(operand_value(m)) as int];
    MachineView { regs: m1.regs.update(reg as int, bus_read::<D>(m1.bus.mounts, io_addr)), ..m1 }
}

/// Writing the register to the bus at an immediate I/O address.
pub open spec fn step_out_imm<D: Device>(m: MachineView<D::V>, reg: u8) -> MachineView<D::V> {
    let m1 = advance_pc(m);
    MachineView {
        bus: BusView {
            mounts: bus_write::<D>(m1.bus.mounts, operand_value(m), m1.regs[reg as int]),
            ..m1.bus
        },
        ..m1
    }
}

/// Writing the register to the bus at the I/O address held by the register
/// the operand names.
pub open spec fn step_out_reg<D: Device>(m: MachineView<D::V>, reg: u8) -> MachineView<D::V> {
    let m1 = advance_pc(m);
    let io_addr = m1.regs[operand_reg(operand_value(m)) as int];
    MachineView {
        bus: BusView {
            mounts: bus_write::<D>(m1.bus.mounts, io_addr, m1.regs[reg as int]),
            ..m1.bus
        },
        ..m1
    }
}

/// Swapping the packed flag byte with the register.
pub open spec fn step_flag_swap<DV>(m: MachineView<DV>, reg: u8) -> MachineView<DV> {
    let v = m.regs[reg as int];
    MachineView {
        signed: (v / 8) % 2 == 1,
        carry: (v / 4) % 2 == 1,
        overflow: (v / 2) % 2 == 1,
        zero: v % 2 == 1,
        regs: m.regs.update(reg as int, pack_flags(m.signed, m.carry, m.overflow, m.zero)),
        ..m
    }
}

/// Logical shift right by one; carry takes the bit shifted out.
pub open spec fn step_shift_right<DV>(m: MachineView<DV>, reg: u8) -> MachineView<DV> {
    let v = m.regs[reg as int];
    MachineView { carry: v % 2 == 1, regs: m.regs.update(reg as int, shr1(v)), ..m }
}

/// Logical shift left by one; carry takes the bit shifted out.
pub open spec fn step_shift_left<DV>(m: MachineView<DV>, reg: u8) -> MachineView<DV> {
    let v = m.regs[reg as int];
    MachineView { carry: v >= 128, regs: m.regs.update(reg as int, shl1(v)), ..m }
}

/// Rotate right by one; carry takes the bit rotated out.
pub open spec fn step_rotate_right<DV>(m: MachineView<DV>, reg: u8) -> MachineView<DV> {
    let v = m.regs[reg as int];
    MachineView { carry: v % 2 == 1, regs: m.regs.update(reg as int, rotr1(v)), ..m }
}

/// Rotate left by one; carry takes the bit rotated out.
pub open spec fn step_rotate_left<DV>(m: MachineView<DV>, reg: u8) -> MachineView<DV> {
    let v = m.regs[reg as int];
    MachineView { carry: v >= 128, regs: m.regs.update(reg as int, rotl1(v)), ..m }
}

/// Add with carry-in: all four flags follow the reference unit; with `save`
/// the sum lands in `reg_b`.
pub open spec fn step_add<DV>(m: MachineView<DV>, reg_a: u8, reg_b: u8, save: bool) -> MachineView<
    DV,
> {
    let a = m.regs[reg_a as int];
    let b = m.regs[reg_b as int];
    let value = alu::add_value(a, b, m.carry);
    MachineView {
        carry: alu::add_carry(a, b, m.carry),
        overflow: alu::add_overflow(a, b, m.carry),
        signed: alu::sign_bit(value),
        zero: value == 0,
        regs: if save {
            m.regs.update(reg_b as int, value)
        } else {
            m.regs
        },
        ..m
    }
}

/// Subtract along `reg_b - reg_a` then `+ 1`: flags follow the subtraction
/// route; with `save` the result lands in `reg_b`.
pub open spec fn step_sub<DV>(m: MachineView<DV>, reg_a: u8, reg_b: u8, save: bool) -> MachineView<
    DV,
> {
    let a = m.regs[reg_a as int];
    let b = m.regs[reg_b as int];
    let value = alu::sub_value(a, b);
    MachineView {
        carry: alu::sub_carry(a, b),
        overflow: alu::sub_overflow(a, b),
        signed: alu::sign_bit(value),
        zero: value == 0,
        regs: if save {
            m.regs.update(reg_b as int, value)
        } else {
            m.regs
        },
        ..m
    }
}

/// A bitwise operation into `reg_b`: zero and signed follow the result,
/// carry and overflow stay untouched.
pub open spec fn step_logic<DV>(m: MachineView<DV>, reg_b: u8, r: u8) -> MachineView<DV> {
    MachineView { zero: r == 0, signed: r >= 128, regs: m.regs.update(reg_b as int, r), ..m }
}

/// Register-indirect memory load: `reg_a` takes the byte at the address held
/// by `reg_b`.
pub open spec fn step_load_ind<DV>(m: MachineView<DV>, reg_a: u8, reg_b: u8) -> MachineView<DV> {
    MachineView { regs: m.regs.update(reg_a as int, m.memory.read(m.regs[reg_b as int])), ..m }
}

/// Register-indirect memory store: the byte in `reg_a` goes to the address
/// held by `reg_b`; a ROM address rejects it.
pub open spec fn step_store_ind<DV>(m: MachineView<DV>, reg_a: u8, reg_b: u8) -> MachineView<DV> {
    MachineView { memory: m.memory.write(m.regs[reg_b as int], m.regs[reg_a as int]), ..m }
}

/// Conditional absolute jump: the operand byte, or with `indirect` the
/// register it names, becomes the program counter when the condition holds.
pub open spec fn step_jump<DV>(m: MachineView<DV>, condition: u8, indirect: bool) -> MachineView<
    DV,
> {
    let m1 = advance_pc(m);
    let op = operand_value(m);
    let target = if indirect {
        m1.regs[operand_reg(op) as int]
    } else {
        op
    };
    MachineView {
        program_counter: if cond_holds(m1, condition) {
            target
        } else {
            m1.program_counter
        },
        ..m1
    }
}

/// Conditional relative jump: the target is the program counter plus the
/// offset, wrapping modulo 256.
pub open spec fn step_jump_rel<DV>(m: MachineView<DV>, condition: u8, indirect: bool) -> MachineView<
    DV,
> {
    let m1 = advance_pc(m);
    let op = operand_value(m);
    let offset = if indirect {
        m1.regs[operand_reg(op) as int]
    } else {
        op
    };
    let target = wrap_add(m1.program_counter, offset);
    MachineView {
        program_counter: if cond_holds(m1, condition) {
            target
        } else {
            m1.program_counter
        },
        ..m1
    }
}

/// The semantics of one decoded instruction, on a machine whose program
/// counter points past the opcode. Instructions with an immediate operand
/// consume one further byte at the program counter, advancing it again.
pub open spec fn execute_instr_step<D: Device>(m: MachineView<D::V>, i: Instr) -> MachineView<
    D::V,
> {
    match i {
        Instr::Halt => MachineView { is_on: false, ..m },
        Instr::LoadImm { reg } => step_load_imm(m, reg),
        Instr::LoadMem { reg } => step_load_mem(m, reg),
        Instr::StoreMem { reg } => step_store_mem(m, reg),
        Instr::InImm { reg } => step_in_imm::<D>(m, reg),
        Instr::InReg { reg } => step_in_reg::<D>(m, reg),
        Instr::OutImm { reg } => step_out_imm::<D>(m, reg),
        Instr::OutReg { reg } => step_out_reg::<D>(m, reg),
        Instr::FlagSwap { reg } => step_flag_swap(m, reg),
        Instr::ShiftRight { reg } => step_shift_right(m, reg),
        Instr::ShiftLeft { reg } => step_shift_left(m, reg),
        Instr::SetIntVector { reg } => MachineView { interrupt_addr: m.regs[reg as int], ..m },
        Instr::IntEnable => MachineView { interrupt_enabled: true, ..m },
        Instr::IntClear => MachineView { interrupt_req: false, ..m },
        Instr::IntDisable => MachineView { interrupt_enabled: false, ..m },
        Instr::IntReturn => if m.in_interrupt {
            MachineView { program_counter: m.secondary_counter, in_interrupt: false, ..m }
        } else {
            m
        },
        Instr::IntCall => MachineView { interrupt_code: 0, interrupt_req: true, ..m },
        Instr::IntGetCode => MachineView { regs: m.regs.update(0, m.interrupt_code), ..m },
        Instr::SysReset => reset_step::<D>(m),
        Instr::Nop => m,
        Instr::RotateRight { reg } => step_rotate_right(m, reg),
        Instr::RotateLeft { reg } => step_rotate_left(m, reg),
        Instr::Add { reg_a, reg_b, save } => step_add(m, reg_a, reg_b, save),
        Instr::Sub { reg_a, reg_b, save } => step_sub(m, reg_a, reg_b, save),
        Instr::And { reg_a, reg_b } => step_logic(m, reg_b, m.regs[reg_a as int] & m.regs[reg_b as int]),
        Instr::Xor { reg_a, reg_b } => step_logic(m, reg_b, m.regs[reg_a as int] ^ m.regs[reg_b as int]),
        Instr::Or { reg_a, reg_b } => step_logic(m, reg_b, m.regs[reg_a as int] | m.regs[reg_b as int]),
        Instr::Move { reg_a, reg_b } => MachineView {
            regs: m.regs.update(reg_b as int, m.regs[reg_a as int]),
            ..m
        },
        Instr::LoadInd { reg_a, reg_b } => step_load_ind(m, reg_a, reg_b),
        Instr::StoreInd { reg_a, reg_b } => step_store_ind(m, reg_a, reg_b),
        Instr::Jump { condition, indirect } => step_jump(m, condition, indirect),
        Instr::JumpRel { condition, indirect } => step_jump_rel(m, condition, indirect),
        Instr::Unknown { opcode } => MachineView { unknown_log: m.unknown_log.push(opcode), ..m },
    }
}

/// The execute phase: the semantics of the instruction the decode table
/// assigns to the fetched opcode byte.
pub open spec fn execute_step<D: Device>(m: MachineView<D::V>) -> MachineView<D::V> {
    execute_instr_step::<D>(m, decode(m.instruction_reg))
}

/// The post-step phase: the update hook fans out to every device, then one
/// interrupt poll runs; an aggregated request latches as pending, with its
/// code, for the next cycle's interrupt-take.
pub open spec fn post_step<D: Device>(m: MachineView<D::V>) -> MachineView<D::V> {
    let updated = bus_update::<D>(m.bus.mounts);
    let polled = poll_code::<D>(updated);
    let bus = BusView {
        mounts: bus_after_poll::<D>(updated),
        log: m.bus.log + (if m.bus.logging {
            poll_log::<D>(updated)
        } else {
            Seq::<LogLine>::empty()
        }),
        ..m.bus
    };
    match polled {
        Option::Some(code) => MachineView {
            interrupt_req: true,
            interrupt_code: code,
            bus,
            ..m
        },
        Option::None => MachineView { bus, ..m },
    }
}

/// One full cycle of the engine: interrupt-take, fetch, execute, then the
/// bus update and interrupt poll. The post-step runs every cycle.
pub open spec fn step_spec<D: Device>(m: MachineView<D::V>) -> MachineView<D::V> {
    post_step::<D>(execute_step::<D>(fetch_step(take_interrupt_step(m))))
}

/// Whether the instruction belongs to the system group: halt,
/// interrupt control, reset, no-op and the unknown-opcode fallthrough.
pub open spec fn is_system_instr(i: Instr) -> bool {
    i is Halt || i is SetIntVector || i is IntEnable || i is IntClear || i is IntDisable
        || i is IntReturn || i is IntCall || i is IntGetCode || i is SysReset || i is Nop
        || i is Unknown
}

/// Whether the instruction belongs to the data group.
pub open spec fn is_data_instr(i: Instr) -> bool {
    i is LoadImm || i is LoadMem || i is StoreMem || i is InImm || i is InReg || i is OutImm || i is OutReg || i is Move || i is LoadInd || i is StoreInd
}

/// Whether the instruction belongs to the alu group.
pub open spec fn is_alu_instr(i: Instr) -> bool {
    i is Add || i is Sub || i is And || i is Xor || i is Or
}

/// The execution engine: registers, counters, flags and interrupt state,
/// plus the memory and the bus it owns.
pub struct CPU<D> {
    pub registers: Vec<u8>,
    pub instruction_reg: u8,
    pub program_counter: u8,
    pub secondary_counter: u8,
    pub interrupt_addr: u8,
    pub interrupt_code: u8,
    pub interrupt_req: bool,
    pub interrupt_enabled: bool,
    pub in_interrupt: bool,
    pub carry: bool,
    pub overflow: bool,
    pub zero: bool,
    pub signed: bool,
    pub memory: MemoryControl,
    pub io_ctl: IOController<D>,
    pub is_on: bool,
    pub unknown_log: Vec<u8>,
}

impl<D: Device> View for CPU<D> {
    type V = MachineView<D::V>;

    open spec fn view(&self) -> MachineView<D::V> {
        MachineView {
            regs: self.registers@,
            instruction_reg: self.instruction_reg,
            program_counter: self.program_counter,
            secondary_counter: self.secondary_counter,
            interrupt_addr: self.interrupt_addr,
            interrupt_code: self.interrupt_code,
            interrupt_req: self.interrupt_req,
            interrupt_enabled: self.interrupt_enabled,
            in_interrupt: self.in_interrupt,
            carry: self.carry,
            overflow: self.overflow,
            zero: self.zero,
            signed: self.signed,
            memory: self.memory@,
            bus: self.io_ctl@,
            is_on: self.is_on,
            unknown_log: self.unknown_log@,
        }
    }
}

impl<D: Device> CPU<D> {
    pub open spec fn wf(&self) -> bool {
        self@.wf()
    }

    /// A fresh machine: the bus as mounted by the driver, the memory built
    /// from the ROM image, and every register, flag and counter at zero.
    pub fn new(devices: IOController<D>, rom_data: Vec<u8>) -> (r: Self)
        requires
            rom_data@.len() <= 256,
        ensures
            r.wf(),
            r@ == (MachineView {
                regs: seq![0u8, 0u8, 0u8, 0u8],
                instruction_reg: 0u8,
                program_counter: 0u8,
                secondary_counter: 0u8,
                interrupt_addr: 0u8,
                interrupt_code: 0u8,
                interrupt_req: false,
                interrupt_enabled: false,
                in_interrupt: false,
                carry: false,
                overflow: false,
                zero: false,
                signed: false,
                memory: MemView::of_rom(rom_data@),
                bus: devices@,
                is_on: false,
                unknown_log: Seq::<u8>::empty(),
            }),
    {
        let memory = MemoryControl::new(rom_data);
        let r = Self {
            registers: vec![0u8, 0u8, 0u8, 0u8],
            instruction_reg: 0,
            program_counter: 0,
            secondary_counter: 0,
            interrupt_addr: 0,
            interrupt_code: 0,
            interrupt_req: false,
            interrupt_enabled: false,
            in_interrupt: false,
            carry: false,
            overflow: false,
            zero: false,
            signed: false,
            memory,
            io_ctl: devices,
            is_on: false,
            unknown_log: Vec::new(),
        };
        proof {
            assert(r.registers@ =~= seq![0u8, 0u8, 0u8, 0u8]);
            assert(r.unknown_log@ =~= Seq::<u8>::empty());
        }
        r
    }

    /// Reads the register the 2-bit operand names.
    fn get_reg(&self, idx: u8) -> (r: u8)
        requires
            self.wf(),
            idx < 4,
        ensures
            r == self@.regs[idx as int],
    {
        self.registers[idx as usize]
    }

    /// Writes the register the 2-bit operand names.
    fn set_reg(&mut self, idx: u8, value: u8)
        requires
            old(self).wf(),
            idx < 4,
        ensures
            final(self).wf(),
            final(self)@ == (MachineView {
                regs: old(self)@.regs.update(idx as int, value),
                ..old(self)@
            }),
    {
        self.registers[idx as usize] = value;
    }

    /// Consumes one immediate operand: the byte at the program counter, which
    /// advances by one, wrapping.
    fn fetch_operand(&mut self) -> (value: u8)
        requires
            old(self).wf(),
        ensures
            final(self).wf(),
            value == operand_value(old(self)@),
            final(self)@ == advance_pc(old(self)@),
    {
        let value = self.memory.get(self.program_counter);
        self.program_counter = if self.program_counter == 255 {
            0
        } else {
            self.program_counter + 1
        };
        value
    }

    /// The four flags packed into one byte: bit 3 signed, bit 2 carry,
    /// bit 1 overflow, bit 0 zero.
    pub fn flags_into_u8(&self) -> (r: u8)
        ensures
            r == pack_flags(self.signed, self.carry, self.overflow, self.zero),
    {
        (if self.signed {
            8u8
        } else {
            0u8
        }) + (if self.carry {
            4u8
        } else {
            0u8
        }) + (if self.overflow {
            2u8
        } else {
            0u8
        }) + (if self.zero {
            1u8
        } else {
            0u8
        })
    }

    /// Unpacks one byte into the four flags, bit assignments as in
    /// [`CPU::flags_into_u8`].
    pub fn flags_from_u8(&mut self, flags: u8)
        ensures
            final(self)@ == (MachineView {
                signed: (flags / 8) % 2 == 1,
                carry: (flags / 4) % 2 == 1,
                overflow: (flags / 2) % 2 == 1,
                zero: flags % 2 == 1,
                ..old(self)@
            }),
    {
        self.signed = (flags / 8) % 2 == 1;
        self.carry = (flags / 4) % 2 == 1;
        self.overflow = (flags / 2) % 2 == 1;
        self.zero = flags % 2 == 1;
    }

    /// Latches an external interrupt request.
    pub fn interrupt(&mut self)
        ensures
            final(self)@ == (MachineView { interrupt_req: true, ..old(self)@ }),
    {
        self.interrupt_req = true;
    }

    /// Starts the machine: the startup hook fans out to every device and the
    /// machine switches on.
    pub fn start(&mut self)
        ensures
            final(self)@ == (MachineView {
                is_on: true,
                bus: BusView { mounts: bus_startup::<D>(old(self)@.bus.mounts), ..old(self)@.bus },
                ..old(self)@
            }),
    {
        self.io_ctl.startup();
        self.is_on = true;
    }

    /// Resets the machine as if it restarted: registers, counters, flags and
    /// interrupt state are re-zeroed and every device resets; the memory
    /// contents persist.
    pub fn reset(&mut self)
        ensures
            final(self)@ == reset_step::<D>(old(self)@),
    {
        self.registers = vec![0u8, 0u8, 0u8, 0u8];
        self.program_counter = 0;
        self.secondary_counter = 0;
        self.instruction_reg = 0;
        self.interrupt_addr = 0;
        self.interrupt_code = 0;
        self.interrupt_req = false;
        self.interrupt_enabled = false;
        self.in_interrupt = false;
        self.carry = false;
        self.overflow = false;
        self.zero = false;
        self.signed = false;
        self.io_ctl.reset();
        proof {
            assert(self.registers@ =~= seq![0u8, 0u8, 0u8, 0u8]);
            assert(self@ =~~= reset_step::<D>(old(self)@));
        }
    }

    /// Conditionally moves the program counter to `address`; the condition
    /// code selects which flag gates the jump.
    fn jmp_if(&mut self, condition_code: u8, address: u8)
        requires
            condition_code < 8,
        ensures
            final(self)@ == (MachineView {
                program_counter: if cond_holds(old(self)@, condition_code) {
                    address
                } else {
                    old(self)@.program_counter
                },
                ..old(self)@
            }),
    {
        if condition_code == 0 {
            self.program_counter = address;
        } else if condition_code == 1 {
            if self.carry {
                self.program_counter = address;
            }
        } else if condition_code == 2 {
            if !self.carry {
                self.program_counter = address;
            }
        } else if condition_code == 3 {
            if self.overflow {
                self.program_counter = address;
            }
        } else if condition_code == 4 {
            if !self.overflow {
                self.program_counter = address;
            }
        } else if condition_code == 5 {
            if self.zero {
                self.program_counter = address;
            }
        } else if condition_code == 6 {
            if !self.zero {
                self.program_counter = address;
            }
        } else {
            if self.signed {
                self.program_counter = address;
            }
        }
    }

    /// The interrupt-take and fetch phases of one cycle.
    fn take_and_fetch(&mut self)
        requires
            old(self).wf(),
        ensures
            final(self).wf(),
            final(self)@ == fetch_step(take_interrupt_step(old(self)@)),
    {
        if self.interrupt_enabled && !self.in_interrupt && self.interrupt_req {
            self.in_interrupt = true;
            self.interrupt_req = false;
            self.secondary_counter = self.program_counter;
            self.program_counter = self.interrupt_addr;
        }
        let ghost taken = take_interrupt_step(old(self)@);
        assert(self@ =~~= taken);
        self.instruction_reg = self.memory.get(self.program_counter);
        self.program_counter = if self.program_counter == 255 {
            0
        } else {
            self.program_counter + 1
        };
        assert(self@ =~~= fetch_step(taken));
    }

    /// The post-step phase of one cycle: device updates, then one interrupt
    /// poll whose aggregated request latches for the next cycle.
    fn post_cycle(&mut self)
        requires
            old(self).wf(),
        ensures
            final(self).wf(),
            final(self)@ == post_step::<D>(old(self)@),
    {
        self.io_ctl.update();
        match self.io_ctl.device_has_interrupt_request() {
            Option::Some(code) => {
                self.interrupt_req = true;
                self.interrupt_code = code;
            },
            Option::None => {},
        }
        assert(self@ =~~= post_step::<D>(old(self)@));
    }

    /// One full cycle: interrupt-take, fetch, decode, execute, then the bus
    /// update and interrupt poll, exactly as [`step_spec`] describes.
    #[verifier::rlimit(30)]
    pub fn next(&mut self)
        requires
            old(self).wf(),
        ensures
            final(self).wf(),
            final(self)@ == step_spec::<D>(old(self)@),
    {
        self.take_and_fetch();
        let instr = decode_instr(self.instruction_reg);
        self.execute_instr(instr);
        self.post_cycle();
    }

    /// Executes one decoded instruction.
    #[verifier::rlimit(100)]
    fn execute_instr(&mut self, instr: Instr)
        requires
            old(self).wf(),
            instr_wf(instr),
        ensures
            final(self).wf(),
            final(self)@ == execute_instr_step::<D>(old(self)@, instr),
    {
        let ghost fetched = old(self)@;
        match instr {
            Instr::Halt | Instr::SetIntVector { .. } | Instr::IntEnable | Instr::IntClear
            | Instr::IntDisable | Instr::IntReturn | Instr::IntCall | Instr::IntGetCode
            | Instr::SysReset | Instr::Nop | Instr::Unknown { .. } => {
                self.exec_system(instr);
            },
            Instr::LoadImm { .. } | Instr::LoadMem { .. } | Instr::StoreMem { .. }
            | Instr::InImm { .. } | Instr::InReg { .. } | Instr::OutImm { .. }
            | Instr::OutReg { .. } | Instr::Move { .. } | Instr::LoadInd { .. }
            | Instr::StoreInd { .. } => {
                self.exec_data(instr);
            },
            Instr::FlagSwap { reg } => {
                self.exec_flag_swap(reg);
                proof {
                    assert(self@ == execute_instr_step::<D>(fetched, instr));
                }
            },
            Instr::ShiftRight { reg } => {
                self.exec_shift_right(reg);
                proof {
                    assert(self@ == execute_instr_step::<D>(fetched, instr));
                }
            },
            Instr::ShiftLeft { reg } => {
                self.exec_shift_left(reg);
                proof {
                    assert(self@ == execute_instr_step::<D>(fetched, instr));
                }
            },
            Instr::RotateRight { reg } => {
                self.exec_rotate_right(reg);
                proof {
                    assert(self@ == execute_instr_step::<D>(fetched, instr));
                }
            },
            Instr::RotateLeft { reg } => {
                self.exec_rotate_left(reg);
                proof {
                    assert(self@ == execute_instr_step::<D>(fetched, instr));
                }
            },
            Instr::Add { .. } | Instr::Sub { .. } | Instr::And { .. } | Instr::Xor { .. }
            | Instr::Or { .. } => {
                self.exec_alu(instr);
            },
            Instr::Jump { condition, indirect } => {
                self.exec_jump_abs(condition, indirect);
                proof {
                    assert(self@ == execute_instr_step::<D>(fetched, instr));
                }
            },
            Instr::JumpRel { condition, indirect } => {
                self.exec_jump_rel(condition, indirect);
                proof {
                    assert(self@ == execute_instr_step::<D>(fetched, instr));
                }
            },
        }
    }

    /// Executes one halt, interrupt-control, reset, no-op or unknown-opcode
    /// instruction. A return-from-interrupt while no interrupt is in flight
    /// is a plain no-op.
    #[verifier::rlimit(100)]
    fn exec_system(&mut self, instr: Instr)
        requires
            old(self).wf(),
            instr_wf(instr),
            is_system_instr(instr),
        ensures
            final(self).wf(),
            final(self)@ == execute_instr_step::<D>(old(self)@, instr),
    {
        let ghost fetched = old(self)@;
        match instr {
            Instr::Halt => {
                self.is_on = false;
                proof {
                    assert(self@ == execute_instr_step::<D>(fetched, Instr::Halt));
                }
            },
            Instr::SetIntVector { reg } => {
                self.interrupt_addr = self.get_reg(reg);
                proof {
                    assert(self@ == execute_instr_step::<D>(fetched, Instr::SetIntVector { reg }));
                }
            },
            Instr::IntEnable => {
                self.interrupt_enabled = true;
                proof {
                    assert(self@ == execute_instr_step::<D>(fetched, Instr::IntEnable));
                }
            },
            Instr::IntClear => {
                self.interrupt_req = false;
                proof {
                    assert(self@ == execute_instr_step::<D>(fetched, Instr::IntClear));
                }
            },
            Instr::IntDisable => {
                self.interrupt_enabled = false;
                proof {
                    assert(self@ == execute_instr_step::<D>(fetched, Instr::IntDisable));
                }
            },
            Instr::IntCall => {
                self.interrupt_code = 0;
                self.interrupt_req = true;
                proof {
                    assert(self@ == execute_instr_step::<D>(fetched, Instr::IntCall));
                }
            },
            Instr::IntGetCode => {
                let code = self.interrupt_code;
                self.set_reg(0, code);
                proof {
                    assert(self@ == execute_instr_step::<D>(fetched, Instr::IntGetCode));
                }
            },
            Instr::SysReset => {
                self.reset();
                proof {
                    assert(self@ == execute_instr_step::<D>(fetched, Instr::SysReset));
                }
            },
            Instr::Nop => {
                proof {
                    assert(self@ == execute_instr_step::<D>(fetched, Instr::Nop));
                }
            },
            Instr::Unknown { opcode } => {
                self.unknown_log.push(opcode);
                proof {
                    assert(self@ == execute_instr_step::<D>(fetched, Instr::Unknown { opcode }));
                }
            },
            Instr::IntReturn => {
                if self.in_interrupt {
                    self.program_counter = self.secondary_counter;
                    self.in_interrupt = false;
                }
                proof {
                    assert(self@ == execute_instr_step::<D>(fetched, Instr::IntReturn));
                }
            },
            _ => {
                proof {
                    assert(false);
                }
            },
        }
    }

    /// Executes one memory, bus or register transfer instruction.
    #[verifier::rlimit(100)]
    fn exec_data(&mut self, instr: Instr)
        requires
            old(self).wf(),
            instr_wf(instr),
            is_data_instr(instr),
        ensures
            final(self).wf(),
            final(self)@ == execute_instr_step::<D>(old(self)@, instr),
    {
        let ghost fetched = old(self)@;
        match instr {
            Instr::LoadImm { reg } => {
                let value = self.fetch_operand();
                self.set_reg(reg, value);
                proof {
                    assert(self@ == execute_instr_step::<D>(fetched, Instr::LoadImm { reg }));
                }
            },
            Instr::LoadMem { reg } => {
                let addr = self.fetch_operand();
                let value = self.memory.get(addr);
                self.set_reg(reg, value);
                proof {
                    assert(self@ == execute_instr_step::<D>(fetched, Instr::LoadMem { reg }));
                }
            },
            Instr::StoreMem { reg } => {
                let addr = self.fetch_operand();
                let value = self.get_reg(reg);
                let _ = self.memory.set(addr, value);
                proof {
                    assert(self@ == execute_instr_step::<D>(fetched, Instr::StoreMem { reg }));
                }
            },
            Instr::InImm { reg } => {
                let io_addr = self.fetch_operand();
                let value = self.io_ctl.read(io_addr);
                self.set_reg(reg, value);
                proof {
                    assert(self@ == execute_instr_step::<D>(fetched, Instr::InImm { reg }));
                }
            },
            Instr::InReg { reg } => {
                let mut io_addr_reg = self.fetch_operand();
                if io_addr_reg > 3 {
                    io_addr_reg = 0;
                }
                let io_addr = self.get_reg(io_addr_reg);
                let value = self.io_ctl.read(io_addr);
                self.set_reg(reg, value);
                proof {
                    assert(self@ == execute_instr_step::<D>(fetched, Instr::InReg { reg }));
                }
            },
            Instr::OutImm { reg } => {
                let io_addr = self.fetch_operand();
                let value = self.get_reg(reg);
                self.io_ctl.write(io_addr, value);
                proof {
                    assert(self@ == execute_instr_step::<D>(fetched, Instr::OutImm { reg }));
                }
            },
            Instr::OutReg { reg } => {
                let mut io_addr_reg = self.fetch_operand();
                if io_addr_reg > 3 {
                    io_addr_reg = 0;
                }
                let io_addr = self.get_reg(io_addr_reg);
                let value = self.get_reg(reg);
                self.io_ctl.write(io_addr, value);
                proof {
                    assert(self@ == execute_instr_step::<D>(fetched, Instr::OutReg { reg }));
                }
            },
            Instr::Move { reg_a, reg_b } => {
                let value = self.get_reg(reg_a);
                self.set_reg(reg_b, value);
                proof {
                    assert(self@ == execute_instr_step::<D>(fetched, Instr::Move { reg_a, reg_b }));
                }
            },
            Instr::LoadInd { reg_a, reg_b } => {
                let addr = self.get_reg(reg_b);
                let value = self.memory.get(addr);
                self.set_reg(reg_a, value);
                proof {
                    assert(self@ == execute_instr_step::<D>(fetched, Instr::LoadInd { reg_a, reg_b }));
                }
            },
            Instr::StoreInd { reg_a, reg_b } => {
                let addr = self.get_reg(reg_b);
                let value = self.get_reg(reg_a);
                let _ = self.memory.set(addr, value);
                proof {
                    assert(self@ == execute_instr_step::<D>(fetched, Instr::StoreInd { reg_a, reg_b }));
                }
            },
            _ => {
                proof {
                    assert(false);
                }
            },
        }
    }

    /// Executes the flag/register swap.
    fn exec_flag_swap(&mut self, reg: u8)
        requires
            old(self).wf(),
            reg < 4,
        ensures
            final(self).wf(),
            final(self)@ == step_flag_swap(old(self)@, reg),
    {
        let flag_state = self.flags_into_u8();
        let v = self.get_reg(reg);
        self.flags_from_u8(v);
        self.set_reg(reg, flag_state);
        assert(self@ == step_flag_swap(old(self)@, reg));
    }

    /// Executes the logical shift right.
    fn exec_shift_right(&mut self, reg: u8)
        requires
            old(self).wf(),
            reg < 4,
        ensures
            final(self).wf(),
            final(self)@ == step_shift_right(old(self)@, reg),
    {
        let value = self.get_reg(reg);
        self.carry = value % 2 == 1;
        self.set_reg(reg, value / 2);
        assert(self@ == step_shift_right(old(self)@, reg));
    }

    /// Executes the logical shift left.
    fn exec_shift_left(&mut self, reg: u8)
        requires
            old(self).wf(),
            reg < 4,
        ensures
            final(self).wf(),
            final(self)@ == step_shift_left(old(self)@, reg),
    {
        let value = self.get_reg(reg);
        self.carry = value >= 128;
        let doubled = if value >= 128 {
            (value - 128) * 2
        } else {
            value * 2
        };
        assert(doubled == shl1(value));
        self.set_reg(reg, doubled);
        assert(self@ == step_shift_left(old(self)@, reg));
    }

    /// Executes the rotate right.
    fn exec_rotate_right(&mut self, reg: u8)
        requires
            old(self).wf(),
            reg < 4,
        ensures
            final(self).wf(),
            final(self)@ == step_rotate_right(old(self)@, reg),
    {
        let value = self.get_reg(reg);
        self.carry = value % 2 == 1;
        self.set_reg(reg, value / 2 + (value % 2) * 128);
        assert(self@ == step_rotate_right(old(self)@, reg));
    }

    /// Executes the rotate left.
    fn exec_rotate_left(&mut self, reg: u8)
        requires
            old(self).wf(),
            reg < 4,
        ensures
            final(self).wf(),
            final(self)@ == step_rotate_left(old(self)@, reg),
    {
        let value = self.get_reg(reg);
        self.carry = value >= 128;
        let doubled = if value >= 128 {
            (value - 128) * 2 + 1
        } else {
            value * 2
        };
        assert(doubled == rotl1(value));
        self.set_reg(reg, doubled);
        assert(self@ == step_rotate_left(old(self)@, reg));
    }

    /// Executes one arithmetic or logic instruction.
    #[verifier::rlimit(100)]
    fn exec_alu(&mut self, instr: Instr)
        requires
            old(self).wf(),
            instr_wf(instr),
            is_alu_instr(instr),
        ensures
            final(self).wf(),
            final(self)@ == execute_instr_step::<D>(old(self)@, instr),
    {
        let ghost fetched = old(self)@;
        match instr {
            Instr::Add { reg_a, reg_b, save } => {
                let a = self.get_reg(reg_a);
                let b = self.get_reg(reg_b);
                let out = alu::add(a, b, self.carry);
                self.carry = out.carry;
                self.overflow = out.overflow;
                self.signed = out.signed;
                self.zero = out.zero;
                if save {
                    self.set_reg(reg_b, out.value);
                }
                proof {
                    assert(self@ == execute_instr_step::<D>(fetched, Instr::Add { reg_a, reg_b, save }));
                }
            },
            Instr::Sub { reg_a, reg_b, save } => {
                let a = self.get_reg(reg_a);
                let b = self.get_reg(reg_b);
                let out = alu::sub(a, b);
                self.carry = out.carry;
                self.overflow = out.overflow;
                self.signed = out.signed;
                self.zero = out.zero;
                if save {
                    self.set_reg(reg_b, out.value);
                }
                proof {
                    assert(self@ == execute_instr_step::<D>(fetched, Instr::Sub { reg_a, reg_b, save }));
                }
            },
            Instr::And { reg_a, reg_b } => {
                let result = self.get_reg(reg_a) & self.get_reg(reg_b);
                self.zero = result == 0;
                self.signed = result >= 128;
                self.set_reg(reg_b, result);
                proof {
                    assert(self@ == execute_instr_step::<D>(fetched, Instr::And { reg_a, reg_b }));
                }
            },
            Instr::Xor { reg_a, reg_b } => {
                let result = self.get_reg(reg_a) ^ self.get_reg(reg_b);
                self.zero = result == 0;
                self.signed = result >= 128;
                self.set_reg(reg_b, result);
                proof {
                    assert(self@ == execute_instr_step::<D>(fetched, Instr::Xor { reg_a, reg_b }));
                }
            },
            Instr::Or { reg_a, reg_b } => {
                let result = self.get_reg(reg_a) | self.get_reg(reg_b);
                self.zero = result == 0;
                self.signed = result >= 128;
                self.set_reg(reg_b, result);
                proof {
                    assert(self@ == execute_instr_step::<D>(fetched, Instr::Or { reg_a, reg_b }));
                }
            },
            _ => {
                proof {
                    assert(false);
                }
            },
        }
    }

    /// Executes one conditional absolute jump.
    #[verifier::rlimit(100)]
    fn exec_jump_abs(&mut self, condition: u8, indirect: bool)
        requires
            old(self).wf(),
            condition < 8,
        ensures
            final(self).wf(),
            final(self)@ == step_jump(old(self)@, condition, indirect),
    {
        let mut address = self.fetch_operand();
        if indirect {
            if address > 3 {
                address = 0;
            }
            address = self.get_reg(address);
        }
        self.jmp_if(condition, address);
        assert(self@ == step_jump(old(self)@, condition, indirect));
    }

    /// Executes one conditional relative jump.
    #[verifier::rlimit(100)]
    fn exec_jump_rel(&mut self, condition: u8, indirect: bool)
        requires
            old(self).wf(),
            condition < 8,
        ensures
            final(self).wf(),
            final(self)@ == step_jump_rel(old(self)@, condition, indirect),
    {
        let mut address = self.fetch_operand();
        if indirect {
            if address > 3 {
                address = 0;
            }
            address = self.get_reg(address);
        }
        let pc = self.program_counter;
        let target = if address <= 255 - pc {
            pc + address
        } else {
            address - (255 - pc) - 1
        };
        assert(target == wrap_add(pc, address));
        self.jmp_if(condition, target);
        assert(self@ == step_jump_rel(old(self)@, condition, indirect));
    }

}

/// The program counter wraps: advancing from 255 lands on 0, with no failure.
pub proof fn lemma_pc_wrap<DV>(m: MachineView<DV>)
    ensures
        wrap_inc(255) == 0,
        m.program_counter == 255 ==> fetch_step(m).program_counter == 0,
{
}

/// The interrupt take: with interrupts enabled, none in flight and a request
/// pending, the cycle saves the program counter into the secondary counter,
/// traps to the vector, marks the interrupt in flight and clears the
/// request, so the instruction fetched next comes from the vector.
pub proof fn lemma_interrupt_take<DV>(m: MachineView<DV>)
    requires
        m.interrupt_enabled,
        !m.in_interrupt,
        m.interrupt_req,
    ensures
        take_interrupt_step(m).secondary_counter == m.program_counter,
        take_interrupt_step(m).program_counter == m.interrupt_addr,
        take_interrupt_step(m).in_interrupt,
        !take_interrupt_step(m).interrupt_req,
        fetch_step(take_interrupt_step(m)).instruction_reg == m.memory.read(m.interrupt_addr),
{
}

/// The interrupt take, through a whole cycle: with interrupts enabled, none
/// in flight and a request pending, one step saves the program counter into
/// the secondary counter, marks the interrupt in flight, clears the request,
/// and fetches and executes the instruction at the vector. Stated for a
/// cycle whose vector holds a no-op and in which no device reports an
/// interrupt, so that neither the executed instruction nor the poll moves
/// the interrupt state again.
pub proof fn lemma_interrupt_take_cycle<D: Device>(m: MachineView<D::V>)
    requires
        m.interrupt_enabled,
        !m.in_interrupt,
        m.interrupt_req,
        decode(m.memory.read(m.interrupt_addr)) == Instr::Nop,
        poll_code::<D>(bus_update::<D>(m.bus.mounts)) is None,
    ensures
        step_spec::<D>(m).secondary_counter == m.program_counter,
        step_spec::<D>(m).in_interrupt,
        !step_spec::<D>(m).interrupt_req,
        step_spec::<D>(m).instruction_reg == m.memory.read(m.interrupt_addr),
        step_spec::<D>(m).program_counter == wrap_inc(m.interrupt_addr),
{
}

/// The interrupt return: executing a return-from-interrupt while an
/// interrupt is in flight restores the program counter from the secondary
/// counter and clears the in-flight mark.
pub proof fn lemma_interrupt_return<D: Device>(m: MachineView<D::V>)
    requires
        m.in_interrupt,
        decode(m.instruction_reg) == Instr::IntReturn,
    ensures
        execute_step::<D>(m).program_counter == m.secondary_counter,
        !execute_step::<D>(m).in_interrupt,
{
}

} // verus!
