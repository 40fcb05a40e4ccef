//! The interpreter.
//!
//! [`MOS6502`] owns a bus and executes instructions against it. Each method
//! states, over the model in [`crate::machine`], exactly what it does to the
//! processor and to the bus.
use std::collections::VecDeque;
use vstd::prelude::*;
use crate::bits::{lemma_join, lemma_low_byte, lemma_split};
use crate::instruction::{decode, lemma_cycles_in_range, AddressMode, Instruction, Operation};
use crate::machine::{word, Halt, Machine, HISTORY_LIMIT, RESET_VECTOR, STACK_PAGE};
use crate::platform::{Bus, Platform};
use crate::registers::{bit, Registers};

verus! {

/// What the processor looked like after one instruction: kept as a short
/// history for diagnostics.
#[derive(Clone, Copy, Debug, PartialEq, Eq, Structural)]
pub struct DebugFrame {
    /// Program counter after the instruction.
    pub pc: u16,
    /// The opcode executed.
    pub op: u8,
    /// Accumulator after the instruction.
    pub a: u8,
    /// X after the instruction.
    pub x: u8,
    /// Y after the instruction.
    pub y: u8,
    /// Packed status flags after the instruction.
    pub registers: u8,
    /// The operation that the opcode stands for.
    pub operation: Operation,
}

/// A 6502 processor on a bus of type `P`.
pub struct MOS6502<P: Platform> {
    regs: Registers,
    cycle_count: i32,
    halt: Option<Halt>,
    debug_vector: VecDeque<DebugFrame>,
    platform: Box<P>,
}

/// The most cycles one instruction can cost.
pub const MAX_COST: i32 = 7;

impl<P: Platform> MOS6502<P> {
    /// The machine that this processor and its bus make up.
    pub closed spec fn view(&self) -> Machine {
        Machine {
            regs: self.regs,
            cycles: self.cycle_count as int,
            halt: self.halt,
            history: self.debug_vector@,
            bus: self.platform.bus(),
        }
    }

    /// A processor on `platform`, not yet reset.
    pub fn new(platform: Box<P>) -> (cpu: MOS6502<P>)
        ensures
            cpu@ == Machine::initial(platform.bus()),
    {
        MOS6502 {
            regs: Registers {
                reg_a: 0,
                reg_x: 0,
                reg_y: 0,
                reg_sp: 0xff,
                reg_pc: 0,
                f_negative: false,
                f_overflow: false,
                f_break: true,
                f_decimal: false,
                f_interrupt: false,
                f_zero: false,
                f_carry: false,
            },
            cycle_count: 0,
            halt: None,
            debug_vector: VecDeque::new(),
            platform,
        }
    }

    /// Resets the processor: registers to their power-on state, the program
    /// counter from the reset vector, running again.
    pub fn reset(&mut self)
        ensures
            final(self)@ == old(self)@.reset::<P>(),
    {
        let low: u8 = self.platform.read(RESET_VECTOR);
        let high: u8 = self.platform.read(RESET_VECTOR + 1);
        self.regs = Registers {
            reg_a: 0,
            reg_x: 0,
            reg_y: 0,
            reg_sp: 0xfd,
            reg_pc: join(low, high),
            f_negative: false,
            f_overflow: false,
            f_break: true,
            f_decimal: false,
            f_interrupt: false,
            f_zero: false,
            f_carry: false,
        };
        self.halt = None;
        self.cycle_count = 0;
    }

    /// The registers and flags.
    pub fn registers(&self) -> (regs: Registers)
        ensures
            regs == self@.regs,
    {
        self.regs
    }

    /// Replaces the registers and flags.
    pub fn set_registers(&mut self, regs: Registers)
        ensures
            final(self)@ == old(self)@.with_regs(regs),
    {
        self.regs = regs;
    }

    /// Why the processor stopped, if it has.
    pub fn halt(&self) -> (halt: Option<Halt>)
        ensures
            halt == self@.halt,
    {
        self.halt
    }

    /// How many instructions the history holds.
    pub fn history_len(&self) -> (len: usize)
        ensures
            len == self@.history.len(),
    {
        self.debug_vector.len()
    }

    /// The frame of the instruction executed `age` instructions ago, 0 being
    /// the latest; `None` beyond the end of the history.
    pub fn history_frame(&self, age: usize) -> (frame: Option<DebugFrame>)
        ensures
            frame == (if age < self@.history.len() {
                Some(self@.history[age as int])
            } else {
                None
            }),
    {
        if age < self.debug_vector.len() {
            Some(self.debug_vector[age])
        } else {
            None
        }
    }

    /// Reads the byte at the program counter and moves the counter past it.
    pub fn read_pc(&mut self) -> (value: u8)
        ensures
            (value, final(self)@) == old(self)@.fetch::<P>(),
    {
        let addr: u16 = self.regs.reg_pc;
        let value: u8 = self.read_u8(addr);
        self.regs.reg_pc = addr.wrapping_add(1);
        value
    }

    /// Reads a byte through the bus.
    pub fn read_u8(&mut self, address: u16) -> (value: u8)
        ensures
            (value, final(self)@) == old(self)@.read::<P>(address),
    {
        self.platform.read(address)
    }

    /// Whether the keyboard can take another key.
    pub fn key_ready(&self) -> (ready: bool)
        ensures
            ready == P::key_ready_spec(self@.bus),
    {
        self.platform.key_ready()
    }

    /// Types a key on the keyboard.
    pub fn key_pressed(&mut self, key: u8)
        ensures
            final(self)@ == (Machine {
                bus: P::key_pressed_spec(old(self)@.bus, key),
                ..old(self)@
            }),
    {
        self.platform.key_pressed(key);
    }

    /// Hands over the display output produced so far and empties it.
    pub fn take_output(&mut self) -> (shown: Vec<u8>)
        ensures
            shown@ == old(self)@.bus.output,
            final(self)@ == (Machine {
                bus: Bus { output: Seq::empty(), ..old(self)@.bus },
                ..old(self)@
            }),
    {
        self.platform.take_output()
    }

    /// Writes a byte through the bus.
    pub fn write_u8(&mut self, address: u16, value: u8)
        ensures
            final(self)@ == old(self)@.write::<P>(address, value),
    {
        self.platform.write(address, value);
    }

    /// Charges `num_cycles` to the cycle count.
    fn cycles(&mut self, num_cycles: i32)
        requires
            0 <= num_cycles,
            old(self)@.cycles + num_cycles <= i32::MAX,
        ensures
            final(self)@ == (Machine { cycles: old(self)@.cycles + num_cycles, ..old(self)@ }),
    {
        self.cycle_count += num_cycles;
    }

    /// Fetches a word and adds `index` to it.
    fn get_absolute_addr(&mut self, index: u8) -> (addr: u16)
        ensures
            (addr, final(self)@) == old(self)@.absolute_address::<P>(index),
    {
        let low: u8 = self.read_pc();
        let high: u8 = self.read_pc();
        join(low, high).wrapping_add(index as u16)
    }

    /// Fetches a page-0 address and adds `index` to it within the page.
    fn get_zeropage_addr(&mut self, index: u8) -> (addr: u16)
        ensures
            (addr, final(self)@) == old(self)@.zero_page_address::<P>(index),
    {
        let base: u8 = self.read_pc();
        base.wrapping_add(index) as u16
    }

    /// Reads the word that the cells at `low_addr` and `high_addr` hold.
    fn read_word(&mut self, low_addr: u16, high_addr: u16) -> (value: u16)
        ensures
            (value, final(self)@) == old(self)@.read_word::<P>(low_addr, high_addr),
    {
        let low: u8 = self.read_u8(low_addr);
        let high: u8 = self.read_u8(high_addr);
        join(low, high)
    }

    /// Fetches a pointer and reads the address it points at.
    fn get_indirect_addr(&mut self) -> (addr: u16)
        ensures
            (addr, final(self)@) == old(self)@.indirect_address::<P>(),
    {
        let pointer: u16 = self.get_absolute_addr(0);
        self.read_word(pointer, pointer.wrapping_add(1))
    }

    /// Fetches a page-0 address, adds X within the page and reads the address
    /// that the pointer there holds.
    fn get_indirect_x_addr(&mut self) -> (addr: u16)
        ensures
            (addr, final(self)@) == old(self)@.indirect_x_address::<P>(),
    {
        let index: u8 = self.regs.reg_x;
        let pointer: u8 = self.read_pc().wrapping_add(index);
        self.read_word(pointer as u16, pointer.wrapping_add(1) as u16)
    }

    /// Fetches a page-0 address, reads the pointer there and adds Y to it.
    fn get_indirect_y_addr(&mut self) -> (addr: u16)
        ensures
            (addr, final(self)@) == old(self)@.indirect_y_address::<P>(),
    {
        let index: u8 = self.regs.reg_y;
        let pointer: u8 = self.read_pc();
        let base: u16 = self.read_word(pointer as u16, pointer.wrapping_add(1) as u16);
        base.wrapping_add(index as u16)
    }

    /// Fetches the operand bytes of an instruction in `mode` and works out the
    /// address it refers to.
    fn get_operand_addr(&mut self, mode: AddressMode) -> (addr: u16)
        ensures
            (addr, final(self)@) == old(self)@.operand_address::<P>(mode),
    {
        match mode {
            AddressMode::ZeroPage => self.get_zeropage_addr(0),
            AddressMode::ZeroPageX => {
                let index: u8 = self.regs.reg_x;
                self.get_zeropage_addr(index)
            },
            AddressMode::ZeroPageY => {
                let index: u8 = self.regs.reg_y;
                self.get_zeropage_addr(index)
            },
            AddressMode::Absolute => self.get_absolute_addr(0),
            AddressMode::AbsoluteX => {
                let index: u8 = self.regs.reg_x;
                self.get_absolute_addr(index)
            },
            AddressMode::AbsoluteY => {
                let index: u8 = self.regs.reg_y;
                self.get_absolute_addr(index)
            },
            AddressMode::Indirect => self.get_indirect_addr(),
            AddressMode::IndirectX => self.get_indirect_x_addr(),
            AddressMode::IndirectY => self.get_indirect_y_addr(),
            _ => 0,
        }
    }

    /// Fetches the operand bytes of an instruction in `mode` and reads its
    /// operand.
    fn get_operand(&mut self, mode: AddressMode) -> (value: u8)
        ensures
            (value, final(self)@) == old(self)@.operand::<P>(mode),
    {
        match mode {
            AddressMode::Immediate => self.read_pc(),
            _ => {
                let addr: u16 = self.get_operand_addr(mode);
                self.read_u8(addr)
            },
        }
    }

    /// Pushes a byte on the stack.
    pub fn stack_push(&mut self, value: u8)
        ensures
            final(self)@ == old(self)@.push::<P>(value),
    {
        let sp: u8 = self.regs.reg_sp;
        self.write_u8(STACK_PAGE + sp as u16, value);
        self.regs.reg_sp = sp.wrapping_sub(1);
        if sp <= 1 {
            self.halt = Some(Halt::StackOverflow);
        }
    }

    /// Pulls a byte from the stack.
    pub fn stack_pull(&mut self) -> (value: u8)
        ensures
            (value, final(self)@) == old(self)@.pull::<P>(),
    {
        let sp: u8 = self.regs.reg_sp;
        if sp >= 0xff {
            self.halt = Some(Halt::StackUnderflow);
        }
        self.regs.reg_sp = sp.wrapping_add(1);
        self.read_u8(STACK_PAGE + self.regs.reg_sp as u16)
    }

    /// Pulls a word from the stack, low byte first.
    fn stack_pull_word(&mut self) -> (value: u16)
        ensures
            (value, final(self)@) == old(self)@.pull_word::<P>(),
    {
        let low: u8 = self.stack_pull();
        let high: u8 = self.stack_pull();
        join(low, high)
    }

    /// Takes the flags from a packed status byte.
    pub fn set_status_registers(&mut self, value: u8)
        ensures
            final(self)@ == old(self)@.with_regs(old(self)@.regs.with_status(value)),
    {
        self.regs.unpack(value);
    }

    /// The flags as a packed status byte.
    pub fn get_status_registers(&self) -> (value: u8)
        ensures
            value == self@.regs.status(),
    {
        self.regs.pack()
    }

    /// Takes a branch: fetches the offset and moves the program counter by it.
    fn branch(&mut self)
        ensures
            final(self)@ == old(self)@.branch::<P>(true),
    {
        let distance: u8 = self.read_pc();
        if distance > 0x7f {
            self.regs.reg_pc = self.regs.reg_pc.wrapping_sub(0x100 - distance as u16);
        } else {
            self.regs.reg_pc = self.regs.reg_pc.wrapping_add(distance as u16);
        }
    }

    /// Adds `value` and the carry to the accumulator.
    pub fn adc(&mut self, value: u8)
        ensures
            final(self)@ == old(self)@.with_regs(old(self)@.regs.adc(value)),
    {
        self.regs.add_with_carry(value);
    }

    /// Subtracts `value` and the borrow from the accumulator.
    pub fn sbc(&mut self, value: u8)
        ensures
            final(self)@ == old(self)@.with_regs(old(self)@.regs.sbc(value)),
    {
        self.regs.subtract_with_borrow(value);
    }

    /// Rotates `value` right through the carry.
    pub fn ror(&mut self, value: u8) -> (result: u8)
        ensures
            result == old(self)@.regs.ror(value).0,
            final(self)@ == old(self)@.with_regs(old(self)@.regs.ror(value).1),
    {
        self.regs.rotate_right(value)
    }

    /// Rotates `value` left through the carry.
    pub fn rol(&mut self, value: u8) -> (result: u8)
        ensures
            result == old(self)@.regs.rol(value).0,
            final(self)@ == old(self)@.with_regs(old(self)@.regs.rol(value).1),
    {
        self.regs.rotate_left(value)
    }

    /// Shifts `value` left.
    pub fn asl(&mut self, value: u8) -> (result: u8)
        ensures
            result == old(self)@.regs.asl(value).0,
            final(self)@ == old(self)@.with_regs(old(self)@.regs.asl(value).1),
    {
        self.regs.shift_left(value)
    }

    /// Shifts `value` right.
    pub fn lsr(&mut self, value: u8) -> (result: u8)
        ensures
            result == old(self)@.regs.lsr(value).0,
            final(self)@ == old(self)@.with_regs(old(self)@.regs.lsr(value).1),
    {
        self.regs.shift_right(value)
    }

    /// The cycles spent since the count was last cleared.
    pub fn get_cycle_count(&mut self) -> (count: i32)
        ensures
            count == old(self)@.cycles,
            final(self)@ == old(self)@,
    {
        self.cycle_count
    }

    /// Whether the processor has not stopped.
    pub fn is_running(&mut self) -> (running: bool)
        ensures
            running == !old(self)@.stopped(),
            final(self)@ == old(self)@,
    {
        self.halt.is_none()
    }

    /// Performs a read-modify-write instruction.
    fn modify(&mut self, operation: Operation, mode: AddressMode)
        ensures
            final(self)@ == old(self)@.modify::<P>(operation, mode),
    {
        match mode {
            AddressMode::Accumulator => {
                let value: u8 = self.regs.reg_a;
                let result: u8 = self.regs.apply_modify(operation, value);
                self.regs.reg_a = result;
            },
            _ => {
                let addr: u16 = self.get_operand_addr(mode);
                let value: u8 = self.read_u8(addr);
                let result: u8 = self.regs.apply_modify(operation, value);
                self.write_u8(addr, result);
            },
        }
    }

    /// Jumps to a subroutine.
    fn call(&mut self)
        ensures
            final(self)@ == old(self)@.call::<P>(),
    {
        let target: u16 = self.get_absolute_addr(0);
        let back: u16 = self.regs.reg_pc.wrapping_sub(1);
        proof {
            lemma_split(back);
            lemma_low_byte(back);
        }
        self.stack_push((back >> 8) as u8);
        self.stack_push(#[verifier::truncate] (back as u8));
        self.regs.reg_pc = target;
    }

    /// Returns from a subroutine.
    fn return_from_call(&mut self)
        ensures
            final(self)@ == old(self)@.return_from_call::<P>(),
    {
        let back: u16 = self.stack_pull_word();
        self.regs.reg_pc = back.wrapping_add(1);
    }

    /// Returns from an interrupt.
    fn return_from_interrupt(&mut self)
        ensures
            final(self)@ == old(self)@.return_from_interrupt::<P>(),
    {
        let packed: u8 = self.stack_pull();
        self.regs.unpack(packed);
        let back: u16 = self.stack_pull_word();
        self.regs.reg_pc = back;
    }

    /// Pulls the accumulator.
    fn pull_accumulator(&mut self)
        ensures
            final(self)@ == ({
                let (value, m) = old(self)@.pull::<P>();
                m.with_regs(Registers { reg_a: value, ..m.regs }.with_zn(value))
            }),
    {
        let value: u8 = self.stack_pull();
        self.regs.reg_a = value;
        self.regs.update_zn(value);
    }

    /// Pulls the flags.
    fn pull_status(&mut self)
        ensures
            final(self)@ == ({
                let (packed, m) = old(self)@.pull::<P>();
                m.with_regs(m.regs.with_status(packed))
            }),
    {
        let packed: u8 = self.stack_pull();
        self.regs.unpack(packed);
    }

    /// Performs a jump, a call or return, a stack instruction, a break or an
    /// instruction that touches registers alone.
    fn execute_control(&mut self, instruction: Instruction)
        requires
            !instruction.operation.reads_operand(),
            !instruction.operation.modifies(),
            !instruction.operation.stores(),
            !instruction.operation.is_branch(),
        ensures
            final(self)@ == old(self)@.perform::<P>(instruction),
    {
        match instruction.operation {
            Operation::Jmp => {
                let target: u16 = self.get_operand_addr(instruction.mode);
                self.regs.reg_pc = target;
            },
            Operation::Jsr => self.call(),
            Operation::Rts => self.return_from_call(),
            Operation::Rti => self.return_from_interrupt(),
            Operation::Brk => {
                self.regs.f_break = true;
                self.halt = Some(Halt::Break);
            },
            Operation::Pha => {
                let value: u8 = self.regs.reg_a;
                self.stack_push(value);
            },
            Operation::Php => {
                let value: u8 = self.regs.pack();
                self.stack_push(value);
            },
            Operation::Pla => self.pull_accumulator(),
            Operation::Plp => self.pull_status(),
            _ => {
                self.regs.apply_implied(instruction.operation);
            },
        }
    }

    /// Performs `instruction`, whose opcode has been fetched. The cycle count
    /// and the history are left to the caller.
    fn execute(&mut self, instruction: Instruction)
        ensures
            final(self)@ == old(self)@.perform::<P>(instruction),
    {
        let operation = instruction.operation;
        let mode = instruction.mode;
        match operation {
            Operation::Lda
            | Operation::Ldx
            | Operation::Ldy
            | Operation::And
            | Operation::Ora
            | Operation::Eor
            | Operation::Adc
            | Operation::Sbc
            | Operation::Cmp
            | Operation::Cpx
            | Operation::Cpy
            | Operation::Bit => {
                let value: u8 = self.get_operand(mode);
                self.regs.apply_operand(operation, value);
            },
            Operation::Asl
            | Operation::Lsr
            | Operation::Rol
            | Operation::Ror
            | Operation::Inc
            | Operation::Dec => {
                self.modify(operation, mode);
            },
            Operation::Sta | Operation::Stx | Operation::Sty => {
                let addr: u16 = self.get_operand_addr(mode);
                let value: u8 = self.regs.store_value(operation);
                self.write_u8(addr, value);
            },
            Operation::Bcc
            | Operation::Bcs
            | Operation::Beq
            | Operation::Bne
            | Operation::Bmi
            | Operation::Bpl
            | Operation::Bvc
            | Operation::Bvs => {
                if self.regs.branch_taken(operation) {
                    self.branch();
                } else {
                    self.read_pc();
                }
            },
            _ => {
                self.execute_control(instruction);
            },
        }
    }

    /// Executes one instruction, or stops the processor if the byte at the
    /// program counter is no instruction. Says which it was.
    pub fn checked_step(&mut self) -> (executed: bool)
        requires
            old(self)@.cycles <= i32::MAX - MAX_COST,
        ensures
            final(self)@ == old(self)@.step::<P>(),
            executed == old(self)@.at_instruction::<P>(),
    {
        proof {
            reveal(Machine::step);
        }
        let opcode: u8 = self.read_pc();
        match decode(opcode) {
            Some(instruction) => {
                proof {
                    lemma_cycles_in_range(opcode);
                    lemma_perform_keeps_count::<P>(self@, instruction);
                }
                let cost: i32 = if self.regs.branch_taken(instruction.operation) {
                    instruction.cycles + 1
                } else {
                    instruction.cycles
                };
                self.execute(instruction);
                self.cycles(cost);
                let frame = DebugFrame {
                    pc: self.regs.reg_pc,
                    op: opcode,
                    a: self.regs.reg_a,
                    x: self.regs.reg_x,
                    y: self.regs.reg_y,
                    registers: self.regs.pack(),
                    operation: instruction.operation,
                };
                self.debug_vector.push_front(frame);
                if self.debug_vector.len() > HISTORY_LIMIT {
                    self.debug_vector.pop_back();
                }
                true
            },
            None => {
                self.halt = Some(Halt::UndefinedOpcode(opcode));
                false
            },
        }
    }

    /// Executes the instruction at the program counter.
    ///
    /// The byte there must be a documented opcode; [`Self::checked_step`] is
    /// for callers that cannot know.
    pub fn step(&mut self)
        requires
            old(self)@.at_instruction::<P>(),
            old(self)@.cycles <= i32::MAX - MAX_COST,
        ensures
            final(self)@ == old(self)@.step::<P>(),
    {
        self.checked_step();
    }

    /// Clears the cycle count, then executes instructions until the count has
    /// reached `target_cycles` or the processor has stopped. Returns the count.
    pub fn run(&mut self, target_cycles: i32) -> (spent: i32)
        requires
            target_cycles <= i32::MAX - MAX_COST + 1,
        ensures
            final(self)@ == (Machine { cycles: 0, ..old(self)@ }).run::<P>(target_cycles as int),
            spent == final(self)@.cycles,
            spent >= target_cycles || final(self)@.stopped(),
            spent >= 0,
    {
        self.cycle_count = 0;
        let ghost start: Machine = self@;
        while self.cycle_count < target_cycles && self.halt.is_none()
            invariant
                target_cycles <= i32::MAX - MAX_COST + 1,
                self@.cycles >= 0,
                self@.run::<P>(target_cycles as int) == start.run::<P>(target_cycles as int),
            decreases self@.cycles_left(target_cycles as int), bit(!self@.stopped()),
        {
            proof {
                reveal(Machine::step);
                lemma_cycles_in_range(self@.fetch::<P>().0);
            }
            self.checked_step();
        }
        self.cycle_count
    }
}

/// Performing an instruction leaves the cycle count and the history alone:
/// they are the business of the step around it.
pub proof fn lemma_perform_keeps_count<P: Platform>(m: Machine, instruction: Instruction)
    ensures
        m.perform::<P>(instruction).cycles == m.cycles,
        m.perform::<P>(instruction).history == m.history,
{
}

/// Joins two bytes into a word, low byte first.
fn join(low: u8, high: u8) -> (w: u16)
    ensures
        w == word(low, high),
{
    proof {
        lemma_join(low, high);
    }
    (low as u16) | ((high as u16) << 8)
}

} // verus!
