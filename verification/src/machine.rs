//! What the processor does, as mathematics.
//!
//! A [`Machine`] is a processor together with its bus. Every step of the
//! interpreter is defined here as a function from machine to machine; the
//! executable code in [`crate::cpu`] is proved to compute these functions.
//! Reads go through the bus one at a time and in program order, because on a
//! bus with device registers a read may change what a later read returns.
use vstd::prelude::*;
use crate::cpu::DebugFrame;
use crate::instruction::{decode_spec, AddressMode, Instruction, Operation};
use crate::platform::{is_plain, Bus, Platform};
use crate::registers::{bit, signed, Registers};

verus! {

/// The page that holds the stack.
pub const STACK_PAGE: u16 = 0x0100;

/// Where the reset vector lies, low byte first.
pub const RESET_VECTOR: u16 = 0xfffc;

/// How many instructions the history keeps.
pub const HISTORY_LIMIT: usize = 1000;

/// Why the processor stopped.
#[derive(Clone, Copy, Debug, PartialEq, Eq, Structural)]
pub enum Halt {
    /// A break instruction was executed.
    Break,
    /// A byte was pushed with the stack pointer at 1 or below.
    StackOverflow,
    /// A byte was pulled with the stack pointer at `$FF`.
    StackUnderflow,
    /// The byte fetched as an opcode is no documented instruction.
    UndefinedOpcode(u8),
}

/// A processor and its bus.
pub struct Machine {
    /// Registers and flags.
    pub regs: Registers,
    /// Cycles spent since the count was last cleared.
    pub cycles: int,
    /// Why the processor stopped, if it has.
    pub halt: Option<Halt>,
    /// The latest instructions executed, newest first.
    pub history: Seq<DebugFrame>,
    /// The bus.
    pub bus: Bus,
}

/// The 16-bit word with the given low and high bytes.
pub open spec fn word(low: u8, high: u8) -> u16 {
    (low + 256 * high) as u16
}

/// The low byte of a word.
pub open spec fn low_byte(w: u16) -> u8 {
    (w % 256) as u8
}

/// The high byte of a word.
pub open spec fn high_byte(w: u16) -> u8 {
    (w / 256) as u8
}

/// `addr` moved by `distance`, wrapping around the 64 KiB address space.
pub open spec fn offset(addr: u16, distance: int) -> u16 {
    ((addr + distance) % 65536) as u16
}

/// `addr` moved by `distance`, wrapping around within a page.
pub open spec fn offset_in_page(addr: u8, distance: int) -> u8 {
    ((addr + distance) % 256) as u8
}

/// The address of the stack cell that `sp` selects.
pub open spec fn stack_address(sp: u8) -> u16 {
    (STACK_PAGE + sp) as u16
}

/// The history after `frame` is added: newest first, the oldest dropped once
/// there are more than [`HISTORY_LIMIT`].
pub open spec fn record(history: Seq<DebugFrame>, frame: DebugFrame) -> Seq<DebugFrame> {
    let longer = seq![frame] + history;
    if longer.len() > HISTORY_LIMIT {
        longer.drop_last()
    } else {
        longer
    }
}

/// The frame that describes `regs` after `opcode` was executed.
pub open spec fn frame_of(regs: Registers, opcode: u8, operation: Operation) -> DebugFrame {
    DebugFrame {
        pc: regs.reg_pc,
        op: opcode,
        a: regs.reg_a,
        x: regs.reg_x,
        y: regs.reg_y,
        registers: regs.status(),
        operation,
    }
}

impl Machine {
    /// A processor fresh from the factory on `bus`: running, no cycles spent,
    /// no history.
    pub open spec fn initial(bus: Bus) -> Machine {
        Machine {
            regs: Registers::initial(),
            cycles: 0,
            halt: None,
            history: Seq::empty(),
            bus,
        }
    }

    /// Whether the processor has stopped.
    pub open spec fn stopped(self) -> bool {
        self.halt is Some
    }

    /// This machine with other registers.
    pub open spec fn with_regs(self, regs: Registers) -> Machine {
        Machine { regs, ..self }
    }

    /// This machine with another program counter.
    pub open spec fn jump(self, target: u16) -> Machine {
        self.with_regs(Registers { reg_pc: target, ..self.regs })
    }

    /// A read of `addr` through the bus.
    pub open spec fn read<P: Platform>(self, addr: u16) -> (u8, Machine) {
        let (value, bus) = P::read_spec(self.bus, addr);
        (value, Machine { bus, ..self })
    }

    /// A write of `value` to `addr` through the bus.
    pub open spec fn write<P: Platform>(self, addr: u16, value: u8) -> Machine {
        Machine { bus: P::write_spec(self.bus, addr, value), ..self }
    }

    /// A read of the word whose bytes lie at `low_addr` and `high_addr`, low
    /// byte first.
    pub open spec fn read_word<P: Platform>(self, low_addr: u16, high_addr: u16) -> (
        u16,
        Machine,
    ) {
        let (low, m1) = self.read::<P>(low_addr);
        let (high, m2) = m1.read::<P>(high_addr);
        (word(low, high), m2)
    }

    /// A read of the byte at the program counter, which then moves on by one.
    pub open spec fn fetch<P: Platform>(self) -> (u8, Machine) {
        let (value, m) = self.read::<P>(self.regs.reg_pc);
        (value, m.jump(offset(self.regs.reg_pc, 1)))
    }

    /// Two fetches, read as a word with the low byte first.
    pub open spec fn fetch_word<P: Platform>(self) -> (u16, Machine) {
        let (low, m1) = self.fetch::<P>();
        let (high, m2) = m1.fetch::<P>();
        (word(low, high), m2)
    }

    /// The reset: registers in their power-on state, the stack pointer at
    /// `$FD`, the program counter from the reset vector, running, no cycles
    /// spent. The history stays.
    pub open spec fn reset<P: Platform>(self) -> Machine {
        let (vector, m) = self.read_word::<P>(RESET_VECTOR, offset(RESET_VECTOR, 1));
        Machine { regs: Registers::after_reset(vector), cycles: 0, halt: None, ..m }
    }

    /// A push: the byte goes to the stack cell, then the stack pointer steps
    /// down, wrapping. A push with the stack pointer at 1 or below stops the
    /// processor.
    pub open spec fn push<P: Platform>(self, value: u8) -> Machine {
        let sp = self.regs.reg_sp;
        let m = self.write::<P>(stack_address(sp), value);
        Machine {
            regs: Registers { reg_sp: offset_in_page(sp, -1), ..m.regs },
            halt: if sp <= 1 {
                Some(Halt::StackOverflow)
            } else {
                m.halt
            },
            ..m
        }
    }

    /// A pull: the stack pointer steps up, wrapping, then the stack cell is
    /// read. A pull with the stack pointer at `$FF` stops the processor.
    pub open spec fn pull<P: Platform>(self) -> (u8, Machine) {
        let sp = self.regs.reg_sp;
        let up = offset_in_page(sp, 1);
        let m = Machine {
            regs: Registers { reg_sp: up, ..self.regs },
            halt: if sp >= 0xff {
                Some(Halt::StackUnderflow)
            } else {
                self.halt
            },
            ..self
        };
        m.read::<P>(stack_address(up))
    }

    /// A pull of two bytes, read as a word with the low byte first.
    pub open spec fn pull_word<P: Platform>(self) -> (u16, Machine) {
        let (low, m1) = self.pull::<P>();
        let (high, m2) = m1.pull::<P>();
        (word(low, high), m2)
    }

    /// Zero-page addressing: the operand byte plus `index`, staying in page 0.
    pub open spec fn zero_page_address<P: Platform>(self, index: u8) -> (u16, Machine) {
        let (base, m) = self.fetch::<P>();
        (offset_in_page(base, index as int) as u16, m)
    }

    /// Absolute addressing: the operand word plus `index`.
    pub open spec fn absolute_address<P: Platform>(self, index: u8) -> (u16, Machine) {
        let (base, m) = self.fetch_word::<P>();
        (offset(base, index as int), m)
    }

    /// Indirect addressing, for jumps: the operand word points at the address.
    pub open spec fn indirect_address<P: Platform>(self) -> (u16, Machine) {
        let (pointer, m) = self.fetch_word::<P>();
        m.read_word::<P>(pointer, offset(pointer, 1))
    }

    /// The word that the page-0 pointer at `pointer` holds. Its high byte comes
    /// from the next cell of page 0, which for `$FF` is `$00`.
    pub open spec fn zero_page_pointer<P: Platform>(self, pointer: u8) -> (u16, Machine) {
        self.read_word::<P>(pointer as u16, offset_in_page(pointer, 1) as u16)
    }

    /// Indexed-indirect addressing: X selects the page-0 pointer.
    pub open spec fn indirect_x_address<P: Platform>(self) -> (u16, Machine) {
        let (base, m) = self.fetch::<P>();
        m.zero_page_pointer::<P>(offset_in_page(base, self.regs.reg_x as int))
    }

    /// Indirect-indexed addressing: Y is added to what the page-0 pointer holds.
    pub open spec fn indirect_y_address<P: Platform>(self) -> (u16, Machine) {
        let (pointer, m1) = self.fetch::<P>();
        let (base, m2) = m1.zero_page_pointer::<P>(pointer);
        (offset(base, self.regs.reg_y as int), m2)
    }

    /// The address that an instruction in `mode` works on, after its operand
    /// bytes are fetched. The modes without an address give 0 and fetch nothing.
    pub open spec fn operand_address<P: Platform>(self, mode: AddressMode) -> (u16, Machine) {
        match mode {
            AddressMode::ZeroPage => self.zero_page_address::<P>(0),
            AddressMode::ZeroPageX => self.zero_page_address::<P>(self.regs.reg_x),
            AddressMode::ZeroPageY => self.zero_page_address::<P>(self.regs.reg_y),
            AddressMode::Absolute => self.absolute_address::<P>(0),
            AddressMode::AbsoluteX => self.absolute_address::<P>(self.regs.reg_x),
            AddressMode::AbsoluteY => self.absolute_address::<P>(self.regs.reg_y),
            AddressMode::Indirect => self.indirect_address::<P>(),
            AddressMode::IndirectX => self.indirect_x_address::<P>(),
            AddressMode::IndirectY => self.indirect_y_address::<P>(),
            _ => (0, self),
        }
    }

    /// The operand byte of an instruction in `mode`: the fetched byte for
    /// immediate mode, else the byte read from the operand address.
    pub open spec fn operand<P: Platform>(self, mode: AddressMode) -> (u8, Machine) {
        if mode is Immediate {
            self.fetch::<P>()
        } else {
            let (addr, m) = self.operand_address::<P>(mode);
            m.read::<P>(addr)
        }
    }

    /// A read-modify-write instruction: on the accumulator, or on the cell at
    /// the operand address, which is read once and written once.
    pub open spec fn modify<P: Platform>(self, operation: Operation, mode: AddressMode) -> Machine {
        if mode is Accumulator {
            let (result, regs) = self.regs.modify(operation, self.regs.reg_a);
            self.with_regs(Registers { reg_a: result, ..regs })
        } else {
            let (addr, m1) = self.operand_address::<P>(mode);
            let (value, m2) = m1.read::<P>(addr);
            let (result, regs) = m2.regs.modify(operation, value);
            m2.with_regs(regs).write::<P>(addr, result)
        }
    }

    /// A branch instruction: the offset byte is fetched either way; if the
    /// branch is taken, the program counter moves by the offset, read as a
    /// signed number, from the instruction that follows.
    pub open spec fn branch<P: Platform>(self, taken: bool) -> Machine {
        let (distance, m) = self.fetch::<P>();
        if taken {
            m.jump(offset(m.regs.reg_pc, signed(distance)))
        } else {
            m
        }
    }

    /// Jump to subroutine: the address of the last byte of the instruction is
    /// pushed, high byte first, and the program counter takes the operand.
    pub open spec fn call<P: Platform>(self) -> Machine {
        let (target, m) = self.fetch_word::<P>();
        let back = offset(m.regs.reg_pc, -1);
        m.push::<P>(high_byte(back)).push::<P>(low_byte(back)).jump(target)
    }

    /// Return from subroutine: the program counter takes the word pulled,
    /// plus one.
    pub open spec fn return_from_call<P: Platform>(self) -> Machine {
        let (back, m) = self.pull_word::<P>();
        m.jump(offset(back, 1))
    }

    /// Return from interrupt: the flags are pulled, then the program counter.
    pub open spec fn return_from_interrupt<P: Platform>(self) -> Machine {
        let (packed, m1) = self.pull::<P>();
        let (back, m2) = m1.with_regs(m1.regs.with_status(packed)).pull_word::<P>();
        m2.jump(back)
    }

    /// The effect of `instruction`, its opcode already fetched, on everything
    /// but the cycle count and the history.
    pub open spec fn perform<P: Platform>(self, instruction: Instruction) -> Machine {
        let operation = instruction.operation;
        let mode = instruction.mode;
        if operation.reads_operand() {
            let (value, m) = self.operand::<P>(mode);
            m.with_regs(m.regs.with_operand(operation, value))
        } else if operation.modifies() {
            self.modify::<P>(operation, mode)
        } else if operation.stores() {
            let (addr, m) = self.operand_address::<P>(mode);
            m.write::<P>(addr, m.regs.stored(operation))
        } else if operation.is_branch() {
            self.branch::<P>(self.regs.takes_branch(operation))
        } else {
            match operation {
                Operation::Jmp => {
                    let (target, m) = self.operand_address::<P>(mode);
                    m.jump(target)
                },
                Operation::Jsr => self.call::<P>(),
                Operation::Rts => self.return_from_call::<P>(),
                Operation::Rti => self.return_from_interrupt::<P>(),
                Operation::Brk => Machine {
                    regs: Registers { f_break: true, ..self.regs },
                    halt: Some(Halt::Break),
                    ..self
                },
                Operation::Pha => self.push::<P>(self.regs.reg_a),
                Operation::Php => self.push::<P>(self.regs.status()),
                Operation::Pla => {
                    let (value, m) = self.pull::<P>();
                    m.with_regs(Registers { reg_a: value, ..m.regs }.with_zn(value))
                },
                Operation::Plp => {
                    let (packed, m) = self.pull::<P>();
                    m.with_regs(m.regs.with_status(packed))
                },
                _ => self.with_regs(self.regs.implied(operation)),
            }
        }
    }

    /// The cycles that `instruction` costs in this state, before its operand
    /// is fetched: the base count, and one more for a branch that is taken.
    pub open spec fn cost(self, instruction: Instruction) -> int {
        instruction.cycles + bit(self.regs.takes_branch(instruction.operation))
    }

    /// One instruction: fetch the opcode, look it up, perform it, charge its
    /// cycles and note it in the history. A byte that is no opcode stops the
    /// processor instead, with the program counter past that byte.
    #[verifier::opaque]
    pub open spec fn step<P: Platform>(self) -> Machine {
        let (opcode, fetched) = self.fetch::<P>();
        match decode_spec(opcode) {
            Some(instruction) => {
                let done = fetched.perform::<P>(instruction);
                Machine {
                    cycles: self.cycles + fetched.cost(instruction),
                    history: record(
                        self.history,
                        frame_of(done.regs, opcode, instruction.operation),
                    ),
                    ..done
                }
            },
            None => Machine { halt: Some(Halt::UndefinedOpcode(opcode)), ..fetched },
        }
    }

    /// Whether the byte at the program counter is a documented opcode.
    pub open spec fn at_instruction<P: Platform>(self) -> bool {
        decode_spec(self.fetch::<P>().0) is Some
    }

    /// How far the cycle count is from `target`, never negative.
    pub open spec fn cycles_left(self, target: int) -> nat {
        if self.cycles < target {
            (target - self.cycles) as nat
        } else {
            0
        }
    }

    /// Steps until the cycle count has reached `target` or the processor has
    /// stopped.
    pub open spec fn run<P: Platform>(self, target: int) -> Machine
        decreases self.cycles_left(target), bit(!self.stopped()),
    {
        if self.cycles >= target || self.stopped() {
            self
        } else {
            proof {
                reveal(Machine::step);
                crate::instruction::lemma_cycles_in_range(self.fetch::<P>().0);
            }
            self.step::<P>().run::<P>(target)
        }
    }
}

/// A byte pushed is the byte pulled.
///
/// After a push and a pull the stack pointer is where it was, whatever the
/// bus. Where the stack cell is plain memory, the byte pulled is the byte
/// pushed, and the cell keeps it.
pub proof fn lemma_push_then_pull<P: Platform>(m: Machine, value: u8)
    requires
        m.bus.whole(),
    ensures
        m.push::<P>(value).pull::<P>().1.regs == m.regs,
        is_plain::<P>(stack_address(m.regs.reg_sp)) ==> {
            &&& m.push::<P>(value).pull::<P>().0 == value
            &&& m.push::<P>(value).pull::<P>().1.bus == m.bus.store(
                stack_address(m.regs.reg_sp),
                value,
            )
        },
{
    let cell = stack_address(m.regs.reg_sp);
    let pushed = m.push::<P>(value);
    assert(offset_in_page(pushed.regs.reg_sp, 1) == m.regs.reg_sp);
    if is_plain::<P>(cell) {
        assert(pushed.bus == m.bus.store(cell, value));
        assert(P::read_spec(pushed.bus, cell) == (pushed.bus.at(cell), pushed.bus));
    }
}

/// Wrapping around an address space of `size` cells adds or takes away at
/// most one `size` when the address is less than one `size` out of range.
proof fn lemma_wrap_once(x: int, size: int)
    requires
        size > 0,
        -size <= x < 2 * size,
    ensures
        x % size == (if x < 0 {
            x + size
        } else if x >= size {
            x - size
        } else {
            x
        }),
{
    if x < 0 {
        vstd::arithmetic::div_mod::lemma_mod_add_multiples_vanish(x, size);
        vstd::arithmetic::div_mod::lemma_small_mod((x + size) as nat, size as nat);
    } else if x >= size {
        vstd::arithmetic::div_mod::lemma_mod_sub_multiples_vanish(x, size);
        vstd::arithmetic::div_mod::lemma_small_mod((x - size) as nat, size as nat);
    } else {
        vstd::arithmetic::div_mod::lemma_small_mod(x as nat, size as nat);
    }
}

/// Moving an address twice is moving it once by the sum.
pub proof fn lemma_offset_twice(addr: u16, first: int, second: int)
    requires
        -256 <= first <= 256,
        -256 <= second <= 256,
    ensures
        offset(offset(addr, first), second) == offset(addr, first + second),
        offset_in_page(offset_in_page(addr as u8, first), second) == offset_in_page(
            addr as u8,
            first + second,
        ),
{
    lemma_wrap_once(addr + first, 65536);
    lemma_wrap_once(offset(addr, first) + second, 65536);
    lemma_wrap_once(addr + first + second, 65536);
    let low: u8 = addr as u8;
    vstd::arithmetic::div_mod::lemma_add_mod_noop(low + first, second, 256);
    vstd::arithmetic::div_mod::lemma_add_mod_noop((low + first) % 256, second, 256);
    vstd::arithmetic::div_mod::lemma_mod_twice(low + first, 256);
}

/// A fetch from plain memory returns the cell and only moves the program
/// counter.
pub proof fn lemma_plain_fetch<P: Platform>(m: Machine)
    requires
        is_plain::<P>(m.regs.reg_pc),
    ensures
        m.fetch::<P>() == (m.bus.at(m.regs.reg_pc), m.jump(offset(m.regs.reg_pc, 1))),
{
    assert(P::read_spec(m.bus, m.regs.reg_pc) == (m.bus.at(m.regs.reg_pc), m.bus));
}

/// A push to plain memory stores the byte in the stack cell and changes
/// nothing else on the bus.
pub proof fn lemma_plain_push<P: Platform>(m: Machine, value: u8)
    requires
        is_plain::<P>(stack_address(m.regs.reg_sp)),
    ensures
        m.push::<P>(value).bus == m.bus.store(stack_address(m.regs.reg_sp), value),
        m.push::<P>(value).regs == (Registers {
            reg_sp: offset_in_page(m.regs.reg_sp, -1),
            ..m.regs
        }),
{
    let cell = stack_address(m.regs.reg_sp);
    assert(P::write_spec(m.bus, cell, value) == m.bus.store(cell, value));
}

/// A pull from plain memory returns the stack cell and changes nothing on the
/// bus.
pub proof fn lemma_plain_pull<P: Platform>(m: Machine)
    requires
        is_plain::<P>(stack_address(offset_in_page(m.regs.reg_sp, 1))),
    ensures
        m.pull::<P>().0 == m.bus.at(stack_address(offset_in_page(m.regs.reg_sp, 1))),
        m.pull::<P>().1.bus == m.bus,
        m.pull::<P>().1.regs == (Registers {
            reg_sp: offset_in_page(m.regs.reg_sp, 1),
            ..m.regs
        }),
{
    let cell = stack_address(offset_in_page(m.regs.reg_sp, 1));
    assert(P::read_spec(m.bus, cell) == (m.bus.at(cell), m.bus));
}

/// What a call does where the memory it touches is plain.
///
/// The machine has fetched the opcode of a jump-to-subroutine and stands
/// before its operand. The two operand bytes and the two stack cells used are
/// plain memory. Then the call moves the program counter to the operand,
/// lowers the stack pointer by two and leaves on the stack the address of the
/// last byte of the instruction, high byte uppermost.
pub proof fn lemma_call<P: Platform>(m: Machine)
    requires
        is_plain::<P>(m.regs.reg_pc),
        is_plain::<P>(offset(m.regs.reg_pc, 1)),
        is_plain::<P>(stack_address(m.regs.reg_sp)),
        is_plain::<P>(stack_address(offset_in_page(m.regs.reg_sp, -1))),
    ensures
        m.call::<P>().regs == (Registers {
            reg_pc: word(m.bus.at(m.regs.reg_pc), m.bus.at(offset(m.regs.reg_pc, 1))),
            reg_sp: offset_in_page(m.regs.reg_sp, -2),
            ..m.regs
        }),
        m.call::<P>().bus == m.bus.store(
            stack_address(m.regs.reg_sp),
            high_byte(offset(m.regs.reg_pc, 1)),
        ).store(
            stack_address(offset_in_page(m.regs.reg_sp, -1)),
            low_byte(offset(m.regs.reg_pc, 1)),
        ),
{
    let pc = m.regs.reg_pc;
    let back = offset(pc, 1);
    lemma_plain_fetch::<P>(m);
    let m1 = m.jump(offset(pc, 1));
    lemma_plain_fetch::<P>(m1);
    let m2 = m1.jump(offset(offset(pc, 1), 1));
    assert(m.fetch_word::<P>().1 == m2);
    lemma_offset_twice(pc, 1, 1);
    lemma_offset_twice(pc, 2, -1);
    assert(offset(m2.regs.reg_pc, -1) == back);
    lemma_plain_push::<P>(m2, high_byte(back));
    let m3 = m2.push::<P>(high_byte(back));
    lemma_plain_push::<P>(m3, low_byte(back));
    lemma_offset_twice(m.regs.reg_sp as u16, -1, -1);
}

/// What a return does where the stack is plain memory.
///
/// The two stack cells above the stack pointer are plain memory. Then the
/// return raises the stack pointer by two and moves the program counter to
/// the address after the one found on the stack.
pub proof fn lemma_return<P: Platform>(m: Machine)
    requires
        is_plain::<P>(stack_address(offset_in_page(m.regs.reg_sp, 1))),
        is_plain::<P>(stack_address(offset_in_page(m.regs.reg_sp, 2))),
    ensures
        m.return_from_call::<P>().regs == (Registers {
            reg_pc: offset(
                word(
                    m.bus.at(stack_address(offset_in_page(m.regs.reg_sp, 1))),
                    m.bus.at(stack_address(offset_in_page(m.regs.reg_sp, 2))),
                ),
                1,
            ),
            reg_sp: offset_in_page(m.regs.reg_sp, 2),
            ..m.regs
        }),
        m.return_from_call::<P>().bus == m.bus,
{
    lemma_plain_pull::<P>(m);
    let m1 = m.pull::<P>().1;
    lemma_offset_twice(m.regs.reg_sp as u16, 1, 1);
    lemma_plain_pull::<P>(m1);
}

/// A step from plain memory performs the instruction that the cell at the
/// program counter spells.
pub proof fn lemma_step_at<P: Platform>(m: Machine, instruction: Instruction)
    requires
        is_plain::<P>(m.regs.reg_pc),
        decode_spec(m.bus.at(m.regs.reg_pc)) == Some(instruction),
    ensures
        m.step::<P>().regs == m.jump(offset(m.regs.reg_pc, 1)).perform::<P>(instruction).regs,
        m.step::<P>().bus == m.jump(offset(m.regs.reg_pc, 1)).perform::<P>(instruction).bus,
        m.step::<P>().halt == m.jump(offset(m.regs.reg_pc, 1)).perform::<P>(instruction).halt,
{
    reveal(Machine::step);
    lemma_plain_fetch::<P>(m);
}

/// One step over a jump-to-subroutine in plain memory with a plain stack.
pub proof fn lemma_call_step<P: Platform>(m: Machine)
    requires
        is_plain::<P>(m.regs.reg_pc),
        is_plain::<P>(offset(m.regs.reg_pc, 1)),
        is_plain::<P>(offset(m.regs.reg_pc, 2)),
        is_plain::<P>(stack_address(m.regs.reg_sp)),
        is_plain::<P>(stack_address(offset_in_page(m.regs.reg_sp, -1))),
        m.bus.at(m.regs.reg_pc) == 0x20,
    ensures
        m.step::<P>().regs == (Registers {
            reg_pc: word(m.bus.at(offset(m.regs.reg_pc, 1)), m.bus.at(offset(m.regs.reg_pc, 2))),
            reg_sp: offset_in_page(m.regs.reg_sp, -2),
            ..m.regs
        }),
        m.step::<P>().bus == m.bus.store(
            stack_address(m.regs.reg_sp),
            high_byte(offset(m.regs.reg_pc, 2)),
        ).store(
            stack_address(offset_in_page(m.regs.reg_sp, -1)),
            low_byte(offset(m.regs.reg_pc, 2)),
        ),
{
    let jsr = Instruction { operation: Operation::Jsr, mode: AddressMode::Absolute, cycles: 6 };
    let m1 = m.jump(offset(m.regs.reg_pc, 1));
    assert(decode_spec(0x20) == Some(jsr));
    lemma_step_at::<P>(m, jsr);
    assert(m1.perform::<P>(jsr) == m1.call::<P>());
    lemma_offset_twice(m.regs.reg_pc, 1, 1);
    lemma_call::<P>(m1);
}

/// One step over a return-from-subroutine in plain memory with a plain stack.
pub proof fn lemma_return_step<P: Platform>(m: Machine)
    requires
        is_plain::<P>(m.regs.reg_pc),
        is_plain::<P>(stack_address(offset_in_page(m.regs.reg_sp, 1))),
        is_plain::<P>(stack_address(offset_in_page(m.regs.reg_sp, 2))),
        m.bus.at(m.regs.reg_pc) == 0x60,
    ensures
        m.step::<P>().regs == (Registers {
            reg_pc: offset(
                word(
                    m.bus.at(stack_address(offset_in_page(m.regs.reg_sp, 1))),
                    m.bus.at(stack_address(offset_in_page(m.regs.reg_sp, 2))),
                ),
                1,
            ),
            reg_sp: offset_in_page(m.regs.reg_sp, 2),
            ..m.regs
        }),
        m.step::<P>().bus == m.bus,
{
    let rts = Instruction { operation: Operation::Rts, mode: AddressMode::Implied, cycles: 6 };
    let m1 = m.jump(offset(m.regs.reg_pc, 1));
    assert(decode_spec(0x60) == Some(rts));
    lemma_step_at::<P>(m, rts);
    assert(m1.perform::<P>(rts) == m1.return_from_call::<P>());
    lemma_return::<P>(m1);
}

/// A call followed at once by a return comes back to the instruction after
/// the call.
///
/// The machine stands before a jump-to-subroutine whose target holds a
/// return-from-subroutine. The three bytes of the call, the target and the two
/// stack cells used are plain memory, and the target is neither of those
/// stack cells, which the call overwrites. Then two steps leave the program
/// counter just past the operand of the call and the stack pointer where it was.
pub proof fn lemma_call_then_return<P: Platform>(m: Machine, target: u16)
    requires
        m.bus.whole(),
        is_plain::<P>(m.regs.reg_pc),
        is_plain::<P>(offset(m.regs.reg_pc, 1)),
        is_plain::<P>(offset(m.regs.reg_pc, 2)),
        is_plain::<P>(target),
        is_plain::<P>(stack_address(m.regs.reg_sp)),
        is_plain::<P>(stack_address(offset_in_page(m.regs.reg_sp, -1))),
        m.bus.at(m.regs.reg_pc) == 0x20,
        word(m.bus.at(offset(m.regs.reg_pc, 1)), m.bus.at(offset(m.regs.reg_pc, 2))) == target,
        m.bus.at(target) == 0x60,
        target != stack_address(m.regs.reg_sp),
        target != stack_address(offset_in_page(m.regs.reg_sp, -1)),
    ensures
        m.step::<P>().regs.reg_pc == target,
        m.step::<P>().step::<P>().regs.reg_pc == offset(m.regs.reg_pc, 3),
        m.step::<P>().step::<P>().regs.reg_sp == m.regs.reg_sp,
{
    let sp = m.regs.reg_sp;
    let back = offset(m.regs.reg_pc, 2);
    let upper = stack_address(sp);
    let lower = stack_address(offset_in_page(sp, -1));
    lemma_call_step::<P>(m);
    let called = m.step::<P>();
    lemma_offset_twice(sp as u16, -2, 1);
    lemma_offset_twice(sp as u16, -2, 2);
    assert(stack_address(offset_in_page(called.regs.reg_sp, 1)) == lower);
    assert(stack_address(offset_in_page(called.regs.reg_sp, 2)) == upper);
    assert(called.bus.at(target) == 0x60);
    assert(called.bus.at(lower) == low_byte(back));
    assert(called.bus.at(upper) == high_byte(back));
    lemma_return_step::<P>(called);
    assert(word(low_byte(back), high_byte(back)) == back);
    lemma_offset_twice(m.regs.reg_pc, 2, 1);
}

/// Working out an operand address, and reading the operand, change no
/// register but the program counter and never stop the processor.
pub proof fn lemma_addressing_keeps_registers<P: Platform>(m: Machine, mode: AddressMode)
    ensures
        m.operand_address::<P>(mode).1.regs == (Registers {
            reg_pc: m.operand_address::<P>(mode).1.regs.reg_pc,
            ..m.regs
        }),
        m.operand_address::<P>(mode).1.halt == m.halt,
        m.operand::<P>(mode).1.regs == (Registers {
            reg_pc: m.operand::<P>(mode).1.regs.reg_pc,
            ..m.regs
        }),
        m.operand::<P>(mode).1.halt == m.halt,
{
}

/// The break flag changes only where it should: a break sets it, and pulling
/// the flags or returning from an interrupt restores it from the stack. No
/// other instruction touches it.
pub proof fn lemma_break_flag<P: Platform>(m: Machine, instruction: Instruction)
    ensures
        instruction.operation is Brk ==> m.perform::<P>(instruction).regs.f_break,
        !(instruction.operation is Brk || instruction.operation is Plp
            || instruction.operation is Rti) ==> m.perform::<P>(instruction).regs.f_break
            == m.regs.f_break,
{
    let operation = instruction.operation;
    let mode = instruction.mode;
    lemma_addressing_keeps_registers::<P>(m, mode);
    if operation.reads_operand() {
        let (value, after) = m.operand::<P>(mode);
        assert(after.regs.with_operand(operation, value).f_break == after.regs.f_break);
    } else if operation.modifies() {
        if mode is Accumulator {
            assert(m.regs.modify(operation, m.regs.reg_a).1.f_break == m.regs.f_break);
        } else {
            let (addr, m1) = m.operand_address::<P>(mode);
            let (value, m2) = m1.read::<P>(addr);
            assert(m2.regs.modify(operation, value).1.f_break == m2.regs.f_break);
        }
    } else if operation.stores() {
    } else if operation.is_branch() {
    } else if operation is Jmp {
    } else if operation is Jsr || operation is Rts || operation is Pha || operation is Php
        || operation is Pla {
    } else if operation is Brk || operation is Plp || operation is Rti {
    } else {
        assert(m.regs.implied(operation).f_break == m.regs.f_break);
    }
}

/// A running processor stops only on a break or on the stack guard: an
/// instruction that is no break and does not use the stack leaves the
/// processor running or stopped as it was.
pub proof fn lemma_stops<P: Platform>(m: Machine, instruction: Instruction)
    ensures
        instruction.operation is Brk ==> m.perform::<P>(instruction).halt == Some(Halt::Break),
        !(instruction.operation is Brk || instruction.operation is Pha
            || instruction.operation is Php || instruction.operation is Pla
            || instruction.operation is Plp || instruction.operation is Jsr
            || instruction.operation is Rts || instruction.operation is Rti)
            ==> m.perform::<P>(instruction).halt == m.halt,
{
}

/// A run ends with the cycle target reached or the processor stopped, and a
/// run that starts there changes nothing.
pub proof fn lemma_run_ends<P: Platform>(m: Machine, target: int)
    ensures
        m.run::<P>(target).cycles >= target || m.run::<P>(target).stopped(),
        m.cycles >= target || m.stopped() ==> m.run::<P>(target) == m,
        m.run::<P>(target).run::<P>(target) == m.run::<P>(target),
    decreases m.cycles_left(target), bit(!m.stopped()),
{
    if !(m.cycles >= target || m.stopped()) {
        reveal(Machine::step);
        crate::instruction::lemma_cycles_in_range(m.fetch::<P>().0);
        lemma_run_ends::<P>(m.step::<P>(), target);
    }
}

} // verus!
