//! The instruction set: operations, addressing modes, and the opcode table.
use vstd::prelude::*;

verus! {

/// What an instruction does, named by its mnemonic.
#[derive(Clone, Copy, Debug, PartialEq, Eq, Structural)]
pub enum Operation {
    /// Add memory and carry to the accumulator.
    Adc,
    /// And memory into the accumulator.
    And,
    /// Shift left.
    Asl,
    /// Branch if carry is clear.
    Bcc,
    /// Branch if carry is set.
    Bcs,
    /// Branch if the zero flag is set.
    Beq,
    /// Test bits of memory against the accumulator.
    Bit,
    /// Branch if the negative flag is set.
    Bmi,
    /// Branch if the zero flag is clear.
    Bne,
    /// Branch if the negative flag is clear.
    Bpl,
    /// Break: stop the processor.
    Brk,
    /// Branch if overflow is clear.
    Bvc,
    /// Branch if overflow is set.
    Bvs,
    /// Clear carry.
    Clc,
    /// Clear decimal mode.
    Cld,
    /// Clear interrupt disable.
    Cli,
    /// Clear overflow.
    Clv,
    /// Compare memory with the accumulator.
    Cmp,
    /// Compare memory with X.
    Cpx,
    /// Compare memory with Y.
    Cpy,
    /// Decrement memory.
    Dec,
    /// Decrement X.
    Dex,
    /// Decrement Y.
    Dey,
    /// Exclusive-or memory into the accumulator.
    Eor,
    /// Increment memory.
    Inc,
    /// Increment X.
    Inx,
    /// Increment Y.
    Iny,
    /// Jump.
    Jmp,
    /// Jump to subroutine.
    Jsr,
    /// Load the accumulator.
    Lda,
    /// Load X.
    Ldx,
    /// Load Y.
    Ldy,
    /// Shift right.
    Lsr,
    /// Do nothing.
    Nop,
    /// Or memory into the accumulator.
    Ora,
    /// Push the accumulator.
    Pha,
    /// Push the status byte.
    Php,
    /// Pull the accumulator.
    Pla,
    /// Pull the status byte.
    Plp,
    /// Rotate left through carry.
    Rol,
    /// Rotate right through carry.
    Ror,
    /// Return from interrupt.
    Rti,
    /// Return from subroutine.
    Rts,
    /// Subtract memory and borrow from the accumulator.
    Sbc,
    /// Set carry.
    Sec,
    /// Set decimal mode.
    Sed,
    /// Set interrupt disable.
    Sei,
    /// Store the accumulator.
    Sta,
    /// Store X.
    Stx,
    /// Store Y.
    Sty,
    /// Copy A to X.
    Tax,
    /// Copy A to Y.
    Tay,
    /// Copy the stack pointer to X.
    Tsx,
    /// Copy X to A.
    Txa,
    /// Copy X to the stack pointer.
    Txs,
    /// Copy Y to A.
    Tya,
}

/// How an instruction finds its operand.
#[derive(Clone, Copy, Debug, PartialEq, Eq, Structural)]
pub enum AddressMode {
    /// No operand.
    Implied,
    /// The accumulator is the operand.
    Accumulator,
    /// The byte after the opcode is the operand.
    Immediate,
    /// The byte after the opcode is an address in page 0.
    ZeroPage,
    /// Page-0 address plus X, staying in page 0.
    ZeroPageX,
    /// Page-0 address plus Y, staying in page 0.
    ZeroPageY,
    /// The two bytes after the opcode are the address, low byte first.
    Absolute,
    /// Absolute address plus X.
    AbsoluteX,
    /// Absolute address plus Y.
    AbsoluteY,
    /// The two bytes after the opcode point at the address.
    Indirect,
    /// The page-0 cell at operand plus X points at the address.
    IndirectX,
    /// The page-0 cell at the operand points at a base, to which Y is added.
    IndirectY,
    /// The byte after the opcode is a signed distance from the next instruction.
    Relative,
}

/// One line of the opcode table.
#[derive(Clone, Copy, Debug, PartialEq, Eq, Structural)]
pub struct Instruction {
    /// What it does.
    pub operation: Operation,
    /// Where its operand is.
    pub mode: AddressMode,
    /// The cycles it costs. A branch that is taken costs one more.
    pub cycles: i32,
}

/// A table line.
pub open spec fn entry(operation: Operation, mode: AddressMode, cycles: i32) -> Option<
    Instruction,
> {
    Some(Instruction { operation, mode, cycles })
}

/// The opcode table of the documented instruction set: for each opcode its
/// operation, its addressing mode and its base cycle count. Bytes that are no
/// documented opcode have no line.
pub open spec fn decode_spec(opcode: u8) -> Option<Instruction> {
    match opcode {
        0x00 => entry(Operation::Brk, AddressMode::Implied, 7),
        0x01 => entry(Operation::Ora, AddressMode::IndirectX, 6),
        0x05 => entry(Operation::Ora, AddressMode::ZeroPage, 3),
        0x06 => entry(Operation::Asl, AddressMode::ZeroPage, 5),
        0x08 => entry(Operation::Php, AddressMode::Implied, 3),
        0x09 => entry(Operation::Ora, AddressMode::Immediate, 2),
        0x0a => entry(Operation::Asl, AddressMode::Accumulator, 2),
        0x0d => entry(Operation::Ora, AddressMode::Absolute, 4),
        0x0e => entry(Operation::Asl, AddressMode::Absolute, 6),
        0x10 => entry(Operation::Bpl, AddressMode::Relative, 2),
        0x11 => entry(Operation::Ora, AddressMode::IndirectY, 5),
        0x15 => entry(Operation::Ora, AddressMode::ZeroPageX, 4),
        0x16 => entry(Operation::Asl, AddressMode::ZeroPageX, 6),
        0x18 => entry(Operation::Clc, AddressMode::Implied, 2),
        0x19 => entry(Operation::Ora, AddressMode::AbsoluteY, 4),
        0x1d => entry(Operation::Ora, AddressMode::AbsoluteX, 4),
        0x1e => entry(Operation::Asl, AddressMode::AbsoluteX, 7),
        0x20 => entry(Operation::Jsr, AddressMode::Absolute, 6),
        0x21 => entry(Operation::And, AddressMode::IndirectX, 6),
        0x24 => entry(Operation::Bit, AddressMode::ZeroPage, 3),
        0x25 => entry(Operation::And, AddressMode::ZeroPage, 3),
        0x26 => entry(Operation::Rol, AddressMode::ZeroPage, 5),
        0x28 => entry(Operation::Plp, AddressMode::Implied, 4),
        0x29 => entry(Operation::And, AddressMode::Immediate, 2),
        0x2a => entry(Operation::Rol, AddressMode::Accumulator, 2),
        0x2c => entry(Operation::Bit, AddressMode::Absolute, 4),
        0x2d => entry(Operation::And, AddressMode::Absolute, 4),
        0x2e => entry(Operation::Rol, AddressMode::Absolute, 6),
        0x30 => entry(Operation::Bmi, AddressMode::Relative, 2),
        0x31 => entry(Operation::And, AddressMode::IndirectY, 5),
        0x35 => entry(Operation::And, AddressMode::ZeroPageX, 4),
        0x36 => entry(Operation::Rol, AddressMode::ZeroPageX, 6),
        0x38 => entry(Operation::Sec, AddressMode::Implied, 2),
        0x39 => entry(Operation::And, AddressMode::AbsoluteY, 4),
        0x3d => entry(Operation::And, AddressMode::AbsoluteX, 4),
        0x3e => entry(Operation::Rol, AddressMode::AbsoluteX, 7),
        0x40 => entry(Operation::Rti, AddressMode::Implied, 6),
        0x41 => entry(Operation::Eor, AddressMode::IndirectX, 6),
        0x45 => entry(Operation::Eor, AddressMode::ZeroPage, 3),
        0x46 => entry(Operation::Lsr, AddressMode::ZeroPage, 5),
        0x48 => entry(Operation::Pha, AddressMode::Implied, 3),
        0x49 => entry(Operation::Eor, AddressMode::Immediate, 2),
        0x4a => entry(Operation::Lsr, AddressMode::Accumulator, 2),
        0x4c => entry(Operation::Jmp, AddressMode::Absolute, 3),
        0x4d => entry(Operation::Eor, AddressMode::Absolute, 4),
        0x4e => entry(Operation::Lsr, AddressMode::Absolute, 6),
        0x50 => entry(Operation::Bvc, AddressMode::Relative, 2),
        0x51 => entry(Operation::Eor, AddressMode::IndirectY, 5),
        0x55 => entry(Operation::Eor, AddressMode::ZeroPageX, 4),
        0x56 => entry(Operation::Lsr, AddressMode::ZeroPageX, 6),
        0x58 => entry(Operation::Cli, AddressMode::Implied, 2),
        0x59 => entry(Operation::Eor, AddressMode::AbsoluteY, 4),
        0x5d => entry(Operation::Eor, AddressMode::AbsoluteX, 4),
        0x5e => entry(Operation::Lsr, AddressMode::AbsoluteX, 7),
        0x60 => entry(Operation::Rts, AddressMode::Implied, 6),
        0x61 => entry(Operation::Adc, AddressMode::IndirectX, 6),
        0x65 => entry(Operation::Adc, AddressMode::ZeroPage, 3),
        0x66 => entry(Operation::Ror, AddressMode::ZeroPage, 5),
        0x68 => entry(Operation::Pla, AddressMode::Implied, 4),
        0x69 => entry(Operation::Adc, AddressMode::Immediate, 2),
        0x6a => entry(Operation::Ror, AddressMode::Accumulator, 2),
        0x6c => entry(Operation::Jmp, AddressMode::Indirect, 5),
        0x6d => entry(Operation::Adc, AddressMode::Absolute, 4),
        0x6e => entry(Operation::Ror, AddressMode::Absolute, 6),
        0x70 => entry(Operation::Bvs, AddressMode::Relative, 2),
        0x71 => entry(Operation::Adc, AddressMode::IndirectY, 5),
        0x75 => entry(Operation::Adc, AddressMode::ZeroPageX, 4),
        0x76 => entry(Operation::Ror, AddressMode::ZeroPageX, 6),
        0x78 => entry(Operation::Sei, AddressMode::Implied, 2),
        0x79 => entry(Operation::Adc, AddressMode::AbsoluteY, 4),
        0x7d => entry(Operation::Adc, AddressMode::AbsoluteX, 4),
        0x7e => entry(Operation::Ror, AddressMode::AbsoluteX, 7),
        0x81 => entry(Operation::Sta, AddressMode::IndirectX, 6),
        0x84 => entry(Operation::Sty, AddressMode::ZeroPage, 3),
        0x85 => entry(Operation::Sta, AddressMode::ZeroPage, 3),
        0x86 => entry(Operation::Stx, AddressMode::ZeroPage, 3),
        0x88 => entry(Operation::Dey, AddressMode::Implied, 2),
        0x8a => entry(Operation::Txa, AddressMode::Implied, 2),
        0x8c => entry(Operation::Sty, AddressMode::Absolute, 4),
        0x8d => entry(Operation::Sta, AddressMode::Absolute, 4),
        0x8e => entry(Operation::Stx, AddressMode::Absolute, 4),
        0x90 => entry(Operation::Bcc, AddressMode::Relative, 2),
        0x91 => entry(Operation::Sta, AddressMode::IndirectY, 6),
        0x94 => entry(Operation::Sty, AddressMode::ZeroPageX, 4),
        0x95 => entry(Operation::Sta, AddressMode::ZeroPageX, 4),
        0x96 => entry(Operation::Stx, AddressMode::ZeroPageY, 4),
        0x98 => entry(Operation::Tya, AddressMode::Implied, 2),
        0x99 => entry(Operation::Sta, AddressMode::AbsoluteY, 5),
        0x9a => entry(Operation::Txs, AddressMode::Implied, 2),
        0x9d => entry(Operation::Sta, AddressMode::AbsoluteX, 5),
        0xa0 => entry(Operation::Ldy, AddressMode::Immediate, 2),
        0xa1 => entry(Operation::Lda, AddressMode::IndirectX, 6),
        0xa2 => entry(Operation::Ldx, AddressMode::Immediate, 2),
        0xa4 => entry(Operation::Ldy, AddressMode::ZeroPage, 3),
        0xa5 => entry(Operation::Lda, AddressMode::ZeroPage, 3),
        0xa6 => entry(Operation::Ldx, AddressMode::ZeroPage, 3),
        0xa8 => entry(Operation::Tay, AddressMode::Implied, 2),
        0xa9 => entry(Operation::Lda, AddressMode::Immediate, 2),
        0xaa => entry(Operation::Tax, AddressMode::Implied, 2),
        0xac => entry(Operation::Ldy, AddressMode::Absolute, 4),
        0xad => entry(Operation::Lda, AddressMode::Absolute, 4),
        0xae => entry(Operation::Ldx, AddressMode::Absolute, 4),
        0xb0 => entry(Operation::Bcs, AddressMode::Relative, 2),
        0xb1 => entry(Operation::Lda, AddressMode::IndirectY, 5),
        0xb4 => entry(Operation::Ldy, AddressMode::ZeroPageX, 4),
        0xb5 => entry(Operation::Lda, AddressMode::ZeroPageX, 4),
        0xb6 => entry(Operation::Ldx, AddressMode::ZeroPageY, 4),
        0xb8 => entry(Operation::Clv, AddressMode::Implied, 2),
        0xb9 => entry(Operation::Lda, AddressMode::AbsoluteY, 4),
        0xba => entry(Operation::Tsx, AddressMode::Implied, 2),
        0xbc => entry(Operation::Ldy, AddressMode::AbsoluteX, 4),
        0xbd => entry(Operation::Lda, AddressMode::AbsoluteX, 4),
        0xbe => entry(Operation::Ldx, AddressMode::AbsoluteY, 4),
        0xc0 => entry(Operation::Cpy, AddressMode::Immediate, 2),
        0xc1 => entry(Operation::Cmp, AddressMode::IndirectX, 6),
        0xc4 => entry(Operation::Cpy, AddressMode::ZeroPage, 3),
        0xc5 => entry(Operation::Cmp, AddressMode::ZeroPage, 3),
        0xc6 => entry(Operation::Dec, AddressMode::ZeroPage, 5),
        0xc8 => entry(Operation::Iny, AddressMode::Implied, 2),
        0xc9 => entry(Operation::Cmp, AddressMode::Immediate, 2),
        0xca => entry(Operation::Dex, AddressMode::Implied, 2),
        0xcc => entry(Operation::Cpy, AddressMode::Absolute, 4),
        0xcd => entry(Operation::Cmp, AddressMode::Absolute, 4),
        0xce => entry(Operation::Dec, AddressMode::Absolute, 6),
        0xd0 => entry(Operation::Bne, AddressMode::Relative, 2),
        0xd1 => entry(Operation::Cmp, AddressMode::IndirectY, 5),
        0xd5 => entry(Operation::Cmp, AddressMode::ZeroPageX, 4),
        0xd6 => entry(Operation::Dec, AddressMode::ZeroPageX, 6),
        0xd8 => entry(Operation::Cld, AddressMode::Implied, 2),
        0xd9 => entry(Operation::Cmp, AddressMode::AbsoluteY, 4),
        0xdd => entry(Operation::Cmp, AddressMode::AbsoluteX, 4),
        0xde => entry(Operation::Dec, AddressMode::AbsoluteX, 7),
        0xe0 => entry(Operation::Cpx, AddressMode::Immediate, 2),
        0xe1 => entry(Operation::Sbc, AddressMode::IndirectX, 6),
        0xe4 => entry(Operation::Cpx, AddressMode::ZeroPage, 3),
        0xe5 => entry(Operation::Sbc, AddressMode::ZeroPage, 3),
        0xe6 => entry(Operation::Inc, AddressMode::ZeroPage, 5),
        0xe8 => entry(Operation::Inx, AddressMode::Implied, 2),
        0xe9 => entry(Operation::Sbc, AddressMode::Immediate, 2),
        0xea => entry(Operation::Nop, AddressMode::Implied, 2),
        0xec => entry(Operation::Cpx, AddressMode::Absolute, 4),
        0xed => entry(Operation::Sbc, AddressMode::Absolute, 4),
        0xee => entry(Operation::Inc, AddressMode::Absolute, 6),
        0xf0 => entry(Operation::Beq, AddressMode::Relative, 2),
        0xf1 => entry(Operation::Sbc, AddressMode::IndirectY, 5),
        0xf5 => entry(Operation::Sbc, AddressMode::ZeroPageX, 4),
        0xf6 => entry(Operation::Inc, AddressMode::ZeroPageX, 6),
        0xf8 => entry(Operation::Sed, AddressMode::Implied, 2),
        0xf9 => entry(Operation::Sbc, AddressMode::AbsoluteY, 4),
        0xfd => entry(Operation::Sbc, AddressMode::AbsoluteX, 4),
        0xfe => entry(Operation::Inc, AddressMode::AbsoluteX, 7),
        _ => None,
    }
}

impl Operation {
    /// The operations that take an operand byte and leave memory alone.
    pub open spec fn reads_operand(self) -> bool {
        self is Lda || self is Ldx || self is Ldy || self is And || self is Ora || self is Eor
            || self is Adc || self is Sbc || self is Cmp || self is Cpx || self is Cpy
            || self is Bit
    }

    /// The operations that read a byte, change it and put it back.
    pub open spec fn modifies(self) -> bool {
        self is Asl || self is Lsr || self is Rol || self is Ror || self is Inc || self is Dec
    }

    /// The operations that write a register to memory.
    pub open spec fn stores(self) -> bool {
        self is Sta || self is Stx || self is Sty
    }

    /// The conditional branches.
    pub open spec fn is_branch(self) -> bool {
        self is Bcc || self is Bcs || self is Beq || self is Bne || self is Bmi || self is Bpl
            || self is Bvc || self is Bvs
    }
}

/// Looks `opcode` up in the opcode table.
///
/// The lookup follows the way opcodes are built, `aaabbbcc`: `cc` selects a
/// group of operations, `aaa` one operation of the group and `bbb` the
/// addressing mode. The single-byte instructions and the jumps sit outside
/// that scheme and are picked out first.
pub fn decode(opcode: u8) -> (decoded: Option<Instruction>)
    ensures
        decoded == decode_spec(opcode),
{
    let row: u8 = opcode / 32;
    let column: u8 = (opcode / 4) % 8;
    assert(opcode == 32 * row + 4 * column + opcode % 4);
    assert(opcode == 32 * row + opcode % 32);
    assert(opcode == 16 * (opcode / 16) + opcode % 16);
    let shape: Option<(Operation, AddressMode)> = if opcode % 16 == 0x08 {
        let operation = match opcode / 16 {
            0 => Operation::Php,
            1 => Operation::Clc,
            2 => Operation::Plp,
            3 => Operation::Sec,
            4 => Operation::Pha,
            5 => Operation::Cli,
            6 => Operation::Pla,
            7 => Operation::Sei,
            8 => Operation::Dey,
            9 => Operation::Tya,
            10 => Operation::Tay,
            11 => Operation::Clv,
            12 => Operation::Iny,
            13 => Operation::Cld,
            14 => Operation::Inx,
            _ => Operation::Sed,
        };
        Some((operation, AddressMode::Implied))
    } else if opcode % 32 == 0x10 {
        let operation = match row {
            0 => Operation::Bpl,
            1 => Operation::Bmi,
            2 => Operation::Bvc,
            3 => Operation::Bvs,
            4 => Operation::Bcc,
            5 => Operation::Bcs,
            6 => Operation::Bne,
            _ => Operation::Beq,
        };
        Some((operation, AddressMode::Relative))
    } else {
        match opcode {
            0x00 => Some((Operation::Brk, AddressMode::Implied)),
            0x20 => Some((Operation::Jsr, AddressMode::Absolute)),
            0x40 => Some((Operation::Rti, AddressMode::Implied)),
            0x60 => Some((Operation::Rts, AddressMode::Implied)),
            0x4c => Some((Operation::Jmp, AddressMode::Absolute)),
            0x6c => Some((Operation::Jmp, AddressMode::Indirect)),
            0x8a => Some((Operation::Txa, AddressMode::Implied)),
            0x9a => Some((Operation::Txs, AddressMode::Implied)),
            0xaa => Some((Operation::Tax, AddressMode::Implied)),
            0xba => Some((Operation::Tsx, AddressMode::Implied)),
            0xca => Some((Operation::Dex, AddressMode::Implied)),
            0xea => Some((Operation::Nop, AddressMode::Implied)),
            _ => match opcode % 4 {
                1 => {
                    let operation = match row {
                        0 => Operation::Ora,
                        1 => Operation::And,
                        2 => Operation::Eor,
                        3 => Operation::Adc,
                        4 => Operation::Sta,
                        5 => Operation::Lda,
                        6 => Operation::Cmp,
                        _ => Operation::Sbc,
                    };
                    let mode = match column {
                        0 => AddressMode::IndirectX,
                        1 => AddressMode::ZeroPage,
                        2 => AddressMode::Immediate,
                        3 => AddressMode::Absolute,
                        4 => AddressMode::IndirectY,
                        5 => AddressMode::ZeroPageX,
                        6 => AddressMode::AbsoluteY,
                        _ => AddressMode::AbsoluteX,
                    };
                    if row == 4 && column == 2 {
                        None
                    } else {
                        Some((operation, mode))
                    }
                },
                2 => {
                    let operation = match row {
                        0 => Operation::Asl,
                        1 => Operation::Rol,
                        2 => Operation::Lsr,
                        3 => Operation::Ror,
                        4 => Operation::Stx,
                        5 => Operation::Ldx,
                        6 => Operation::Dec,
                        _ => Operation::Inc,
                    };
                    let indexed_by_y = row == 4 || row == 5;
                    match column {
                        0 => if row == 5 {
                            Some((operation, AddressMode::Immediate))
                        } else {
                            None
                        },
                        1 => Some((operation, AddressMode::ZeroPage)),
                        2 => if row < 4 {
                            Some((operation, AddressMode::Accumulator))
                        } else {
                            None
                        },
                        3 => Some((operation, AddressMode::Absolute)),
                        5 => if indexed_by_y {
                            Some((operation, AddressMode::ZeroPageY))
                        } else {
                            Some((operation, AddressMode::ZeroPageX))
                        },
                        7 => if row == 4 {
                            None
                        } else if row == 5 {
                            Some((operation, AddressMode::AbsoluteY))
                        } else {
                            Some((operation, AddressMode::AbsoluteX))
                        },
                        _ => None,
                    }
                },
                0 => {
                    let operation = match row {
                        1 => Operation::Bit,
                        4 => Operation::Sty,
                        5 => Operation::Ldy,
                        6 => Operation::Cpy,
                        _ => Operation::Cpx,
                    };
                    match column {
                        0 => if row >= 5 {
                            Some((operation, AddressMode::Immediate))
                        } else {
                            None
                        },
                        1 => if row == 1 || row >= 4 {
                            Some((operation, AddressMode::ZeroPage))
                        } else {
                            None
                        },
                        3 => if row == 1 || row >= 4 {
                            Some((operation, AddressMode::Absolute))
                        } else {
                            None
                        },
                        5 => if row == 4 || row == 5 {
                            Some((operation, AddressMode::ZeroPageX))
                        } else {
                            None
                        },
                        7 => if row == 5 {
                            Some((operation, AddressMode::AbsoluteX))
                        } else {
                            None
                        },
                        _ => None,
                    }
                },
                _ => None,
            },
        }
    };
    match shape {
        Some((operation, mode)) => {
            let modifies = match operation {
                Operation::Asl | Operation::Lsr | Operation::Rol | Operation::Ror | Operation::Inc
                | Operation::Dec => true,
                _ => false,
            };
            let stores = match operation {
                Operation::Sta => true,
                _ => false,
            };
            let cycles: i32 = match mode {
                AddressMode::Implied => match operation {
                    Operation::Brk => 7,
                    Operation::Rti | Operation::Rts => 6,
                    Operation::Pla | Operation::Plp => 4,
                    Operation::Pha | Operation::Php => 3,
                    _ => 2,
                },
                AddressMode::Accumulator | AddressMode::Immediate | AddressMode::Relative => 2,
                AddressMode::ZeroPage => if modifies {
                    5
                } else {
                    3
                },
                AddressMode::ZeroPageX | AddressMode::ZeroPageY => if modifies {
                    6
                } else {
                    4
                },
                AddressMode::Absolute => match operation {
                    Operation::Jmp => 3,
                    Operation::Jsr => 6,
                    _ => if modifies {
                        6
                    } else {
                        4
                    },
                },
                AddressMode::AbsoluteX | AddressMode::AbsoluteY => if modifies {
                    7
                } else if stores {
                    5
                } else {
                    4
                },
                AddressMode::Indirect => 5,
                AddressMode::IndirectX => 6,
                AddressMode::IndirectY => if stores {
                    6
                } else {
                    5
                },
            };
            Some(Instruction { operation, mode, cycles })
        },
        None => None,
    }
}

/// Every instruction costs at least two cycles and at most seven, a taken
/// branch included: a branch has a base cost of two.
pub proof fn lemma_cycles_in_range(opcode: u8)
    ensures
        decode_spec(opcode) matches Some(instruction) ==> {
            &&& 2 <= instruction.cycles <= 7
            &&& instruction.operation.is_branch() ==> instruction.cycles == 2
        },
{
    if opcode < 0x40 {
    } else if opcode < 0x80 {
    } else if opcode < 0xc0 {
    } else {
    }
}

/// The table gives each operation only addressing modes it can work with: an
/// operation that takes an operand byte or writes memory has a mode that
/// names one, and the accumulator is a mode of the shifts and rotates alone.
pub proof fn lemma_modes_fit(opcode: u8)
    ensures
        decode_spec(opcode) matches Some(instruction) ==> {
            &&& instruction.operation.is_branch() <==> instruction.mode is Relative
            &&& instruction.operation.reads_operand() ==> !(instruction.mode is Implied
                || instruction.mode is Accumulator || instruction.mode is Relative
                || instruction.mode is Indirect)
            &&& instruction.operation.stores() || (instruction.operation.modifies()
                && !(instruction.mode is Accumulator)) ==> !(instruction.mode is Implied
                || instruction.mode is Immediate || instruction.mode is Relative
                || instruction.mode is Indirect)
            &&& instruction.mode is Accumulator ==> instruction.operation is Asl
                || instruction.operation is Lsr || instruction.operation is Rol
                || instruction.operation is Ror
            &&& instruction.mode is Indirect ==> instruction.operation is Jmp
        },
{
    if opcode < 0x40 {
    } else if opcode < 0x80 {
    } else if opcode < 0xc0 {
    } else {
    }
}

} // verus!
