//! Operands, instructions, and how they are laid out in memory.

use vstd::prelude::*;
use crate::word::LAST_REGISTER_WORD;

verus! {

/// A plain number, `0..=32767`.
pub type Literal = u16;

/// The index of a register, `0..=7`.
pub type Register = usize;

/// An operand: a plain number, or the register whose content is to be used.
#[derive(Clone, Copy, Debug, PartialEq, Eq, Structural)]
pub enum Number {
    Literal(Literal),
    Register(Register),
}

/// One decoded instruction with its operands.
///
/// `Unknown` carries a word that is no opcode. It is what a disassembler
/// shows for data; the machine refuses to execute it.
#[derive(Clone, Copy, Debug, PartialEq, Eq, Structural)]
pub enum Instruction {
    Add(Register, Number, Number),
    BitwiseAnd(Register, Number, Number),
    BitwiseNot(Register, Number),
    BitwiseOr(Register, Number, Number),
    FunctionCall(Number),
    FunctionReturn,
    CompareEquals(Register, Number, Number),
    CompareGreaterThan(Register, Number, Number),
    Halt,
    Jump(Number),
    JumpIfFalse(Number, Number),
    JumpIfTrue(Number, Number),
    MemoryRead(Register, Number),
    MemoryWrite(Number, Number),
    Mod(Register, Number, Number),
    Multiply(Register, Number, Number),
    NoOp,
    Pop(Register),
    PrintChar(Number),
    Push(Number),
    ReadChar(Register),
    SetRegister(Register, Number),
    Unknown(Literal),
}

/// Why the machine could not carry out an instruction.
///
/// A fault never changes the machine: the program counter still points at the
/// instruction that raised it.
#[derive(Clone, Copy, Debug, PartialEq, Eq, Structural)]
pub enum Fault {
    /// An operand word that is neither a number nor a register, or a number
    /// where a register is needed. Carries the word.
    InvalidOperand(u16),
    /// `Pop` or `FunctionReturn` on an empty stack.
    StackUnderflow,
    /// A word that is no opcode was about to be executed. Carries the word.
    UnknownOpcode(u16),
    /// A fetch, read or write outside the address space. Carries the address.
    AddressOutOfRange(u16),
    /// `Mod` with a zero divisor.
    DivisionByZero,
}

/// What the machine is doing after an instruction, or after a run.
#[derive(Clone, Copy, Debug, PartialEq, Eq, Structural)]
pub enum Status {
    /// Ready to execute the next instruction.
    Running,
    /// A `Halt` was executed.
    Halted,
    /// The program counter has arrived at a breakpoint.
    Breakpoint,
    /// A `ReadChar` found the input queue empty and will be tried again.
    AwaitingInput,
}

impl Number {
    /// The operand that a raw word denotes: `0..=32767` is a literal, and
    /// `32768..=32775` names register `word - 32768`. Larger words denote
    /// nothing.
    pub open spec fn denoted_by(word: u16) -> Number {
        if word < 32768 {
            Number::Literal(word)
        } else {
            Number::Register((word - 32768) as usize)
        }
    }

    /// What decoding a raw operand word gives: the operand that it denotes,
    /// or the word back as an invalid operand.
    pub open spec fn decoded(word: u16) -> Result<Number, Fault> {
        if word <= 32775 {
            Ok(Number::denoted_by(word))
        } else {
            Err(Fault::InvalidOperand(word))
        }
    }

    /// A literal is a 15-bit value, and a register index is below 8.
    pub open spec fn well_formed(self) -> bool {
        match self {
            Number::Literal(x) => x < 32768,
            Number::Register(r) => r < 8,
        }
    }

    /// Decodes a raw operand word: `0..=32767` is a literal, `32768..=32775`
    /// names register `value - 32768`, and anything larger is refused.
    pub fn from(value: u16) -> (number: Result<Number, Fault>)
        ensures
            number == Number::decoded(value),
            number matches Ok(n) ==> n.well_formed(),
    {
        if value < 32768 {
            Ok(Number::Literal(value))
        } else if value <= LAST_REGISTER_WORD {
            Ok(Number::Register((value - 32768) as usize))
        } else {
            Err(Fault::InvalidOperand(value))
        }
    }
}

impl Instruction {
    /// Number of words the instruction occupies: its opcode and its operands.
    pub open spec fn len(self) -> int {
        match self {
            Instruction::Halt
            | Instruction::FunctionReturn
            | Instruction::NoOp
            | Instruction::Unknown(_) => 1,
            Instruction::Push(_)
            | Instruction::Pop(_)
            | Instruction::Jump(_)
            | Instruction::FunctionCall(_)
            | Instruction::PrintChar(_)
            | Instruction::ReadChar(_) => 2,
            Instruction::SetRegister(_, _)
            | Instruction::JumpIfTrue(_, _)
            | Instruction::JumpIfFalse(_, _)
            | Instruction::BitwiseNot(_, _)
            | Instruction::MemoryRead(_, _)
            | Instruction::MemoryWrite(_, _) => 3,
            Instruction::CompareEquals(_, _, _)
            | Instruction::CompareGreaterThan(_, _, _)
            | Instruction::Add(_, _, _)
            | Instruction::Multiply(_, _, _)
            | Instruction::Mod(_, _, _)
            | Instruction::BitwiseAnd(_, _, _)
            | Instruction::BitwiseOr(_, _, _) => 4,
        }
    }

    /// Every operand is well formed, and every destination is a register
    /// index below 8.
    pub open spec fn well_formed(self) -> bool {
        match self {
            Instruction::Halt
            | Instruction::FunctionReturn
            | Instruction::NoOp
            | Instruction::Unknown(_) => true,
            Instruction::Push(a)
            | Instruction::Jump(a)
            | Instruction::FunctionCall(a)
            | Instruction::PrintChar(a) => a.well_formed(),
            Instruction::Pop(a) | Instruction::ReadChar(a) => a < 8,
            Instruction::JumpIfTrue(a, b)
            | Instruction::JumpIfFalse(a, b)
            | Instruction::MemoryWrite(a, b) => a.well_formed() && b.well_formed(),
            Instruction::SetRegister(a, b)
            | Instruction::BitwiseNot(a, b)
            | Instruction::MemoryRead(a, b) => a < 8 && b.well_formed(),
            Instruction::CompareEquals(a, b, c)
            | Instruction::CompareGreaterThan(a, b, c)
            | Instruction::Add(a, b, c)
            | Instruction::Multiply(a, b, c)
            | Instruction::Mod(a, b, c)
            | Instruction::BitwiseAnd(a, b, c)
            | Instruction::BitwiseOr(a, b, c) => a < 8 && b.well_formed() && c.well_formed(),
        }
    }
}

/// Number of operand words that follow the opcode `op`. A word that is no
/// opcode stands alone.
pub open spec fn operand_count(op: u16) -> int {
    if op == 0 || op == 18 || op == 21 {
        0
    } else if op == 2 || op == 3 || op == 6 || op == 17 || op == 19 || op == 20 {
        1
    } else if op == 1 || op == 7 || op == 8 || op == 14 || op == 15 || op == 16 {
        2
    } else if op == 4 || op == 5 || (9 <= op <= 13) {
        3
    } else {
        0
    }
}

/// Whether the first operand of opcode `op` is the register that receives
/// the result. All other operands are numbers.
pub open spec fn has_destination(op: u16) -> bool {
    op == 1 || op == 3 || op == 4 || op == 5 || (9 <= op <= 15) || op == 20
}

/// The fault, if any, in the operand word at `address`: it must lie inside
/// the address space and denote a register, or any operand where
/// `destination` is false.
pub open spec fn operand_fault(memory: Seq<u16>, address: int, destination: bool) -> Option<Fault> {
    if !(0 <= address < memory.len()) {
        Some(Fault::AddressOutOfRange(address as u16))
    } else if memory[address] > 32775 || (destination && memory[address] < 32768) {
        Some(Fault::InvalidOperand(memory[address]))
    } else {
        None
    }
}

/// The fault in the first faulty operand of the instruction whose opcode `op`
/// is at `pc`, if there is one.
pub open spec fn operands_fault(memory: Seq<u16>, pc: int, op: u16) -> Option<Fault> {
    let first = operand_fault(memory, pc + 1, has_destination(op));
    let second = operand_fault(memory, pc + 2, false);
    let third = operand_fault(memory, pc + 3, false);
    if operand_count(op) >= 1 && first is Some {
        first
    } else if operand_count(op) >= 2 && second is Some {
        second
    } else if operand_count(op) >= 3 && third is Some {
        third
    } else {
        None
    }
}

/// The register that a destination word names.
pub open spec fn register_of(word: u16) -> Register {
    (word - 32768) as usize
}

/// The instruction with opcode `op` and operand words `a`, `b`, `c`, of which
/// it uses as many as it has operands.
pub open spec fn assemble(op: u16, a: u16, b: u16, c: u16) -> Instruction {
    let x = Number::denoted_by(a);
    let y = Number::denoted_by(b);
    let z = Number::denoted_by(c);
    let r = register_of(a);
    match op {
        0 => Instruction::Halt,
        1 => Instruction::SetRegister(r, y),
        2 => Instruction::Push(x),
        3 => Instruction::Pop(r),
        4 => Instruction::CompareEquals(r, y, z),
        5 => Instruction::CompareGreaterThan(r, y, z),
        6 => Instruction::Jump(x),
        7 => Instruction::JumpIfTrue(x, y),
        8 => Instruction::JumpIfFalse(x, y),
        9 => Instruction::Add(r, y, z),
        10 => Instruction::Multiply(r, y, z),
        11 => Instruction::Mod(r, y, z),
        12 => Instruction::BitwiseAnd(r, y, z),
        13 => Instruction::BitwiseOr(r, y, z),
        14 => Instruction::BitwiseNot(r, y),
        15 => Instruction::MemoryRead(r, y),
        16 => Instruction::MemoryWrite(x, y),
        17 => Instruction::FunctionCall(x),
        18 => Instruction::FunctionReturn,
        19 => Instruction::PrintChar(x),
        20 => Instruction::ReadChar(r),
        21 => Instruction::NoOp,
        _ => Instruction::Unknown(op),
    }
}

/// The instruction that starts at `pc`, or the fault that decoding it raises:
/// the opcode must lie inside the address space, and so must each operand,
/// which must also denote what the opcode expects there.
pub open spec fn decode(memory: Seq<u16>, pc: int) -> Result<Instruction, Fault> {
    if !(0 <= pc < memory.len()) {
        Err(Fault::AddressOutOfRange(pc as u16))
    } else {
        match operands_fault(memory, pc, memory[pc]) {
            Some(fault) => Err(fault),
            None => Ok(assemble(memory[pc], memory[pc + 1], memory[pc + 2], memory[pc + 3])),
        }
    }
}

/// A decoded instruction is well formed, occupies one word more than its
/// opcode has operands, and lies wholly inside the address space.
pub proof fn lemma_decode_well_formed(memory: Seq<u16>, pc: int)
    requires
        decode(memory, pc) is Ok,
    ensures
        decode(memory, pc)->Ok_0.well_formed(),
        decode(memory, pc)->Ok_0.len() == 1 + operand_count(memory[pc]),
        0 <= pc,
        pc + decode(memory, pc)->Ok_0.len() <= memory.len(),
{
}

} // verus!
