//! The machine as a mathematical object: its state, and what one
//! instruction, one step and a whole run do to it.

use vstd::prelude::*;
use crate::instruction::{decode, Fault, Instruction, Number, Register, Status};
use crate::word::{
    code_units, complement, image_words, le_word, printed_code, truth, wrapping_product,
    wrapping_sum,
};

verus! {

/// Everything the machine owns.
pub struct State {
    /// Address of the next word to fetch.
    pub pc: u16,
    /// The address space, 32768 cells.
    pub memory: Seq<u16>,
    /// The register file, 8 cells.
    pub registers: Seq<u16>,
    /// The call stack, top last.
    pub stack: Seq<u16>,
    /// Characters typed and not yet read, oldest first.
    pub input: Seq<u16>,
    /// Characters printed and not yet collected, oldest first.
    pub output: Seq<u8>,
    /// Whether `PrintChar` prints.
    pub output_enabled: bool,
    /// Addresses at which a run stops.
    pub breakpoints: Set<u16>,
}

/// A state together with what came of getting there.
pub type Outcome = (State, Result<Status, Fault>);

impl State {
    /// The address space and the register file have their fixed sizes.
    pub open spec fn well_formed(self) -> bool {
        self.memory.len() == 32768 && self.registers.len() == 8
    }

    /// The machine as it is created: everything zero or empty, printing
    /// enabled.
    pub open spec fn initial() -> State {
        State {
            pc: 0,
            memory: Seq::new(32768, |i: int| 0u16),
            registers: Seq::new(8, |i: int| 0u16),
            stack: Seq::empty(),
            input: Seq::empty(),
            output: Seq::empty(),
            output_enabled: true,
            breakpoints: Set::empty(),
        }
    }

    /// The value of an operand: a literal stands for itself, a register for
    /// what it holds now.
    pub open spec fn resolve(self, number: Number) -> u16 {
        match number {
            Number::Literal(x) => x,
            Number::Register(r) => self.registers[r as int],
        }
    }

    /// This state with `value` in `register`.
    pub open spec fn with_register(self, register: Register, value: u16) -> State {
        State { registers: self.registers.update(register as int, value), ..self }
    }

    /// This state with `value` in the memory cell at `address`.
    pub open spec fn with_memory(self, address: int, value: u16) -> State {
        State { memory: self.memory.update(address, value), ..self }
    }

    /// This state with the program counter at `target`.
    pub open spec fn with_pc(self, target: u16) -> State {
        State { pc: target, ..self }
    }

    /// This state with `value` pushed on the stack.
    pub open spec fn pushed(self, value: u16) -> State {
        State { stack: self.stack.push(value), ..self }
    }

    /// This state without the top of its stack.
    pub open spec fn popped(self) -> State {
        State { stack: self.stack.drop_last(), ..self }
    }

    /// This state with `address` among its breakpoints.
    pub open spec fn with_breakpoint(self, address: u16) -> State {
        State { breakpoints: self.breakpoints.insert(address), ..self }
    }

    /// This state with no breakpoints.
    pub open spec fn without_breakpoints(self) -> State {
        State { breakpoints: Set::empty(), ..self }
    }

    /// This state with `text` queued behind the input that is already waiting.
    pub open spec fn typed(self, text: Seq<char>) -> State {
        State { input: self.input + code_units(text), ..self }
    }

    /// This state with the words of `image`, two bytes each and least
    /// significant byte first, in memory from address 0 on. A last odd byte is
    /// ignored, and cells behind the image keep what they hold.
    pub open spec fn loaded(self, image: Seq<u8>) -> State {
        State {
            memory: Seq::new(
                self.memory.len(),
                |i: int|
                    if i < image_words(image.len()) {
                        le_word(image[2 * i], image[2 * i + 1])
                    } else {
                        self.memory[i]
                    },
            ),
            ..self
        }
    }

    /// What executing `instruction` does to a machine whose program counter
    /// is already behind the instruction.
    ///
    /// A fault, a `ReadChar` without input, and a `Halt` leave the state as it
    /// is. Everything else yields the changed state and `Running`.
    pub open spec fn execute(self, instruction: Instruction) -> Outcome {
        match instruction {
            Instruction::Halt => (self, Ok(Status::Halted)),
            Instruction::SetRegister(a, b) => running(self.with_register(a, self.resolve(b))),
            Instruction::Push(a) => running(self.pushed(self.resolve(a))),
            Instruction::Pop(a) => {
                if self.stack.len() == 0 {
                    (self, Err(Fault::StackUnderflow))
                } else {
                    running(self.popped().with_register(a, self.stack.last()))
                }
            },
            Instruction::CompareEquals(a, b, c) => running(
                self.with_register(a, truth(self.resolve(b) == self.resolve(c))),
            ),
            Instruction::CompareGreaterThan(a, b, c) => running(
                self.with_register(a, truth(self.resolve(b) > self.resolve(c))),
            ),
            Instruction::Jump(a) => running(self.with_pc(self.resolve(a))),
            Instruction::JumpIfTrue(a, b) => {
                if self.resolve(a) != 0 {
                    running(self.with_pc(self.resolve(b)))
                } else {
                    running(self)
                }
            },
            Instruction::JumpIfFalse(a, b) => {
                if self.resolve(a) == 0 {
                    running(self.with_pc(self.resolve(b)))
                } else {
                    running(self)
                }
            },
            Instruction::Add(a, b, c) => running(
                self.with_register(a, wrapping_sum(self.resolve(b), self.resolve(c))),
            ),
            Instruction::Multiply(a, b, c) => running(
                self.with_register(a, wrapping_product(self.resolve(b), self.resolve(c))),
            ),
            Instruction::Mod(a, b, c) => {
                if self.resolve(c) == 0 {
                    (self, Err(Fault::DivisionByZero))
                } else {
                    running(self.with_register(a, self.resolve(b) % self.resolve(c)))
                }
            },
            Instruction::BitwiseAnd(a, b, c) => running(
                self.with_register(a, self.resolve(b) & self.resolve(c)),
            ),
            Instruction::BitwiseOr(a, b, c) => running(
                self.with_register(a, self.resolve(b) | self.resolve(c)),
            ),
            Instruction::BitwiseNot(a, b) => running(
                self.with_register(a, complement(self.resolve(b))),
            ),
            Instruction::MemoryRead(a, b) => {
                if self.resolve(b) >= 32768 {
                    (self, Err(Fault::AddressOutOfRange(self.resolve(b))))
                } else {
                    running(self.with_register(a, self.memory[self.resolve(b) as int]))
                }
            },
            Instruction::MemoryWrite(a, b) => {
                if self.resolve(a) >= 32768 {
                    (self, Err(Fault::AddressOutOfRange(self.resolve(a))))
                } else {
                    running(self.with_memory(self.resolve(a) as int, self.resolve(b)))
                }
            },
            Instruction::FunctionCall(a) => running(self.pushed(self.pc).with_pc(self.resolve(a))),
            Instruction::FunctionReturn => {
                if self.stack.len() == 0 {
                    (self, Err(Fault::StackUnderflow))
                } else {
                    running(self.popped().with_pc(self.stack.last()))
                }
            },
            Instruction::PrintChar(a) => {
                if self.output_enabled {
                    running(
                        State { output: self.output.push(printed_code(self.resolve(a))), ..self },
                    )
                } else {
                    running(self)
                }
            },
            Instruction::ReadChar(a) => {
                if self.input.len() == 0 {
                    (self, Ok(Status::AwaitingInput))
                } else {
                    running(
                        State { input: self.input.drop_first(), ..self }.with_register(
                            a,
                            self.input.first(),
                        ),
                    )
                }
            },
            Instruction::NoOp => running(self),
            Instruction::Unknown(op) => (self, Err(Fault::UnknownOpcode(op))),
        }
    }

    /// One step: decode the instruction at the program counter, move the
    /// counter behind it, and execute it.
    ///
    /// A fault in decoding or executing leaves the state untouched, and so
    /// does a `ReadChar` without input, which is thereby tried again by the
    /// next step. After any other instruction but `Halt`, the step reports
    /// `Breakpoint` if the counter has arrived at one.
    pub open spec fn step(self) -> Outcome {
        match decode(self.memory, self.pc as int) {
            Err(fault) => (self, Err(fault)),
            Ok(instruction) => {
                let fetched = self.with_pc((self.pc + instruction.len()) as u16);
                let (next, result) = fetched.execute(instruction);
                match result {
                    Err(fault) => (self, Err(fault)),
                    Ok(Status::AwaitingInput) => (self, Ok(Status::AwaitingInput)),
                    Ok(Status::Halted) => (next, Ok(Status::Halted)),
                    Ok(_) => (next, Ok(next.arrival())),
                }
            },
        }
    }

    /// `Breakpoint` if the program counter is at a breakpoint, else `Running`.
    pub open spec fn arrival(self) -> Status {
        if self.breakpoints.contains(self.pc) {
            Status::Breakpoint
        } else {
            Status::Running
        }
    }

    /// A run of at most `limit` steps: it ends with the first step that does
    /// not report `Running`, and reports `Running` itself if all `limit` steps
    /// did.
    pub open spec fn run(self, limit: nat) -> Outcome
        decreases limit,
    {
        if limit == 0 {
            running(self)
        } else {
            let (next, result) = self.step();
            if result == Ok::<Status, Fault>(Status::Running) {
                next.run((limit - 1) as nat)
            } else {
                (next, result)
            }
        }
    }
}

/// The outcome of an instruction after which the machine goes on.
pub open spec fn running(state: State) -> Outcome {
    (state, Ok(Status::Running))
}

} // verus!
