//! The executable machine.

use std::collections::{HashSet, VecDeque};
use vstd::prelude::*;
use crate::instruction::{
    decode, operand_fault, register_of, Fault, Instruction, Literal, Number, Register, Status,
};
use crate::machine::State;
use crate::word::{
    code_unit, code_units, complement, image_words, le_word, printed_code, truth,
    wrapping_product, wrapping_sum, LAST_REGISTER_WORD, MAX_SIZE,
};

verus! {

/// A machine: address space, registers, stack, program counter, the queues
/// of typed and printed characters, and the breakpoints of a debugger.
pub struct VM {
    pc: u16,
    breakpoints: HashSet<u16>,
    input_buf: VecDeque<u16>,
    output_buf: Vec<u8>,
    output_enabled: bool,
    memory: [u16; 32768],
    registers: [u16; 8],
    stack: Vec<u16>,
}

impl View for VM {
    type V = State;

    closed spec fn view(&self) -> State {
        State {
            pc: self.pc,
            memory: self.memory@,
            registers: self.registers@,
            stack: self.stack@,
            input: self.input_buf@,
            output: self.output_buf@,
            output_enabled: self.output_enabled,
            breakpoints: self.breakpoints@,
        }
    }
}

impl VM {
    /// The state of every machine has its address space and register file
    /// at full size.
    pub proof fn lemma_well_formed(&self)
        ensures
            self@.well_formed(),
    {
    }

    /// A machine with everything zero or empty, and printing enabled.
    pub fn new() -> (vm: Self)
        ensures
            vm@ == State::initial(),
    {
        let vm = Self {
            pc: 0,
            breakpoints: HashSet::new(),
            input_buf: VecDeque::new(),
            output_buf: Vec::new(),
            output_enabled: true,
            memory: [0; 32768],
            registers: [0; 8],
            stack: Vec::new(),
        };
        assert(vm@.memory =~= State::initial().memory);
        assert(vm@.registers =~= State::initial().registers);
        vm
    }

    /// Makes every run stop when the program counter arrives at `position`.
    pub fn dbg_add_breakpoint(&mut self, position: u16)
        ensures
            final(self)@ == old(self)@.with_breakpoint(position),
    {
        self.breakpoints.insert(position);
    }

    /// The whole address space.
    pub fn dbg_get_memory(&self) -> (memory: &[u16])
        ensures
            memory@ == self@.memory,
    {
        &self.memory
    }

    /// The program counter.
    pub fn dbg_get_pc(&self) -> (pc: u16)
        ensures
            pc == self@.pc,
    {
        self.pc
    }

    /// What `register` holds.
    pub fn dbg_get_register(&self, register: usize) -> (value: u16)
        requires
            register < 8,
        ensures
            value == self@.registers[register as int],
    {
        self.registers[register]
    }

    /// Stores `value` in the memory cell at `position`.
    pub fn dbg_set_memory(&mut self, position: usize, value: u16)
        requires
            position < 32768,
        ensures
            final(self)@ == old(self)@.with_memory(position as int, value),
    {
        self.memory[position] = value;
    }

    /// Switches printing on or off.
    pub fn dbg_set_output_enabled(&mut self, enabled: bool)
        ensures
            final(self)@ == (State { output_enabled: enabled, ..old(self)@ }),
    {
        self.output_enabled = enabled;
    }

    /// Stores `value` in `register`.
    pub fn dbg_set_register(&mut self, register: usize, value: u16)
        requires
            register < 8,
        ensures
            final(self)@ == old(self)@.with_register(register, value),
    {
        self.registers[register] = value;
    }

    /// Copies a program image into memory from address 0 on: each pair of
    /// bytes is one word, least significant byte first. A last odd byte is
    /// ignored. Memory behind the image keeps what it holds.
    pub fn load_binary(&mut self, image: &[u8])
        requires
            image_words(image@.len()) <= 32768,
        ensures
            final(self)@ == old(self)@.loaded(image@),
    {
        let words: usize = image.len() / 2;
        let mut index: usize = 0;
        while index < words
            invariant
                words == image_words(image@.len()),
                index <= words <= 32768,
                self@ == (State { memory: self@.memory, ..old(self)@ }),
                forall|i: int|
                    0 <= i < index ==> self@.memory[i] == le_word(image@[2 * i], image@[2 * i + 1]),
                forall|i: int| index <= i < 32768 ==> self@.memory[i] == old(self)@.memory[i],
            decreases words - index,
        {
            let low: u16 = image[2 * index] as u16;
            let high: u16 = image[2 * index + 1] as u16;
            self.memory[index] = low + 256 * high;
            index += 1;
        }
        assert(self@.memory =~= old(self)@.loaded(image@).memory);
    }

    /// Queues the characters of `command` as input, each as the low sixteen
    /// bits of its code point, behind what is already waiting.
    pub fn input_command(&mut self, command: &str)
        ensures
            final(self)@ == old(self)@.typed(command@),
    {
        for c in it: command.chars()
            invariant
                it.seq() == command@,
                self@ == (State {
                    input: old(self)@.input + code_units(command@.take(it.index() as int)),
                    ..old(self)@
                }),
        {
            let code: u32 = c as u32;
            self.input_buf.push_back((code % 65536) as u16);
            assert(old(self)@.input + code_units(command@.take(it.index() + 1)) =~= (old(self)@.input
                + code_units(command@.take(it.index() as int))).push(code_unit(c)));
        }
        assert(command@.take(command@.len() as int) =~= command@);
    }

    /// Hands over the characters printed since the last call, oldest first.
    pub fn take_output(&mut self) -> (printed: Vec<u8>)
        ensures
            printed@ == old(self)@.output,
            final(self)@ == (State { output: Seq::empty(), ..old(self)@ }),
    {
        let mut printed: Vec<u8> = Vec::new();
        std::mem::swap(&mut self.output_buf, &mut printed);
        printed
    }

    /// Decodes the instruction at the program counter and moves the counter
    /// behind it. A word that is no opcode decodes to `Unknown` and counts as
    /// one word. A fault leaves the counter where it was.
    pub fn next_instruction(&mut self) -> (instruction: Result<Instruction, Fault>)
        ensures
            instruction == decode(old(self)@.memory, old(self)@.pc as int),
            final(self)@ == match instruction {
                Ok(i) => old(self)@.with_pc((old(self)@.pc + i.len()) as u16),
                Err(_) => old(self)@,
            },
            instruction matches Ok(i) ==> i.well_formed(),
    {
        let start: u16 = self.pc;
        let instruction = self.fetch_instruction();
        if instruction.is_err() {
            self.pc = start;
        }
        instruction
    }

    /// Executes `instruction` on a machine whose program counter is already
    /// behind it. A fault, and a `ReadChar` that finds no input, change
    /// nothing.
    pub fn execute(&mut self, instruction: &Instruction) -> (result: Result<Status, Fault>)
        requires
            instruction.well_formed(),
        ensures
            (final(self)@, result) == old(self)@.execute(*instruction),
    {
        match instruction {
            Instruction::Add(a, b, c) => {
                self.perform_add(a, b, c);
                Ok(Status::Running)
            },
            Instruction::BitwiseAnd(a, b, c) => {
                self.perform_bitwise_and(a, b, c);
                Ok(Status::Running)
            },
            Instruction::BitwiseNot(a, b) => {
                self.perform_bitwise_not(a, b);
                Ok(Status::Running)
            },
            Instruction::BitwiseOr(a, b, c) => {
                self.perform_bitwise_or(a, b, c);
                Ok(Status::Running)
            },
            Instruction::CompareEquals(a, b, c) => {
                self.perform_compare_equals(a, b, c);
                Ok(Status::Running)
            },
            Instruction::CompareGreaterThan(a, b, c) => {
                self.perform_compare_greater_than(a, b, c);
                Ok(Status::Running)
            },
            Instruction::FunctionCall(a) => {
                self.perform_function_call(a);
                Ok(Status::Running)
            },
            Instruction::FunctionReturn => {
                self.perform_function_return()?;
                Ok(Status::Running)
            },
            Instruction::Halt => Ok(Status::Halted),
            Instruction::Jump(a) => {
                self.perform_jump(a);
                Ok(Status::Running)
            },
            Instruction::JumpIfFalse(a, b) => {
                self.perform_jump_if_false(a, b);
                Ok(Status::Running)
            },
            Instruction::JumpIfTrue(a, b) => {
                self.perform_jump_if_true(a, b);
                Ok(Status::Running)
            },
            Instruction::MemoryRead(a, b) => {
                self.perform_memory_read(a, b)?;
                Ok(Status::Running)
            },
            Instruction::MemoryWrite(a, b) => {
                self.perform_memory_write(a, b)?;
                Ok(Status::Running)
            },
            Instruction::Mod(a, b, c) => {
                self.perform_mod(a, b, c)?;
                Ok(Status::Running)
            },
            Instruction::Multiply(a, b, c) => {
                self.perform_multiply(a, b, c);
                Ok(Status::Running)
            },
            Instruction::NoOp => Ok(Status::Running),
            Instruction::Pop(a) => {
                self.perform_pop(a)?;
                Ok(Status::Running)
            },
            Instruction::PrintChar(a) => {
                self.perform_print_char(a);
                Ok(Status::Running)
            },
            Instruction::Push(a) => {
                self.perform_push(a);
                Ok(Status::Running)
            },
            Instruction::ReadChar(a) => Ok(self.perform_read_char(a)),
            Instruction::SetRegister(a, b) => {
                self.perform_set_register(a, b);
                Ok(Status::Running)
            },
            Instruction::Unknown(opcode) => Err(Fault::UnknownOpcode(*opcode)),
        }
    }

    /// Decodes and executes the instruction at the program counter.
    ///
    /// A fault leaves the machine untouched. So does a `ReadChar` that finds
    /// no input: the counter stays on it, and the next step tries it again.
    /// A step reports `Breakpoint` when the instruction was carried out, was
    /// no `Halt`, and left the counter at a breakpoint.
    pub fn step(&mut self) -> (result: Result<Status, Fault>)
        ensures
            (final(self)@, result) == old(self)@.step(),
    {
        let start: u16 = self.pc;
        let instruction = self.next_instruction()?;
        match self.execute(&instruction) {
            Err(fault) => {
                self.pc = start;
                Err(fault)
            },
            Ok(Status::AwaitingInput) => {
                self.pc = start;
                Ok(Status::AwaitingInput)
            },
            Ok(Status::Halted) => Ok(Status::Halted),
            Ok(_) => {
                if self.breakpoints.contains(&self.pc) {
                    Ok(Status::Breakpoint)
                } else {
                    Ok(Status::Running)
                }
            },
        }
    }

    /// Steps until a step reports something other than `Running`, but at most
    /// `max_steps` times, and reports `Running` if that was not enough.
    pub fn run_for(&mut self, max_steps: u64) -> (result: Result<Status, Fault>)
        ensures
            (final(self)@, result) == old(self)@.run(max_steps as nat),
    {
        let mut remaining: u64 = max_steps;
        while remaining > 0
            invariant
                self@.run(remaining as nat) == old(self)@.run(max_steps as nat),
            decreases remaining,
        {
            match self.step() {
                Ok(Status::Running) => {
                    remaining -= 1;
                },
                other => {
                    return other;
                },
            }
        }
        Ok(Status::Running)
    }

    /// Runs until the program halts, waits for input, arrives at a breakpoint
    /// or faults. A program that does none of these within `u64::MAX` steps
    /// is reported as still `Running`.
    pub fn run(&mut self) -> (result: Result<Status, Fault>)
        ensures
            (final(self)@, result) == old(self)@.run(u64::MAX as nat),
    {
        self.run_for(u64::MAX)
    }

    /// Decodes the instruction at the program counter, moving the counter
    /// behind each word it reads, also when a later word then faults.
    fn fetch_instruction(&mut self) -> (instruction: Result<Instruction, Fault>)
        ensures
            instruction == decode(old(self)@.memory, old(self)@.pc as int),
            final(self)@ == old(self)@.with_pc(final(self)@.pc),
            instruction matches Ok(i) ==> i.well_formed() && final(self)@.pc == old(self)@.pc
                + i.len(),
    {
        Ok(
            match self.next_word()? {
                0 => Instruction::Halt,
                1 => Instruction::SetRegister(self.next_register()?, self.next_number()?),
                2 => Instruction::Push(self.next_number()?),
                3 => Instruction::Pop(self.next_register()?),
                4 => Instruction::CompareEquals(
                    self.next_register()?,
                    self.next_number()?,
                    self.next_number()?,
                ),
                5 => Instruction::CompareGreaterThan(
                    self.next_register()?,
                    self.next_number()?,
                    self.next_number()?,
                ),
                6 => Instruction::Jump(self.next_number()?),
                7 => Instruction::JumpIfTrue(self.next_number()?, self.next_number()?),
                8 => Instruction::JumpIfFalse(self.next_number()?, self.next_number()?),
                9 => Instruction::Add(
                    self.next_register()?,
                    self.next_number()?,
                    self.next_number()?,
                ),
                10 => Instruction::Multiply(
                    self.next_register()?,
                    self.next_number()?,
                    self.next_number()?,
                ),
                11 => Instruction::Mod(
                    self.next_register()?,
                    self.next_number()?,
                    self.next_number()?,
                ),
                12 => Instruction::BitwiseAnd(
                    self.next_register()?,
                    self.next_number()?,
                    self.next_number()?,
                ),
                13 => Instruction::BitwiseOr(
                    self.next_register()?,
                    self.next_number()?,
                    self.next_number()?,
                ),
                14 => Instruction::BitwiseNot(self.next_register()?, self.next_number()?),
                15 => Instruction::MemoryRead(self.next_register()?, self.next_number()?),
                16 => Instruction::MemoryWrite(self.next_number()?, self.next_number()?),
                17 => Instruction::FunctionCall(self.next_number()?),
                18 => Instruction::FunctionReturn,
                19 => Instruction::PrintChar(self.next_number()?),
                20 => Instruction::ReadChar(self.next_register()?),
                21 => Instruction::NoOp,
                op => Instruction::Unknown(op),
            },
        )
    }

    /// Reads the operand at the program counter and moves the counter behind
    /// it, unless the counter is outside the address space.
    fn next_number(&mut self) -> (number: Result<Number, Fault>)
        ensures
            final(self)@ == old(self)@.with_pc(final(self)@.pc),
            match number {
                Ok(n) => operand_fault(old(self)@.memory, old(self)@.pc as int, false) is None
                    && n == Number::denoted_by(old(self)@.memory[old(self)@.pc as int])
                    && final(self)@.pc == old(self)@.pc + 1,
                Err(fault) => operand_fault(old(self)@.memory, old(self)@.pc as int, false)
                    == Some(fault),
            },
    {
        Number::from(self.next_word()?)
    }

    /// Reads the destination register at the program counter and moves the
    /// counter behind it, unless the counter is outside the address space.
    fn next_register(&mut self) -> (register: Result<Register, Fault>)
        ensures
            final(self)@ == old(self)@.with_pc(final(self)@.pc),
            match register {
                Ok(r) => operand_fault(old(self)@.memory, old(self)@.pc as int, true) is None
                    && r == register_of(old(self)@.memory[old(self)@.pc as int])
                    && final(self)@.pc == old(self)@.pc + 1,
                Err(fault) => operand_fault(old(self)@.memory, old(self)@.pc as int, true)
                    == Some(fault),
            },
    {
        let word: u16 = self.next_word()?;
        if 32768 <= word && word <= LAST_REGISTER_WORD {
            Ok((word - 32768) as usize)
        } else {
            Err(Fault::InvalidOperand(word))
        }
    }

    /// Reads the word at the program counter and moves the counter behind it.
    /// Outside the address space there is nothing to read, and nothing changes.
    fn next_word(&mut self) -> (word: Result<u16, Fault>)
        ensures
            match word {
                Ok(w) => old(self)@.pc < 32768 && w == old(self)@.memory[old(self)@.pc as int]
                    && final(self)@ == old(self)@.with_pc((old(self)@.pc + 1) as u16),
                Err(fault) => old(self)@.pc >= 32768 && fault == Fault::AddressOutOfRange(
                    old(self)@.pc,
                ) && final(self)@ == old(self)@,
            },
    {
        if (self.pc as usize) < MAX_SIZE {
            let word: u16 = self.memory[self.pc as usize];
            self.pc += 1;
            Ok(word)
        } else {
            Err(Fault::AddressOutOfRange(self.pc))
        }
    }

    fn perform_add(&mut self, a: &Register, b: &Number, c: &Number)
        requires
            *a < 8,
            b.well_formed(),
            c.well_formed(),
        ensures
            final(self)@ == old(self)@.with_register(
                *a,
                wrapping_sum(old(self)@.resolve(*b), old(self)@.resolve(*c)),
            ),
    {
        let sum: u32 = self.resolve_number(b) as u32 + self.resolve_number(c) as u32;
        self.registers[*a] = (sum % 32768) as u16;
    }

    fn perform_bitwise_and(&mut self, a: &Register, b: &Number, c: &Number)
        requires
            *a < 8,
            b.well_formed(),
            c.well_formed(),
        ensures
            final(self)@ == old(self)@.with_register(
                *a,
                old(self)@.resolve(*b) & old(self)@.resolve(*c),
            ),
    {
        self.registers[*a] = self.resolve_number(b) & self.resolve_number(c);
    }

    fn perform_bitwise_not(&mut self, a: &Register, b: &Number)
        requires
            *a < 8,
            b.well_formed(),
        ensures
            final(self)@ == old(self)@.with_register(*a, complement(old(self)@.resolve(*b))),
    {
        self.registers[*a] = (!self.resolve_number(b)) % 32768;
    }

    fn perform_bitwise_or(&mut self, a: &Register, b: &Number, c: &Number)
        requires
            *a < 8,
            b.well_formed(),
            c.well_formed(),
        ensures
            final(self)@ == old(self)@.with_register(
                *a,
                old(self)@.resolve(*b) | old(self)@.resolve(*c),
            ),
    {
        self.registers[*a] = self.resolve_number(b) | self.resolve_number(c);
    }

    fn perform_compare_equals(&mut self, a: &Register, b: &Number, c: &Number)
        requires
            *a < 8,
            b.well_formed(),
            c.well_formed(),
        ensures
            final(self)@ == old(self)@.with_register(
                *a,
                truth(old(self)@.resolve(*b) == old(self)@.resolve(*c)),
            ),
    {
        self.registers[*a] = if self.resolve_number(b) == self.resolve_number(c) {
            1
        } else {
            0
        };
    }

    fn perform_compare_greater_than(&mut self, a: &Register, b: &Number, c: &Number)
        requires
            *a < 8,
            b.well_formed(),
            c.well_formed(),
        ensures
            final(self)@ == old(self)@.with_register(
                *a,
                truth(old(self)@.resolve(*b) > old(self)@.resolve(*c)),
            ),
    {
        self.registers[*a] = if self.resolve_number(b) > self.resolve_number(c) {
            1
        } else {
            0
        };
    }

    fn perform_function_call(&mut self, a: &Number)
        requires
            a.well_formed(),
        ensures
            final(self)@ == old(self)@.pushed(old(self)@.pc).with_pc(old(self)@.resolve(*a)),
    {
        self.stack.push(self.pc);
        self.perform_jump(a);
    }

    fn perform_function_return(&mut self) -> (done: Result<(), Fault>)
        ensures
            match done {
                Ok(_) => old(self)@.stack.len() > 0 && final(self)@ == old(self)@.popped().with_pc(
                    old(self)@.stack.last(),
                ),
                Err(fault) => old(self)@.stack.len() == 0 && fault == Fault::StackUnderflow
                    && final(self)@ == old(self)@,
            },
    {
        match self.stack.pop() {
            Some(address) => {
                self.pc = address;
                Ok(())
            },
            None => Err(Fault::StackUnderflow),
        }
    }

    fn perform_jump(&mut self, a: &Number)
        requires
            a.well_formed(),
        ensures
            final(self)@ == old(self)@.with_pc(old(self)@.resolve(*a)),
    {
        self.pc = self.resolve_number(a);
    }

    fn perform_jump_if_false(&mut self, a: &Number, b: &Number)
        requires
            a.well_formed(),
            b.well_formed(),
        ensures
            final(self)@ == if old(self)@.resolve(*a) == 0 {
                old(self)@.with_pc(old(self)@.resolve(*b))
            } else {
                old(self)@
            },
    {
        if self.resolve_number(a) == 0 {
            self.perform_jump(b)
        }
    }

    fn perform_jump_if_true(&mut self, a: &Number, b: &Number)
        requires
            a.well_formed(),
            b.well_formed(),
        ensures
            final(self)@ == if old(self)@.resolve(*a) != 0 {
                old(self)@.with_pc(old(self)@.resolve(*b))
            } else {
                old(self)@
            },
    {
        if self.resolve_number(a) > 0 {
            self.perform_jump(b)
        }
    }

    fn perform_memory_read(&mut self, a: &Register, b: &Number) -> (done: Result<(), Fault>)
        requires
            *a < 8,
            b.well_formed(),
        ensures
            match done {
                Ok(_) => old(self)@.resolve(*b) < 32768 && final(self)@ == old(self)@.with_register(
                    *a,
                    old(self)@.memory[old(self)@.resolve(*b) as int],
                ),
                Err(fault) => old(self)@.resolve(*b) >= 32768 && fault == Fault::AddressOutOfRange(
                    old(self)@.resolve(*b),
                ) && final(self)@ == old(self)@,
            },
    {
        let address: u16 = self.resolve_number(b);
        if (address as usize) < MAX_SIZE {
            self.registers[*a] = self.memory[address as usize];
            Ok(())
        } else {
            Err(Fault::AddressOutOfRange(address))
        }
    }

    fn perform_memory_write(&mut self, a: &Number, b: &Number) -> (done: Result<(), Fault>)
        requires
            a.well_formed(),
            b.well_formed(),
        ensures
            match done {
                Ok(_) => old(self)@.resolve(*a) < 32768 && final(self)@ == old(self)@.with_memory(
                    old(self)@.resolve(*a) as int,
                    old(self)@.resolve(*b),
                ),
                Err(fault) => old(self)@.resolve(*a) >= 32768 && fault == Fault::AddressOutOfRange(
                    old(self)@.resolve(*a),
                ) && final(self)@ == old(self)@,
            },
    {
        let address: u16 = self.resolve_number(a);
        if (address as usize) < MAX_SIZE {
            self.memory[address as usize] = self.resolve_number(b);
            Ok(())
        } else {
            Err(Fault::AddressOutOfRange(address))
        }
    }

    fn perform_mod(&mut self, a: &Register, b: &Number, c: &Number) -> (done: Result<(), Fault>)
        requires
            *a < 8,
            b.well_formed(),
            c.well_formed(),
        ensures
            match done {
                Ok(_) => old(self)@.resolve(*c) != 0 && final(self)@ == old(self)@.with_register(
                    *a,
                    old(self)@.resolve(*b) % old(self)@.resolve(*c),
                ),
                Err(fault) => old(self)@.resolve(*c) == 0 && fault == Fault::DivisionByZero
                    && final(self)@ == old(self)@,
            },
    {
        let divisor: u16 = self.resolve_number(c);
        if divisor != 0 {
            self.registers[*a] = self.resolve_number(b) % divisor;
            Ok(())
        } else {
            Err(Fault::DivisionByZero)
        }
    }

    fn perform_multiply(&mut self, a: &Register, b: &Number, c: &Number)
        requires
            *a < 8,
            b.well_formed(),
            c.well_formed(),
        ensures
            final(self)@ == old(self)@.with_register(
                *a,
                wrapping_product(old(self)@.resolve(*b), old(self)@.resolve(*c)),
            ),
    {
        let x: u32 = self.resolve_number(b) as u32;
        let y: u32 = self.resolve_number(c) as u32;
        assert(x * y <= 65535 * 65535) by (nonlinear_arith)
            requires
                x <= 65535,
                y <= 65535,
        ;
        self.registers[*a] = ((x * y) % 32768) as u16;
    }

    fn perform_pop(&mut self, a: &Register) -> (done: Result<(), Fault>)
        requires
            *a < 8,
        ensures
            match done {
                Ok(_) => old(self)@.stack.len() > 0 && final(self)@
                    == old(self)@.popped().with_register(*a, old(self)@.stack.last()),
                Err(fault) => old(self)@.stack.len() == 0 && fault == Fault::StackUnderflow
                    && final(self)@ == old(self)@,
            },
    {
        match self.stack.pop() {
            Some(value) => {
                self.registers[*a] = value;
                Ok(())
            },
            None => Err(Fault::StackUnderflow),
        }
    }

    fn perform_print_char(&mut self, a: &Number)
        requires
            a.well_formed(),
        ensures
            final(self)@ == if old(self)@.output_enabled {
                State {
                    output: old(self)@.output.push(printed_code(old(self)@.resolve(*a))),
                    ..old(self)@
                }
            } else {
                old(self)@
            },
    {
        if self.output_enabled {
            let code: u8 = (self.resolve_number(a) % 256) as u8;
            self.output_buf.push(code);
        }
    }

    fn perform_push(&mut self, a: &Number)
        requires
            a.well_formed(),
        ensures
            final(self)@ == old(self)@.pushed(old(self)@.resolve(*a)),
    {
        self.stack.push(self.resolve_number(a));
    }

    /// Moves the oldest typed character into register `a`, or reports
    /// `AwaitingInput` if there is none.
    fn perform_read_char(&mut self, a: &Register) -> (status: Status)
        requires
            *a < 8,
        ensures
            (final(self)@, Ok::<Status, Fault>(status)) == old(self)@.execute(
                Instruction::ReadChar(*a),
            ),
    {
        match self.input_buf.pop_front() {
            None => Status::AwaitingInput,
            Some(c) => {
                self.registers[*a] = c;
                Status::Running
            },
        }
    }

    fn perform_set_register(&mut self, a: &Register, b: &Number)
        requires
            *a < 8,
            b.well_formed(),
        ensures
            final(self)@ == old(self)@.with_register(*a, old(self)@.resolve(*b)),
    {
        self.registers[*a] = self.resolve_number(b)
    }

    fn resolve_number(&self, number: &Number) -> (value: Literal)
        requires
            number.well_formed(),
        ensures
            value == self@.resolve(*number),
    {
        match number {
            Number::Literal(x) => *x,
            Number::Register(x) => self.registers[*x],
        }
    }
}

} // verus!
