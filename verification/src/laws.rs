//! Laws of the machine, proved of its mathematical model.
//!
//! The executable machine is specified by that model alone, so every law
//! here holds of every `VM`.

use vstd::prelude::*;
use crate::instruction::{decode, lemma_decode_well_formed, Fault, Instruction, Number, Register, Status};
use crate::machine::State;
use crate::word::{code_unit, complement, wrapping_product, wrapping_sum};

verus! {

/// Executing an instruction keeps the address space and the register file at
/// their sizes.
pub proof fn lemma_execute_keeps_well_formed(s: State, instruction: Instruction)
    requires
        s.well_formed(),
        instruction.well_formed(),
    ensures
        s.execute(instruction).0.well_formed(),
{
}

/// A step keeps the address space and the register file at their sizes, and
/// never touches the breakpoints or the printing switch.
pub proof fn lemma_step_keeps_well_formed(s: State)
    requires
        s.well_formed(),
    ensures
        s.step().0.well_formed(),
        s.step().0.breakpoints == s.breakpoints,
        s.step().0.output_enabled == s.output_enabled,
{
}

/// A run keeps the address space and the register file at their sizes, and
/// never touches the breakpoints or the printing switch.
pub proof fn lemma_run_keeps_well_formed(s: State, limit: nat)
    requires
        s.well_formed(),
    ensures
        s.run(limit).0.well_formed(),
        s.run(limit).0.breakpoints == s.breakpoints,
        s.run(limit).0.output_enabled == s.output_enabled,
    decreases limit,
{
    if limit > 0 {
        lemma_step_keeps_well_formed(s);
        lemma_run_keeps_well_formed(s.step().0, (limit - 1) as nat);
    }
}

/// A run of `first + second` steps is a run of `first` steps followed, if
/// the machine is then still running, by a run of `second` steps.
pub proof fn lemma_run_in_parts(s: State, first: nat, second: nat)
    ensures
        s.run(first + second) == if s.run(first).1 == Ok::<Status, Fault>(Status::Running) {
            s.run(first).0.run(second)
        } else {
            s.run(first)
        },
    decreases first,
{
    if first > 0 {
        if s.step().1 == Ok::<Status, Fault>(Status::Running) {
            lemma_run_in_parts(s.step().0, (first - 1) as nat, second);
        }
    }
}

/// A step that faults changes nothing, so the program counter still points
/// at the instruction that faulted.
pub proof fn lemma_faulting_step_changes_nothing(s: State)
    requires
        s.step().1 is Err,
    ensures
        s.step().0 == s,
{
}

/// A run that ends in a fault leaves the machine in front of the faulting
/// instruction: stepping again raises the same fault and changes nothing.
pub proof fn lemma_fault_is_repeatable(s: State, limit: nat)
    requires
        s.run(limit).1 is Err,
    ensures
        s.run(limit).0.step() == s.run(limit),
    decreases limit,
{
    if limit > 0 {
        if s.step().1 == Ok::<Status, Fault>(Status::Running) {
            lemma_fault_is_repeatable(s.step().0, (limit - 1) as nat);
        }
    }
}

/// After `SetRegister` with a literal, the register holds the literal, and
/// nothing else has changed.
pub proof fn lemma_set_register_then_read(s: State, register: Register, value: u16)
    requires
        s.well_formed(),
        register < 8,
    ensures
        s.execute(Instruction::SetRegister(register, Number::Literal(value))) == (
            s.with_register(register, value),
            Ok::<Status, Fault>(Status::Running),
        ),
        s.with_register(register, value).registers[register as int] == value,
{
}

/// `Add` and `Multiply` store the sum and the product modulo 32768, which
/// is a 15-bit value whatever the operands are.
pub proof fn lemma_add_and_multiply_wrap(s: State, register: Register, a: Number, b: Number)
    requires
        s.well_formed(),
        register < 8,
    ensures
        s.execute(Instruction::Add(register, a, b)).0.registers[register as int] == (s.resolve(a)
            + s.resolve(b)) % 32768,
        s.execute(Instruction::Multiply(register, a, b)).0.registers[register as int] == (
        s.resolve(a) * s.resolve(b)) % 32768,
        s.execute(Instruction::Add(register, a, b)).0.registers[register as int] < 32768,
        s.execute(Instruction::Multiply(register, a, b)).0.registers[register as int] < 32768,
{
    assert(0 <= (s.resolve(a) * s.resolve(b)) % 32768 < 32768);
    assert(wrapping_sum(s.resolve(a), s.resolve(b)) == (s.resolve(a) + s.resolve(b)) % 32768);
    assert(wrapping_product(s.resolve(a), s.resolve(b)) == (s.resolve(a) * s.resolve(b)) % 32768);
}

/// Complementing a 15-bit value twice gives the value back.
pub proof fn lemma_complement_twice(value: u16)
    requires
        value < 32768,
    ensures
        complement(complement(value)) == value,
{
    assert((!((!value) % 32768)) % 32768 == value) by (bit_vector)
        requires
            value < 32768,
    ;
}

/// `BitwiseNot` of a register into itself, executed twice, restores a 15-bit
/// content and so the whole state.
pub proof fn lemma_bitwise_not_twice(s: State, register: Register)
    requires
        s.well_formed(),
        register < 8,
        s.registers[register as int] < 32768,
    ensures
        ({
            let not = Instruction::BitwiseNot(register, Number::Register(register));
            s.execute(not).0.execute(not) == (s, Ok::<Status, Fault>(Status::Running))
        }),
{
    lemma_complement_twice(s.registers[register as int]);
    let not = Instruction::BitwiseNot(register, Number::Register(register));
    assert(s.execute(not).0.execute(not).0.registers =~= s.registers);
}

/// A `ReadChar` that finds no input changes nothing: the program counter
/// stays on its opcode, two words in front of where it is once the
/// instruction has been carried out, and every run from there waits at
/// once.
pub proof fn lemma_read_without_input_waits(s: State, register: Register, limit: nat)
    requires
        decode(s.memory, s.pc as int) == Ok::<Instruction, Fault>(Instruction::ReadChar(register)),
        s.input.len() == 0,
        limit > 0,
    ensures
        s.step() == (s, Ok::<Status, Fault>(Status::AwaitingInput)),
        s.run(limit) == (s, Ok::<Status, Fault>(Status::AwaitingInput)),
{
}

/// Once a character has been typed, the `ReadChar` that was waiting is the
/// next instruction carried out: it moves the character into its register,
/// empties the queue and leaves the program counter two words further.
pub proof fn lemma_read_resumes_with_input(s: State, register: Register, c: char)
    requires
        s.well_formed(),
        decode(s.memory, s.pc as int) == Ok::<Instruction, Fault>(Instruction::ReadChar(register)),
        s.input.len() == 0,
    ensures
        ({
            let read = State { input: Seq::empty(), ..s }.with_register(
                register,
                code_unit(c),
            ).with_pc((s.pc + 2) as u16);
            &&& s.pc + 2 <= 32768
            &&& s.typed(seq![c]).step() == (read, Ok::<Status, Fault>(read.arrival()))
        }),
{
    lemma_decode_well_formed(s.memory, s.pc as int);
    let fed = s.typed(seq![c]);
    assert(fed.input =~= seq![code_unit(c)]);
    assert(fed.input.drop_first() =~= Seq::<u16>::empty());
}

/// `FunctionCall` to a literal target followed at once by `FunctionReturn`
/// restores the state: the program counter is where it was behind the call,
/// and the stack is as before.
pub proof fn lemma_call_then_return(s: State, target: u16)
    ensures
        ({
            let called = s.execute(Instruction::FunctionCall(Number::Literal(target)));
            let returned = called.0.execute(Instruction::FunctionReturn);
            &&& called.1 == Ok::<Status, Fault>(Status::Running)
            &&& called.0.pc == target
            &&& returned == (s, Ok::<Status, Fault>(Status::Running))
        }),
{
    assert(s.stack.push(s.pc).drop_last() =~= s.stack);
}

/// The same in two steps: if the instruction at the program counter is a
/// `FunctionCall` to a literal target, and a `FunctionReturn` stands at the
/// target, then after two steps only the program counter has changed, and it
/// points behind the call.
pub proof fn lemma_call_and_return_steps(s: State, target: u16)
    requires
        s.well_formed(),
        decode(s.memory, s.pc as int) == Ok::<Instruction, Fault>(
            Instruction::FunctionCall(Number::Literal(target)),
        ),
        decode(s.memory, target as int) == Ok::<Instruction, Fault>(Instruction::FunctionReturn),
    ensures
        s.step().1 is Ok,
        s.step().0.pc == target,
        s.step().0.step().0 == s.with_pc((s.pc + 2) as u16),
        s.step().0.step().1 == Ok::<Status, Fault>(s.with_pc((s.pc + 2) as u16).arrival()),
{
    lemma_decode_well_formed(s.memory, s.pc as int);
    lemma_decode_well_formed(s.memory, target as int);
    let behind = (s.pc + 2) as u16;
    assert(s.stack.push(behind).drop_last() =~= s.stack);
}

/// A word above 21 is no opcode: the machine refuses to execute it, reports
/// which word it was, and changes nothing.
pub proof fn lemma_unknown_opcode_faults(s: State, limit: nat)
    requires
        s.well_formed(),
        s.pc < 32768,
        s.memory[s.pc as int] > 21,
        limit > 0,
    ensures
        decode(s.memory, s.pc as int) == Ok::<Instruction, Fault>(
            Instruction::Unknown(s.memory[s.pc as int]),
        ),
        s.step() == (s, Err::<Status, Fault>(Fault::UnknownOpcode(s.memory[s.pc as int]))),
        s.run(limit) == (s, Err::<Status, Fault>(Fault::UnknownOpcode(s.memory[s.pc as int]))),
{
}

/// A run that reports `Breakpoint` has stopped with the program counter at
/// a breakpoint.
pub proof fn lemma_breakpoint_stop_is_at_breakpoint(s: State, limit: nat)
    requires
        s.run(limit).1 == Ok::<Status, Fault>(Status::Breakpoint),
    ensures
        s.breakpoints.contains(s.run(limit).0.pc),
        s.run(limit).0.breakpoints == s.breakpoints,
    decreases limit,
{
    if limit > 0 {
        if s.step().1 == Ok::<Status, Fault>(Status::Running) {
            lemma_breakpoint_stop_is_at_breakpoint(s.step().0, (limit - 1) as nat);
        }
    }
}

/// Breakpoints change nothing but where a run stops: a step of the machine
/// without its breakpoints does the same to everything else, and reports
/// `Running` exactly where the step with breakpoints reports `Running` or
/// `Breakpoint`.
pub proof fn lemma_step_without_breakpoints(s: State)
    ensures
        s.without_breakpoints().step().0 == s.step().0.without_breakpoints(),
        s.step().0.breakpoints == s.breakpoints,
        s.without_breakpoints().step().1 == if s.step().1 == Ok::<Status, Fault>(
            Status::Breakpoint,
        ) {
            Ok::<Status, Fault>(Status::Running)
        } else {
            s.step().1
        },
        s.step().1 == Ok::<Status, Fault>(Status::Breakpoint) ==> s.breakpoints.contains(
            s.step().0.pc,
        ),
        s.step().1 == Ok::<Status, Fault>(Status::Running) ==> !s.breakpoints.contains(
            s.step().0.pc,
        ),
{
    let free = s.without_breakpoints();
    match decode(s.memory, s.pc as int) {
        Err(_) => {},
        Ok(instruction) => {
            let target = (s.pc + instruction.len()) as u16;
            assert(free.with_pc(target) == s.with_pc(target).without_breakpoints());
            lemma_execute_without_breakpoints(s.with_pc(target), instruction);
        },
    }
}

/// Executing an instruction neither reads nor writes the breakpoints.
pub proof fn lemma_execute_without_breakpoints(s: State, instruction: Instruction)
    ensures
        s.without_breakpoints().execute(instruction) == (
            s.execute(instruction).0.without_breakpoints(),
            s.execute(instruction).1,
        ),
        s.execute(instruction).0.breakpoints == s.breakpoints,
{
}

/// A run stops at a breakpoint as soon as control arrives there.
///
/// Let the program, run without breakpoints, carry out `arrival`
/// instructions without halting, waiting or faulting, and let the last of
/// them leave the program counter at a breakpoint, the first one that any of
/// them arrives at. Then every run of at least `arrival` steps stops right
/// there: it reports `Breakpoint`, the program counter is at that
/// breakpoint, and the rest of the state is what those instructions made it.
pub proof fn lemma_run_stops_on_arrival(s: State, arrival: nat, limit: nat)
    requires
        1 <= arrival <= limit,
        s.without_breakpoints().run(arrival).1 == Ok::<Status, Fault>(Status::Running),
        s.breakpoints.contains(s.without_breakpoints().run(arrival).0.pc),
        forall|earlier: nat|
            1 <= earlier < arrival ==> !s.breakpoints.contains(
                #[trigger] s.without_breakpoints().run(earlier).0.pc,
            ),
    ensures
        s.run(limit).1 == Ok::<Status, Fault>(Status::Breakpoint),
        s.run(limit).0.pc == s.without_breakpoints().run(arrival).0.pc,
        s.run(limit).0 == (State {
            breakpoints: s.breakpoints,
            ..s.without_breakpoints().run(arrival).0
        }),
    decreases arrival,
{
    let free = s.without_breakpoints();
    lemma_step_without_breakpoints(s);
    assert(free.run(1) == if free.step().1 == Ok::<Status, Fault>(Status::Running) {
        free.step().0.run(0)
    } else {
        free.step()
    });
    if arrival == 1 {
        assert(s.step().0 == (State { breakpoints: s.breakpoints, ..free.step().0 }));
    } else {
        let next = s.step().0;
        let shorter = (arrival - 1) as nat;
        assert(free.run(1).0.pc == free.step().0.pc);
        assert(next.without_breakpoints() == free.step().0);
        assert forall|earlier: nat| 1 <= earlier < shorter implies !next.breakpoints.contains(
            #[trigger] next.without_breakpoints().run(earlier).0.pc,
        ) by {
            assert(free.run(earlier + 1) == next.without_breakpoints().run(earlier));
        }
        lemma_run_stops_on_arrival(next, shorter, (limit - 1) as nat);
    }
}

} // verus!
