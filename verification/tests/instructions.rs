//! The effect of each instruction, executed on its own.

use synacor_vm::{Fault, Instruction, Number, Status, VM};

fn lit(value: u16) -> Number {
    Number::Literal(value)
}

fn reg(index: usize) -> Number {
    Number::Register(index)
}

fn run_one(vm: &mut VM, instruction: Instruction) -> Result<Status, Fault> {
    vm.execute(&instruction)
}

#[test]
fn set_register_with_literal_then_read() {
    for register in 0..8usize {
        for value in [0u16, 1, 7, 255, 256, 12345, 32766, 32767] {
            let mut vm = VM::new();
            let result = run_one(&mut vm, Instruction::SetRegister(register, lit(value)));
            assert_eq!(result, Ok(Status::Running));
            assert_eq!(vm.dbg_get_register(register), value);
            for other in 0..8usize {
                if other != register {
                    assert_eq!(vm.dbg_get_register(other), 0);
                }
            }
        }
    }
}

#[test]
fn set_register_from_register() {
    let mut vm = VM::new();
    vm.dbg_set_register(5, 4242);
    assert_eq!(run_one(&mut vm, Instruction::SetRegister(2, reg(5))), Ok(Status::Running));
    assert_eq!(vm.dbg_get_register(2), 4242);
    assert_eq!(vm.dbg_get_register(5), 4242);
}

#[test]
fn add_wraps_modulo_32768() {
    let mut vm = VM::new();
    assert_eq!(run_one(&mut vm, Instruction::Add(3, lit(32767), lit(2))), Ok(Status::Running));
    assert_eq!(vm.dbg_get_register(3), 1);
}

#[test]
fn add_without_wrapping() {
    let mut vm = VM::new();
    vm.dbg_set_register(1, 1000);
    assert_eq!(run_one(&mut vm, Instruction::Add(0, reg(1), lit(234))), Ok(Status::Running));
    assert_eq!(vm.dbg_get_register(0), 1234);
}

#[test]
fn add_of_largest_operands() {
    let mut vm = VM::new();
    assert_eq!(run_one(&mut vm, Instruction::Add(0, lit(32767), lit(32767))), Ok(Status::Running));
    assert_eq!(vm.dbg_get_register(0), 32766);
}

#[test]
fn add_of_registers_holding_sixteen_bit_values() {
    let mut vm = VM::new();
    vm.dbg_set_register(1, 65535);
    vm.dbg_set_register(2, 65535);
    assert_eq!(run_one(&mut vm, Instruction::Add(0, reg(1), reg(2))), Ok(Status::Running));
    assert_eq!(vm.dbg_get_register(0), 32766);
}

#[test]
fn multiply_wraps_modulo_32768() {
    let mut vm = VM::new();
    assert_eq!(run_one(&mut vm, Instruction::Multiply(0, lit(300), lit(300))), Ok(Status::Running));
    assert_eq!(vm.dbg_get_register(0), 24464);
    assert_eq!(run_one(&mut vm, Instruction::Multiply(1, lit(32767), lit(32767))), Ok(Status::Running));
    assert_eq!(vm.dbg_get_register(1), 1);
    assert_eq!(run_one(&mut vm, Instruction::Multiply(2, lit(6), lit(7))), Ok(Status::Running));
    assert_eq!(vm.dbg_get_register(2), 42);
}

#[test]
fn mod_gives_remainder() {
    let mut vm = VM::new();
    assert_eq!(run_one(&mut vm, Instruction::Mod(0, lit(17), lit(5))), Ok(Status::Running));
    assert_eq!(vm.dbg_get_register(0), 2);
    assert_eq!(run_one(&mut vm, Instruction::Mod(1, lit(3), lit(10))), Ok(Status::Running));
    assert_eq!(vm.dbg_get_register(1), 3);
}

#[test]
fn mod_by_zero_is_a_fault_and_changes_nothing() {
    let mut vm = VM::new();
    vm.dbg_set_register(0, 99);
    assert_eq!(run_one(&mut vm, Instruction::Mod(0, lit(17), lit(0))), Err(Fault::DivisionByZero));
    assert_eq!(vm.dbg_get_register(0), 99);
    assert_eq!(vm.dbg_get_pc(), 0);
}

#[test]
fn bitwise_and_or() {
    let mut vm = VM::new();
    assert_eq!(run_one(&mut vm, Instruction::BitwiseAnd(0, lit(0b1100), lit(0b1010))), Ok(Status::Running));
    assert_eq!(vm.dbg_get_register(0), 0b1000);
    assert_eq!(run_one(&mut vm, Instruction::BitwiseOr(1, lit(0b1100), lit(0b1010))), Ok(Status::Running));
    assert_eq!(vm.dbg_get_register(1), 0b1110);
}

#[test]
fn bitwise_not_keeps_fifteen_bits() {
    let mut vm = VM::new();
    assert_eq!(run_one(&mut vm, Instruction::BitwiseNot(0, lit(0))), Ok(Status::Running));
    assert_eq!(vm.dbg_get_register(0), 32767);
    assert_eq!(run_one(&mut vm, Instruction::BitwiseNot(1, lit(32767))), Ok(Status::Running));
    assert_eq!(vm.dbg_get_register(1), 0);
    assert_eq!(run_one(&mut vm, Instruction::BitwiseNot(2, lit(0b101))), Ok(Status::Running));
    assert_eq!(vm.dbg_get_register(2), 32767 - 0b101);
}

#[test]
fn bitwise_not_twice_is_identity() {
    let mut value: u16 = 0;
    loop {
        let mut vm = VM::new();
        vm.dbg_set_register(4, value);
        assert_eq!(run_one(&mut vm, Instruction::BitwiseNot(4, reg(4))), Ok(Status::Running));
        assert_eq!(vm.dbg_get_register(4), 32767 - value);
        assert_eq!(run_one(&mut vm, Instruction::BitwiseNot(4, reg(4))), Ok(Status::Running));
        assert_eq!(vm.dbg_get_register(4), value);
        if value >= 32767 {
            break;
        }
        value = if value < 300 { value + 1 } else { (value + 997).min(32767) };
    }
}

#[test]
fn compare_equals_stores_one_or_zero() {
    let mut vm = VM::new();
    assert_eq!(run_one(&mut vm, Instruction::CompareEquals(0, lit(5), lit(5))), Ok(Status::Running));
    assert_eq!(vm.dbg_get_register(0), 1);
    assert_eq!(run_one(&mut vm, Instruction::CompareEquals(0, lit(5), lit(6))), Ok(Status::Running));
    assert_eq!(vm.dbg_get_register(0), 0);
}

#[test]
fn compare_greater_than_stores_one_or_zero() {
    let mut vm = VM::new();
    assert_eq!(run_one(&mut vm, Instruction::CompareGreaterThan(0, lit(6), lit(5))), Ok(Status::Running));
    assert_eq!(vm.dbg_get_register(0), 1);
    assert_eq!(run_one(&mut vm, Instruction::CompareGreaterThan(0, lit(5), lit(5))), Ok(Status::Running));
    assert_eq!(vm.dbg_get_register(0), 0);
    assert_eq!(run_one(&mut vm, Instruction::CompareGreaterThan(0, lit(4), lit(5))), Ok(Status::Running));
    assert_eq!(vm.dbg_get_register(0), 0);
}

#[test]
fn jump_sets_the_program_counter() {
    let mut vm = VM::new();
    assert_eq!(run_one(&mut vm, Instruction::Jump(lit(1234))), Ok(Status::Running));
    assert_eq!(vm.dbg_get_pc(), 1234);
    vm.dbg_set_register(7, 77);
    assert_eq!(run_one(&mut vm, Instruction::Jump(reg(7))), Ok(Status::Running));
    assert_eq!(vm.dbg_get_pc(), 77);
}

#[test]
fn jump_if_true_jumps_on_nonzero_only() {
    let mut vm = VM::new();
    assert_eq!(run_one(&mut vm, Instruction::JumpIfTrue(lit(0), lit(500))), Ok(Status::Running));
    assert_eq!(vm.dbg_get_pc(), 0);
    assert_eq!(run_one(&mut vm, Instruction::JumpIfTrue(lit(3), lit(500))), Ok(Status::Running));
    assert_eq!(vm.dbg_get_pc(), 500);
}

#[test]
fn jump_if_false_jumps_on_zero_only() {
    let mut vm = VM::new();
    assert_eq!(run_one(&mut vm, Instruction::JumpIfFalse(lit(3), lit(500))), Ok(Status::Running));
    assert_eq!(vm.dbg_get_pc(), 0);
    assert_eq!(run_one(&mut vm, Instruction::JumpIfFalse(lit(0), lit(500))), Ok(Status::Running));
    assert_eq!(vm.dbg_get_pc(), 500);
}

#[test]
fn push_then_pop_moves_a_value() {
    let mut vm = VM::new();
    assert_eq!(run_one(&mut vm, Instruction::Push(lit(11))), Ok(Status::Running));
    assert_eq!(run_one(&mut vm, Instruction::Push(lit(22))), Ok(Status::Running));
    assert_eq!(run_one(&mut vm, Instruction::Pop(0)), Ok(Status::Running));
    assert_eq!(run_one(&mut vm, Instruction::Pop(1)), Ok(Status::Running));
    assert_eq!(vm.dbg_get_register(0), 22);
    assert_eq!(vm.dbg_get_register(1), 11);
}

#[test]
fn pop_from_empty_stack_is_a_fault() {
    let mut vm = VM::new();
    vm.dbg_set_register(0, 5);
    assert_eq!(run_one(&mut vm, Instruction::Pop(0)), Err(Fault::StackUnderflow));
    assert_eq!(vm.dbg_get_register(0), 5);
}

#[test]
fn return_from_empty_stack_is_a_fault() {
    let mut vm = VM::new();
    assert_eq!(run_one(&mut vm, Instruction::FunctionReturn), Err(Fault::StackUnderflow));
    assert_eq!(vm.dbg_get_pc(), 0);
}

#[test]
fn call_then_return_restores_the_program_counter() {
    for target in [0u16, 1, 100, 32767] {
        let mut vm = VM::new();
        assert_eq!(run_one(&mut vm, Instruction::Jump(lit(4321))), Ok(Status::Running));
        assert_eq!(run_one(&mut vm, Instruction::FunctionCall(lit(target))), Ok(Status::Running));
        assert_eq!(vm.dbg_get_pc(), target);
        assert_eq!(run_one(&mut vm, Instruction::FunctionReturn), Ok(Status::Running));
        assert_eq!(vm.dbg_get_pc(), 4321);
        assert_eq!(run_one(&mut vm, Instruction::FunctionReturn), Err(Fault::StackUnderflow));
    }
}

#[test]
fn memory_write_then_read() {
    let mut vm = VM::new();
    assert_eq!(run_one(&mut vm, Instruction::MemoryWrite(lit(2000), lit(99))), Ok(Status::Running));
    assert_eq!(vm.dbg_get_memory()[2000], 99);
    assert_eq!(run_one(&mut vm, Instruction::MemoryRead(3, lit(2000))), Ok(Status::Running));
    assert_eq!(vm.dbg_get_register(3), 99);
}

#[test]
fn memory_access_through_register_outside_the_address_space_is_a_fault() {
    let mut vm = VM::new();
    vm.dbg_set_register(0, 32768);
    assert_eq!(
        run_one(&mut vm, Instruction::MemoryRead(1, reg(0))),
        Err(Fault::AddressOutOfRange(32768))
    );
    assert_eq!(
        run_one(&mut vm, Instruction::MemoryWrite(reg(0), lit(1))),
        Err(Fault::AddressOutOfRange(32768))
    );
    assert_eq!(vm.dbg_get_register(1), 0);
    assert!(vm.dbg_get_memory().iter().all(|cell| *cell == 0));
}

#[test]
fn print_char_emits_the_low_byte() {
    let mut vm = VM::new();
    assert_eq!(run_one(&mut vm, Instruction::PrintChar(lit(65))), Ok(Status::Running));
    assert_eq!(run_one(&mut vm, Instruction::PrintChar(lit(256 + 66))), Ok(Status::Running));
    assert_eq!(vm.take_output(), vec![65u8, 66u8]);
    assert_eq!(vm.take_output(), Vec::<u8>::new());
}

#[test]
fn print_char_is_silent_when_output_is_disabled() {
    let mut vm = VM::new();
    vm.dbg_set_output_enabled(false);
    assert_eq!(run_one(&mut vm, Instruction::PrintChar(lit(65))), Ok(Status::Running));
    assert_eq!(vm.take_output(), Vec::<u8>::new());
    vm.dbg_set_output_enabled(true);
    assert_eq!(run_one(&mut vm, Instruction::PrintChar(lit(66))), Ok(Status::Running));
    assert_eq!(vm.take_output(), vec![66u8]);
}

#[test]
fn read_char_takes_the_oldest_character() {
    let mut vm = VM::new();
    vm.input_command("hi");
    assert_eq!(run_one(&mut vm, Instruction::ReadChar(0)), Ok(Status::Running));
    assert_eq!(run_one(&mut vm, Instruction::ReadChar(1)), Ok(Status::Running));
    assert_eq!(vm.dbg_get_register(0), 'h' as u16);
    assert_eq!(vm.dbg_get_register(1), 'i' as u16);
    assert_eq!(run_one(&mut vm, Instruction::ReadChar(2)), Ok(Status::AwaitingInput));
    assert_eq!(vm.dbg_get_register(2), 0);
}

#[test]
fn halt_and_noop_change_nothing() {
    let mut vm = VM::new();
    vm.dbg_set_register(0, 9);
    assert_eq!(run_one(&mut vm, Instruction::NoOp), Ok(Status::Running));
    assert_eq!(run_one(&mut vm, Instruction::Halt), Ok(Status::Halted));
    assert_eq!(vm.dbg_get_register(0), 9);
    assert_eq!(vm.dbg_get_pc(), 0);
}

#[test]
fn unknown_instruction_is_refused() {
    let mut vm = VM::new();
    assert_eq!(run_one(&mut vm, Instruction::Unknown(22)), Err(Fault::UnknownOpcode(22)));
    assert_eq!(vm.dbg_get_pc(), 0);
}
