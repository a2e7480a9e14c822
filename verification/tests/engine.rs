use subleq::{Error, LinearMemory, Memory, Subleq};

fn loaded_memory(values: &[(usize, i64)]) -> LinearMemory<i64> {
    let mut m = LinearMemory::<i64>::new(16);
    for &(address, value) in values {
        m.set(address, value).unwrap();
    }
    m
}

#[test]
fn new_engine_starts_at_address_zero() {
    let engine = Subleq::new(LinearMemory::<i64>::new(16));
    assert_eq!(engine.curr_instruction, 0);
    assert_eq!(engine.mem.capacity(), 16);
}

#[test]
fn step_decrement_and_copy_branch_taken() {
    // Instruction (A=3, B=4, C=0) with cell[3] = 5 and cell[4] = 5:
    // 5 - 5 = 0 <= 0, so the branch to C is taken.
    let m = loaded_memory(&[(0, 3), (1, 4), (2, 0), (3, 5), (4, 5)]);
    let mut engine = Subleq::new(m);
    assert!(matches!(engine.step(), Ok(())));
    assert_eq!(engine.mem.get(4).unwrap(), 0);
    assert_eq!(engine.curr_instruction, 0);
}

#[test]
fn step_sequential_advance_when_result_positive() {
    // Same instruction layout with cell[3] = 2 and cell[4] = 10:
    // 10 - 2 = 8 > 0, so execution falls through to the next instruction.
    let m = loaded_memory(&[(0, 3), (1, 4), (2, 0), (3, 2), (4, 10)]);
    let mut engine = Subleq::new(m);
    assert!(matches!(engine.step(), Ok(())));
    assert_eq!(engine.mem.get(4).unwrap(), 8);
    assert_eq!(engine.curr_instruction, 3);
}

#[test]
fn step_branches_on_negative_result() {
    let m = loaded_memory(&[(0, 3), (1, 4), (2, 9), (3, 7), (4, 5)]);
    let mut engine = Subleq::new(m);
    assert!(matches!(engine.step(), Ok(())));
    assert_eq!(engine.mem.get(4).unwrap(), -2);
    assert_eq!(engine.curr_instruction, 9);
}

#[test]
fn step_updates_no_cell_but_operand_b() {
    let m = loaded_memory(&[(0, 3), (1, 4), (2, 0), (3, 2), (4, 10), (5, 77)]);
    let mut engine = Subleq::new(m);
    engine.step().unwrap();
    assert_eq!(engine.mem.get(0).unwrap(), 3);
    assert_eq!(engine.mem.get(1).unwrap(), 4);
    assert_eq!(engine.mem.get(2).unwrap(), 0);
    assert_eq!(engine.mem.get(3).unwrap(), 2);
    assert_eq!(engine.mem.get(4).unwrap(), 8);
    assert_eq!(engine.mem.get(5).unwrap(), 77);
    for address in 6..16 {
        assert_eq!(engine.mem.get(address).unwrap(), 0);
    }
}

#[test]
fn two_steps_run_consecutive_instructions() {
    // First instruction (3, 4, 0): cell[4] = 2 - 1 = 1 > 0, fall through to 3.
    // Second instruction (1, 1, 0): cell[1] = 4 - 4 = 0 <= 0, branch to 0.
    let m = loaded_memory(&[(0, 3), (1, 4), (2, 0), (3, 1), (4, 2)]);
    let mut engine = Subleq::new(m);
    engine.step().unwrap();
    assert_eq!(engine.curr_instruction, 3);
    assert_eq!(engine.mem.get(4).unwrap(), 1);
    engine.step().unwrap();
    assert_eq!(engine.curr_instruction, 0);
    assert_eq!(engine.mem.get(1).unwrap(), 0);
}

#[test]
fn step_wrapping_subtraction_overflows_explicitly() {
    // i64::MIN - 1 wraps to i64::MAX, which is positive: no branch.
    let m = loaded_memory(&[(0, 3), (1, 4), (2, 0), (3, 1), (4, i64::MIN)]);
    let mut engine = Subleq::new(m);
    assert!(matches!(engine.step(), Ok(())));
    assert_eq!(engine.mem.get(4).unwrap(), i64::MAX);
    assert_eq!(engine.curr_instruction, 3);
}

#[test]
fn step_fails_when_program_counter_is_out_of_range() {
    let mut engine = Subleq::new(LinearMemory::<i64>::new(0));
    assert!(matches!(engine.step(), Err(Error::AddressOutOfRange(0))));
    assert_eq!(engine.curr_instruction, 0);
}

#[test]
fn failed_step_repeats_the_same_error() {
    let mut engine = Subleq::new(LinearMemory::<i64>::new(2));
    assert!(matches!(engine.step(), Err(Error::AddressOutOfRange(2))));
    assert!(matches!(engine.step(), Err(Error::AddressOutOfRange(2))));
    assert_eq!(engine.curr_instruction, 0);
}

#[test]
fn step_fails_on_negative_operand_value() {
    let m = loaded_memory(&[(0, -1), (1, 4), (2, 0)]);
    let mut engine = Subleq::new(m);
    assert!(matches!(engine.step(), Err(Error::AddressConversionFailed)));
    assert_eq!(engine.curr_instruction, 0);
    assert_eq!(engine.mem.get(0).unwrap(), -1);
}

#[test]
fn step_fails_when_operand_address_is_out_of_range() {
    // Operand B names address 100, which no cell backs.
    let m = loaded_memory(&[(0, 3), (1, 100), (2, 0), (3, 5)]);
    let mut engine = Subleq::new(m);
    assert!(matches!(engine.step(), Err(Error::AddressOutOfRange(100))));
    assert_eq!(engine.curr_instruction, 0);
    for address in [0, 1, 2, 3] {
        let expected = [3, 100, 0, 5][address];
        assert_eq!(engine.mem.get(address).unwrap(), expected);
    }
}

#[test]
fn branch_target_is_not_validated_until_next_fetch() {
    // C = 100 lies outside the memory, but the branch only stores it in the
    // program counter; the following step fails at the fetch.
    let m = loaded_memory(&[(0, 3), (1, 4), (2, 100), (3, 5), (4, 5)]);
    let mut engine = Subleq::new(m);
    assert!(matches!(engine.step(), Ok(())));
    assert_eq!(engine.curr_instruction, 100);
    assert!(matches!(engine.step(), Err(Error::AddressOutOfRange(100))));
}

#[test]
fn engine_runs_on_a_narrow_value_type() {
    // The same machine over i8 cells: 1 - (-128) wraps to 127 > 0.
    let mut m = LinearMemory::<i8>::new(8);
    m.set(0, 3).unwrap();
    m.set(1, 4).unwrap();
    m.set(3, 1).unwrap();
    m.set(4, -128).unwrap();
    let mut engine = Subleq::new(m);
    assert!(matches!(engine.step(), Ok(())));
    assert_eq!(engine.mem.get(4).unwrap(), 127);
    assert_eq!(engine.curr_instruction, 3);
}

#[test]
fn negative_narrow_value_is_no_address() {
    let mut m = LinearMemory::<i8>::new(8);
    m.set(0, -1).unwrap();
    let mut engine = Subleq::new(m);
    assert!(matches!(engine.step(), Err(Error::AddressConversionFailed)));
    assert_eq!(engine.curr_instruction, 0);
}

#[test]
fn caller_may_reset_the_program_counter_and_retry() {
    let m = loaded_memory(&[(0, 3), (1, 4), (2, 0), (3, 5), (4, 5), (12, 12), (13, 12)]);
    let mut engine = Subleq::new(m);
    engine.curr_instruction = 12;
    // Instruction (12, 12, 0): cell[12] = 12 - 12 = 0 <= 0, branch to 0.
    assert!(matches!(engine.step(), Ok(())));
    assert_eq!(engine.mem.get(12).unwrap(), 0);
    assert_eq!(engine.curr_instruction, 0);
}
