use r0vm::error::{Error, InvalidInstructionCtx};
use r0vm::opcodes::Op;
use r0vm::opcodes::Op::{
    AddF, AddI, Alloc, And, ArgA, Br, BrA, BrFalse, BrTrue, Call, CallName, CmpF, CmpI, CmpU,
    DivF, DivI, DivU, Dup, FToI, Free, GlobA, IToF, Load16, Load32, Load64, Load8, LocA, MulF,
    MulI, NegF, NegI, Nop, Not, Or, Panic, Pop, PopN, PrintC, PrintF, PrintI, PrintLn, PrintS,
    Push, Ret, ScanC, ScanF, ScanI, SetGt, SetLt, Shl, Shr, ShrL, StackAlloc, Store16, Store32,
    Store64, Store8, SubF, SubI, Xor,
};
use r0vm::s0::{FnDef, GlobalValue, S0};
use r0vm::vm::floats::{negate, order, FloatTask};
use r0vm::vm::mem::{GLOBAL_START, HEAP_START, STACK_START};
use r0vm::vm::R0Vm;

fn func(param_slots: u32, loc_slots: u32, ret_slots: u32, ins: Vec<Op>) -> FnDef {
    FnDef { max_stack: 0, param_slots, loc_slots, ret_slots, ins }
}

fn program(functions: Vec<FnDef>) -> S0 {
    S0::new(vec![], functions)
}

/// Does for the machine what it leaves to its embedder.
fn finish(vm: &mut R0Vm, task: FloatTask) -> Result<(), Error> {
    match task {
        FloatTask::Add { lhs, rhs } => vm.push((f64::from_bits(lhs) + f64::from_bits(rhs)).to_bits()),
        FloatTask::Sub { lhs, rhs } => vm.push((f64::from_bits(lhs) - f64::from_bits(rhs)).to_bits()),
        FloatTask::Mul { lhs, rhs } => vm.push((f64::from_bits(lhs) * f64::from_bits(rhs)).to_bits()),
        FloatTask::Div { lhs, rhs } => vm.push((f64::from_bits(lhs) / f64::from_bits(rhs)).to_bits()),
        FloatTask::FromInt(x) => vm.push((x as i64 as f64).to_bits()),
        FloatTask::ToInt(x) => vm.push(f64::from_bits(x) as i64 as u64),
        FloatTask::Print(x) => {
            vm.write_output(&format!("{:.6}", f64::from_bits(x)).into_bytes());
            Ok(())
        }
        FloatTask::Scan => {
            let tok = vm.read_token();
            match String::from_utf8(tok).ok().and_then(|s| s.parse::<f64>().ok()) {
                Some(v) => vm.push(v.to_bits()),
                None => Err(Error::ParseError),
            }
        }
    }
}

fn step(vm: &mut R0Vm) -> Result<(), Error> {
    match vm.step()? {
        None => Ok(()),
        Some(task) => finish(vm, task),
    }
}

fn run(vm: &mut R0Vm) -> Error {
    loop {
        if let Err(e) = step(vm) {
            return e;
        }
    }
}

#[test]
pub fn base_test() {
    let s0 = program(vec![func(
        0,
        0,
        0,
        vec![Push(1), Push(2), AddI, IToF, Push(0.4f64.to_bits()), MulF],
    )]);
    let mut vm = R0Vm::new(&s0, vec![]).unwrap();
    for _ in 0..3 {
        vm.step().unwrap();
    }
    let stack = vm.stack();
    assert_eq!(stack, &vec![3]);
    for _ in 0..3 {
        step(&mut vm).unwrap();
    }
    let stack = vm.stack();
    assert!((f64::from_bits(stack[0]) - 1.2f64).abs() < 1e-10);
}

#[test]
pub fn panic_test() {
    let s0 = program(vec![func(0, 0, 0, vec![Panic])]);
    let mut vm = R0Vm::new(&s0, vec![]).unwrap();
    let e = vm.run_to_end(1000).unwrap_err();
    assert!(matches!(e, Error::Halt))
}

#[test]
pub fn call_test() {
    let s0 = program(vec![func(0, 0, 0, vec![Call(1)]), func(0, 0, 0, vec![Ret])]);
    assert_eq!(s0.functions.len(), 2);
}

#[test]
fn arithmetic_scenario_leaves_the_product_on_top() {
    let s0 = program(vec![func(
        0,
        0,
        1,
        vec![Push(1), Push(2), AddI, IToF, Push(0.4f64.to_bits()), MulF, Ret],
    )]);
    let mut vm = R0Vm::new(&s0, vec![]).unwrap();
    assert_eq!(run(&mut vm), Error::Halt);
    let top = *vm.stack().last().unwrap();
    assert!((f64::from_bits(top) - 1.2).abs() < 1e-10);
    assert_eq!(vm.stack().len(), 1);
}

#[test]
fn conditional_branch_not_taken_on_zero() {
    let s0 = program(vec![func(
        0,
        0,
        1,
        vec![Push(0), BrTrue(2), Push(7), Ret, Push(9), Ret],
    )]);
    let mut vm = R0Vm::new(&s0, vec![]).unwrap();
    assert_eq!(vm.run_to_end(100), Err(Error::Halt));
    assert_eq!(vm.stack(), &vec![7]);
}

#[test]
fn conditional_branch_taken_on_nonzero() {
    let s0 = program(vec![func(
        0,
        0,
        1,
        vec![Push(1), BrTrue(2), Push(7), Ret, Push(9), Ret],
    )]);
    let mut vm = R0Vm::new(&s0, vec![]).unwrap();
    assert_eq!(vm.run_to_end(100), Err(Error::Halt));
    assert_eq!(vm.stack(), &vec![9]);
}

#[test]
fn call_and_return_leave_the_result_in_the_reserved_slot() {
    let main = func(0, 0, 1, vec![Push(0), Push(5), Push(7), Call(1), Ret]);
    // The callee adds its two arguments and stores the sum in the slot
    // below its first argument.
    let add = func(
        2,
        0,
        1,
        vec![
            Push(8),
            ArgA(0),
            SubI,
            ArgA(1),
            Load64,
            ArgA(0),
            Load64,
            AddI,
            Store64,
            Ret,
        ],
    );
    let s0 = program(vec![main, add]);
    let mut vm = R0Vm::new(&s0, vec![]).unwrap();
    assert_eq!(vm.run_to_end(100), Err(Error::Halt));
    assert_eq!(vm.stack(), &vec![12]);
    assert_eq!(vm.fn_id(), 0);
}

#[test]
fn heap_round_trip() {
    let s0 = program(vec![func(
        0,
        0,
        0,
        vec![Push(8), Alloc, Dup, Push(0x1122334455667788), Store64, Load64],
    )]);
    let mut vm = R0Vm::new(&s0, vec![]).unwrap();
    assert_eq!(vm.run_to_end(6), Ok(None));
    assert_eq!(*vm.stack().last().unwrap(), 0x1122334455667788);
    assert_eq!(vm.stack().len(), 1);
}

#[test]
fn divide_by_zero_pops_both_operands() {
    let s0 = program(vec![func(0, 0, 0, vec![Push(0), Push(10), DivI])]);
    let mut vm = R0Vm::new(&s0, vec![]).unwrap();
    assert_eq!(vm.run_to_end(100), Err(Error::DivZero));
    assert_eq!(vm.stack().len(), 0);
}

/// Runs the instructions as a start function and gives the end of the run
/// with the stack and the output that it left.
fn outcome(ins: Vec<Op>, input: &str) -> (Error, Vec<u64>, String) {
    let s0 = program(vec![func(0, 0, 0, ins)]);
    let mut vm = R0Vm::new(&s0, input.as_bytes().to_vec()).unwrap();
    let e = run(&mut vm);
    let out = String::from_utf8(vm.take_output()).unwrap();
    (e, vm.stack().clone(), out)
}

/// The stack that the instructions leave when the run reaches their end.
fn stack_after(ins: Vec<Op>) -> Vec<u64> {
    let (e, stack, _) = outcome(ins, "");
    assert_eq!(e, Error::ControlReachesEnd(0));
    stack
}

fn bits(x: f64) -> u64 {
    x.to_bits()
}

#[test]
fn the_first_pop_is_the_left_operand() {
    assert_eq!(stack_after(vec![Push(3), Push(10), SubI]), vec![7]);
    assert_eq!(stack_after(vec![Push(3), Push(10), DivU]), vec![3]);
    assert_eq!(stack_after(vec![Push(2), Push(1), Shl]), vec![4]);
    assert_eq!(stack_after(vec![Push(10), Push(3), CmpU]), vec![u64::MAX]);
}

#[test]
fn integer_arithmetic_wraps() {
    assert_eq!(stack_after(vec![Push(1), Push(u64::MAX), AddI]), vec![0]);
    assert_eq!(stack_after(vec![Push(1), Push(0), SubI]), vec![u64::MAX]);
    assert_eq!(stack_after(vec![Push(2), Push(1 << 63), MulI]), vec![0]);
    assert_eq!(stack_after(vec![Push(3), Push(u64::MAX), MulI]), vec![(-3i64) as u64]);
    assert_eq!(stack_after(vec![Push(5), NegI]), vec![(-5i64) as u64]);
    assert_eq!(stack_after(vec![Push(0), NegI]), vec![0]);
    assert_eq!(stack_after(vec![Push(1 << 63), NegI]), vec![1 << 63]);
    for (a, b) in [(i64::MAX, 1i64), (i64::MIN, -1), (-7, 9), (123, 456)] {
        assert_eq!(
            stack_after(vec![Push(b as u64), Push(a as u64), AddI]),
            vec![a.wrapping_add(b) as u64]
        );
    }
}

#[test]
fn signed_division_rounds_toward_zero() {
    let div = |a: i64, b: i64| stack_after(vec![Push(b as u64), Push(a as u64), DivI])[0] as i64;
    assert_eq!(div(7, 2), 3);
    assert_eq!(div(-7, 2), -3);
    assert_eq!(div(7, -2), -3);
    assert_eq!(div(-7, -2), 3);
    assert_eq!(div(0, 5), 0);
    assert_eq!(div(i64::MIN, -1), i64::MIN);
    assert_eq!(div(i64::MIN, 1), i64::MIN);
    assert_eq!(div(i64::MAX, -1), -i64::MAX);
}

#[test]
fn unsigned_division() {
    assert_eq!(stack_after(vec![Push(2), Push(u64::MAX), DivU]), vec![u64::MAX / 2]);
    let (e, stack, _) = outcome(vec![Push(7), Push(0), Push(1), DivU], "");
    assert_eq!(e, Error::DivZero);
    assert_eq!(stack, vec![7]);
}

#[test]
fn shifts_look_at_the_low_six_bits_of_the_amount() {
    assert_eq!(stack_after(vec![Push(4), Push(0xf0), Shl]), vec![0xf00]);
    assert_eq!(stack_after(vec![Push(64), Push(0xf0), Shl]), vec![0xf0]);
    assert_eq!(stack_after(vec![Push(65), Push(0xf0), Shl]), vec![0x1e0]);
    assert_eq!(stack_after(vec![Push(63), Push(3), Shl]), vec![1 << 63]);
    assert_eq!(stack_after(vec![Push(4), Push(u64::MAX), ShrL]), vec![u64::MAX >> 4]);
    assert_eq!(stack_after(vec![Push(4), Push(u64::MAX), Shr]), vec![u64::MAX]);
    assert_eq!(stack_after(vec![Push(1), Push((-8i64) as u64), Shr]), vec![(-4i64) as u64]);
    assert_eq!(stack_after(vec![Push(1), Push(8), Shr]), vec![4]);
    assert_eq!(stack_after(vec![Push((1 << 32) + 1), Push(8), ShrL]), vec![4]);
}

#[test]
fn bitwise_operations() {
    assert_eq!(stack_after(vec![Push(0b1100), Push(0b1010), And]), vec![0b1000]);
    assert_eq!(stack_after(vec![Push(0b1100), Push(0b1010), Or]), vec![0b1110]);
    assert_eq!(stack_after(vec![Push(0b1100), Push(0b1010), Xor]), vec![0b0110]);
    assert_eq!(stack_after(vec![Push(9), Push(0), Not]), vec![9, u64::MAX]);
    assert_eq!(stack_after(vec![Push(0xff), Not]), vec![!0xffu64]);
}

#[test]
fn comparisons_leave_a_tri_state() {
    let cmp = |op: Op, l: u64, r: u64| stack_after(vec![Push(r), Push(l), op])[0] as i64;
    assert_eq!(cmp(CmpI, 1, 2), -1);
    assert_eq!(cmp(CmpI, 2, 2), 0);
    assert_eq!(cmp(CmpI, 3, 2), 1);
    assert_eq!(cmp(CmpI, (-1i64) as u64, 2), -1);
    assert_eq!(cmp(CmpU, (-1i64) as u64, 2), 1);
    assert_eq!(cmp(CmpI, i64::MIN as u64, i64::MAX as u64), -1);
    assert_eq!(cmp(CmpF, bits(1.5), bits(2.5)), -1);
    assert_eq!(cmp(CmpF, bits(-1.5), bits(-2.5)), 1);
    assert_eq!(cmp(CmpF, bits(0.0), bits(-0.0)), 0);
    assert_eq!(cmp(CmpF, bits(f64::NAN), bits(1.0)), 0);
    assert_eq!(cmp(CmpF, bits(1.0), bits(f64::NAN)), 0);
}

#[test]
fn doubles_are_ordered_as_the_hardware_orders_them() {
    let samples = [
        0.0,
        -0.0,
        1.0,
        -1.0,
        0.4,
        1.2,
        -1.2,
        f64::MIN_POSITIVE,
        -f64::MIN_POSITIVE,
        5e-324,
        -5e-324,
        f64::MAX,
        f64::MIN,
        f64::INFINITY,
        f64::NEG_INFINITY,
        f64::NAN,
        -f64::NAN,
        f64::from_bits(0x7ff0_0000_0000_0001),
        f64::from_bits(0xfff8_0000_0000_0000),
        1e300,
        -1e-300,
    ];
    for &a in samples.iter() {
        for &b in samples.iter() {
            let want: i64 = if a < b {
                -1
            } else if a > b {
                1
            } else {
                0
            };
            assert_eq!(order(bits(a), bits(b)) as i64, want, "{} against {}", a, b);
        }
        assert_eq!(negate(bits(a)), bits(-a));
    }
    assert_eq!(stack_after(vec![Push(bits(2.5)), NegF]), vec![bits(-2.5)]);
    assert_eq!(stack_after(vec![Push(bits(-0.0)), NegF]), vec![bits(0.0)]);
}

#[test]
fn set_lt_and_set_gt_read_the_tri_state() {
    assert_eq!(stack_after(vec![Push(u64::MAX), SetLt]), vec![1]);
    assert_eq!(stack_after(vec![Push(0), SetLt]), vec![0]);
    assert_eq!(stack_after(vec![Push(1), SetLt]), vec![0]);
    assert_eq!(stack_after(vec![Push(u64::MAX), SetGt]), vec![0]);
    assert_eq!(stack_after(vec![Push(0), SetGt]), vec![0]);
    assert_eq!(stack_after(vec![Push(1), SetGt]), vec![1]);
    assert_eq!(stack_after(vec![Push(5), Push(3), CmpI, SetLt]), vec![1]);
    assert_eq!(stack_after(vec![Push(5), Push(3), CmpI, SetGt]), vec![0]);
}

#[test]
fn doubles_are_left_to_the_embedder() {
    let s0 = program(vec![func(0, 0, 0, vec![Push(bits(0.5)), Push(bits(2.0)), SubF, FToI, IToF])]);
    let mut vm = R0Vm::new(&s0, vec![]).unwrap();
    assert_eq!(vm.step(), Ok(None));
    assert_eq!(vm.step(), Ok(None));
    assert_eq!(vm.step(), Ok(Some(FloatTask::Sub { lhs: bits(2.0), rhs: bits(0.5) })));
    assert_eq!(vm.stack().len(), 0);
    vm.push(bits(1.5)).unwrap();
    assert_eq!(vm.step(), Ok(Some(FloatTask::ToInt(bits(1.5)))));
    vm.push(1).unwrap();
    assert_eq!(vm.step(), Ok(Some(FloatTask::FromInt(1))));
    assert_eq!(vm.stack().len(), 0);

    assert_eq!(stack_after(vec![Push(bits(0.25)), Push(bits(0.5)), AddF]), vec![bits(0.75)]);
    assert_eq!(stack_after(vec![Push(bits(4.0)), Push(bits(1.0)), DivF]), vec![bits(0.25)]);
    assert_eq!(stack_after(vec![Push(bits(0.0)), Push(bits(1.0)), DivF]), vec![bits(f64::INFINITY)]);
    assert_eq!(stack_after(vec![Push((-3i64) as u64), IToF]), vec![bits(-3.0)]);
    assert_eq!(stack_after(vec![Push(bits(-3.9)), FToI]), vec![(-3i64) as u64]);
    let (e, stack, _) = outcome(vec![Push(1), AddF], "");
    assert_eq!(e, Error::StackUnderflow);
    assert_eq!(stack, vec![]);
}

#[test]
fn stack_instructions() {
    assert_eq!(stack_after(vec![Nop]), vec![]);
    assert_eq!(stack_after(vec![Push(1), Push(2), Pop]), vec![1]);
    assert_eq!(stack_after(vec![Push(1), Push(2), Push(3), PopN(2)]), vec![1]);
    assert_eq!(stack_after(vec![Push(1), PopN(0)]), vec![1]);
    assert_eq!(stack_after(vec![Push(4), Dup]), vec![4, 4]);
    assert_eq!(stack_after(vec![Push(4), StackAlloc(3)]), vec![4, 0, 0, 0]);
    assert_eq!(stack_after(vec![StackAlloc(0)]), vec![]);
}

#[test]
fn stack_underflow() {
    assert_eq!(outcome(vec![Pop], "").0, Error::StackUnderflow);
    assert_eq!(outcome(vec![Dup], "").0, Error::StackUnderflow);
    let (e, stack, _) = outcome(vec![Push(1), PopN(2)], "");
    assert_eq!(e, Error::StackUnderflow);
    assert_eq!(stack, vec![1]);
    let (e, stack, _) = outcome(vec![Push(1), AddI], "");
    assert_eq!(e, Error::StackUnderflow);
    assert_eq!(stack, vec![]);
}

#[test]
fn no_pop_reaches_below_the_floor() {
    // The start function cannot pop its own local.
    let s0 = program(vec![func(0, 1, 0, vec![Pop])]);
    let mut vm = R0Vm::new(&s0, vec![]).unwrap();
    assert_eq!(vm.stack(), &vec![0]);
    assert_eq!(vm.floor(), 1);
    assert_eq!(vm.run_to_end(10), Err(Error::StackUnderflow));
    assert_eq!(vm.stack(), &vec![0]);
    // A called function cannot pop the saved state of its caller.
    let s0 = program(vec![func(0, 0, 0, vec![Call(1)]), func(0, 0, 0, vec![Pop])]);
    let mut vm = R0Vm::new(&s0, vec![]).unwrap();
    assert_eq!(vm.run_to_end(10), Err(Error::StackUnderflow));
    assert_eq!(vm.stack().len(), 3);
    assert_eq!(vm.bp(), 0);
    assert_eq!(vm.floor(), 3);
}

#[test]
fn stack_overflow() {
    let s0 = program(vec![func(0, 0, 0, vec![Push(1), Push(2), Push(3)])]);
    let mut vm = R0Vm::with_stack_limit(&s0, vec![], 2).unwrap();
    assert_eq!(vm.run_to_end(10), Err(Error::StackOverflow));
    assert_eq!(vm.stack(), &vec![1, 2]);

    let s0 = program(vec![func(0, 0, 0, vec![Push(1), StackAlloc(5)])]);
    let mut vm = R0Vm::with_stack_limit(&s0, vec![], 4).unwrap();
    assert_eq!(vm.run_to_end(10), Err(Error::StackOverflow));
    assert_eq!(vm.stack(), &vec![1, 0, 0, 0]);

    let s0 = program(vec![func(0, 0, 0, vec![Push(1), Dup, Dup])]);
    let mut vm = R0Vm::with_stack_limit(&s0, vec![], 2).unwrap();
    assert_eq!(vm.run_to_end(10), Err(Error::StackOverflow));

    let s0 = program(vec![func(0, 3, 0, vec![])]);
    assert!(matches!(R0Vm::with_stack_limit(&s0, vec![], 2), Err(Error::StackOverflow)));
    assert!(R0Vm::with_stack_limit(&s0, vec![], 3).is_ok());

    let (e, stack, _) = outcome(vec![StackAlloc(0x10_0001)], "");
    assert_eq!(e, Error::StackOverflow);
    assert_eq!(stack.len(), 0x10_0000);
}

#[test]
fn no_entry_point() {
    let s0 = program(vec![]);
    assert!(matches!(R0Vm::new(&s0, vec![]), Err(Error::NoEntryPoint)));
}

#[test]
fn control_reaches_end() {
    let s0 = program(vec![func(0, 0, 0, vec![Call(1)]), func(0, 0, 0, vec![Nop])]);
    let mut vm = R0Vm::new(&s0, vec![]).unwrap();
    assert_eq!(vm.run_to_end(10), Err(Error::ControlReachesEnd(1)));
    let s0 = program(vec![func(0, 0, 0, vec![])]);
    let mut vm = R0Vm::new(&s0, vec![]).unwrap();
    assert_eq!(vm.step(), Err(Error::ControlReachesEnd(0)));
}

#[test]
fn reserved_instruction_is_refused() {
    let (e, stack, _) = outcome(vec![Push(1), Nop, BrA(5)], "");
    assert_eq!(
        e,
        Error::InvalidInstruction(InvalidInstructionCtx { inst: 0x40, fn_id: 0, inst_off: 2 })
    );
    assert_eq!(stack, vec![1]);
}

#[test]
fn branches_move_by_instructions() {
    assert_eq!(stack_after(vec![Br(1), Push(1), Push(2)]), vec![2]);
    assert_eq!(stack_after(vec![Br(0), Push(1)]), vec![1]);
    assert_eq!(stack_after(vec![Push(0), BrFalse(1), Push(7), Push(9)]), vec![9]);
    assert_eq!(stack_after(vec![Push(5), BrFalse(1), Push(7), Push(9)]), vec![7, 9]);
    // a branch to the end of the function is within bounds
    let (e, stack, _) = outcome(vec![Push(1), Br(1), Push(2)], "");
    assert_eq!(e, Error::ControlReachesEnd(0));
    assert_eq!(stack, vec![1]);
}

#[test]
fn backward_branch_loops() {
    // counts the top slot down from 3 to 0
    let ins = vec![
        Push(3),
        Dup,
        BrFalse(3),
        Push((-1i64) as u64),
        AddI,
        Br(-5),
        Panic,
    ];
    let (e, stack, _) = outcome(ins, "");
    assert_eq!(e, Error::Halt);
    assert_eq!(stack, vec![0]);
}

#[test]
fn branch_out_of_bounds_changes_nothing() {
    let s0 = program(vec![func(0, 0, 0, vec![Push(1), Br(2), Nop])]);
    let mut vm = R0Vm::new(&s0, vec![]).unwrap();
    assert_eq!(vm.run_to_end(10), Err(Error::InvalidInstructionOffset));
    assert_eq!(vm.stack(), &vec![1]);
    assert_eq!(vm.ip(), 2);

    let (e, stack, _) = outcome(vec![Push(1), Br(-3)], "");
    assert_eq!(e, Error::InvalidInstructionOffset);
    assert_eq!(stack, vec![1]);
    assert_eq!(outcome(vec![Br(i32::MIN)], "").0, Error::InvalidInstructionOffset);
    assert_eq!(outcome(vec![Br(i32::MAX)], "").0, Error::InvalidInstructionOffset);

    // a conditional branch loses its condition and nothing else
    let s0 = program(vec![func(0, 0, 0, vec![Push(8), Push(1), BrTrue(5)])]);
    let mut vm = R0Vm::new(&s0, vec![]).unwrap();
    assert_eq!(vm.run_to_end(10), Err(Error::InvalidInstructionOffset));
    assert_eq!(vm.stack(), &vec![8]);
    assert_eq!(vm.ip(), 3);
    // and is no error where it is not taken
    assert_eq!(stack_after(vec![Push(8), Push(0), BrTrue(5)]), vec![8]);
    assert_eq!(stack_after(vec![Push(8), Push(1), BrFalse(-9)]), vec![8]);
}

#[test]
fn call_builds_a_frame_and_ret_takes_it_down() {
    let main = func(0, 1, 0, vec![Push(9), Push(5), Push(7), Call(1), Nop]);
    let callee = func(2, 2, 0, vec![Push(1), Ret]);
    let s0 = program(vec![main, callee]);
    let mut vm = R0Vm::new(&s0, vec![]).unwrap();
    assert_eq!(vm.bp(), 1);
    assert_eq!(vm.run_to_end(4), Ok(None));
    // local of main, operand, two arguments, two locals, saved bp, ip, fn_id
    assert_eq!(vm.stack(), &vec![0, 9, 5, 7, 0, 0, 1, 4, 0]);
    assert_eq!((vm.fn_id(), vm.ip(), vm.bp()), (1, 0, 6));
    assert_eq!(vm.floor(), 9);
    assert_eq!(vm.run_to_end(2), Ok(None));
    assert_eq!(vm.stack(), &vec![0, 9]);
    assert_eq!((vm.fn_id(), vm.ip(), vm.bp()), (0, 4, 1));
}

#[test]
fn call_and_return_at_once_lose_the_arguments_only() {
    for (params, locals) in [(0u32, 0u32), (2, 0), (0, 3), (2, 5)] {
        let mut ins = vec![Push(1), Push(2), Push(3)];
        ins.push(Call(1));
        let s0 = program(vec![func(0, 0, 0, ins), func(params, locals, 0, vec![Ret])]);
        let mut vm = R0Vm::new(&s0, vec![]).unwrap();
        assert_eq!(vm.run_to_end(3), Ok(None));
        let before = (vm.fn_id(), vm.ip() + 1, vm.bp(), vm.stack().clone());
        assert_eq!(vm.run_to_end(2), Ok(None));
        assert_eq!((vm.fn_id(), vm.ip(), vm.bp()), (before.0, before.1, before.2));
        assert_eq!(vm.stack()[..], before.3[..3 - params as usize]);
    }
}

#[test]
fn call_of_a_function_that_is_not_there() {
    let (e, stack, _) = outcome(vec![Push(1), Call(1)], "");
    assert_eq!(e, Error::InvalidFnId(1));
    assert_eq!(stack, vec![1]);
    assert_eq!(outcome(vec![Call(u32::MAX)], "").0, Error::InvalidFnId(u32::MAX));
}

#[test]
fn call_without_its_arguments_underflows() {
    let s0 = program(vec![func(0, 0, 0, vec![Push(1), Call(1)]), func(2, 0, 0, vec![Ret])]);
    let mut vm = R0Vm::new(&s0, vec![]).unwrap();
    assert_eq!(vm.run_to_end(10), Err(Error::StackUnderflow));
    assert_eq!(vm.stack(), &vec![1]);
    assert_eq!(vm.fn_id(), 0);
}

#[test]
fn call_that_does_not_fit_overflows() {
    let s0 = program(vec![func(0, 0, 0, vec![Call(1)]), func(0, 2, 0, vec![Ret])]);
    let mut vm = R0Vm::with_stack_limit(&s0, vec![], 4).unwrap();
    assert_eq!(vm.run_to_end(10), Err(Error::StackOverflow));
    assert_eq!(vm.fn_id(), 0);
    let mut vm = R0Vm::with_stack_limit(&s0, vec![], 5).unwrap();
    assert_eq!(vm.run_to_end(10), Err(Error::ControlReachesEnd(0)));
}

#[test]
fn call_by_name() {
    let mut s0 = program(vec![
        func(0, 0, 0, vec![CallName(1), Panic]),
        func(0, 0, 0, vec![Ret]),
        func(0, 0, 0, vec![Push(5), Pop, Ret]),
    ]);
    s0.names = vec![1, 2, 9];
    let mut vm = R0Vm::new(&s0, vec![]).unwrap();
    assert_eq!(vm.step(), Ok(None));
    assert_eq!(vm.fn_id(), 2);
    assert_eq!(vm.run_to_end(10), Err(Error::Halt));

    s0.functions[0].ins = vec![CallName(3)];
    let mut vm = R0Vm::new(&s0, vec![]).unwrap();
    assert_eq!(vm.step(), Err(Error::InvalidFnId(3)));
    s0.functions[0].ins = vec![CallName(2)];
    let mut vm = R0Vm::new(&s0, vec![]).unwrap();
    assert_eq!(vm.step(), Err(Error::InvalidFnId(9)));
}

#[test]
fn ret_from_the_start_function_halts_and_keeps_the_stack() {
    let (e, stack, _) = outcome(vec![Push(1), Push(2), Ret], "");
    assert_eq!(e, Error::Halt);
    assert_eq!(stack, vec![1, 2]);
}

#[test]
fn ret_checks_what_it_restores() {
    // The callee overwrites the saved function id.
    let clobber = |slot: u32, val: u64| {
        vec![LocA(0), Push(8 * (1 + slot as u64)), Push(0), Pop, AddI, Push(val), Store64, Ret]
    };
    let run_with = |callee: Vec<Op>| {
        let s0 = program(vec![func(0, 0, 0, vec![Call(1), Panic]), func(0, 1, 0, callee)]);
        let mut vm = R0Vm::new(&s0, vec![]).unwrap();
        let e = vm.run_to_end(100).unwrap_err();
        (e, vm.fn_id())
    };
    assert_eq!(run_with(vec![Ret]), (Error::Halt, 0));
    assert_eq!(run_with(clobber(2, 7)), (Error::InvalidFnId(7), 1));
    assert_eq!(run_with(clobber(2, (1 << 32) + 1)), (Error::InvalidFnId(1), 1));
    assert_eq!(run_with(clobber(1, 3)), (Error::InvalidInstructionOffset, 1));
    assert_eq!(run_with(clobber(0, 1)), (Error::StackUnderflow, 1));
}

#[test]
fn locals_and_arguments_have_addresses_on_the_stack() {
    let main = func(0, 2, 0, vec![LocA(0), LocA(1), Push(5), Push(6), Call(1)]);
    let callee = func(2, 1, 0, vec![ArgA(0), ArgA(1), LocA(0), Panic]);
    let s0 = program(vec![main, callee]);
    let mut vm = R0Vm::new(&s0, vec![]).unwrap();
    assert_eq!(vm.run_to_end(100), Err(Error::Halt));
    let stack = vm.stack().clone();
    assert_eq!(stack[2], STACK_START);
    assert_eq!(stack[3], STACK_START + 8);
    let n = stack.len();
    assert_eq!(stack[n - 3], STACK_START + 8 * 4);
    assert_eq!(stack[n - 2], STACK_START + 8 * 5);
    assert_eq!(stack[n - 1], STACK_START + 8 * 6);

    assert_eq!(outcome(vec![LocA(0)], "").0, Error::InvalidLocalIndex(0));
    assert_eq!(outcome(vec![ArgA(3)], "").0, Error::InvalidLocalIndex(3));
    let s0 = program(vec![func(0, 2, 0, vec![LocA(2)])]);
    let mut vm = R0Vm::new(&s0, vec![]).unwrap();
    assert_eq!(vm.step(), Err(Error::InvalidLocalIndex(2)));
}

#[test]
fn locals_are_read_and_written_through_their_addresses() {
    let s0 = program(vec![func(
        0,
        2,
        0,
        vec![LocA(1), Push(0xabcd), Store64, LocA(1), Load64, LocA(0), Load64],
    )]);
    let mut vm = R0Vm::new(&s0, vec![]).unwrap();
    assert_eq!(vm.run_to_end(100), Err(Error::ControlReachesEnd(0)));
    assert_eq!(vm.stack(), &vec![0, 0xabcd, 0xabcd, 0]);
}

#[test]
fn loads_and_stores_of_each_width() {
    let pre = vec![Push(8), Alloc, Dup, Push(0x1122_3344_5566_7788), Store64];
    let read = |width_op: Op, off: u64| {
        let mut ins = pre.clone();
        ins.extend(vec![Push(off), AddI, width_op]);
        *stack_after(ins).last().unwrap()
    };
    assert_eq!(read(Load64, 0), 0x1122_3344_5566_7788);
    assert_eq!(read(Load32, 0), 0x5566_7788);
    assert_eq!(read(Load32, 4), 0x1122_3344);
    assert_eq!(read(Load16, 0), 0x7788);
    assert_eq!(read(Load16, 6), 0x1122);
    assert_eq!(read(Load8, 0), 0x88);
    assert_eq!(read(Load8, 1), 0x77);
    assert_eq!(read(Load8, 7), 0x11);

    let write = |width_op: Op, off: u64, val: u64| {
        let mut ins = pre.clone();
        ins.extend(vec![Dup, Push(off), AddI, Push(val), width_op, Load64]);
        *stack_after(ins).last().unwrap()
    };
    assert_eq!(write(Store8, 0, 0xfff0), 0x1122_3344_5566_77f0);
    assert_eq!(write(Store8, 7, 0xab), 0xab22_3344_5566_7788);
    assert_eq!(write(Store16, 2, 0xdead_beef), 0x1122_3344_beef_7788);
    assert_eq!(write(Store32, 4, 0x1_0000_0002), 0x0000_0002_5566_7788);
    assert_eq!(write(Store64, 0, 5), 5);
}

#[test]
fn unaligned_access() {
    let at = |op: Op, off: u64| {
        outcome(vec![Push(16), Alloc, Push(off), AddI, op], "").0
    };
    assert_eq!(at(Load64, 4), Error::UnalignedAccess(HEAP_START + 4));
    assert_eq!(at(Load32, 2), Error::UnalignedAccess(HEAP_START + 2));
    assert_eq!(at(Load16, 1), Error::UnalignedAccess(HEAP_START + 1));
    assert_eq!(at(Load8, 1), Error::ControlReachesEnd(0));
    assert_eq!(at(Load64, 8), Error::ControlReachesEnd(0));
    let (e, _, _) = outcome(vec![Push(16), Alloc, Push(1), AddI, Push(9), Store32], "");
    assert_eq!(e, Error::UnalignedAccess(HEAP_START + 1));
}

#[test]
fn invalid_address() {
    assert_eq!(outcome(vec![Push(0), Load8], "").0, Error::InvalidAddress(0));
    assert_eq!(outcome(vec![Push(8), Load64], "").0, Error::InvalidAddress(8));
    assert_eq!(outcome(vec![Push(HEAP_START), Load8], "").0, Error::InvalidAddress(HEAP_START));
    assert_eq!(outcome(vec![Push(GLOBAL_START), Load8], "").0, Error::InvalidAddress(GLOBAL_START));
    // behind the end of the block, and across it
    let at = |op: Op, off: u64| outcome(vec![Push(12), Alloc, Push(off), AddI, op], "").0;
    assert_eq!(at(Load8, 11), Error::ControlReachesEnd(0));
    assert_eq!(at(Load8, 12), Error::InvalidAddress(HEAP_START + 12));
    assert_eq!(at(Load32, 8), Error::ControlReachesEnd(0));
    assert_eq!(at(Load64, 8), Error::InvalidAddress(HEAP_START + 8));
    assert_eq!(at(Load64, 9), Error::InvalidAddress(HEAP_START + 9));
    // behind the top of the stack
    let (e, _, _) = outcome(vec![Push(STACK_START + 8), Load64], "");
    assert_eq!(e, Error::InvalidAddress(STACK_START + 8));
    let (e, _, _) = outcome(vec![Push(1), Push(STACK_START), Load64], "");
    assert_eq!(e, Error::ControlReachesEnd(0));
}

#[test]
fn allocation() {
    let stack = stack_after(vec![Push(8), Alloc, Push(0), Alloc, Push(1), Alloc]);
    assert_eq!(stack, vec![HEAP_START, HEAP_START + (1 << 32), HEAP_START + (2 << 32)]);
    // a fresh block is zero
    assert_eq!(stack_after(vec![Push(16), Alloc, Push(8), AddI, Load64]), vec![0]);
    // an empty block has an address and no byte
    let (e, _, _) = outcome(vec![Push(0), Alloc, Load8], "");
    assert_eq!(e, Error::InvalidAddress(HEAP_START));
    assert_eq!(stack_after(vec![Push(0), Alloc, Free]), vec![]);
}

#[test]
fn out_of_memory() {
    let (e, stack, _) = outcome(vec![Push(7), Push(0x4000_0001), Alloc], "");
    assert_eq!(e, Error::OutOfMemory);
    assert_eq!(stack, vec![7]);
    assert_eq!(outcome(vec![Push(u64::MAX), Alloc], "").0, Error::OutOfMemory);
}

#[test]
fn freed_memory_is_gone() {
    let pre = vec![Push(16), Alloc, Dup, Free];
    for off in 0..16u64 {
        for op in [Load8, Load16, Load32, Load64] {
            let mut ins = pre.clone();
            ins.extend(vec![Push(off), AddI, op]);
            assert_eq!(outcome(ins, "").0, Error::InvalidAddress(HEAP_START + off));
        }
        for op in [Store8, Store16, Store32, Store64] {
            let mut ins = pre.clone();
            ins.extend(vec![Push(off), AddI, Push(1), op]);
            assert_eq!(outcome(ins, "").0, Error::InvalidAddress(HEAP_START + off));
        }
    }
    // and stays gone when more is allocated
    let mut ins = pre.clone();
    ins.extend(vec![Push(16), Alloc, Pop, Load64]);
    assert_eq!(outcome(ins, "").0, Error::InvalidAddress(HEAP_START));
}

#[test]
fn free_wants_the_start_of_a_live_block() {
    assert_eq!(outcome(vec![Push(16), Alloc, Dup, Free, Free], "").0, Error::InvalidAddress(HEAP_START));
    assert_eq!(
        outcome(vec![Push(16), Alloc, Push(8), AddI, Free], "").0,
        Error::InvalidAddress(HEAP_START + 8)
    );
    assert_eq!(outcome(vec![Push(0), Free], "").0, Error::InvalidAddress(0));
    assert_eq!(outcome(vec![Push(STACK_START), Free], "").0, Error::InvalidAddress(STACK_START));
    assert_eq!(outcome(vec![Push(HEAP_START), Free], "").0, Error::InvalidAddress(HEAP_START));
    assert_eq!(outcome(vec![Free], "").0, Error::StackUnderflow);
}

fn with_globals(globals: Vec<GlobalValue>, ins: Vec<Op>) -> (Error, Vec<u64>, String) {
    let s0 = S0::new(globals, vec![func(0, 0, 0, ins)]);
    let mut vm = R0Vm::new(&s0, vec![]).unwrap();
    let e = run(&mut vm);
    let out = String::from_utf8(vm.take_output()).unwrap();
    (e, vm.stack().clone(), out)
}

#[test]
fn globals_hold_their_initial_bytes() {
    let globals = || {
        vec![
            GlobalValue { is_const: false, bytes: vec![1, 2, 3, 4, 5, 6, 7, 8, 9, 10] },
            GlobalValue { is_const: true, bytes: b"hi!".to_vec() },
        ]
    };
    let (_, stack, _) = with_globals(globals(), vec![GlobA(0), GlobA(1)]);
    assert_eq!(stack, vec![GLOBAL_START, GLOBAL_START + (1 << 32)]);
    let (_, stack, _) = with_globals(globals(), vec![GlobA(0), Load64]);
    assert_eq!(stack, vec![0x0807_0605_0403_0201]);
    let (_, stack, _) = with_globals(globals(), vec![GlobA(0), Push(8), AddI, Load16]);
    assert_eq!(stack, vec![0x0a09]);
    for (k, b) in [1u64, 2, 3, 4, 5, 6, 7, 8, 9, 10].iter().enumerate() {
        let (_, stack, _) = with_globals(globals(), vec![GlobA(0), Push(k as u64), AddI, Load8]);
        assert_eq!(stack, vec![*b]);
    }
    let (e, _, _) = with_globals(globals(), vec![GlobA(0), Push(8), AddI, Load32]);
    assert_eq!(e, Error::InvalidAddress(GLOBAL_START + 8));
    let (e, _, _) = with_globals(globals(), vec![GlobA(2)]);
    assert_eq!(e, Error::InvalidGlobalIndex(2));
    assert_eq!(outcome(vec![GlobA(0)], "").0, Error::InvalidGlobalIndex(0));
}

#[test]
fn constant_globals_refuse_stores() {
    let globals = || {
        vec![
            GlobalValue { is_const: false, bytes: vec![0; 8] },
            GlobalValue { is_const: true, bytes: vec![7; 8] },
        ]
    };
    let (e, stack, _) =
        with_globals(globals(), vec![GlobA(0), Push(5), Store64, GlobA(0), Load64]);
    assert_eq!(e, Error::ControlReachesEnd(0));
    assert_eq!(stack, vec![5]);
    let (e, _, _) = with_globals(globals(), vec![GlobA(1), Push(5), Store64]);
    assert_eq!(e, Error::InvalidAddress(GLOBAL_START + (1 << 32)));
    let (_, stack, _) = with_globals(globals(), vec![GlobA(1), Load8]);
    assert_eq!(stack, vec![7]);
}

#[test]
fn print_integers_and_characters() {
    let (_, _, out) = outcome(
        vec![
            Push(42),
            PrintI,
            PrintLn,
            Push((-17i64) as u64),
            PrintI,
            Push(b' ' as u64),
            PrintC,
            Push(0),
            PrintI,
            Push(0x141),
            PrintC,
            Push(i64::MIN as u64),
            PrintI,
            Push(i64::MAX as u64),
            PrintI,
        ],
        "",
    );
    assert_eq!(out, format!("42\r\n-17 0A{}{}", i64::MIN, i64::MAX));
    for b in [0u8, 10, 65, 127, 128, 0xe9, 0xff] {
        let (_, _, out) = outcome(vec![Push(0xab00 + b as u64), PrintC], "");
        assert_eq!(out, format!("{}", b as char));
    }
    for v in [1i64, -1, 9, 10, 99, 100, -100, 1234567890123] {
        let (_, _, out) = outcome(vec![Push(v as u64), PrintI], "");
        assert_eq!(out, format!("{}", v));
    }
    assert_eq!(outcome(vec![PrintI], "").0, Error::StackUnderflow);
}

#[test]
fn print_doubles_through_the_embedder() {
    let (_, stack, out) = outcome(vec![Push(bits(1.5)), PrintF, Push(bits(-2.0 / 3.0)), PrintF], "");
    assert_eq!(out, "1.500000-0.666667");
    assert_eq!(stack, vec![]);
    let s0 = program(vec![func(0, 0, 0, vec![Push(9), PrintF])]);
    let mut vm = R0Vm::new(&s0, vec![]).unwrap();
    vm.step().unwrap();
    assert_eq!(vm.step(), Ok(Some(FloatTask::Print(9))));
    assert_eq!(vm.stack().len(), 0);
}

#[test]
fn print_a_string_from_memory() {
    let globals = vec![GlobalValue { is_const: true, bytes: b"hello, world".to_vec() }];
    let (e, stack, out) = with_globals(globals, vec![Push(5), GlobA(0), PrintS, Push(1)]);
    assert_eq!(e, Error::ControlReachesEnd(0));
    assert_eq!(out, "hello");
    assert_eq!(stack, vec![1]);
    // the bytes in front of a byte that cannot be read are written
    let globals = vec![GlobalValue { is_const: true, bytes: b"abc".to_vec() }];
    let (e, _, out) = with_globals(globals, vec![Push(5), GlobA(0), PrintS]);
    assert_eq!(e, Error::InvalidAddress(GLOBAL_START + 3));
    assert_eq!(out, "abc");
    let (e, _, out) = outcome(vec![Push(0), Push(0), PrintS], "");
    assert_eq!(e, Error::ControlReachesEnd(0));
    assert_eq!(out, "");
}

#[test]
fn scan_characters() {
    let (e, stack, _) = outcome(vec![ScanC, ScanC, ScanC, ScanC], "a \n");
    assert_eq!(e, Error::IoError);
    assert_eq!(stack, vec![97, 32, 10]);
    assert_eq!(outcome(vec![ScanC], "").0, Error::IoError);
}

#[test]
fn scan_integers() {
    let (e, stack, _) = outcome(vec![ScanI, ScanI, ScanI, ScanI, ScanC], "  12\t-7\r\n+5 0 x");
    assert_eq!(e, Error::ControlReachesEnd(0));
    assert_eq!(stack, vec![12, (-7i64) as u64, 5, 0, b'x' as u64]);
    let scan = |input: &str| outcome(vec![ScanI], input);
    assert_eq!(scan("9223372036854775807").1, vec![i64::MAX as u64]);
    assert_eq!(scan("-9223372036854775808").1, vec![i64::MIN as u64]);
    assert_eq!(scan("007").1, vec![7]);
    assert_eq!(scan("-0").1, vec![0]);
    for bad in [
        "", "   ", "-", "+", "abc", "12a", "1.5", "--1", "+-1", "9223372036854775808",
        "-9223372036854775809", "18446744073709551616", "99999999999999999999999", "1_0",
    ] {
        let (e, stack, _) = scan(bad);
        assert_eq!(e, Error::ParseError, "{:?}", bad);
        assert_eq!(stack, vec![]);
    }
    // a token that does not parse is used up all the same
    let (e, stack, _) = outcome(vec![ScanI, Pop, ScanI], "x 5");
    assert_eq!(e, Error::ParseError);
    assert_eq!(stack, vec![]);
    let s0 = program(vec![func(0, 0, 0, vec![ScanI, ScanI])]);
    let mut vm = R0Vm::new(&s0, b"x 5".to_vec()).unwrap();
    assert_eq!(vm.step(), Err(Error::ParseError));
    assert_eq!(vm.input_left(), 1);
    assert_eq!(vm.step(), Ok(None));
    assert_eq!(vm.stack(), &vec![5]);
}

#[test]
fn scan_integers_as_the_scanner_crate_reads_them() {
    for input in [
        "12 13", "  -5\n", "+7", "abc 1", "", " ", "\t\r\n 42\r\nrest", "1.5 2", "-",
        "9223372036854775807 1", "9223372036854775808 1", "-9223372036854775808", "007", "١٢",
    ] {
        let mut it = input.bytes();
        let want: Result<i64, text_io::Error> = text_io::parse_capture("x", None, &mut it);
        let left: Vec<u8> = it.collect();
        let s0 = program(vec![func(0, 0, 0, vec![ScanI])]);
        let mut vm = R0Vm::new(&s0, input.as_bytes().to_vec()).unwrap();
        let got = vm.step();
        match want {
            Ok(v) => {
                assert_eq!(got, Ok(None), "{:?}", input);
                assert_eq!(vm.stack(), &vec![v as u64]);
            }
            Err(_) => assert_eq!(got, Err(Error::ParseError), "{:?}", input),
        }
        assert_eq!(vm.input_left(), left.len(), "{:?}", input);
    }
}

#[test]
fn scan_doubles_through_the_embedder() {
    let (e, stack, _) = outcome(vec![ScanF, ScanF, ScanC, ScanF], " 1.5 -2e3\nx y");
    assert_eq!(e, Error::ParseError);
    assert_eq!(stack, vec![bits(1.5), bits(-2000.0), b'x' as u64]);
    let s0 = program(vec![func(0, 0, 0, vec![ScanF])]);
    let mut vm = R0Vm::new(&s0, b" 2.5 rest".to_vec()).unwrap();
    assert_eq!(vm.step(), Ok(Some(FloatTask::Scan)));
    assert_eq!(vm.input_left(), 9);
    assert_eq!(vm.read_token(), b"2.5".to_vec());
    assert_eq!(vm.input_left(), 4);
    assert_eq!(vm.read_token(), b"rest".to_vec());
    assert_eq!(vm.read_token(), b"".to_vec());
    assert_eq!(vm.input_left(), 0);
}

#[test]
fn input_can_be_fed_while_the_machine_runs() {
    let s0 = program(vec![func(0, 0, 0, vec![ScanI, ScanI, AddI, PrintI])]);
    let mut vm = R0Vm::new(&s0, b"4 ".to_vec()).unwrap();
    assert_eq!(vm.next_op(), Some(ScanI));
    assert_eq!(vm.step(), Ok(None));
    assert_eq!(vm.input_left(), 0);
    vm.feed_input(&b"38\n".to_vec());
    assert_eq!(vm.input_left(), 3);
    assert_eq!(vm.run_to_end(10), Err(Error::ControlReachesEnd(0)));
    assert_eq!(vm.next_op(), None);
    assert_eq!(vm.take_output(), b"42".to_vec());
    assert_eq!(vm.take_output(), b"".to_vec());
    vm.write_output(&b"x".to_vec());
    assert_eq!(vm.take_output(), b"x".to_vec());
}

#[test]
fn a_run_stops_when_its_steps_are_used_up() {
    let s0 = program(vec![func(0, 0, 0, vec![Push(1), Br(-2)])]);
    let mut vm = R0Vm::with_stack_limit(&s0, vec![], 8).unwrap();
    assert_eq!(vm.run_to_end(0), Ok(None));
    assert_eq!(vm.stack().len(), 0);
    assert_eq!(vm.run_to_end(5), Ok(None));
    assert_eq!(vm.stack(), &vec![1, 1, 1]);
    assert_eq!(vm.run_to_end(1000), Err(Error::StackOverflow));
    assert_eq!(vm.stack().len(), 8);
}

#[test]
fn a_run_stops_for_the_embedder() {
    let s0 = program(vec![func(0, 0, 0, vec![Push(bits(1.0)), Push(bits(2.0)), AddF, Panic])]);
    let mut vm = R0Vm::new(&s0, vec![]).unwrap();
    let task = vm.run_to_end(100);
    assert_eq!(task, Ok(Some(FloatTask::Add { lhs: bits(2.0), rhs: bits(1.0) })));
    finish(&mut vm, task.unwrap().unwrap()).unwrap();
    assert_eq!(vm.run_to_end(100), Err(Error::Halt));
    assert_eq!(vm.stack(), &vec![bits(3.0)]);
}

#[test]
fn single_handlers_can_be_called() {
    let s0 = program(vec![func(0, 0, 0, vec![])]);
    let mut vm = R0Vm::new(&s0, vec![]).unwrap();
    vm.push(6).unwrap();
    vm.push(7).unwrap();
    assert_eq!(vm.pop2(), Ok((7, 6)));
    vm.push((-2i64) as u64).unwrap();
    vm.push(3).unwrap();
    assert_eq!(vm.pop2i(), Ok((3, -2)));
    vm.push(5).unwrap();
    vm.push(4).unwrap();
    vm.mul_i().unwrap();
    assert_eq!(vm.pop(), Ok(20));
    assert_eq!(vm.pop(), Err(Error::StackUnderflow));
    assert_eq!(vm.halt(), Err(Error::Halt));
    vm.push(0).unwrap();
    vm.push(0).unwrap();
    vm.bl(3).unwrap();
    vm.bg(3).unwrap();
    assert_eq!(vm.ip(), 0);
    vm.push(0).unwrap();
    assert_eq!(vm.blz(1), Err(Error::InvalidInstructionOffset));
    vm.push(u64::MAX).unwrap();
    assert_eq!(vm.bgz(1), Ok(()));
    vm.push(u64::MAX).unwrap();
    assert_eq!(vm.bl(0), Ok(()));
    vm.push(1).unwrap();
    assert_eq!(vm.bg(1), Err(Error::InvalidInstructionOffset));
    vm.push(0).unwrap();
    assert_eq!(vm.bgz(-1), Err(Error::InvalidInstructionOffset));
    assert_eq!(vm.br_a(0), Err(Error::InvalidInstruction(InvalidInstructionCtx { inst: 0x40, fn_id: 0, inst_off: 0 })));
    assert!(vm.get_fn_by_id(0).is_ok());
    assert!(matches!(vm.get_fn_by_id(1), Err(Error::InvalidFnId(1))));
}

#[test]
fn slots_carry_any_bit_pattern_unchanged() {
    let patterns = [
        0u64,
        1,
        u64::MAX,
        1 << 63,
        bits(0.4),
        bits(-0.0),
        bits(f64::NAN),
        bits(f64::INFINITY),
        0x7ff0_0000_0000_0001,
        0xfff8_dead_beef_0001,
        0x7ff4_0000_0000_0000,
    ];
    for &x in patterns.iter() {
        assert_eq!(stack_after(vec![Push(x), Dup, Pop]), vec![x]);
        assert_eq!(
            stack_after(vec![Push(8), Alloc, Dup, Push(x), Store64, Load64]),
            vec![x]
        );
        assert_eq!(stack_after(vec![Push(x), NegF, NegF]), vec![x]);
        assert_eq!(stack_after(vec![Push(x), NegI, NegI]), vec![x]);
        assert_eq!(x as i64 as u64, x);
    }
}

#[test]
fn reserved_handler_without_an_opcode_is_refused() {
    let s0 = program(vec![func(0, 0, 0, vec![Push(1), Nop])]);
    let mut vm = R0Vm::new(&s0, vec![]).unwrap();
    assert_eq!(
        vm._adc_i(),
        Err(Error::InvalidInstruction(InvalidInstructionCtx { inst: 0, fn_id: 0, inst_off: 0 }))
    );
    vm.step().unwrap();
    assert_eq!(
        vm._adc_i(),
        Err(Error::InvalidInstruction(InvalidInstructionCtx { inst: 0x01, fn_id: 0, inst_off: 0 }))
    );
    vm.step().unwrap();
    assert_eq!(
        vm._adc_i(),
        Err(Error::InvalidInstruction(InvalidInstructionCtx { inst: 0x00, fn_id: 0, inst_off: 1 }))
    );
    assert_eq!(vm.stack(), &vec![1]);
}

#[test]
fn a_token_is_ready_when_white_space_ends_it() {
    let s0 = program(vec![func(0, 0, 0, vec![ScanI])]);
    let mut vm = R0Vm::new(&s0, vec![]).unwrap();
    assert!(!vm.token_ready());
    for (fed, ready) in [(" ", false), ("\n", false), ("1", false), ("2", false), (" ", true), ("x", true)] {
        vm.feed_input(&fed.as_bytes().to_vec());
        assert_eq!(vm.token_ready(), ready, "{:?}", fed);
    }
    assert_eq!(vm.step(), Ok(None));
    assert_eq!(vm.stack(), &vec![12]);
    assert!(!vm.token_ready());
    assert_eq!(vm.input_left(), 1);
}
