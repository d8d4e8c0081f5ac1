//! The program that the machine runs, as it stands in memory.

use crate::opcodes::Op;
use vstd::prelude::*;

verus! {

/// A global variable: its initial bytes, whose number is its size.
pub struct GlobalValue {
    /// Whether stores to it are refused.
    pub is_const: bool,
    /// The bytes it holds when the run starts.
    pub bytes: Vec<u8>,
}

/// A function. All sizes are counted in 64-bit slots.
pub struct FnDef {
    /// The deepest operand stack that the function declares.
    pub max_stack: u32,
    /// The slots its arguments take.
    pub param_slots: u32,
    /// The slots its locals take.
    pub loc_slots: u32,
    /// The slots its result takes.
    pub ret_slots: u32,
    /// Its instructions.
    pub ins: Vec<Op>,
}

/// A program. Function 0 is where a run starts.
pub struct S0 {
    /// The globals, by index.
    pub globals: Vec<GlobalValue>,
    /// The functions, by id.
    pub functions: Vec<FnDef>,
    /// The name table: entry `i` is the id of the function that name `i`
    /// resolves to.
    pub names: Vec<u32>,
}

impl S0 {
    /// A program of the given globals and functions, with no name resolved.
    pub fn new(globals: Vec<GlobalValue>, functions: Vec<FnDef>) -> (s0: S0)
        ensures
            s0.globals == globals,
            s0.functions == functions,
            s0.names@ == Seq::<u32>::empty(),
    {
        S0 { globals, functions, names: Vec::new() }
    }
}

} // verus!
