//! The instruction set that the register-machine interpreter runs, and the
//! compiled form of a program.

use vstd::prelude::*;

verus! {

/// One instruction. Operands are indices of value slots in the current frame.
pub enum Insc {
    MakeIntConst { c: i64, dest_value: usize },
    IntAdd { lhs_value: usize, rhs_value: usize, dest_value: usize },
    IntSub { lhs_value: usize, rhs_value: usize, dest_value: usize },
    IntEq { lhs_value: usize, rhs_value: usize, dest_value: usize },
    IntGt { lhs_value: usize, rhs_value: usize, dest_value: usize },
    Incr { value: usize },
    JumpIfTrue { cond_value: usize, jump_dest: usize },
    Jump { jump_dest: usize },
    FuncCall { func_id: usize, arg_values: Vec<usize>, ret_value_locs: Vec<usize> },
    FFICall { func_id: usize, arg_values: Vec<usize>, ret_value_locs: Vec<usize> },
    ReturnOne { ret_value: usize },
    ReturnMultiple { ret_values: Vec<usize> },
    ReturnNothing,
    UnreachableInsc,
}

/// Where a compiled function starts and how large its frame is.
#[derive(Copy, Clone)]
pub struct CompiledFuncInfo {
    pub start_addr: usize,
    pub arg_count: usize,
    pub ret_count: usize,
    pub stack_size: usize,
}

impl CompiledFuncInfo {
    pub fn new(start_addr: usize, arg_count: usize, ret_count: usize, stack_size: usize) -> (r: Self)
        ensures
            r.start_addr == start_addr,
            r.arg_count == arg_count,
            r.ret_count == ret_count,
            r.stack_size == stack_size,
    {
        CompiledFuncInfo { start_addr, arg_count, ret_count, stack_size }
    }
}

/// A compiled program: its instructions, its functions, and the native
/// functions that `FFICall` refers to by index.
pub struct CompiledProgram<F> {
    pub inscs: Vec<Insc>,
    pub funcs: Vec<CompiledFuncInfo>,
    pub ffi_funcs: Vec<F>,
}

impl<F> CompiledProgram<F> {
    pub fn new(inscs: Vec<Insc>, funcs: Vec<CompiledFuncInfo>, ffi_funcs: Vec<F>) -> (r: Self)
        ensures
            r.inscs@ == inscs@,
            r.funcs@ == funcs@,
            r.ffi_funcs@ == ffi_funcs@,
    {
        CompiledProgram { inscs, funcs, ffi_funcs }
    }
}

} // verus!
