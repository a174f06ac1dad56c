use t10::insc::{CompiledFuncInfo, CompiledProgram, Insc};

#[test]
fn print_insc_size() {
    println!("std::mem::size_of::<t10::insc::Insc>() = {}", std::mem::size_of::<Insc>())
}

#[test]
fn compiled_program_keeps_its_parts() {
    let f = CompiledFuncInfo::new(3, 2, 1, 8);
    assert_eq!(f.start_addr, 3);
    assert_eq!(f.arg_count, 2);
    assert_eq!(f.ret_count, 1);
    assert_eq!(f.stack_size, 8);
    let inscs = vec![
        Insc::MakeIntConst { c: 7, dest_value: 0 },
        Insc::Incr { value: 0 },
        Insc::ReturnOne { ret_value: 0 },
    ];
    let p: CompiledProgram<u32> = CompiledProgram::new(inscs, vec![f], vec![11, 12]);
    assert_eq!(p.inscs.len(), 3);
    assert!(matches!(p.inscs[1], Insc::Incr { value: 0 }));
    assert_eq!(p.funcs[0].stack_size, 8);
    assert_eq!(p.ffi_funcs, vec![11, 12]);
}
