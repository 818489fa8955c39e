//! Tests of the execution cursor against small concrete programs.

use lam_emu::{
    CursorError, FnCall, FunctionEntry, Instruction, InstructionPointer, LabelEntry, Module,
    Program, MFA,
};

fn op(code: u64) -> Instruction {
    Instruction::Op(code)
}

/// Two modules:
///   "main": f/0 -> label 0 [Op 10, Op 11, Op 12]
///           g/1 -> label 2 [Op 30, Op 31]
///           label 1 [Op 20, Op 21]
///   "lib":  h/0 -> label 0 [Op 40, Op 41]
fn demo_program() -> Program {
    Program {
        modules: vec![
            Module {
                name: "main".to_string(),
                functions: vec![
                    FunctionEntry { function: "f".to_string(), arity: 0, label: 0 },
                    FunctionEntry { function: "g".to_string(), arity: 1, label: 2 },
                ],
                labels: vec![
                    LabelEntry { instructions: vec![op(10), op(11), op(12)] },
                    LabelEntry { instructions: vec![op(20), op(21)] },
                    LabelEntry { instructions: vec![op(30), op(31)] },
                ],
            },
            Module {
                name: "lib".to_string(),
                functions: vec![FunctionEntry { function: "h".to_string(), arity: 0, label: 0 }],
                labels: vec![LabelEntry { instructions: vec![op(40), op(41)] }],
            },
        ],
    }
}

fn entry(module: &str, function: &str, arity: u32) -> MFA {
    MFA { module: module.to_string(), function: function.to_string(), arity }
}

fn assert_same_position(a: &InstructionPointer, b: &InstructionPointer) {
    assert_eq!(a.module(), b.module());
    assert_eq!(a.label(), b.label());
    assert_eq!(a.offset(), b.offset());
    assert_eq!(a.instr, b.instr);
    assert_eq!(a.depth(), b.depth());
}

#[test]
fn creation_correctness() {
    let p = demo_program();
    let c = InstructionPointer::new(&entry("main", "f", 0), &p).unwrap();
    assert_eq!(c.module(), "main");
    assert_eq!(c.label(), 0);
    assert_eq!(c.offset(), 0);
    assert_eq!(c.instr, op(10));
    assert_eq!(c.depth(), 0);
}

#[test]
fn creation_enters_the_bound_label() {
    let p = demo_program();
    let c = InstructionPointer::new(&entry("main", "g", 1), &p).unwrap();
    assert_eq!(c.label(), 2);
    assert_eq!(c.instr, op(30));
}

#[test]
fn creation_missing_module() {
    let p = demo_program();
    let r = InstructionPointer::new(&entry("nope", "f", 0), &p);
    assert!(matches!(r, Err(CursorError::ModuleNotFound { module }) if module == "nope"));
}

#[test]
fn creation_missing_function() {
    let p = demo_program();
    let r = InstructionPointer::new(&entry("main", "f", 2), &p);
    assert!(matches!(
        r,
        Err(CursorError::FunctionNotFound { module, function, arity })
            if module == "main" && function == "f" && arity == 2
    ));
}

#[test]
fn sequential_advance() {
    let p = demo_program();
    let mut c = InstructionPointer::new(&entry("lib", "h", 0), &p).unwrap();
    assert_eq!(c.instr, op(40));
    c.next(&p);
    assert_eq!(c.offset(), 1);
    assert_eq!(c.instr, op(41));
    c.next(&p);
    assert_eq!(c.instr, Instruction::Halt);
    assert_eq!(c.offset(), 1);
    assert_eq!(c.module(), "lib");
    assert_eq!(c.label(), 0);
}

#[test]
fn get_next_agrees_with_next() {
    let p = demo_program();
    let mut c = InstructionPointer::new(&entry("main", "f", 0), &p).unwrap();
    let stepped = c.get_next(&p);
    c.next(&p);
    assert_same_position(&stepped, &c);
}

#[test]
fn get_next_leaves_the_cursor_alone() {
    let p = demo_program();
    let c = InstructionPointer::new(&entry("main", "f", 0), &p).unwrap();
    let _ = c.get_next(&p);
    assert_eq!(c.offset(), 0);
    assert_eq!(c.instr, op(10));
}

#[test]
fn advance_falls_through_to_saved_position() {
    let p = demo_program();
    let mut c = InstructionPointer::new(&entry("main", "f", 0), &p).unwrap();
    c.call(&p, &FnCall::Named { module: Some("lib".to_string()), function: "h".to_string(), arity: 0 })
        .unwrap();
    assert_eq!(c.depth(), 1);
    c.next(&p);
    assert_eq!(c.instr, op(41));
    // falling off the end of the callee's code resumes the caller
    c.next(&p);
    assert_eq!(c.module(), "main");
    assert_eq!(c.label(), 0);
    assert_eq!(c.offset(), 1);
    assert_eq!(c.instr, op(11));
    assert_eq!(c.depth(), 0);
}

#[test]
fn call_local_round_trip() {
    let p = demo_program();
    let c = InstructionPointer::new(&entry("main", "f", 0), &p).unwrap();
    let stepped = c.get_next(&p);
    let mut c2 = c.clone();
    c2.call(&p, &FnCall::Local { label: 1 }).unwrap();
    assert_eq!(c2.module(), "main");
    assert_eq!(c2.label(), 1);
    assert_eq!(c2.offset(), 0);
    assert_eq!(c2.instr, op(20));
    assert_eq!(c2.depth(), 1);
    c2.return_to_last_instr().unwrap();
    assert_same_position(&c2, &stepped);
}

#[test]
fn call_named_default_module_round_trip() {
    let p = demo_program();
    let c = InstructionPointer::new(&entry("main", "f", 0), &p).unwrap();
    let stepped = c.get_next(&p);
    let mut c2 = c.clone();
    c2.call(&p, &FnCall::Named { module: None, function: "g".to_string(), arity: 1 }).unwrap();
    assert_eq!(c2.module(), "main");
    assert_eq!(c2.label(), 2);
    assert_eq!(c2.instr, op(30));
    assert_eq!(c2.depth(), 1);
    c2.return_to_last_instr().unwrap();
    assert_same_position(&c2, &stepped);
}

#[test]
fn call_named_other_module_round_trip() {
    let p = demo_program();
    let c = InstructionPointer::new(&entry("main", "f", 0), &p).unwrap();
    let stepped = c.get_next(&p);
    let mut c2 = c.clone();
    c2.call(&p, &FnCall::Named { module: Some("lib".to_string()), function: "h".to_string(), arity: 0 })
        .unwrap();
    assert_eq!(c2.module(), "lib");
    assert_eq!(c2.label(), 0);
    assert_eq!(c2.instr, op(40));
    assert_eq!(c2.depth(), 1);
    c2.return_to_last_instr().unwrap();
    assert_same_position(&c2, &stepped);
}

#[test]
fn call_missing_module_is_fatal() {
    let p = demo_program();
    let mut c = InstructionPointer::new(&entry("main", "f", 0), &p).unwrap();
    let before = c.clone();
    let r = c.call(
        &p,
        &FnCall::Named { module: Some("nope".to_string()), function: "h".to_string(), arity: 0 },
    );
    assert!(matches!(r, Err(CursorError::ModuleNotFound { module }) if module == "nope"));
    assert_same_position(&c, &before);
}

#[test]
fn call_missing_function_is_fatal() {
    let p = demo_program();
    let mut c = InstructionPointer::new(&entry("main", "f", 0), &p).unwrap();
    let before = c.clone();
    let r = c.call(&p, &FnCall::Named { module: None, function: "zz".to_string(), arity: 9 });
    assert!(matches!(
        r,
        Err(CursorError::FunctionNotFound { module, function, arity })
            if module == "main" && function == "zz" && arity == 9
    ));
    assert_same_position(&c, &before);
}

#[test]
fn jump_round_trip() {
    let p = demo_program();
    let c = InstructionPointer::new(&entry("main", "f", 0), &p).unwrap();
    let stepped = c.get_next(&p);
    let mut c2 = c.clone();
    c2.jump_to_label(&p, &1);
    assert_eq!(c2.module(), "main");
    assert_eq!(c2.label(), 1);
    assert_eq!(c2.offset(), 0);
    assert_eq!(c2.instr, op(20));
    assert_eq!(c2.depth(), 1);
    c2.return_to_last_instr().unwrap();
    assert_same_position(&c2, &stepped);
}

#[test]
fn jump_uses_current_module_call_uses_resumed() {
    let p = demo_program();
    // position the cursor at the last instruction of lib's code, with the
    // saved position back in main
    let mut start = InstructionPointer::new(&entry("main", "f", 0), &p).unwrap();
    start
        .call(&p, &FnCall::Named { module: Some("lib".to_string()), function: "h".to_string(), arity: 0 })
        .unwrap();
    start.next(&p);
    assert_eq!(start.module(), "lib");
    assert_eq!(start.offset(), 1);
    assert_eq!(start.depth(), 1);

    // a local call resolves its label in the module of the position that
    // will be resumed (main), since advancing pops the saved position first
    let mut c = start.clone();
    c.call(&p, &FnCall::Local { label: 1 }).unwrap();
    assert_eq!(c.module(), "main");
    assert_eq!(c.label(), 1);
    assert_eq!(c.instr, op(20));
    assert_eq!(c.depth(), 1);

    // a jump resolves its label in the current module (lib)
    let mut j = start.clone();
    j.jump_to_label(&p, &0);
    assert_eq!(j.module(), "lib");
    assert_eq!(j.label(), 0);
    assert_eq!(j.instr, op(40));
    assert_eq!(j.depth(), 1);
}

#[test]
fn nested_depth() {
    let p = demo_program();
    let mut c = InstructionPointer::new(&entry("main", "f", 0), &p).unwrap();
    assert_eq!(c.depth(), 0);
    c.call(&p, &FnCall::Local { label: 1 }).unwrap();
    assert_eq!(c.depth(), 1);
    c.jump_to_label(&p, &1);
    assert_eq!(c.depth(), 2);
    c.call(&p, &FnCall::Named { module: Some("lib".to_string()), function: "h".to_string(), arity: 0 })
        .unwrap();
    assert_eq!(c.depth(), 3);
    // exactly three returns empty the chain again
    c.return_to_last_instr().unwrap();
    assert_eq!(c.depth(), 2);
    c.return_to_last_instr().unwrap();
    assert_eq!(c.depth(), 1);
    c.return_to_last_instr().unwrap();
    assert_eq!(c.depth(), 0);
    // the cursor is back one step past the first call site; walking the
    // remaining top-level code off its end halts
    assert_eq!(c.module(), "main");
    assert_eq!(c.label(), 0);
    assert_eq!(c.offset(), 1);
    c.next(&p);
    assert_eq!(c.instr, op(12));
    c.next(&p);
    assert_eq!(c.instr, Instruction::Halt);
    assert_eq!(c.depth(), 0);
}

#[test]
fn nested_depth_drains_by_fall_through() {
    let p = demo_program();
    let mut c = InstructionPointer::new(&entry("lib", "h", 0), &p).unwrap();
    c.call(&p, &FnCall::Local { label: 0 }).unwrap();
    assert_eq!(c.depth(), 1);
    c.call(&p, &FnCall::Local { label: 0 }).unwrap();
    assert_eq!(c.depth(), 2);
    // each fall off the end of lib's code pops one saved position
    c.next(&p);
    c.next(&p);
    assert_eq!(c.depth(), 1);
    c.next(&p);
    assert_eq!(c.depth(), 0);
    // the last saved position was one step past the first call site
    assert_eq!(c.offset(), 1);
    assert_eq!(c.instr, op(41));
    c.next(&p);
    assert_eq!(c.instr, Instruction::Halt);
}

#[test]
fn call_at_label_end_saves_the_halt_signal() {
    let p = demo_program();
    let mut c = InstructionPointer::new(&entry("lib", "h", 0), &p).unwrap();
    c.next(&p);
    assert_eq!(c.offset(), 1);
    // calling from the last top-level instruction saves the completion
    // signal itself: the callee's fall-through lands on Halt
    c.call(&p, &FnCall::Local { label: 0 }).unwrap();
    assert_eq!(c.depth(), 1);
    c.next(&p);
    c.next(&p);
    assert_eq!(c.depth(), 0);
    assert_eq!(c.instr, Instruction::Halt);
    assert_eq!(c.offset(), 1);
}

#[test]
fn return_without_caller() {
    let p = demo_program();
    let mut c = InstructionPointer::new(&entry("main", "f", 0), &p).unwrap();
    let r = c.return_to_last_instr();
    assert!(matches!(r, Err(CursorError::ReturnWithoutCaller)));
    assert_eq!(c.offset(), 0);
    assert_eq!(c.instr, op(10));
}

#[test]
fn halt_is_idempotent() {
    let p = demo_program();
    let mut c = InstructionPointer::new(&entry("lib", "h", 0), &p).unwrap();
    c.next(&p);
    c.next(&p);
    assert_eq!(c.instr, Instruction::Halt);
    for _ in 0..3 {
        c.next(&p);
        assert_eq!(c.instr, Instruction::Halt);
        assert_eq!(c.module(), "lib");
        assert_eq!(c.label(), 0);
        assert_eq!(c.offset(), 1);
        assert_eq!(c.depth(), 0);
    }
}

#[test]
fn clone_preserves_the_whole_cursor() {
    let p = demo_program();
    let mut c = InstructionPointer::new(&entry("main", "f", 0), &p).unwrap();
    c.call(&p, &FnCall::Local { label: 1 }).unwrap();
    let copy = c.clone();
    assert_same_position(&copy, &c);
    // stepping one cursor does not disturb the other
    c.next(&p);
    assert_eq!(copy.offset(), 0);
    assert_eq!(copy.instr, op(20));
    assert_eq!(copy.depth(), 1);
}
