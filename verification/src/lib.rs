//! Control-flow core of a bytecode virtual machine: the execution cursor.
//!
//! A loaded [`Program`] is an immutable collection of modules, each holding a
//! table of labels, each label a non-empty ordered sequence of instructions.
//! The [`InstructionPointer`] tracks where execution stands now (module,
//! label, offset, and the instruction cached at those coordinates) together
//! with a stack of saved positions to resume when nested calls and jumps
//! complete.  Its operations — create, advance, call, jump, return — are the
//! only transitions of the machine's control flow; every contract below pins
//! the resulting cursor down exactly, over the ghost model in
//! [`instr_ptr::CursorModel`].

mod bytecode;
mod instr_ptr;
mod laws;
mod program;

pub use bytecode::{CursorError, FnCall, Instruction, Label, MFA};
pub use instr_ptr::{
    at_last_instruction, call_dest, call_resolves, cursor_wf, instr_at, is_halted, label_count,
    label_len, local_target_ok, pos_coherent, pos_valid, spec_advance, spec_call, spec_create,
    spec_jump, spec_return, target_module_name, CursorModel, InstructionPointer, PosModel,
    SavedPosition,
};
pub use laws::{
    after_returns, lemma_advance_exhaust_is_return, lemma_advance_halts_at_end, lemma_call_depth,
    lemma_call_return_round_trip, lemma_halt_idempotent, lemma_jump_depth,
    lemma_jump_return_round_trip, lemma_return_chain_drains, lemma_return_depth,
    lemma_return_preserves_wf,
};
pub use program::{
    find_function, find_module, function_label, has_function, has_module, module_named, module_wf,
    program_wf, FunctionEntry, LabelEntry, Module, Program,
};
