//! Value types the cursor works with: labels, instructions, call targets,
//! and the failures of cursor operations.

use vstd::prelude::*;

verus! {

/// Index of one instruction sequence within a module's label table.  Stable
/// for the lifetime of a loaded module.
pub type Label = u32;

/// One unit of executable content.  The cursor treats every instruction as
/// opaque except [`Instruction::Halt`], the distinguished terminal value
/// signalling that no more code remains to execute.
#[derive(Clone, Copy, Debug, PartialEq, Eq, Structural)]
pub enum Instruction {
    /// Program completion: no more code to execute.
    Halt,
    /// Any other instruction, carried as an opaque code the cursor never
    /// inspects.
    Op(u64),
}

/// A fully-qualified module/function/arity entry point.  Used only to seed
/// the very first cursor of an execution context.
#[derive(Debug)]
pub struct MFA {
    pub module: String,
    pub function: String,
    pub arity: u32,
}

/// A call destination as the decoder hands it to the cursor.
#[derive(Debug)]
pub enum FnCall {
    /// Resolved to a known label, taken directly — bypassing name lookup —
    /// within the module of the position that will be resumed once this
    /// call's frame completes.
    Local { label: Label },
    /// Resolved by (function, arity) lookup, in `module` when one is given,
    /// else in the module of the position that will be resumed.
    Named { module: Option<String>, function: String, arity: u32 },
}

/// The failures of cursor operations.  Each is fatal to the owning execution
/// context: a missing module, function or caller means the requested
/// position genuinely does not exist, so there is no recovery at this layer.
/// The variants carry the coordinates that were asked for, so the owning
/// context can report a crashed process with a usable diagnostic.
#[derive(Debug)]
pub enum CursorError {
    /// A call target named a module absent from the program.
    ModuleNotFound { module: String },
    /// A call target named a (function, arity) key absent from its module.
    FunctionNotFound { module: String, function: String, arity: u32 },
    /// A return was attempted on a cursor whose return chain is empty.
    ReturnWithoutCaller,
}

} // verus!
