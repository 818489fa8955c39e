//! The execution cursor: the current position of an emulated execution
//! context plus the stack of saved positions to resume when nested calls and
//! jumps complete.
//!
//! The cursor is specified against a ghost model, [`CursorModel`]: a current
//! [`PosModel`] and a sequence of saved ones, the last element being the
//! innermost continuation.  The spec functions [`spec_create`],
//! [`spec_advance`], [`spec_call`], [`spec_jump`] and [`spec_return`] give
//! the machine's transitions over that model; each executable operation's
//! contract says its result is exactly the corresponding transition.
//!
//! The saved continuations are held as a flat stack, pushed and popped at
//! the end, so a single step never copies the whole chain.

use crate::bytecode::{CursorError, FnCall, Instruction, Label, MFA};
use crate::program::{
    find_function, find_module, function_label, has_function, has_module, lemma_module_named_name,
    module_named, program_wf, Program,
};
use vstd::prelude::*;

verus! {

/// The mathematical image of one execution position: the module's name, the
/// label and offset within it, and the instruction cached at those
/// coordinates.
#[verifier::ext_equal]
pub ghost struct PosModel {
    pub module: Seq<char>,
    pub label: nat,
    pub offset: nat,
    pub instr: Instruction,
}

/// The mathematical image of a whole cursor: the current position and the
/// chain of saved positions, innermost continuation last.
#[verifier::ext_equal]
pub ghost struct CursorModel {
    pub chain: Seq<PosModel>,
    pub pos: PosModel,
}

/// How many labels the named module holds.
pub open spec fn label_count(p: Program, module: Seq<char>) -> nat {
    module_named(p, module).labels@.len()
}

/// How many instructions the given label of the named module holds.
pub open spec fn label_len(p: Program, module: Seq<char>, label: nat) -> nat {
    module_named(p, module).labels@[label as int].instructions@.len()
}

/// The instruction stored at the given coordinates.
pub open spec fn instr_at(p: Program, module: Seq<char>, label: nat, offset: nat) -> Instruction {
    module_named(p, module).labels@[label as int].instructions@[offset as int]
}

/// The coordinates of a position all point into the program.
pub open spec fn pos_valid(p: Program, pos: PosModel) -> bool {
    &&& has_module(p, pos.module)
    &&& pos.label < label_count(p, pos.module)
    &&& pos.offset < label_len(p, pos.module, pos.label)
}

/// A position is valid and its cached instruction agrees with the program —
/// or is the `Halt` signal, the one escape the completion case allows.
pub open spec fn pos_coherent(p: Program, pos: PosModel) -> bool {
    &&& pos_valid(p, pos)
    &&& (pos.instr == instr_at(p, pos.module, pos.label, pos.offset) || pos.instr
        == Instruction::Halt)
}

/// The cursor's invariant against the program it runs: its current position
/// and every saved one are coherent.
pub open spec fn cursor_wf(p: Program, c: CursorModel) -> bool {
    &&& pos_coherent(p, c.pos)
    &&& forall|i: int| 0 <= i < c.chain.len() ==> pos_coherent(p, #[trigger] c.chain[i])
}

/// The cursor stands at the last instruction of its label: stepping forward
/// would leave the label's code.
pub open spec fn at_last_instruction(p: Program, c: CursorModel) -> bool {
    c.pos.offset + 1 >= label_len(p, c.pos.module, c.pos.label)
}

/// The terminal state: no saved positions remain, the cursor stands at the
/// end of its code, and its instruction view is the `Halt` signal.
pub open spec fn is_halted(p: Program, c: CursorModel) -> bool {
    &&& c.chain.len() == 0
    &&& at_last_instruction(p, c)
    &&& c.pos.instr == Instruction::Halt
}

/// The cursor a fresh execution context starts from: offset 0 of the entry
/// label of `mfa`'s function, with an empty chain.
pub open spec fn spec_create(p: Program, mfa: MFA) -> CursorModel {
    let entry = function_label(module_named(p, mfa.module@), mfa.function@, mfa.arity) as nat;
    CursorModel {
        chain: Seq::empty(),
        pos: PosModel {
            module: mfa.module@,
            label: entry,
            offset: 0,
            instr: instr_at(p, mfa.module@, entry, 0),
        },
    }
}

/// The position one step past `pos` within its label.
pub open spec fn step_pos(p: Program, pos: PosModel) -> PosModel {
    PosModel {
        module: pos.module,
        label: pos.label,
        offset: pos.offset + 1,
        instr: instr_at(p, pos.module, pos.label, pos.offset + 1),
    }
}

/// The position-step transition.  Mid-sequence it moves one instruction
/// forward; at the end of a label it resumes the innermost saved position,
/// exactly as an implicit return; at the end of a label with nothing saved
/// it keeps its coordinates and shows the `Halt` signal.
pub open spec fn spec_advance(p: Program, c: CursorModel) -> CursorModel {
    if c.pos.offset + 1 < label_len(p, c.pos.module, c.pos.label) {
        CursorModel { chain: c.chain, pos: step_pos(p, c.pos) }
    } else if c.chain.len() > 0 {
        CursorModel { chain: c.chain.drop_last(), pos: c.chain.last() }
    } else {
        CursorModel {
            chain: c.chain,
            pos: PosModel {
                module: c.pos.module,
                label: c.pos.label,
                offset: c.pos.offset,
                instr: Instruction::Halt,
            },
        }
    }
}

/// The return transition: pop the innermost saved position and make it
/// current; the remaining chain is the grandparent continuation.
pub open spec fn spec_return(c: CursorModel) -> CursorModel {
    CursorModel { chain: c.chain.drop_last(), pos: c.chain.last() }
}

/// The module a call target resolves in, given the position that will be
/// resumed after the call: an explicitly named module when the target gives
/// one, else the resumed position's own module.
pub open spec fn target_module_name(resumed: PosModel, t: FnCall) -> Seq<char> {
    match t {
        FnCall::Local { .. } => resumed.module,
        FnCall::Named { module, .. } => match module {
            Option::Some(m) => m@,
            Option::None => resumed.module,
        },
    }
}

/// A call target resolves: its module exists, and — for a named target — so
/// does its (function, arity) key.  Exactly when this fails, `call` signals
/// `ModuleNotFound` or `FunctionNotFound`.
pub open spec fn call_resolves(p: Program, c: CursorModel, t: FnCall) -> bool {
    let tname = target_module_name(spec_advance(p, c).pos, t);
    &&& has_module(p, tname)
    &&& match t {
        FnCall::Local { .. } => true,
        FnCall::Named { function, arity, .. } => has_function(
            module_named(p, tname),
            function@,
            arity,
        ),
    }
}

/// The label a resolving call target enters at: a local target's own label,
/// or the entry label its (function, arity) key is bound to.
pub open spec fn call_dest(p: Program, c: CursorModel, t: FnCall) -> nat {
    let tname = target_module_name(spec_advance(p, c).pos, t);
    match t {
        FnCall::Local { label } => label as nat,
        FnCall::Named { function, arity, .. } => function_label(
            module_named(p, tname),
            function@,
            arity,
        ) as nat,
    }
}

/// A local target's label indexes the label table of the module it resolves
/// in.  A label outside that table names no position at all, so `call` asks
/// its caller to rule it out.
pub open spec fn local_target_ok(p: Program, c: CursorModel, t: FnCall) -> bool {
    match t {
        FnCall::Local { label } => {
            let tname = target_module_name(spec_advance(p, c).pos, t);
            has_module(p, tname) ==> (label as nat) < label_count(p, tname)
        },
        FnCall::Named { .. } => true,
    }
}

/// The call transition: save the advanced position (the one to resume once
/// the callee's frame completes) and enter the resolved destination at
/// offset 0.
pub open spec fn spec_call(p: Program, c: CursorModel, t: FnCall) -> CursorModel {
    let resumed = spec_advance(p, c);
    let tname = target_module_name(resumed.pos, t);
    let dest = call_dest(p, c, t);
    CursorModel {
        chain: resumed.chain.push(resumed.pos),
        pos: PosModel {
            module: tname,
            label: dest,
            offset: 0,
            instr: instr_at(p, tname, dest, 0),
        },
    }
}

/// The jump transition: like a call — the advanced position is saved — but
/// the destination label is taken in the cursor's current module.
pub open spec fn spec_jump(p: Program, c: CursorModel, label: nat) -> CursorModel {
    let resumed = spec_advance(p, c);
    CursorModel {
        chain: resumed.chain.push(resumed.pos),
        pos: PosModel {
            module: c.pos.module,
            label: label,
            offset: 0,
            instr: instr_at(p, c.pos.module, label, 0),
        },
    }
}

/// One saved position of the return chain: where to resume — and what
/// instruction stands there — once the frames above it complete.
#[derive(Debug)]
pub struct SavedPosition {
    pub module: String,
    pub label: Label,
    pub offset: usize,
    pub instr: Instruction,
}

impl View for SavedPosition {
    type V = PosModel;

    open spec fn view(&self) -> PosModel {
        PosModel {
            module: self.module@,
            label: self.label as nat,
            offset: self.offset as nat,
            instr: self.instr,
        }
    }
}

impl Clone for SavedPosition {
    /// Field-for-field copy of the saved position.
    fn clone(&self) -> (res: Self)
        ensures
            res == *self,
    {
        SavedPosition {
            module: self.module.clone(),
            label: self.label,
            offset: self.offset,
            instr: self.instr,
        }
    }
}

/// The model of a saved chain: each position's image, in the same order.
pub open spec fn chain_model(v: Seq<SavedPosition>) -> Seq<PosModel> {
    v.map_values(|f: SavedPosition| f@)
}

/// Copies a return chain entry by entry.
fn clone_chain(v: &Vec<SavedPosition>) -> (r: Vec<SavedPosition>)
    ensures
        r@ == v@,
{
    let mut r: Vec<SavedPosition> = Vec::new();
    let n = v.len();
    let mut i: usize = 0;
    while i < n
        invariant
            n == v@.len(),
            i <= n,
            r@ == v@.subrange(0, i as int),
        decreases n - i,
    {
        r.push(v[i].clone());
        proof {
            assert(r@ =~= v@.subrange(0, i as int + 1));
        }
        i += 1;
    }
    proof {
        assert(r@ =~= v@);
    }
    r
}

/// The execution cursor: the current position of one execution context and
/// its stack of saved positions, innermost last.  `instr` is a cached view
/// of the instruction at the current coordinates — or the `Halt` signal once
/// execution has fallen off the end of the top-level code.
#[derive(Debug)]
pub struct InstructionPointer {
    return_chain: Vec<SavedPosition>,
    current_module: String,
    current_label: Label,
    current_instruction: usize,
    pub instr: Instruction,
}

impl View for InstructionPointer {
    type V = CursorModel;

    closed spec fn view(&self) -> CursorModel {
        CursorModel {
            chain: chain_model(self.return_chain@),
            pos: PosModel {
                module: self.current_module@,
                label: self.current_label as nat,
                offset: self.current_instruction as nat,
                instr: self.instr,
            },
        }
    }
}

impl Clone for InstructionPointer {
    /// Copy of the whole cursor, chain included; the copy has the same
    /// model.
    fn clone(&self) -> (res: Self)
        ensures
            res@ == self@,
    {
        let res = InstructionPointer {
            return_chain: clone_chain(&self.return_chain),
            current_module: self.current_module.clone(),
            current_label: self.current_label,
            current_instruction: self.current_instruction,
            instr: self.instr,
        };
        proof {
            assert(res@ =~= self@);
        }
        res
    }
}

impl InstructionPointer {
    /// Creates the first cursor of an execution context: offset 0 of the
    /// entry label of `mfa`'s function, with an empty return chain.  Signals
    /// `ModuleNotFound` exactly when the program holds no module of that
    /// name, and `FunctionNotFound` exactly when the module holds no
    /// (function, arity) key — both fatal to the creating context.
    pub fn new(mfa: &MFA, program: &Program) -> (r: Result<InstructionPointer, CursorError>)
        requires
            program_wf(*program),
        ensures
            match r {
                Ok(ip) => {
                    &&& has_module(*program, mfa.module@)
                    &&& has_function(
                        module_named(*program, mfa.module@),
                        mfa.function@,
                        mfa.arity,
                    )
                    &&& ip@ == spec_create(*program, *mfa)
                    &&& cursor_wf(*program, ip@)
                },
                Err(e) => match e {
                    CursorError::ModuleNotFound { module } => {
                        &&& !has_module(*program, mfa.module@)
                        &&& module@ == mfa.module@
                    },
                    CursorError::FunctionNotFound { module, function, arity } => {
                        &&& has_module(*program, mfa.module@)
                        &&& !has_function(
                            module_named(*program, mfa.module@),
                            mfa.function@,
                            mfa.arity,
                        )
                        &&& module@ == mfa.module@
                        &&& function@ == mfa.function@
                        &&& arity == mfa.arity
                    },
                    CursorError::ReturnWithoutCaller => false,
                },
            },
    {
        let m = match find_module(program, &mfa.module) {
            Some(m) => m,
            None => {
                return Err(CursorError::ModuleNotFound { module: mfa.module.clone() });
            },
        };
        proof {
            lemma_module_named_name(*program, mfa.module@);
        }
        let entry = match find_function(m, &mfa.function, mfa.arity) {
            Some(l) => l,
            None => {
                return Err(
                    CursorError::FunctionNotFound {
                        module: mfa.module.clone(),
                        function: mfa.function.clone(),
                        arity: mfa.arity,
                    },
                );
            },
        };
        let first_instruction = m.labels[entry as usize].instructions[0];
        let ip = InstructionPointer {
            return_chain: Vec::new(),
            current_module: m.name.clone(),
            current_label: entry,
            current_instruction: 0,
            instr: first_instruction,
        };
        proof {
            assert(ip@ =~= spec_create(*program, *mfa));
        }
        Ok(ip)
    }

    /// The position that follows this cursor without taking a call: one
    /// instruction forward mid-sequence; the innermost saved position when
    /// the label's code is exhausted (how control returns from a call or
    /// jump with no explicit return instruction); a cursor showing the
    /// `Halt` signal, coordinates unchanged, when nothing is saved — the
    /// program-completion signal.  Purely functional: `self` is untouched.
    pub fn get_next(&self, program: &Program) -> (r: InstructionPointer)
        requires
            program_wf(*program),
            cursor_wf(*program, self@),
        ensures
            r@ == spec_advance(*program, self@),
            cursor_wf(*program, r@),
    {
        proof {
            lemma_module_named_name(*program, self@.pos.module);
        }
        let m = match find_module(program, &self.current_module) {
            Some(m) => m,
            None => {
                // cursor_wf places the current module in the program
                return unreached();
            },
        };
        let instructions = &m.labels[self.current_label as usize].instructions;
        let last_offset = instructions.len();
        proof {
            assert(self.current_instruction < last_offset);
        }
        let next_offset = self.current_instruction + 1;
        if next_offset < last_offset {
            let r = InstructionPointer {
                return_chain: clone_chain(&self.return_chain),
                current_module: self.current_module.clone(),
                current_label: self.current_label,
                current_instruction: next_offset,
                instr: instructions[next_offset],
            };
            proof {
                assert(r@ =~= spec_advance(*program, self@));
            }
            r
        } else if self.return_chain.len() > 0 {
            let mut chain = clone_chain(&self.return_chain);
            let saved = chain.pop().unwrap();
            proof {
                assert(chain_model(chain@) =~= self@.chain.drop_last());
                assert(saved@ == self@.chain.last());
            }
            let r = InstructionPointer {
                return_chain: chain,
                current_module: saved.module,
                current_label: saved.label,
                current_instruction: saved.offset,
                instr: saved.instr,
            };
            proof {
                assert(r@ =~= spec_advance(*program, self@));
            }
            r
        } else {
            let r = InstructionPointer {
                return_chain: Vec::new(),
                current_module: self.current_module.clone(),
                current_label: self.current_label,
                current_instruction: self.current_instruction,
                instr: Instruction::Halt,
            };
            proof {
                assert(r@ =~= spec_advance(*program, self@));
            }
            r
        }
    }

    /// The in-place form of [`Self::get_next`]: replaces this cursor with
    /// the position that follows it.
    pub fn next(&mut self, program: &Program)
        requires
            program_wf(*program),
            cursor_wf(*program, old(self)@),
        ensures
            final(self)@ == spec_advance(*program, old(self)@),
            cursor_wf(*program, final(self)@),
    {
        let n = self.get_next(program);
        *self = n;
    }

    /// Resolves the call's destination, saves the position to resume once
    /// the callee's frame completes (the advanced position, "the instruction
    /// after the call"), and repositions this cursor at offset 0 of the
    /// destination label.  Signals `ModuleNotFound` / `FunctionNotFound`
    /// exactly when the target fails to resolve, leaving the cursor
    /// untouched; both are fatal to the owning context.
    pub fn call(&mut self, program: &Program, call: &FnCall) -> (r: Result<(), CursorError>)
        requires
            program_wf(*program),
            cursor_wf(*program, old(self)@),
            local_target_ok(*program, old(self)@, *call),
        ensures
            cursor_wf(*program, final(self)@),
            match r {
                Ok(_) => {
                    &&& call_resolves(*program, old(self)@, *call)
                    &&& final(self)@ == spec_call(*program, old(self)@, *call)
                },
                Err(e) => *final(self) == *old(self) && match e {
                    CursorError::ModuleNotFound { module } => {
                        &&& module@ == target_module_name(
                            spec_advance(*program, old(self)@).pos,
                            *call,
                        )
                        &&& !has_module(*program, module@)
                    },
                    CursorError::FunctionNotFound { module, function, arity } => {
                        &&& module@ == target_module_name(
                            spec_advance(*program, old(self)@).pos,
                            *call,
                        )
                        &&& has_module(*program, module@)
                        &&& *call matches FnCall::Named { function: f, arity: a, .. }
                            && function@ == f@ && arity == a
                        &&& !has_function(module_named(*program, module@), function@, arity)
                    },
                    CursorError::ReturnWithoutCaller => false,
                },
            },
    {
        let resumed = self.get_next(program);
        let module_name: String = match call {
            FnCall::Named { module: Some(m), .. } => m.clone(),
            _ => resumed.current_module.clone(),
        };
        let m = match find_module(program, &module_name) {
            Some(m) => m,
            None => {
                return Err(CursorError::ModuleNotFound { module: module_name });
            },
        };
        proof {
            lemma_module_named_name(*program, module_name@);
        }
        let dest: Label = match call {
            FnCall::Local { label } => *label,
            FnCall::Named { function, arity, .. } => match find_function(m, function, *arity) {
                Some(l) => l,
                None => {
                    return Err(
                        CursorError::FunctionNotFound {
                            module: module_name,
                            function: function.clone(),
                            arity: *arity,
                        },
                    );
                },
            },
        };
        let first_instruction = m.labels[dest as usize].instructions[0];
        let dest_module = m.name.clone();
        let InstructionPointer {
            return_chain: mut chain,
            current_module: saved_module,
            current_label: saved_label,
            current_instruction: saved_offset,
            instr: saved_instr,
        } = resumed;
        chain.push(
            SavedPosition {
                module: saved_module,
                label: saved_label,
                offset: saved_offset,
                instr: saved_instr,
            },
        );
        proof {
            assert(chain_model(chain@) =~= spec_advance(*program, old(self)@).chain.push(
                spec_advance(*program, old(self)@).pos,
            ));
        }
        *self = InstructionPointer {
            return_chain: chain,
            current_module: dest_module,
            current_label: dest,
            current_instruction: 0,
            instr: first_instruction,
        };
        proof {
            assert(self@ =~= spec_call(*program, old(self)@, *call));
        }
        Ok(())
    }

    /// Positions execution at `label` within the current module, saving the
    /// advanced position exactly as a call does: returning from the
    /// jumped-to label resumes the instruction after the jump.
    pub fn jump_to_label(&mut self, program: &Program, label: &Label)
        requires
            program_wf(*program),
            cursor_wf(*program, old(self)@),
            (*label as nat) < label_count(*program, old(self)@.pos.module),
        ensures
            final(self)@ == spec_jump(*program, old(self)@, *label as nat),
            cursor_wf(*program, final(self)@),
    {
        let resumed = self.get_next(program);
        let m = match find_module(program, &self.current_module) {
            Some(m) => m,
            None => {
                // cursor_wf places the current module in the program
                return unreached();
            },
        };
        proof {
            lemma_module_named_name(*program, self.current_module@);
        }
        let first_instruction = m.labels[*label as usize].instructions[0];
        let dest_module = m.name.clone();
        let InstructionPointer {
            return_chain: mut chain,
            current_module: saved_module,
            current_label: saved_label,
            current_instruction: saved_offset,
            instr: saved_instr,
        } = resumed;
        chain.push(
            SavedPosition {
                module: saved_module,
                label: saved_label,
                offset: saved_offset,
                instr: saved_instr,
            },
        );
        proof {
            assert(chain_model(chain@) =~= spec_advance(*program, old(self)@).chain.push(
                spec_advance(*program, old(self)@).pos,
            ));
        }
        *self = InstructionPointer {
            return_chain: chain,
            current_module: dest_module,
            current_label: *label,
            current_instruction: 0,
            instr: first_instruction,
        };
        proof {
            assert(self@ =~= spec_jump(*program, old(self)@, *label as nat));
        }
    }

    /// Pops the innermost saved position and makes it current; the popped
    /// cursor's own chain is the grandparent continuation, preserving proper
    /// stack nesting.  Signals `ReturnWithoutCaller` exactly when nothing is
    /// saved — a malformed program or interpreter bug, fatal to the owning
    /// context — leaving the cursor untouched.
    pub fn return_to_last_instr(&mut self) -> (r: Result<(), CursorError>)
        ensures
            match r {
                Ok(_) => old(self)@.chain.len() > 0 && final(self)@ == spec_return(old(self)@),
                Err(e) => {
                    &&& old(self)@.chain.len() == 0
                    &&& *final(self) == *old(self)
                    &&& e matches CursorError::ReturnWithoutCaller
                },
            },
    {
        proof {
            assert(old(self)@.chain.len() == old(self).return_chain@.len());
        }
        if self.return_chain.len() == 0 {
            return Err(CursorError::ReturnWithoutCaller);
        }
        let saved = self.return_chain.pop().unwrap();
        proof {
            assert(chain_model(self.return_chain@) =~= old(self)@.chain.drop_last());
            assert(saved@ == old(self)@.chain.last());
        }
        self.current_module = saved.module;
        self.current_label = saved.label;
        self.current_instruction = saved.offset;
        self.instr = saved.instr;
        proof {
            assert(self@ =~= spec_return(old(self)@));
        }
        Ok(())
    }

    /// The name of the module currently executing.
    pub fn module(&self) -> (r: &String)
        ensures
            r@ == self@.pos.module,
    {
        &self.current_module
    }

    /// The current label within the current module.
    pub fn label(&self) -> (r: Label)
        ensures
            r as nat == self@.pos.label,
    {
        self.current_label
    }

    /// The current instruction index within the current label.
    pub fn offset(&self) -> (r: usize)
        ensures
            r as nat == self@.pos.offset,
    {
        self.current_instruction
    }

    /// How many saved positions the return chain holds: the nesting depth of
    /// outstanding calls and jumps.
    pub fn depth(&self) -> (r: usize)
        ensures
            r == self@.chain.len(),
    {
        self.return_chain.len()
    }
}

} // verus!
