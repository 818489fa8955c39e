//! The loaded program: modules, their function tables and label tables, the
//! well-formedness they are loaded with, and the verified name lookups the
//! cursor resolves positions through.
//!
//! The program is built once at load time and read-only afterwards; the
//! cursor only ever queries it.

use crate::bytecode::{Instruction, Label};
use vstd::prelude::*;

verus! {

/// One binding of a module's function table: the (function name, arity) key
/// and the label execution enters at.
#[derive(Debug)]
pub struct FunctionEntry {
    pub function: String,
    pub arity: u32,
    pub label: Label,
}

/// One entry of a module's label table: an ordered, non-empty sequence of
/// instructions.
#[derive(Debug)]
pub struct LabelEntry {
    pub instructions: Vec<Instruction>,
}

/// A loaded module: its name, its function table keyed by (name, arity), and
/// its label table indexed by [`Label`].
#[derive(Debug)]
pub struct Module {
    pub name: String,
    pub functions: Vec<FunctionEntry>,
    pub labels: Vec<LabelEntry>,
}

/// The loaded program: its modules, keyed by their own names.  Immutable for
/// the lifetime of every cursor that reads it.
#[derive(Debug)]
pub struct Program {
    pub modules: Vec<Module>,
}

/// Whether the program holds a module of the given name.
pub open spec fn has_module(p: Program, name: Seq<char>) -> bool {
    exists|i: int| 0 <= i < p.modules@.len() && (#[trigger] p.modules@[i]).name@ == name
}

/// The index of the module of the given name (meaningful when
/// `has_module(p, name)` holds; under `program_wf` it is unique).
pub open spec fn module_index(p: Program, name: Seq<char>) -> int {
    choose|i: int| 0 <= i < p.modules@.len() && (#[trigger] p.modules@[i]).name@ == name
}

/// The module of the given name (meaningful when `has_module(p, name)`
/// holds).
pub open spec fn module_named(p: Program, name: Seq<char>) -> Module {
    p.modules@[module_index(p, name)]
}

/// Whether the module's function table holds the (function, arity) key.
pub open spec fn has_function(m: Module, function: Seq<char>, arity: u32) -> bool {
    exists|i: int|
        0 <= i < m.functions@.len() && (#[trigger] m.functions@[i]).function@ == function
            && m.functions@[i].arity == arity
}

/// The index of the (function, arity) binding (meaningful when
/// `has_function` holds; under `module_wf` it is unique).
pub open spec fn function_index(m: Module, function: Seq<char>, arity: u32) -> int {
    choose|i: int|
        0 <= i < m.functions@.len() && (#[trigger] m.functions@[i]).function@ == function
            && m.functions@[i].arity == arity
}

/// The entry label the module's function table binds to (function, arity)
/// (meaningful when `has_function` holds).
pub open spec fn function_label(m: Module, function: Seq<char>, arity: u32) -> Label {
    m.functions@[function_index(m, function, arity)].label
}

/// What loading establishes of a single module: the function table is a
/// mapping (no duplicate keys), every entry label indexes the label table,
/// and every label holds at least one instruction.
pub open spec fn module_wf(m: Module) -> bool {
    &&& forall|i: int, j: int|
        0 <= i < j < m.functions@.len() ==> !((#[trigger] m.functions@[i]).function@
            == (#[trigger] m.functions@[j]).function@ && m.functions@[i].arity
            == m.functions@[j].arity)
    &&& forall|i: int|
        0 <= i < m.functions@.len() ==> ((#[trigger] m.functions@[i]).label as int)
            < m.labels@.len()
    &&& forall|i: int|
        0 <= i < m.labels@.len() ==> (#[trigger] m.labels@[i]).instructions@.len() > 0
}

/// What loading establishes of the whole program: module names are a mapping
/// (no duplicates) and every module is well formed.
pub open spec fn program_wf(p: Program) -> bool {
    &&& forall|i: int, j: int|
        0 <= i < j < p.modules@.len() ==> (#[trigger] p.modules@[i]).name@
            != (#[trigger] p.modules@[j]).name@
    &&& forall|i: int| 0 <= i < p.modules@.len() ==> module_wf(#[trigger] p.modules@[i])
}

/// The module of the given name carries that name itself: programs are keyed
/// by the modules' own names.
pub proof fn lemma_module_named_name(p: Program, name: Seq<char>)
    requires
        has_module(p, name),
    ensures
        module_named(p, name).name@ == name,
        0 <= module_index(p, name) < p.modules@.len(),
{
}

/// Looks a module up by name: `Some` exactly when the program holds one, and
/// then the module itself.
pub fn find_module<'a>(program: &'a Program, name: &String) -> (r: Option<&'a Module>)
    requires
        program_wf(*program),
    ensures
        match r {
            Some(m) => has_module(*program, name@) && *m == module_named(*program, name@),
            None => !has_module(*program, name@),
        },
{
    let n = program.modules.len();
    let mut i: usize = 0;
    while i < n
        invariant
            n == program.modules@.len(),
            i <= n,
            program_wf(*program),
            forall|j: int| 0 <= j < i ==> (#[trigger] program.modules@[j]).name@ != name@,
        decreases n - i,
    {
        if program.modules[i].name == *name {
            proof {
                assert(has_module(*program, name@));
                let k = module_index(*program, name@);
                if k < i as int {
                    assert(program.modules@[k].name@ != program.modules@[i as int].name@);
                } else if k > i as int {
                    assert(program.modules@[i as int].name@ != program.modules@[k].name@);
                }
            }
            return Some(&program.modules[i]);
        }
        i += 1;
    }
    None
}

/// Looks a (function, arity) key up in a module's function table: `Some`
/// exactly when the table holds it, and then its entry label, which the
/// module's well-formedness keeps inside the label table.
pub fn find_function(m: &Module, function: &String, arity: u32) -> (r: Option<Label>)
    requires
        module_wf(*m),
    ensures
        match r {
            Some(l) => has_function(*m, function@, arity) && l == function_label(
                *m,
                function@,
                arity,
            ) && (l as int) < m.labels@.len(),
            None => !has_function(*m, function@, arity),
        },
{
    let n = m.functions.len();
    let mut i: usize = 0;
    while i < n
        invariant
            n == m.functions@.len(),
            i <= n,
            module_wf(*m),
            forall|j: int|
                0 <= j < i ==> !((#[trigger] m.functions@[j]).function@ == function@
                    && m.functions@[j].arity == arity),
        decreases n - i,
    {
        if m.functions[i].function == *function && m.functions[i].arity == arity {
            proof {
                assert(has_function(*m, function@, arity));
                let k = function_index(*m, function@, arity);
                if k < i as int {
                    assert(!(m.functions@[k].function@ == m.functions@[i as int].function@
                        && m.functions@[k].arity == m.functions@[i as int].arity));
                } else if k > i as int {
                    assert(!(m.functions@[i as int].function@ == m.functions@[k].function@
                        && m.functions@[i as int].arity == m.functions@[k].arity));
                }
            }
            return Some(m.functions[i].label);
        }
        i += 1;
    }
    None
}

} // verus!
