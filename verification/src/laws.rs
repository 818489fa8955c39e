//! The laws of the cursor's transitions, proved over the ghost model: the
//! call/return and jump/return round trips, how the chain's depth moves, and
//! that the halted state is terminal.

use crate::bytecode::FnCall;
use crate::instr_ptr::{
    at_last_instruction, call_resolves, cursor_wf, is_halted, label_count, label_len,
    local_target_ok, spec_advance, spec_call, spec_jump, spec_return, CursorModel,
};
use crate::program::{program_wf, Program};
use vstd::prelude::*;

verus! {

/// Call/return round trip: calling and immediately returning reproduces
/// exactly the position that would have been reached by simply stepping past
/// the call.
pub proof fn lemma_call_return_round_trip(p: Program, c: CursorModel, t: FnCall)
    requires
        program_wf(p),
        cursor_wf(p, c),
        call_resolves(p, c, t),
        local_target_ok(p, c, t),
    ensures
        spec_return(spec_call(p, c, t)) == spec_advance(p, c),
{
    let resumed = spec_advance(p, c);
    let called = spec_call(p, c, t);
    assert(called.chain.drop_last() =~= resumed.chain);
    assert(spec_return(called) =~= resumed);
}

/// Jump/return round trip: jumping to a label and immediately returning
/// reproduces exactly the position that would have been reached by stepping
/// past the jump.
pub proof fn lemma_jump_return_round_trip(p: Program, c: CursorModel, label: nat)
    requires
        program_wf(p),
        cursor_wf(p, c),
        label < label_count(p, c.pos.module),
    ensures
        spec_return(spec_jump(p, c, label)) == spec_advance(p, c),
{
    let resumed = spec_advance(p, c);
    let jumped = spec_jump(p, c, label);
    assert(jumped.chain.drop_last() =~= resumed.chain);
    assert(spec_return(jumped) =~= resumed);
}

/// A call taken mid-sequence — the call instruction is not the last of its
/// label — deepens the return chain by exactly one saved position.
pub proof fn lemma_call_depth(p: Program, c: CursorModel, t: FnCall)
    requires
        program_wf(p),
        cursor_wf(p, c),
        call_resolves(p, c, t),
        local_target_ok(p, c, t),
        !at_last_instruction(p, c),
    ensures
        spec_call(p, c, t).chain.len() == c.chain.len() + 1,
{
}

/// A jump taken mid-sequence deepens the return chain by exactly one saved
/// position, identically to a call.
pub proof fn lemma_jump_depth(p: Program, c: CursorModel, label: nat)
    requires
        program_wf(p),
        cursor_wf(p, c),
        label < label_count(p, c.pos.module),
        !at_last_instruction(p, c),
    ensures
        spec_jump(p, c, label).chain.len() == c.chain.len() + 1,
{
}

/// An explicit return shortens the chain by exactly one saved position.
pub proof fn lemma_return_depth(c: CursorModel)
    requires
        c.chain.len() > 0,
    ensures
        spec_return(c).chain.len() == c.chain.len() - 1,
{
}

/// Returning preserves the cursor's invariant: the resumed position and
/// every still-saved one were coherent already.
pub proof fn lemma_return_preserves_wf(p: Program, c: CursorModel)
    requires
        cursor_wf(p, c),
        c.chain.len() > 0,
    ensures
        cursor_wf(p, spec_return(c)),
{
}

/// Falling off the end of a label with saved positions outstanding is
/// exactly a return: advancing there pops the same continuation an explicit
/// return would.
pub proof fn lemma_advance_exhaust_is_return(p: Program, c: CursorModel)
    requires
        cursor_wf(p, c),
        at_last_instruction(p, c),
        c.chain.len() > 0,
    ensures
        spec_advance(p, c) == spec_return(c),
{
}

/// The cursor after `n` returns.
pub open spec fn after_returns(c: CursorModel, n: nat) -> CursorModel
    decreases n,
{
    if n == 0 {
        c
    } else {
        after_returns(spec_return(c), (n - 1) as nat)
    }
}

/// Chain depth: a cursor whose chain holds `n` saved positions needs
/// exactly `n` returns to exhaust it — after any fewer the chain is still
/// non-empty, so the completion signal (which only an empty chain allows)
/// cannot yet be reached.
pub proof fn lemma_return_chain_drains(c: CursorModel, n: nat)
    requires
        c.chain.len() == n,
    ensures
        after_returns(c, n).chain.len() == 0,
        forall|k: nat| k < n ==> (#[trigger] after_returns(c, k)).chain.len() == n - k,
    decreases n,
{
    if n > 0 {
        lemma_return_chain_drains(spec_return(c), (n - 1) as nat);
        assert forall|k: nat| k < n implies (#[trigger] after_returns(c, k)).chain.len() == n
            - k by {
            if k > 0 {
                assert(after_returns(c, k) == after_returns(spec_return(c), (k - 1) as nat));
            }
        }
        assert(after_returns(c, n) == after_returns(spec_return(c), (n - 1) as nat));
    }
}

/// Idempotent halt: advancing a halted cursor — no saved positions, at the
/// end of its code, showing the `Halt` signal — yields the same halted
/// cursor, again and again, without error.
pub proof fn lemma_halt_idempotent(p: Program, c: CursorModel)
    requires
        is_halted(p, c),
    ensures
        spec_advance(p, c) == c,
{
    assert(spec_advance(p, c) =~= c);
}

/// Program completion: advancing past the last instruction with an empty
/// chain yields a halted cursor — coordinates unchanged, instruction view
/// `Halt` — and that cursor is a fixed point of advancing.
pub proof fn lemma_advance_halts_at_end(p: Program, c: CursorModel)
    requires
        cursor_wf(p, c),
        at_last_instruction(p, c),
        c.chain.len() == 0,
    ensures
        is_halted(p, spec_advance(p, c)),
        spec_advance(p, spec_advance(p, c)) == spec_advance(p, c),
{
    lemma_halt_idempotent(p, spec_advance(p, c));
}

} // verus!
