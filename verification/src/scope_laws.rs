//! Laws of the scope stack.
//!
//! The guard discipline only ever applies two operations to a context's
//! stack: push a frame, pop the last frame. This module states and proves
//! what that discipline guarantees: a well-nested sequence of scopes leaves
//! the stack — and therefore the resolved logger — exactly as it found it,
//! and operations on one context's stack never touch another context's.

use vstd::prelude::*;

use crate::logger::LoggerHandle;
use crate::top_or;

verus! {

/// One scope-stack operation, as the guard discipline performs it.
pub enum ScopeOp {
    /// Entering a scope: push this handle.
    Push(LoggerHandle),
    /// Leaving the innermost scope: pop its frame.
    Pop,
}

/// The stack after one operation.
pub open spec fn apply_op(frames: Seq<LoggerHandle>, op: ScopeOp) -> Seq<LoggerHandle> {
    match op {
        ScopeOp::Push(h) => frames.push(h),
        ScopeOp::Pop => frames.drop_last(),
    }
}

/// The stack after a sequence of operations, applied left to right.
pub open spec fn apply_ops(frames: Seq<LoggerHandle>, ops: Seq<ScopeOp>) -> Seq<LoggerHandle>
    decreases ops.len(),
{
    if ops.len() == 0 {
        frames
    } else {
        apply_ops(apply_op(frames, ops[0]), ops.drop_first())
    }
}

/// Whether `ops` respects nesting over a stack that holds `depth` frames of
/// its own: no prefix ever pops more frames than were pushed above those
/// `depth` frames.
pub open spec fn nested_above(ops: Seq<ScopeOp>, depth: nat) -> bool
    decreases ops.len(),
{
    if ops.len() == 0 {
        true
    } else {
        match ops[0] {
            ScopeOp::Push(_) => nested_above(ops.drop_first(), depth + 1),
            ScopeOp::Pop => depth >= 1 && nested_above(ops.drop_first(), (depth - 1) as nat),
        }
    }
}

/// How many of the `depth` own frames (plus frames pushed by `ops`) remain
/// after `ops`, counting pops against pushes.
pub open spec fn depth_after(ops: Seq<ScopeOp>, depth: nat) -> nat
    decreases ops.len(),
{
    if ops.len() == 0 {
        depth
    } else {
        match ops[0] {
            ScopeOp::Push(_) => depth_after(ops.drop_first(), depth + 1),
            ScopeOp::Pop => depth_after(
                ops.drop_first(),
                if depth >= 1 {
                    (depth - 1) as nat
                } else {
                    0
                },
            ),
        }
    }
}

/// Whether `ops` is a well-nested scope sequence: it never pops below its
/// own first frame, and pops every frame it pushes.
pub open spec fn balanced(ops: Seq<ScopeOp>) -> bool {
    nested_above(ops, 0) && depth_after(ops, 0) == 0
}

/// Operations that respect nesting above `top` never reach into `base`: the
/// frames below stay untouched, and the surviving depth is what
/// [`depth_after`] counts.
pub proof fn lemma_ops_preserve_base(
    base: Seq<LoggerHandle>,
    top: Seq<LoggerHandle>,
    ops: Seq<ScopeOp>,
)
    requires
        nested_above(ops, top.len()),
    ensures
        apply_ops(base + top, ops) == base + apply_ops(top, ops),
        apply_ops(top, ops).len() == depth_after(ops, top.len()),
    decreases ops.len(),
{
    if ops.len() == 0 {
    } else {
        match ops[0] {
            ScopeOp::Push(h) => {
                assert((base + top).push(h) =~= base + top.push(h));
                lemma_ops_preserve_base(base, top.push(h), ops.drop_first());
            },
            ScopeOp::Pop => {
                assert((base + top).drop_last() =~= base + top.drop_last());
                lemma_ops_preserve_base(base, top.drop_last(), ops.drop_first());
            },
        }
    }
}

/// Splitting a sequence of operations: applying `a + b` is applying `a`,
/// then `b`.
pub proof fn lemma_apply_ops_concat(frames: Seq<LoggerHandle>, a: Seq<ScopeOp>, b: Seq<ScopeOp>)
    ensures
        apply_ops(frames, a + b) == apply_ops(apply_ops(frames, a), b),
    decreases a.len(),
{
    if a.len() == 0 {
        assert(a + b =~= b);
    } else {
        assert((a + b).drop_first() =~= a.drop_first() + b);
        lemma_apply_ops_concat(apply_op(frames, a[0]), a.drop_first(), b);
    }
}

/// Applying a single operation is just that operation.
pub proof fn lemma_apply_single(frames: Seq<LoggerHandle>, op: ScopeOp)
    ensures
        apply_ops(frames, seq![op]) == apply_op(frames, op),
{
    assert(seq![op].drop_first() =~= Seq::<ScopeOp>::empty());
    assert(apply_ops(apply_op(frames, op), Seq::<ScopeOp>::empty()) == apply_op(frames, op));
}

/// LIFO round-trip: push a handle, run any well-nested sequence of scopes,
/// then pop the matching frame — the stack, and with it the handle that
/// `logger` resolves to, is exactly what it was before the push.
pub proof fn lemma_scope_lifo_round_trip(
    frames: Seq<LoggerHandle>,
    h: LoggerHandle,
    ops: Seq<ScopeOp>,
    fallback: LoggerHandle,
)
    requires
        balanced(ops),
    ensures
        apply_ops(frames, seq![ScopeOp::Push(h)] + ops + seq![ScopeOp::Pop]) == frames,
        top_or(
            apply_ops(frames, seq![ScopeOp::Push(h)] + ops + seq![ScopeOp::Pop]),
            fallback,
        ) == top_or(frames, fallback),
{
    lemma_apply_ops_concat(frames, seq![ScopeOp::Push(h)] + ops, seq![ScopeOp::Pop]);
    lemma_apply_ops_concat(frames, seq![ScopeOp::Push(h)], ops);
    lemma_apply_single(frames, ScopeOp::Push(h));
    assert(apply_ops(frames, seq![ScopeOp::Push(h)]) == frames.push(h));
    lemma_ops_preserve_base(frames.push(h), Seq::<LoggerHandle>::empty(), ops);
    assert(frames.push(h) + Seq::<LoggerHandle>::empty() =~= frames.push(h));
    assert(apply_ops(Seq::<LoggerHandle>::empty(), ops) =~= Seq::<LoggerHandle>::empty());
    assert(frames.push(h) + apply_ops(Seq::<LoggerHandle>::empty(), ops) =~= frames.push(h));
    lemma_apply_single(frames.push(h), ScopeOp::Pop);
    assert(apply_ops(frames.push(h), seq![ScopeOp::Pop]) == frames.push(h).drop_last());
    assert(frames.push(h).drop_last() =~= frames);
}

/// Context isolation: pushing a handle in one execution context leaves every
/// other context's stack — and the logger it resolves to — untouched. Stacks
/// are keyed by logical context identity, never shared.
pub proof fn lemma_context_isolation(
    stacks: Map<int, Seq<LoggerHandle>>,
    c1: int,
    c2: int,
    h: LoggerHandle,
    fallback: LoggerHandle,
)
    requires
        stacks.dom().contains(c1),
        stacks.dom().contains(c2),
        c1 != c2,
    ensures
        stacks.insert(c1, stacks[c1].push(h))[c2] == stacks[c2],
        top_or(stacks.insert(c1, stacks[c1].push(h))[c2], fallback) == top_or(
            stacks[c2],
            fallback,
        ),
{
}

} // verus!
