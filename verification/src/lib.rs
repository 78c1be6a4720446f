//! Scoped, asynchronous structured logging core.
//!
//! The crate verifies the heart of a scope-based logging system: a
//! per-execution-context stack of logger handles with guard-enforced LIFO
//! discipline, a process-wide fallback logger with scoped override, a bounded
//! asynchronous offload engine with explicit overflow accounting and
//! flush-on-teardown, a serialization adapter that produces owned record
//! snapshots, and a mutex adapter that surfaces lock poisoning.
//!
//! Each execution context (an OS thread or a cooperatively scheduled task)
//! owns one [`ScopeStack`]; the storage that keys a stack to its context, the
//! worker thread, and the concrete terminal sinks are unverified wiring that
//! lives outside this crate and drives these types.

use vstd::prelude::*;

pub mod async_drain;
pub mod channel;
pub mod engine_laws;
pub mod kv;
pub mod level;
pub mod logger;
pub mod mutex_drain;
pub mod record;
pub mod scope_laws;

use crate::logger::LoggerHandle;
use crate::logger::handle_eq;

verus! {

/// The stack of active logger handles of one execution context. A context
/// never shares its stack with another context.
pub struct ScopeStack {
    /// The active handles, outermost scope first.
    pub frames: Vec<LoggerHandle>,
}

/// The process-wide fallback logger: what `logger` resolves to in a context
/// whose stack is empty, so that lookup never fails. `fallback` is the
/// environment-derived default that `current` is restored to when an
/// overriding scope exits.
pub struct GlobalLogger {
    /// The fallback handle currently in force.
    pub current: LoggerHandle,
    /// The default that `current` returns to when an override's scope ends.
    pub fallback: LoggerHandle,
}

/// The top of `frames`, or `fallback` when the stack is empty.
pub open spec fn top_or(frames: Seq<LoggerHandle>, fallback: LoggerHandle) -> LoggerHandle {
    if frames.len() > 0 {
        frames.last()
    } else {
        fallback
    }
}

/// The handle that `logger` resolves to for a context with stack `stack`
/// under the process-wide state `global`.
pub open spec fn current_logger_spec(stack: ScopeStack, global: GlobalLogger) -> LoggerHandle {
    top_or(stack.frames@, global.current)
}

impl ScopeStack {
    /// The stack a fresh execution context starts with: no frames, so lookup
    /// resolves to the process-wide fallback.
    pub fn new() -> (s: Self)
        ensures
            s.frames@ == Seq::<LoggerHandle>::empty(),
    {
        ScopeStack { frames: Vec::new() }
    }
}

impl GlobalLogger {
    /// Installs `fallback` (typically derived from the environment at
    /// startup) as both the default and the handle currently in force.
    pub fn new(fallback: LoggerHandle) -> (g: Self)
        ensures
            handle_eq(g.current, fallback),
            g.fallback == fallback,
    {
        GlobalLogger { current: fallback.clone(), fallback }
    }
}

/// Scope logger guard: owns the fact that it pushed one frame, and pops
/// exactly that frame when handed back. The depth it remembers makes a pop
/// under remaining inner scopes unmeetable, enforcing LIFO nesting.
pub struct ScopeGuard {
    /// The stack depth right after this guard's push: the frame it owns is
    /// the one at `depth - 1`.
    pub depth: Ghost<nat>,
}

/// Pushes `logger` onto this context's stack for the following logging
/// scope; the returned guard pops exactly this frame when handed back.
pub fn set_logger(stack: &mut ScopeStack, logger: LoggerHandle) -> (guard: ScopeGuard)
    ensures
        final(stack).frames@ == old(stack).frames@.push(logger),
        guard.depth@ == final(stack).frames@.len(),
{
    stack.frames.push(logger);
    let ghost depth = stack.frames@.len();
    ScopeGuard { depth: Ghost(depth) }
}

impl ScopeGuard {
    /// Pops the one frame this guard's push added. The guard is consumed,
    /// and the stack must be back at the guard's own depth: every scope
    /// opened inside it has already been popped.
    pub fn pop(self, stack: &mut ScopeStack)
        requires
            old(stack).frames@.len() == self.depth@,
            self.depth@ >= 1,
        ensures
            final(stack).frames@ == old(stack).frames@.drop_last(),
    {
        let _ = stack.frames.pop();
    }
}

/// A copy of the top-of-stack handle of the current context, or of the
/// process-wide fallback when the context's stack is empty. Lookup never
/// fails: logging must not be a source of new failures in caller code.
pub fn logger(stack: &ScopeStack, global: &GlobalLogger) -> (l: LoggerHandle)
    ensures
        handle_eq(l, current_logger_spec(*stack, *global)),
{
    if stack.frames.len() > 0 {
        stack.frames[stack.frames.len() - 1].clone()
    } else {
        global.current.clone()
    }
}

/// Invokes `f` with a borrow of the current handle (top of stack, or the
/// process-wide fallback when the stack is empty), without copying it.
pub fn with_logger<F, R>(stack: &ScopeStack, global: &GlobalLogger, f: F) -> (r: R) where
    F: FnOnce(&LoggerHandle) -> R,

    requires
        call_requires(f, (&current_logger_spec(*stack, *global),)),
    ensures
        call_ensures(f, (&current_logger_spec(*stack, *global),), r),
{
    if stack.frames.len() > 0 {
        f(&stack.frames[stack.frames.len() - 1])
    } else {
        f(&global.current)
    }
}

/// Guard for a process-wide fallback override: handing it back restores the
/// environment-derived default, so an override never outlives the context
/// scope that installed it.
pub struct GlobalLoggerGuard {
}

/// Replaces the process-wide fallback logger with `l` for the duration of
/// the calling context's current scope. The returned guard, handed back when
/// that scope ends, restores the environment-derived default.
pub fn set_global_logger(global: &mut GlobalLogger, l: LoggerHandle) -> (guard: GlobalLoggerGuard)
    ensures
        final(global).current == l,
        final(global).fallback == old(global).fallback,
{
    global.current = l;
    GlobalLoggerGuard {  }
}

impl GlobalLoggerGuard {
    /// Restores the process-wide fallback to the environment-derived
    /// default. Runs when the overriding context scope exits.
    pub fn restore(self, global: &mut GlobalLogger)
        ensures
            handle_eq(final(global).current, old(global).fallback),
            final(global).fallback == old(global).fallback,
    {
        global.current = global.fallback.clone();
    }
}

} // verus!
