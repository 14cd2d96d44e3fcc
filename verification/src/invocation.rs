//! The per-invocation state machine.
//!
//! One invocation walks `Created -> ModuleLoaded -> EnvironmentReady ->
//! FunctionResolved -> StdioBound -> {Completed | Trapped}`; a failure at
//! any stage moves to `Failed` with the matching error and ends the
//! invocation. Every transition is one-directional and there is no retry.
//!
//! The outside work of each stage (loading through the runtime's
//! validator, allocating an execution environment, resolving the export,
//! binding stdio, transferring control into the guest) is performed by
//! the embedding program; its outcome comes back as a `RuntimeEvent`, and
//! `step` decides the next state for every possible outcome.

use vstd::prelude::*;

use crate::error::EngineError;
use crate::module::is_wasm_header;
use crate::module::check_module_header;

verus! {

/// The exit status reported for a successfully returning guest.
pub const SUCCESS_EXIT_CODE: i32 = 0;

/// The non-zero exit status reported for a trapped guest.
pub const TRAP_EXIT_CODE: i32 = 137;

/// The outside work pending in a given state.
#[derive(Debug, Clone, PartialEq, Eq)]
pub enum RuntimeAction {
    /// Hand the source bytes to the runtime's validator and loader.
    LoadModule,
    /// Allocate the per-invocation execution environment.
    CreateEnvironment,
    /// Look up the requested export by exact name.
    ResolveFunction,
    /// Bind the guest stdio channels to the host streams.
    RedirectStdio,
    /// Transfer control into the guest entrypoint.
    Invoke,
    /// Nothing is pending: the invocation has ended.
    Finish,
}

/// The outcome of one piece of outside work, with the diagnostic of a
/// failing stage.
#[derive(Debug, Clone, PartialEq, Eq)]
pub enum RuntimeEvent {
    ModuleLoaded,
    LoadFailed(String),
    EnvironmentCreated,
    EnvironmentFailed(String),
    FunctionResolved,
    ResolveFailed(String),
    StdioRedirected,
    RedirectFailed(String),
    Returned,
    Trapped(String),
}

/// The state of one invocation.
#[derive(Debug, Clone, PartialEq, Eq)]
pub enum InvocationState {
    /// The header check passed; the module is not loaded yet.
    Created,
    /// The runtime accepted and loaded the module.
    ModuleLoaded,
    /// The execution environment is allocated and bound to the module.
    EnvironmentReady,
    /// The requested export was resolved to a callable function.
    FunctionResolved,
    /// All guest stdio channels are bound to the host streams.
    StdioBound,
    /// The guest returned without fault.
    Completed,
    /// The guest faulted during execution; the diagnostic is kept.
    Trapped(String),
    /// A stage before invocation failed.
    Failed(EngineError),
}

/// Whether the invocation has ended.
pub open spec fn is_terminal(s: InvocationState) -> bool {
    match s {
        InvocationState::Completed => true,
        InvocationState::Trapped(_) => true,
        InvocationState::Failed(_) => true,
        _ => false,
    }
}

/// The outside work pending in state `s`.
pub open spec fn spec_action(s: InvocationState) -> RuntimeAction {
    match s {
        InvocationState::Created => RuntimeAction::LoadModule,
        InvocationState::ModuleLoaded => RuntimeAction::CreateEnvironment,
        InvocationState::EnvironmentReady => RuntimeAction::ResolveFunction,
        InvocationState::FunctionResolved => RuntimeAction::RedirectStdio,
        InvocationState::StdioBound => RuntimeAction::Invoke,
        InvocationState::Completed => RuntimeAction::Finish,
        InvocationState::Trapped(_) => RuntimeAction::Finish,
        InvocationState::Failed(_) => RuntimeAction::Finish,
    }
}

/// Whether event `e` is a possible outcome of the work pending in `s`.
pub open spec fn event_answers(s: InvocationState, e: RuntimeEvent) -> bool {
    match s {
        InvocationState::Created => e matches RuntimeEvent::ModuleLoaded || e matches RuntimeEvent::LoadFailed(_),
        InvocationState::ModuleLoaded => e matches RuntimeEvent::EnvironmentCreated || e matches RuntimeEvent::EnvironmentFailed(_),
        InvocationState::EnvironmentReady => e matches RuntimeEvent::FunctionResolved || e matches RuntimeEvent::ResolveFailed(_),
        InvocationState::FunctionResolved => e matches RuntimeEvent::StdioRedirected || e matches RuntimeEvent::RedirectFailed(_),
        InvocationState::StdioBound => e matches RuntimeEvent::Returned || e matches RuntimeEvent::Trapped(_),
        _ => false,
    }
}

/// The transition relation of one invocation: the state after the work
/// pending in `s` came back with outcome `e`. For a pair that
/// `event_answers` rules out, the state is left unchanged.
pub open spec fn spec_step(s: InvocationState, e: RuntimeEvent) -> InvocationState {
    match (s, e) {
        (InvocationState::Created, RuntimeEvent::ModuleLoaded) => InvocationState::ModuleLoaded,
        (InvocationState::Created, RuntimeEvent::LoadFailed(d)) => InvocationState::Failed(
            EngineError::LoadError(d),
        ),
        (InvocationState::ModuleLoaded, RuntimeEvent::EnvironmentCreated) => InvocationState::EnvironmentReady,
        (InvocationState::ModuleLoaded, RuntimeEvent::EnvironmentFailed(d)) => InvocationState::Failed(
            EngineError::ResourceError(d),
        ),
        (InvocationState::EnvironmentReady, RuntimeEvent::FunctionResolved) => InvocationState::FunctionResolved,
        (InvocationState::EnvironmentReady, RuntimeEvent::ResolveFailed(d)) => InvocationState::Failed(
            EngineError::LookupError(d),
        ),
        (InvocationState::FunctionResolved, RuntimeEvent::StdioRedirected) => InvocationState::StdioBound,
        (InvocationState::FunctionResolved, RuntimeEvent::RedirectFailed(d)) => InvocationState::Failed(
            EngineError::IOError(d),
        ),
        (InvocationState::StdioBound, RuntimeEvent::Returned) => InvocationState::Completed,
        (InvocationState::StdioBound, RuntimeEvent::Trapped(d)) => InvocationState::Trapped(d),
        (s2, _) => s2,
    }
}

/// The invocation result read off a terminal state: exit code zero for a
/// clean return, the non-zero trap code for a guest fault, and the
/// stage's error otherwise.
pub open spec fn spec_outcome(s: InvocationState) -> Result<i32, EngineError> {
    match s {
        InvocationState::Completed => Ok(SUCCESS_EXIT_CODE),
        InvocationState::Trapped(_) => Ok(TRAP_EXIT_CODE),
        InvocationState::Failed(e) => Err(e),
        _ => Ok(SUCCESS_EXIT_CODE),
    }
}

/// Begins an invocation for the given source bytes: the preamble check
/// runs first, and bytes without a well-formed header move straight to
/// `Failed` with a `LoadError`, before any runtime work is pending.
pub fn start_invocation(source: &[u8]) -> (r: InvocationState)
    ensures
        is_wasm_header(source@) ==> r == InvocationState::Created,
        !is_wasm_header(source@) ==> (r matches InvocationState::Failed(e) && e matches
            EngineError::LoadError(_)),
{
    match check_module_header(source) {
        Ok(()) => InvocationState::Created,
        Err(e) => InvocationState::Failed(e),
    }
}

/// The outside work pending in `*s`.
pub fn next_action(s: &InvocationState) -> (r: RuntimeAction)
    ensures
        r == spec_action(*s),
{
    match s {
        InvocationState::Created => RuntimeAction::LoadModule,
        InvocationState::ModuleLoaded => RuntimeAction::CreateEnvironment,
        InvocationState::EnvironmentReady => RuntimeAction::ResolveFunction,
        InvocationState::FunctionResolved => RuntimeAction::RedirectStdio,
        InvocationState::StdioBound => RuntimeAction::Invoke,
        InvocationState::Completed => RuntimeAction::Finish,
        InvocationState::Trapped(_) => RuntimeAction::Finish,
        InvocationState::Failed(_) => RuntimeAction::Finish,
    }
}

/// Whether event `e` is a possible outcome of the work pending in `*s`.
pub fn event_matches(s: &InvocationState, e: &RuntimeEvent) -> (r: bool)
    ensures
        r == event_answers(*s, *e),
{
    match s {
        InvocationState::Created => matches!(e, RuntimeEvent::ModuleLoaded | RuntimeEvent::LoadFailed(_)),
        InvocationState::ModuleLoaded => matches!(e, RuntimeEvent::EnvironmentCreated | RuntimeEvent::EnvironmentFailed(_)),
        InvocationState::EnvironmentReady => matches!(e, RuntimeEvent::FunctionResolved | RuntimeEvent::ResolveFailed(_)),
        InvocationState::FunctionResolved => matches!(e, RuntimeEvent::StdioRedirected | RuntimeEvent::RedirectFailed(_)),
        InvocationState::StdioBound => matches!(e, RuntimeEvent::Returned | RuntimeEvent::Trapped(_)),
        _ => false,
    }
}

/// Advances the invocation by one stage outcome.
pub fn step(s: InvocationState, e: RuntimeEvent) -> (r: InvocationState)
    requires
        event_answers(s, e),
    ensures
        r == spec_step(s, e),
{
    match (s, e) {
        (InvocationState::Created, RuntimeEvent::ModuleLoaded) => InvocationState::ModuleLoaded,
        (InvocationState::Created, RuntimeEvent::LoadFailed(d)) => InvocationState::Failed(
            EngineError::LoadError(d),
        ),
        (InvocationState::ModuleLoaded, RuntimeEvent::EnvironmentCreated) => InvocationState::EnvironmentReady,
        (InvocationState::ModuleLoaded, RuntimeEvent::EnvironmentFailed(d)) => InvocationState::Failed(
            EngineError::ResourceError(d),
        ),
        (InvocationState::EnvironmentReady, RuntimeEvent::FunctionResolved) => InvocationState::FunctionResolved,
        (InvocationState::EnvironmentReady, RuntimeEvent::ResolveFailed(d)) => InvocationState::Failed(
            EngineError::LookupError(d),
        ),
        (InvocationState::FunctionResolved, RuntimeEvent::StdioRedirected) => InvocationState::StdioBound,
        (InvocationState::FunctionResolved, RuntimeEvent::RedirectFailed(d)) => InvocationState::Failed(
            EngineError::IOError(d),
        ),
        (InvocationState::StdioBound, RuntimeEvent::Returned) => InvocationState::Completed,
        (InvocationState::StdioBound, RuntimeEvent::Trapped(d)) => InvocationState::Trapped(d),
        (_, _) => unreached(),
    }
}

/// Whether the invocation has ended.
pub fn is_finished(s: &InvocationState) -> (r: bool)
    ensures
        r == is_terminal(*s),
{
    matches!(s, InvocationState::Completed | InvocationState::Trapped(_) | InvocationState::Failed(_))
}

/// Reads the invocation result off a terminal state.
pub fn outcome(s: InvocationState) -> (r: Result<i32, EngineError>)
    requires
        is_terminal(s),
    ensures
        r == spec_outcome(s),
{
    match s {
        InvocationState::Completed => Ok(SUCCESS_EXIT_CODE),
        InvocationState::Trapped(_) => Ok(TRAP_EXIT_CODE),
        InvocationState::Failed(e) => Err(e),
        _ => unreached(),
    }
}

/// How far along its walk an invocation is; every terminal state is
/// past every pending one.
pub open spec fn stage_rank(s: InvocationState) -> nat {
    match s {
        InvocationState::Created => 0,
        InvocationState::ModuleLoaded => 1,
        InvocationState::EnvironmentReady => 2,
        InvocationState::FunctionResolved => 3,
        InvocationState::StdioBound => 4,
        InvocationState::Completed => 5,
        InvocationState::Trapped(_) => 5,
        InvocationState::Failed(_) => 5,
    }
}

/// Transitions are one-directional and irreversible: every stage
/// outcome moves the invocation strictly forward, so no state recurs
/// within one invocation.
pub proof fn lemma_transitions_advance(s: InvocationState, e: RuntimeEvent)
    requires
        event_answers(s, e),
    ensures
        stage_rank(spec_step(s, e)) > stage_rank(s),
{
}

/// An ended invocation pends no further work and answers no further
/// event: failure at any stage terminates the invocation, with no retry
/// and no resumption.
pub proof fn lemma_terminal_state_pends_nothing(s: InvocationState)
    requires
        is_terminal(s),
    ensures
        spec_action(s) == RuntimeAction::Finish,
        forall|e: RuntimeEvent| !event_answers(s, e),
{
}

/// A source the runtime's validator rejects ends the invocation as a
/// `LoadError` at once: the failed state is terminal, so no environment
/// is created, no export is resolved and nothing is invoked.
pub proof fn lemma_rejected_module_ends_invocation(d: String)
    ensures
        spec_step(InvocationState::Created, RuntimeEvent::LoadFailed(d)) == InvocationState::Failed(
            EngineError::LoadError(d),
        ),
        is_terminal(spec_step(InvocationState::Created, RuntimeEvent::LoadFailed(d))),
        spec_outcome(spec_step(InvocationState::Created, RuntimeEvent::LoadFailed(d))) == Result::<
            i32,
            EngineError,
        >::Err(EngineError::LoadError(d)),
{
}

/// A module that lacks the requested export ends the invocation as a
/// `LookupError`: the failed state is terminal, so nothing is ever
/// invoked in its place.
pub proof fn lemma_missing_export_ends_invocation(d: String)
    ensures
        spec_step(InvocationState::EnvironmentReady, RuntimeEvent::ResolveFailed(d))
            == InvocationState::Failed(EngineError::LookupError(d)),
        is_terminal(spec_step(InvocationState::EnvironmentReady, RuntimeEvent::ResolveFailed(d))),
        spec_outcome(spec_step(InvocationState::EnvironmentReady, RuntimeEvent::ResolveFailed(d)))
            == Result::<i32, EngineError>::Err(EngineError::LookupError(d)),
{
}

/// A run whose five stages all succeed completes with exit code zero.
pub proof fn lemma_clean_run_exits_zero()
    ensures
        ({
            let end = spec_step(
                spec_step(
                    spec_step(
                        spec_step(
                            spec_step(InvocationState::Created, RuntimeEvent::ModuleLoaded),
                            RuntimeEvent::EnvironmentCreated,
                        ),
                        RuntimeEvent::FunctionResolved,
                    ),
                    RuntimeEvent::StdioRedirected,
                ),
                RuntimeEvent::Returned,
            );
            end == InvocationState::Completed && spec_outcome(end) == Result::<
                i32,
                EngineError,
            >::Ok(0)
        }),
{
}

/// A run whose guest traps during execution ends in the trapped state
/// and reports the non-zero trap exit status — a status, not an
/// adapter-level error.
pub proof fn lemma_trapped_run_exits_nonzero(d: String)
    ensures
        ({
            let end = spec_step(
                spec_step(
                    spec_step(
                        spec_step(
                            spec_step(InvocationState::Created, RuntimeEvent::ModuleLoaded),
                            RuntimeEvent::EnvironmentCreated,
                        ),
                        RuntimeEvent::FunctionResolved,
                    ),
                    RuntimeEvent::StdioRedirected,
                ),
                RuntimeEvent::Trapped(d),
            );
            end == InvocationState::Trapped(d) && spec_outcome(end) == Result::<
                i32,
                EngineError,
            >::Ok(TRAP_EXIT_CODE) && TRAP_EXIT_CODE != 0
        }),
{
}

/// Stdio binding is never left partly applied around invocation: the
/// invoke stage pends only in the state every stdio channel is bound in,
/// that state is reached only by the successful redirect outcome, and a
/// failed redirect ends the invocation as an `IOError` before anything
/// is invoked.
pub proof fn lemma_invoke_only_after_stdio_bound(s: InvocationState, e: RuntimeEvent, d: String)
    ensures
        spec_action(s) == RuntimeAction::Invoke ==> s == InvocationState::StdioBound,
        event_answers(s, e) && spec_step(s, e) == InvocationState::StdioBound ==> s
            == InvocationState::FunctionResolved && e == RuntimeEvent::StdioRedirected,
        spec_step(InvocationState::FunctionResolved, RuntimeEvent::RedirectFailed(d))
            == InvocationState::Failed(EngineError::IOError(d)),
        is_terminal(spec_step(InvocationState::FunctionResolved, RuntimeEvent::RedirectFailed(d))),
{
}

} // verus!
