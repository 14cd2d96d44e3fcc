use wamr_engine::error::EngineError;
use wamr_engine::invocation::InvocationState;
use wamr_engine::invocation::RuntimeAction;
use wamr_engine::invocation::RuntimeEvent;
use wamr_engine::invocation::SUCCESS_EXIT_CODE;
use wamr_engine::invocation::TRAP_EXIT_CODE;
use wamr_engine::invocation::event_matches;
use wamr_engine::invocation::is_finished;
use wamr_engine::invocation::next_action;
use wamr_engine::invocation::outcome;
use wamr_engine::invocation::start_invocation;
use wamr_engine::invocation::step;
use wamr_engine::module::check_module_header;

fn wasm_header() -> Vec<u8> {
    vec![0x00, 0x61, 0x73, 0x6d, 0x01, 0x00, 0x00, 0x00]
}

fn walk(events: Vec<RuntimeEvent>) -> InvocationState {
    let mut state = start_invocation(&wasm_header());
    for event in events {
        assert!(event_matches(&state, &event));
        state = step(state, event);
    }
    state
}

#[test]
fn header_check_accepts_the_preamble() {
    assert!(check_module_header(&wasm_header()).is_ok());
}

#[test]
fn header_check_rejects_empty_bytes() {
    let err = check_module_header(&[]).unwrap_err();
    assert!(matches!(err, EngineError::LoadError(_)));
}

#[test]
fn header_check_rejects_a_corrupted_magic() {
    let mut bytes = wasm_header();
    bytes[3] ^= 0x01;
    let err = check_module_header(&bytes).unwrap_err();
    assert!(matches!(err, EngineError::LoadError(_)));
}

#[test]
fn header_check_rejects_a_wrong_version_word() {
    let mut bytes = wasm_header();
    bytes[4] = 0x02;
    let err = check_module_header(&bytes).unwrap_err();
    assert!(matches!(err, EngineError::LoadError(_)));
}

#[test]
fn malformed_source_never_reaches_resolution() {
    let state = start_invocation(&[]);
    assert!(matches!(state, InvocationState::Failed(EngineError::LoadError(_))));
    assert!(is_finished(&state));
    assert_eq!(next_action(&state), RuntimeAction::Finish);
    assert!(matches!(outcome(state), Err(EngineError::LoadError(_))));
}

#[test]
fn rejected_load_is_a_load_error() {
    let state = walk(vec![RuntimeEvent::LoadFailed("unknown section".to_string())]);
    assert_eq!(next_action(&state), RuntimeAction::Finish);
    match outcome(state) {
        Err(EngineError::LoadError(d)) => assert_eq!(d, "unknown section"),
        other => panic!("unexpected outcome: {other:?}"),
    }
}

#[test]
fn environment_failure_is_a_resource_error() {
    let state = walk(vec![
        RuntimeEvent::ModuleLoaded,
        RuntimeEvent::EnvironmentFailed("memory limit exceeded".to_string()),
    ]);
    assert!(matches!(outcome(state), Err(EngineError::ResourceError(_))));
}

#[test]
fn missing_export_is_a_lookup_error_and_nothing_is_invoked() {
    let state = walk(vec![
        RuntimeEvent::ModuleLoaded,
        RuntimeEvent::EnvironmentCreated,
        RuntimeEvent::ResolveFailed("no export named _start".to_string()),
    ]);
    assert!(is_finished(&state));
    assert_eq!(next_action(&state), RuntimeAction::Finish);
    assert!(matches!(outcome(state), Err(EngineError::LookupError(_))));
}

#[test]
fn clean_run_exits_zero() {
    let state = walk(vec![
        RuntimeEvent::ModuleLoaded,
        RuntimeEvent::EnvironmentCreated,
        RuntimeEvent::FunctionResolved,
        RuntimeEvent::StdioRedirected,
        RuntimeEvent::Returned,
    ]);
    assert_eq!(state, InvocationState::Completed);
    assert_eq!(outcome(state), Ok(SUCCESS_EXIT_CODE));
    assert_eq!(SUCCESS_EXIT_CODE, 0);
}

#[test]
fn trapped_run_reports_a_nonzero_status() {
    let state = walk(vec![
        RuntimeEvent::ModuleLoaded,
        RuntimeEvent::EnvironmentCreated,
        RuntimeEvent::FunctionResolved,
        RuntimeEvent::StdioRedirected,
        RuntimeEvent::Trapped("unreachable instruction".to_string()),
    ]);
    assert_eq!(state, InvocationState::Trapped("unreachable instruction".to_string()));
    assert_eq!(outcome(state), Ok(TRAP_EXIT_CODE));
    assert_ne!(TRAP_EXIT_CODE, 0);
}

#[test]
fn invoke_pends_only_once_stdio_is_fully_bound() {
    let resolved = walk(vec![
        RuntimeEvent::ModuleLoaded,
        RuntimeEvent::EnvironmentCreated,
        RuntimeEvent::FunctionResolved,
    ]);
    assert_eq!(next_action(&resolved), RuntimeAction::RedirectStdio);
    let bound = step(resolved, RuntimeEvent::StdioRedirected);
    assert_eq!(bound, InvocationState::StdioBound);
    assert_eq!(next_action(&bound), RuntimeAction::Invoke);
}

#[test]
fn redirect_failure_ends_the_invocation_before_invoke() {
    let state = walk(vec![
        RuntimeEvent::ModuleLoaded,
        RuntimeEvent::EnvironmentCreated,
        RuntimeEvent::FunctionResolved,
        RuntimeEvent::RedirectFailed("pipe closed".to_string()),
    ]);
    assert!(is_finished(&state));
    assert_eq!(next_action(&state), RuntimeAction::Finish);
    assert!(matches!(outcome(state), Err(EngineError::IOError(_))));
}

#[test]
fn events_answer_only_their_own_stage() {
    let created = start_invocation(&wasm_header());
    assert_eq!(created, InvocationState::Created);
    assert!(event_matches(&created, &RuntimeEvent::ModuleLoaded));
    assert!(!event_matches(&created, &RuntimeEvent::Returned));
    assert!(!event_matches(&created, &RuntimeEvent::Trapped("fault".to_string())));
    let done = InvocationState::Completed;
    assert!(!event_matches(&done, &RuntimeEvent::ModuleLoaded));
}
