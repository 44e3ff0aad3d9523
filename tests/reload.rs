use hcr::generation::{BindFailure, Generation, InvocationFailure, ReloadFailure};
use hcr::state::WasmState;

const ADD: &str = "(module (func (export \"calc\") (param i64 i64) (result i64) local.get 0 local.get 1 i64.add))";
const MUL: &str = "(module (func (export \"calc\") (param i64 i64) (result i64) local.get 0 local.get 1 i64.mul))";
const DIV: &str = "(module (func (export \"calc\") (param i64 i64) (result i64) local.get 0 local.get 1 i64.div_u))";
const COUNTER: &str = "(module (global $n (mut i64) (i64.const 0)) (func (export \"calc\") (param i64 i64) (result i64) global.get $n local.get 0 i64.add global.set $n global.get $n))";
const CORRUPT: &[u8] = b"\0asm\x01\0\0\0\xff\xff garbage";

fn start(artifact: &str) -> WasmState {
    WasmState::new(artifact.as_bytes(), "calc").unwrap()
}

#[test]
fn end_to_end_reload_scenario() {
    let mut s = start(ADD);
    assert_eq!(s.invoke(2, 4), Ok(6));
    assert_eq!(s.reload(MUL.as_bytes()), Ok(()));
    assert_eq!(s.invoke(2, 4), Ok(8));
    assert_eq!(s.reload(CORRUPT), Err(ReloadFailure::Load));
    assert_eq!(s.invoke(2, 4), Ok(8));
}

#[test]
fn failed_reload_keeps_previous_results() {
    let mut s = start(MUL);
    let before = s.invoke(7, 6);
    assert_eq!(s.reload(b"not a module ("), Err(ReloadFailure::Load));
    assert_eq!(s.invoke(7, 6), before);
    assert_eq!(before, Ok(42));
}

#[test]
fn startup_with_corrupt_artifact_fails() {
    assert!(matches!(WasmState::new(CORRUPT, "calc"), Err(ReloadFailure::Load)));
}

#[test]
fn missing_export_is_a_bind_failure() {
    let mut s = start(ADD);
    let other = "(module (func (export \"other\") (param i64 i64) (result i64) local.get 0))";
    assert_eq!(s.reload(other.as_bytes()), Err(ReloadFailure::Bind(BindFailure::Export)));
    assert_eq!(s.invoke(1, 2), Ok(3));
}

#[test]
fn wrong_signature_is_a_bind_failure() {
    let mut s = start(ADD);
    let narrow = "(module (func (export \"calc\") (param i32 i32) (result i32) local.get 0))";
    assert_eq!(s.reload(narrow.as_bytes()), Err(ReloadFailure::Bind(BindFailure::Export)));
    assert_eq!(s.invoke(1, 2), Ok(3));
}

#[test]
fn trapping_start_is_a_bind_failure() {
    let mut s = start(ADD);
    let trap = "(module (func $s unreachable) (start $s) (func (export \"calc\") (param i64 i64) (result i64) local.get 0))";
    assert_eq!(s.reload(trap.as_bytes()), Err(ReloadFailure::Bind(BindFailure::Instantiation)));
    let needs_import = "(module (import \"env\" \"f\" (func)) (func (export \"calc\") (param i64 i64) (result i64) local.get 0))";
    assert_eq!(s.reload(needs_import.as_bytes()), Err(ReloadFailure::Bind(BindFailure::Instantiation)));
    assert_eq!(s.invoke(1, 2), Ok(3));
}

#[test]
fn trap_fails_only_that_call() {
    let mut s = start(DIV);
    assert_eq!(s.invoke(9, 0), Err(InvocationFailure::Trap));
    assert_eq!(s.invoke(9, 3), Ok(3));
}

#[test]
fn calls_on_one_generation_run_in_sequence() {
    let mut s = start(COUNTER);
    assert_eq!(s.invoke(5, 0), Ok(5));
    assert_eq!(s.invoke(3, 0), Ok(8));
    assert_eq!(s.reload(COUNTER.as_bytes()), Ok(()));
    assert_eq!(s.invoke(1, 0), Ok(1));
}

#[test]
fn prepared_generation_is_installed_whole() {
    let mut s = start(ADD);
    let next = s.prepare(MUL.as_bytes()).unwrap();
    assert_eq!(s.invoke(3, 5), Ok(8));
    s.install(next);
    assert_eq!(s.invoke(3, 5), Ok(15));
    assert_eq!(s.export_name(), "calc");
}

#[test]
fn generation_built_apart_from_the_state() {
    let s = start(ADD);
    let engine = s.engine_handle();
    let mut g = Generation::build(&engine, MUL.as_bytes(), "calc").unwrap();
    assert_eq!(g.invoke(4, 5), Ok(20));
    assert!(matches!(Generation::build(&engine, CORRUPT, "calc"), Err(ReloadFailure::Load)));
}

#[test]
fn arithmetic_wraps_inside_the_unit() {
    let mut s = start(ADD);
    assert_eq!(s.invoke(u64::MAX, 2), Ok(1));
}

#[test]
fn reload_sequence_keeps_last_good_generation() {
    let mut s = start(ADD);
    assert_eq!(s.reload(CORRUPT), Err(ReloadFailure::Load));
    assert_eq!(s.invoke(2, 4), Ok(6));
    assert_eq!(s.reload(MUL.as_bytes()), Ok(()));
    assert_eq!(s.reload(b""), Err(ReloadFailure::Load));
    assert_eq!(s.reload(b"(module)"), Err(ReloadFailure::Bind(BindFailure::Export)));
    assert_eq!(s.reload(CORRUPT), Err(ReloadFailure::Load));
    assert_eq!(s.invoke(2, 4), Ok(8));
    assert_eq!(s.reload(DIV.as_bytes()), Ok(()));
    assert_eq!(s.invoke(8, 4), Ok(2));
}
