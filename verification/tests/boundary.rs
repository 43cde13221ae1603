use std::collections::HashMap;

use circom_prover::witness::WitnessFn;
use circuit_boundary::artifacts::ArtifactBundle;
use circuit_boundary::prover::{process_string, BoundaryError, ProverHandle};
use circuit_boundary::runtime::{Runtime, WorkerPool};
use num_bigint::BigInt;

fn zero_witness(_inputs: HashMap<String, Vec<BigInt>>) -> Vec<BigInt> {
    Vec::new()
}

fn test_handle() -> ProverHandle {
    ProverHandle::new(
        WitnessFn::RustWitness(zero_witness),
        String::from("no-such-file.zkey"),
    )
}

#[test]
fn bundle_keeps_bytes_unchanged() {
    let bundle = ArtifactBundle::new(vec![1, 2, 3], vec![4, 5], vec![]);
    assert_eq!(bundle.proving_key().as_slice(), &[1, 2, 3]);
    assert_eq!(bundle.graph().as_slice(), &[4, 5]);
    assert!(bundle.constraint_system().is_empty());
}

#[test]
fn fresh_runtime_is_not_ready() {
    let rt = Runtime::new(false);
    assert!(!rt.is_ready());
    let rt_mt = Runtime::new(true);
    assert!(!rt_mt.is_ready());
}

#[test]
fn hook_alone_readies_a_single_threaded_build() {
    let mut rt = Runtime::new(false);
    rt.install_diagnostic_hook();
    assert!(rt.is_ready());
}

#[test]
fn hook_installation_is_idempotent() {
    let mut once = Runtime::new(false);
    once.install_diagnostic_hook();
    let mut twice = Runtime::new(false);
    twice.install_diagnostic_hook();
    twice.install_diagnostic_hook();
    assert_eq!(once.is_ready(), twice.is_ready());
    let r_once = process_string(&once, &test_handle(), "");
    let r_twice = process_string(&twice, &test_handle(), "");
    assert_eq!(r_once, r_twice);
}

#[test]
fn pool_is_required_before_ready_on_multithreaded_build() {
    let mut rt = Runtime::new(true);
    rt.install_diagnostic_hook();
    assert!(!rt.is_ready());
    rt.init_worker_pool(WorkerPool::new(4));
    assert!(rt.is_ready());
}

#[test]
fn bootstrap_steps_commute() {
    let mut a = Runtime::new(true);
    a.install_diagnostic_hook();
    a.init_worker_pool(WorkerPool::new(2));
    let mut b = Runtime::new(true);
    b.init_worker_pool(WorkerPool::new(2));
    b.install_diagnostic_hook();
    assert!(a.is_ready());
    assert!(b.is_ready());
}

#[test]
fn worker_pool_keeps_its_thread_count() {
    let pool = WorkerPool::new(3);
    assert_eq!(pool.threads(), 3);
    let single = WorkerPool::new(1);
    assert_eq!(single.threads(), 1);
}

#[test]
fn process_before_bootstrap_reports_not_ready() {
    let rt = Runtime::new(false);
    let r = process_string(&rt, &test_handle(), "{\"a\":[\"1\"]}");
    assert_eq!(r, Err(BoundaryError::NotReady));
}

#[test]
fn process_before_pool_completion_reports_not_ready() {
    let mut rt = Runtime::new(true);
    rt.install_diagnostic_hook();
    let r = process_string(&rt, &test_handle(), "{\"a\":[\"1\"]}");
    assert_eq!(r, Err(BoundaryError::NotReady));
}

#[test]
fn empty_input_reports_malformed() {
    let mut rt = Runtime::new(false);
    rt.install_diagnostic_hook();
    let r = process_string(&rt, &test_handle(), "");
    assert_eq!(r, Err(BoundaryError::MalformedInput));
}

#[test]
fn non_json_input_reports_malformed() {
    let mut rt = Runtime::new(false);
    rt.install_diagnostic_hook();
    let r = process_string(&rt, &test_handle(), "not a payload");
    assert_eq!(r, Err(BoundaryError::MalformedInput));
}

#[test]
fn non_decimal_signal_value_reports_malformed() {
    let mut rt = Runtime::new(false);
    rt.install_diagnostic_hook();
    let r = process_string(&rt, &test_handle(), "{\"a\":[\"12\",\"x3\"]}");
    assert_eq!(r, Err(BoundaryError::MalformedInput));
}

#[test]
fn not_ready_takes_precedence_over_malformed_input() {
    let rt = Runtime::new(true);
    let r = process_string(&rt, &test_handle(), "");
    assert_eq!(r, Err(BoundaryError::NotReady));
}
