use std::future::Future;
use std::pin::Pin;
use std::time::Instant;

use factorial_paths::chain::{enter, resume, Step};
use factorial_paths::factorial;

fn factorial_async(n: u64) -> Pin<Box<dyn Future<Output = u64> + Send>> {
    Box::pin(async move {
        match enter(n) {
            Step::Return(value) => value,
            Step::Await(nested) => resume(n, factorial_async(nested).await),
        }
    })
}

#[test]
fn test_factorial_async() {
    let n = 10;
    let start_time_async = Instant::now();
    let result = factorial_async(n);
    let elapsed_time_async = start_time_async.elapsed();

    assert_eq!(
        tokio::runtime::Runtime::new().unwrap().block_on(result),
        3_628_800
    );
    assert!(elapsed_time_async < std::time::Duration::from_secs(1));
}

#[test]
fn test_factorial_thread() {
    let n = 10;
    let start_time_thread = Instant::now();
    let result = factorial(n);
    let elapsed_time_thread = start_time_thread.elapsed();

    assert_eq!(result, 3_628_800);
    assert!(elapsed_time_thread < std::time::Duration::from_secs(1));
}

#[test]
fn both_paths_finish_ten_within_a_second() {
    let runtime = tokio::runtime::Runtime::new().unwrap();
    let start_async = Instant::now();
    let awaited = runtime.block_on(factorial_async(10));
    let elapsed_async = start_async.elapsed();

    let start_plain = Instant::now();
    let plain = factorial(10);
    let elapsed_plain = start_plain.elapsed();

    assert_eq!(awaited, 3_628_800);
    assert_eq!(plain, 3_628_800);
    assert!(elapsed_async < std::time::Duration::from_secs(1));
    assert!(elapsed_plain < std::time::Duration::from_secs(1));
}

#[test]
fn awaited_chain_agrees_with_recursion() {
    let runtime = tokio::runtime::Runtime::new().unwrap();
    for n in 0..=30u64 {
        assert_eq!(runtime.block_on(factorial_async(n)), factorial(n));
    }
}

#[test]
fn awaited_chain_for_zero_is_one() {
    let runtime = tokio::runtime::Runtime::new().unwrap();
    assert_eq!(runtime.block_on(factorial_async(0)), 1);
}
