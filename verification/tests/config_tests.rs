//! Tests for the parser configuration and the recursion guard.

use synkit::{Error, ParseConfig, RecursionGuard};

#[test]
fn test_parse_config_defaults() {
    let config = ParseConfig::default();
    assert_eq!(config.max_recursion_depth, 128);
    assert_eq!(config.max_tokens, usize::MAX);
}

#[test]
fn test_parse_config_builder() {
    let config = ParseConfig::new()
        .with_max_recursion_depth(256)
        .with_max_tokens(10000);

    assert_eq!(config.max_recursion_depth, 256);
    assert_eq!(config.max_tokens, 10000);
}

#[test]
fn test_parse_config_disable_recursion() {
    let config = ParseConfig::new().disable_recursion_limit();
    assert_eq!(config.max_recursion_depth, usize::MAX);
}

#[test]
fn test_recursion_guard_basic() {
    let mut guard = RecursionGuard::new();
    assert_eq!(guard.depth(), 0);

    guard.enter(128).unwrap();
    assert_eq!(guard.depth(), 1);

    guard.enter(128).unwrap();
    assert_eq!(guard.depth(), 2);

    guard.exit();
    assert_eq!(guard.depth(), 1);

    guard.exit();
    assert_eq!(guard.depth(), 0);
}

#[test]
fn test_recursion_guard_limit_exceeded() {
    let mut guard = RecursionGuard::new();

    for _ in 0..3 {
        guard.enter(3).unwrap();
    }
    assert_eq!(guard.depth(), 3);

    let result = guard.enter(3);
    assert!(matches!(
        result,
        Err(Error::RecursionLimitExceeded { depth: 4, limit: 3 })
    ));
}

#[test]
fn test_recursion_guard_exit_saturates() {
    let mut guard = RecursionGuard::new();

    guard.exit();
    guard.exit();
    assert_eq!(guard.depth(), 0);
}

#[test]
fn test_recursion_guard_reset() {
    let mut guard = RecursionGuard::new();
    guard.enter(128).unwrap();
    guard.enter(128).unwrap();
    assert_eq!(guard.depth(), 2);

    guard.reset();
    assert_eq!(guard.depth(), 0);
}

#[test]
fn test_error_describe_messages() {
    let e = Error::StreamNotConsumed { remaining: 3 };
    assert_eq!(e.describe(), "stream not fully consumed: 3 tokens remaining");

    let e = Error::RecursionLimitExceeded { depth: 129, limit: 128 };
    assert_eq!(e.describe(), "recursion limit exceeded: depth 129 > limit 128");

    let e = Error::TokenLimitExceeded { consumed: 1001, limit: 1000 };
    assert_eq!(e.describe(), "token limit exceeded: consumed 1001 > limit 1000");
}
