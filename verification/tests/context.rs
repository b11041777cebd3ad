use tempo::context::{Acquire, ConnectAttempt, TempoContext, DEFAULT_ADDRESS, DEFAULT_PORT};
use tempo::TempoError;
use tonic::transport::{Channel, Endpoint};

fn attempt_of(ctx: &TempoContext) -> ConnectAttempt {
    match ctx.channel() {
        Ok(Acquire::Connect(attempt)) => attempt,
        Ok(Acquire::Ready(_)) => panic!("a channel is cached"),
        Err(err) => panic!("the target was rejected: {:?}", err),
    }
}

fn lazy_channel(rt: &tokio::runtime::Runtime, attempt: &ConnectAttempt) -> Channel {
    let _guard = rt.enter();
    attempt.endpoint().connect_lazy()
}

fn engine() -> tokio::runtime::Runtime {
    tokio::runtime::Builder::new_current_thread().build().unwrap()
}

fn transport_error() -> tonic::transport::Error {
    match Endpoint::from_shared("http://not a host") {
        Err(err) => err,
        Ok(_) => panic!("the text was accepted"),
    }
}

#[test]
fn test_default_context() {
    let ctx = TempoContext::default();
    assert_eq!(ctx.address(), DEFAULT_ADDRESS);
    assert_eq!(ctx.port(), DEFAULT_PORT);
}

#[test]
fn test_set_server() {
    let mut ctx = TempoContext::default();
    ctx.set_server("192.168.1.100", 12345);
    assert_eq!(ctx.address(), "192.168.1.100");
    assert_eq!(ctx.port(), 12345);
}

#[test]
fn default_target_is_localhost_10001() {
    let ctx = TempoContext::default();
    assert_eq!(ctx.address(), "localhost");
    assert_eq!(ctx.port(), 10001);
    assert_eq!(DEFAULT_ADDRESS, "localhost");
    assert_eq!(DEFAULT_PORT, 10001);
}

#[test]
fn new_context_keeps_its_target_and_caches_nothing() {
    let ctx = TempoContext::new("sim.example", 4242);
    assert_eq!(ctx.address(), "sim.example");
    assert_eq!(ctx.port(), 4242);
    assert!(matches!(ctx.channel(), Ok(Acquire::Connect(_))));
}

#[test]
fn first_acquisition_asks_for_the_default_endpoint() {
    let ctx = TempoContext::default();
    let attempt = attempt_of(&ctx);
    assert_eq!(attempt.address(), "localhost");
    assert_eq!(attempt.port(), 10001);
    let uri = attempt.endpoint().uri();
    assert_eq!(uri.scheme_str(), Some("http"));
    assert_eq!(uri.host(), Some("localhost"));
    assert_eq!(uri.port_u16(), Some(10001));
}

#[test]
fn acquisition_after_configure_targets_the_new_endpoint() {
    let rt = engine();
    let mut ctx = TempoContext::default();
    let attempt = attempt_of(&ctx);
    let channel = lazy_channel(&rt, &attempt);
    assert!(ctx.connected(attempt, Ok(channel)).is_ok());
    assert!(matches!(ctx.channel(), Ok(Acquire::Ready(_))));

    ctx.set_server("192.168.1.100", 12345);
    let attempt = attempt_of(&ctx);
    assert_eq!(attempt.address(), "192.168.1.100");
    assert_eq!(attempt.port(), 12345);
    let uri = attempt.endpoint().uri();
    assert_eq!(uri.host(), Some("192.168.1.100"));
    assert_eq!(uri.port_u16(), Some(12345));
}

#[test]
fn configure_clears_the_cached_channel() {
    let rt = engine();
    let mut ctx = TempoContext::new("localhost", 10001);
    let attempt = attempt_of(&ctx);
    let channel = lazy_channel(&rt, &attempt);
    assert!(ctx.connected(attempt, Ok(channel)).is_ok());
    assert!(matches!(ctx.channel(), Ok(Acquire::Ready(_))));

    ctx.set_server("localhost", 10001);
    assert!(matches!(ctx.channel(), Ok(Acquire::Connect(_))));
}

#[test]
fn consecutive_acquisitions_reuse_the_cached_channel() {
    let rt = engine();
    let mut ctx = TempoContext::default();
    let attempt = attempt_of(&ctx);
    let channel = lazy_channel(&rt, &attempt);
    assert!(ctx.connected(attempt, Ok(channel)).is_ok());
    assert!(matches!(ctx.channel(), Ok(Acquire::Ready(_))));
    assert!(matches!(ctx.channel(), Ok(Acquire::Ready(_))));
    assert_eq!(ctx.address(), "localhost");
    assert_eq!(ctx.port(), 10001);
}

#[test]
fn failed_attempt_is_a_connection_error_and_leaves_the_cache_empty() {
    let mut ctx = TempoContext::default();
    let attempt = attempt_of(&ctx);
    let res = ctx.connected(attempt, Err(transport_error()));
    assert!(matches!(res, Err(TempoError::Connection(_))));
    assert!(matches!(ctx.channel(), Ok(Acquire::Connect(_))));
}

#[test]
fn retry_after_failure_is_cached() {
    let rt = engine();
    let mut ctx = TempoContext::default();
    let attempt = attempt_of(&ctx);
    assert!(ctx.connected(attempt, Err(transport_error())).is_err());
    let attempt = attempt_of(&ctx);
    let channel = lazy_channel(&rt, &attempt);
    assert!(ctx.connected(attempt, Ok(channel)).is_ok());
    assert!(matches!(ctx.channel(), Ok(Acquire::Ready(_))));
}

#[test]
fn channel_for_a_replaced_target_is_handed_over_but_not_cached() {
    let rt = engine();
    let mut ctx = TempoContext::default();
    let attempt = attempt_of(&ctx);
    let channel = lazy_channel(&rt, &attempt);
    ctx.set_server("sim.example", 4242);
    assert!(ctx.connected(attempt, Ok(channel)).is_ok());
    let next = attempt_of(&ctx);
    assert_eq!(next.address(), "sim.example");
    assert_eq!(next.port(), 4242);
}

#[test]
fn channel_for_an_address_that_differs_only_in_port_is_not_cached() {
    let rt = engine();
    let mut ctx = TempoContext::new("localhost", 10001);
    let attempt = attempt_of(&ctx);
    let channel = lazy_channel(&rt, &attempt);
    ctx.set_server("localhost", 10002);
    assert!(ctx.connected(attempt, Ok(channel)).is_ok());
    assert!(matches!(ctx.channel(), Ok(Acquire::Connect(_))));
}

#[test]
fn second_attempt_for_the_same_target_leaves_the_first_cached() {
    let rt = engine();
    let mut ctx = TempoContext::default();
    let first = attempt_of(&ctx);
    let second = attempt_of(&ctx);
    let a = lazy_channel(&rt, &first);
    let b = lazy_channel(&rt, &second);
    assert!(ctx.connected(first, Ok(a)).is_ok());
    assert!(ctx.connected(second, Ok(b)).is_ok());
    assert!(matches!(ctx.channel(), Ok(Acquire::Ready(_))));
}

#[test]
fn failure_after_another_attempt_succeeded_keeps_the_cache() {
    let rt = engine();
    let mut ctx = TempoContext::default();
    let first = attempt_of(&ctx);
    let second = attempt_of(&ctx);
    let a = lazy_channel(&rt, &first);
    assert!(ctx.connected(first, Ok(a)).is_ok());
    let res = ctx.connected(second, Err(transport_error()));
    assert!(matches!(res, Err(TempoError::Connection(_))));
    assert!(matches!(ctx.channel(), Ok(Acquire::Ready(_))));
}

#[test]
fn contexts_with_the_same_target_do_not_share_a_cache() {
    let rt = engine();
    let mut a = TempoContext::new("localhost", 10001);
    let b = TempoContext::new("localhost", 10001);
    let attempt = attempt_of(&a);
    let channel = lazy_channel(&rt, &attempt);
    assert!(a.connected(attempt, Ok(channel)).is_ok());
    assert!(matches!(a.channel(), Ok(Acquire::Ready(_))));
    assert!(matches!(b.channel(), Ok(Acquire::Connect(_))));
}

#[test]
fn target_that_is_no_uri_is_a_connection_error() {
    let ctx = TempoContext::new("not a host", 10001);
    assert!(matches!(ctx.channel(), Err(TempoError::Connection(_))));
    assert_eq!(ctx.address(), "not a host");
    assert_eq!(ctx.port(), 10001);
}

#[test]
fn many_attempts_for_the_same_target_leave_the_first_success_cached() {
    let rt = engine();
    let mut ctx = TempoContext::default();
    let attempts: Vec<ConnectAttempt> = (0..5).map(|_| attempt_of(&ctx)).collect();
    for (i, attempt) in attempts.into_iter().enumerate() {
        if i == 0 {
            let res = ctx.connected(attempt, Err(transport_error()));
            assert!(matches!(res, Err(TempoError::Connection(_))));
            assert!(matches!(ctx.channel(), Ok(Acquire::Connect(_))));
        } else {
            let channel = lazy_channel(&rt, &attempt);
            assert!(ctx.connected(attempt, Ok(channel)).is_ok());
            assert!(matches!(ctx.channel(), Ok(Acquire::Ready(_))));
        }
    }
    assert_eq!(ctx.address(), "localhost");
    assert_eq!(ctx.port(), 10001);
}
