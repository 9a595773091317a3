//! The replay-body accounting: wrapping against the ceiling, the capped
//! status over a body's lifetime, and duplication.

use proxy_retry::replay::ReplayBody;

#[test]
fn wrapping_fails_over_for_known_oversized_bodies() {
    // A body already known to exceed the ceiling comes back unwrapped.
    match ReplayBody::try_new(b"payload".to_vec(), 2049, 2048) {
        Err(original) => assert_eq!(original, b"payload".to_vec()),
        Ok(_) => panic!("a known-oversized body must not be wrapped"),
    }
    // At the ceiling exactly, wrapping still succeeds.
    assert!(ReplayBody::try_new(b"payload".to_vec(), 2048, 2048).is_ok());
}

#[test]
fn capped_status_over_a_body_lifetime() {
    let mut body = ReplayBody::try_new(b"stream".to_vec(), 0, 10).ok().unwrap();
    // While streaming within the ceiling, the fate is unknown.
    assert_eq!(body.is_capped(), None);
    body.record_chunk(6);
    assert_eq!(body.is_capped(), None);
    // Completing within the ceiling settles it: not capped.
    body.record_chunk(4);
    body.mark_complete();
    assert_eq!(body.is_capped(), Some(false));

    // One byte past the ceiling caps the body for good.
    let mut body = ReplayBody::try_new(Vec::<u8>::new(), 0, 10).ok().unwrap();
    body.record_chunk(10);
    assert_eq!(body.is_capped(), None);
    body.record_chunk(1);
    assert_eq!(body.is_capped(), Some(true));
    body.mark_complete();
    assert_eq!(body.is_capped(), Some(true));
}

#[test]
fn duplicate_carries_the_accounting_over() {
    let mut body = ReplayBody::try_new(b"abc".to_vec(), 3, 100).ok().unwrap();
    body.record_chunk(3);
    body.mark_complete();
    let copy = body.duplicate();
    assert_eq!(copy.is_capped(), Some(false));
    assert_eq!(copy.inner, b"abc".to_vec());
    assert_eq!(copy.max_bytes, 100);
    assert_eq!(copy.buffered, 3);
}
