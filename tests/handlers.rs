use hash_server::digest::{hash_chain, CHAIN_LENGTH};
use hash_server::handler::{
    dispatch, handle_request, hash_handler, hash_response, health_handler, not_found, Reply,
    Route, SOURCE,
};
use hash_server::seed::seed_input;

fn is_lower_hex_64(s: &str) -> bool {
    s.len() == 64 && s.chars().all(|c| c.is_ascii_digit() || ('a'..='f').contains(&c))
}

fn hex(bytes: &[u8]) -> String {
    bytes.iter().map(|b| format!("{:02x}", b)).collect()
}

#[test]
fn dispatch_matches_exact_paths() {
    assert_eq!(dispatch("/hash"), Route::Hash);
    assert_eq!(dispatch("/health"), Route::Health);
}

#[test]
fn dispatch_sends_other_paths_to_not_found() {
    for path in ["", "/", "/hash/", "/HASH", "/healthz", "/health/", "hash", "/hash?x=1", "/h"] {
        assert_eq!(dispatch(path), Route::NotFound, "path {:?}", path);
    }
}

#[test]
fn health_reply_is_ok() {
    let r = health_handler();
    assert_eq!(r.status, 200);
    assert_eq!(r.body, "OK");
}

#[test]
fn not_found_reply() {
    let r = not_found();
    assert_eq!(r.status, 404);
    assert_eq!(r.body, "Not Found");
}

#[test]
fn health_request_is_exactly_ok() {
    for nanos in [0u128, 1, 1_700_000_000_000_000_000] {
        match handle_request("/health", nanos) {
            Reply::Text(t) => {
                assert_eq!(t.status, 200);
                assert_eq!(t.body, "OK");
            }
            other => panic!("unexpected reply {:?}", other),
        }
    }
}

#[test]
fn unknown_request_is_not_found() {
    for path in ["/", "/missing", "/hash/extra", "/Health"] {
        let r = handle_request(path, 7);
        assert_eq!(r.status(), 404);
        match r {
            Reply::Text(t) => assert_eq!(t.body, "Not Found"),
            other => panic!("unexpected reply {:?}", other),
        }
    }
}

#[test]
fn hash_request_gives_digest_text() {
    let r = handle_request("/hash", 0);
    assert_eq!(r.status(), 200);
    match r {
        Reply::Digest(h) => {
            assert_eq!(h, "bb6264c4eacd8b48b540421e307d0dacd37a23338e5f13896c7eb7a97a67ffe1");
        }
        other => panic!("unexpected reply {:?}", other),
    }
}

#[test]
fn seed_text_of_timestamps() {
    assert_eq!(seed_input(0), b"input-0".to_vec());
    assert_eq!(seed_input(9), b"input-9".to_vec());
    assert_eq!(seed_input(10), b"input-10".to_vec());
    assert_eq!(seed_input(1_700_000_000_123_456_789), b"input-1700000000123456789".to_vec());
    assert_eq!(
        seed_input(u128::MAX),
        b"input-340282366920938463463374607431768211455".to_vec()
    );
}

#[test]
fn hash_chain_of_empty_input() {
    assert_eq!(CHAIN_LENGTH, 100);
    assert_eq!(
        hex(&hash_chain(b"")),
        "ca3c9dcbb3aa2d8ba1f13a79d7e6f58c7dbcb5f879989d91de8ced9878cdb9ec"
    );
}

#[test]
fn hash_chain_is_not_a_single_digest() {
    // one SHA-256 of the empty input
    assert_ne!(
        hex(&hash_chain(b"")),
        "e3b0c44298fc1c149afbf4c8996fb92427ae41e4649b934ca495991b7852b855"
    );
}

#[test]
fn hash_handler_known_values() {
    assert_eq!(
        hash_handler(0),
        "bb6264c4eacd8b48b540421e307d0dacd37a23338e5f13896c7eb7a97a67ffe1"
    );
    assert_eq!(
        hash_handler(1),
        "3c1a9fef3714f3da1cbc979f2b40b3865178e6034bd36cb0946a288c053abb0f"
    );
    assert_eq!(
        hash_handler(1_700_000_000_000_000_000),
        "1623e3442c64ffd52fc2baa15784bf7f2ba25fd878b7dc5756b7c84501066ea0"
    );
}

#[test]
fn hash_handler_shape_at_extremes() {
    for nanos in [0u128, 9, 10, u64::MAX as u128, u128::MAX] {
        assert!(is_lower_hex_64(&hash_handler(nanos)), "nanos {}", nanos);
    }
}

#[test]
fn distinct_timestamps_give_distinct_hashes() {
    let a = hash_handler(1_700_000_000_000_000_000);
    let b = hash_handler(1_700_000_000_000_000_001);
    assert_ne!(a, b);
}

#[test]
fn many_requests_are_each_valid() {
    let base: u128 = 1_700_000_000_000_000_000;
    let mut seen: Vec<String> = Vec::new();
    for k in 0..50u128 {
        let r = handle_request("/hash", base + k);
        assert_eq!(r.status(), 200);
        match r {
            Reply::Digest(h) => {
                assert!(is_lower_hex_64(&h));
                assert!(!seen.contains(&h));
                seen.push(h);
            }
            other => panic!("unexpected reply {:?}", other),
        }
    }
    assert_eq!(seen.len(), 50);
}

#[test]
fn hash_response_fields() {
    let h = hash_handler(42);
    let r = hash_response(h.clone(), 1_700_000_000_123);
    assert_eq!(r.hash, h);
    assert_eq!(r.timestamp, 1_700_000_000_123);
    assert_eq!(r.source, "rust");
    assert_eq!(SOURCE, "rust");
}

#[test]
fn content_type_of_replies() {
    assert_eq!(handle_request("/hash", 3).content_type(), Some("application/json"));
    assert_eq!(handle_request("/health", 3).content_type(), None);
    assert_eq!(handle_request("/nope", 3).content_type(), None);
}
