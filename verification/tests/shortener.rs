use url_shortener::codes::generate_short_code;
use url_shortener::service::{
    compose_short_url, next_attempt, redirect, resolve_decision, shorten, AttemptDecision,
    InsertOutcome, LookupOutcome, RedirectOutcome, ShortenError, ShortenRequest,
    MAX_SHORTEN_ATTEMPTS, STATUS_INTERNAL_SERVER_ERROR, STATUS_NOT_FOUND,
    STATUS_PERMANENT_REDIRECT,
};
use url_shortener::store::{InsertError, MappingStore};

const BASE_URL: &str = "http://localhost:3000/";

#[test]
fn test_generate_short_code_has_correct_length() {
    let code = generate_short_code();
    assert_eq!(code.len(), 6);
}

#[test]
fn test_generated_codes_are_alphanumeric() {
    for _ in 0..50 {
        let code = generate_short_code();
        assert!(code.chars().all(|c| c.is_ascii_alphanumeric()));
    }
}

#[test]
fn test_independent_codes_are_distinct_over_many_trials() {
    let codes: Vec<String> = (0..100).map(|_| generate_short_code()).collect();
    for i in 0..codes.len() {
        for j in (i + 1)..codes.len() {
            assert_ne!(codes[i], codes[j]);
        }
    }
}

#[test]
fn test_shorten_and_redirect_workflow() {
    let mut store = MappingStore::new();
    let original = "https://www.google.com/very/long/path";
    let request = ShortenRequest {
        url: original.to_string(),
    };

    let response = shorten(&mut store, &request, BASE_URL).expect("shorten should succeed");
    assert!(response.short_url.starts_with(BASE_URL));

    let code = &response.short_url[BASE_URL.len()..];
    assert_eq!(code.len(), 6);
    assert!(code.chars().all(|c| c.is_ascii_alphanumeric()));

    let outcome = redirect(&store, code);
    assert_eq!(
        outcome,
        RedirectOutcome::PermanentRedirect(original.to_string())
    );
    assert_eq!(outcome.status_code(), STATUS_PERMANENT_REDIRECT);
}

#[test]
fn test_resolve_unknown_code_not_found() {
    let mut store = MappingStore::new();
    let request = ShortenRequest {
        url: "https://example.com/a/b".to_string(),
    };
    shorten(&mut store, &request, BASE_URL).expect("shorten should succeed");

    let outcome = redirect(&store, "nosuch");
    assert_eq!(outcome, RedirectOutcome::NotFound);
    assert_eq!(outcome.status_code(), STATUS_NOT_FOUND);
}

#[test]
fn test_many_shortens_each_resolve_to_own_url() {
    let mut store = MappingStore::new();
    let mut issued: Vec<(String, String)> = Vec::new();
    for i in 0..100 {
        let url = format!("https://example.com/page/{}", i);
        let request = ShortenRequest { url: url.clone() };
        let response = shorten(&mut store, &request, BASE_URL).expect("shorten should succeed");
        let code = response.short_url[BASE_URL.len()..].to_string();
        issued.push((code, url));
    }
    assert_eq!(store.len(), 100);
    for (code, url) in &issued {
        assert_eq!(
            redirect(&store, code),
            RedirectOutcome::PermanentRedirect(url.clone())
        );
    }
}

#[test]
fn test_duplicate_code_detected() {
    let mut store = MappingStore::new();
    assert_eq!(store.len(), 0);
    assert_eq!(
        store.insert_unique("abc123", "https://example.com/first"),
        Ok(())
    );
    assert_eq!(
        store.insert_unique("abc123", "https://example.com/second"),
        Err(InsertError::DuplicateCode)
    );
    assert_eq!(store.len(), 1);
    assert_eq!(
        store.lookup("abc123"),
        Some("https://example.com/first".to_string())
    );
}

#[test]
fn test_resolve_same_code_twice_same_url() {
    let mut store = MappingStore::new();
    store
        .insert_unique("abc123", "https://example.com/stable")
        .expect("insert should succeed");
    let first = redirect(&store, "abc123");
    let second = redirect(&store, "abc123");
    assert_eq!(
        first,
        RedirectOutcome::PermanentRedirect("https://example.com/stable".to_string())
    );
    assert_eq!(first, second);
}

#[test]
fn test_shorten_error_status_is_server_class() {
    assert_eq!(
        ShortenError::RetryExhausted.status_code(),
        STATUS_INTERNAL_SERVER_ERROR
    );
    assert_eq!(
        ShortenError::InvalidBaseUrl.status_code(),
        STATUS_INTERNAL_SERVER_ERROR
    );
}

#[test]
fn test_invalid_base_url_rejected() {
    let mut store = MappingStore::new();
    let request = ShortenRequest {
        url: "https://example.com/a".to_string(),
    };
    let result = shorten(&mut store, &request, "not a valid base");
    assert_eq!(result.unwrap_err(), ShortenError::InvalidBaseUrl);
    assert_eq!(store.len(), 0);
}

#[test]
fn test_next_attempt_decisions() {
    assert_eq!(
        next_attempt(&InsertOutcome::Inserted, MAX_SHORTEN_ATTEMPTS),
        AttemptDecision::Commit
    );
    assert_eq!(
        next_attempt(&InsertOutcome::DuplicateCode, 3),
        AttemptDecision::RetryWithFreshCode(2)
    );
    assert_eq!(
        next_attempt(&InsertOutcome::DuplicateCode, 0),
        AttemptDecision::FailRetryExhausted
    );
    assert_eq!(
        next_attempt(&InsertOutcome::StorageFailure, 3),
        AttemptDecision::FailStorage
    );
}

#[test]
fn test_resolve_decision() {
    assert_eq!(
        resolve_decision(LookupOutcome::Found("https://example.com/x".to_string())),
        RedirectOutcome::PermanentRedirect("https://example.com/x".to_string())
    );
    assert_eq!(
        resolve_decision(LookupOutcome::NoMatch),
        RedirectOutcome::NotFound
    );
    assert_eq!(
        resolve_decision(LookupOutcome::StorageFailure),
        RedirectOutcome::StorageError
    );
    assert_eq!(
        RedirectOutcome::StorageError.status_code(),
        STATUS_INTERNAL_SERVER_ERROR
    );
}

#[test]
fn test_compose_short_url() {
    assert_eq!(
        compose_short_url(BASE_URL, "abc123"),
        Some("http://localhost:3000/abc123".to_string())
    );
    assert_eq!(compose_short_url("not a valid base", "abc123"), None);
}
