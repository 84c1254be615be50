use std::collections::BTreeMap;

use kupon::{
    datum_from_response, AssetId, Builder, DatumResponse, Health, HealthResponse, HealthStatus,
    KuponError, Match, MatchResponse, MatchStep, MatchValue, RetryPolicy, ServerInfo,
};

fn one_match() -> Vec<Match> {
    let mut assets = BTreeMap::new();
    assets.insert(AssetId::from_hex("abcd.ef01"), 3);
    vec![Match {
        transaction_index: 0,
        transaction_id: "aa11".to_string(),
        output_index: 1,
        address: "addr".to_string(),
        value: MatchValue { coins: 1000, assets },
        datum: None,
        script_hash: None,
        created_at: None,
        spent_at: None,
    }]
}

fn unavailable() -> MatchResponse {
    MatchResponse::Failure {
        hint: "busy".to_string(),
    }
}

/// Runs a query against answers of 503 with a failure `failures` times, then success.
fn run(retries: usize, failures: usize) -> Result<Vec<Match>, KuponError> {
    let mut policy = RetryPolicy::new(retries);
    let mut waits: Vec<u64> = Vec::new();
    let mut answered = 0;
    loop {
        let response = if answered < failures {
            (503, unavailable())
        } else {
            (200, MatchResponse::Success(one_match()))
        };
        answered += 1;
        match policy.next_step(response.0, response.1) {
            MatchStep::Done(result) => {
                assert_eq!(waits.len(), answered.min(retries + 1) - 1);
                return result;
            }
            MatchStep::Retry { delay_micros } => waits.push(delay_micros),
        }
    }
}

#[test]
fn retries_cover_transient_failures() {
    let matches = run(3, 3).unwrap();
    assert_eq!(matches.len(), 1);
    assert_eq!(matches[0].value.coins, 1000);
    assert!(run(5, 2).is_ok());
    match run(2, 3) {
        Err(KuponError::KupoError(hint)) => assert_eq!(hint, "busy"),
        _ => panic!("expected the server's error"),
    }
}

#[test]
fn no_retries_fail_at_once() {
    let mut policy = RetryPolicy::new(0);
    match policy.next_step(503, unavailable()) {
        MatchStep::Done(Err(KuponError::KupoError(hint))) => assert_eq!(hint, "busy"),
        _ => panic!("expected the server's error"),
    }
}

#[test]
fn other_statuses_are_not_retried() {
    let mut policy = RetryPolicy::new(4);
    assert!(matches!(
        policy.next_step(500, unavailable()),
        MatchStep::Done(Err(KuponError::KupoError(_)))
    ));
    assert_eq!(policy.remaining, 4);
}

#[test]
fn failed_requests_are_not_retried() {
    let client = Builder::default().build().unwrap();
    let failed = client.http.get("no scheme here").build().unwrap_err();
    let mut policy = RetryPolicy::new(4);
    assert!(matches!(
        policy.next_step(503, MatchResponse::RequestFailed(failed)),
        MatchStep::Done(Err(KuponError::RequestFailed(_)))
    ));
    assert_eq!(policy.remaining, 4);
}

#[test]
fn backoff_grows_by_jitter() {
    let mut policy = RetryPolicy::new(3);
    match policy.next_step_with(503, unavailable(), 2000) {
        MatchStep::Retry { delay_micros } => assert_eq!(delay_micros, 100_000),
        _ => panic!("expected a retry"),
    }
    assert_eq!(policy.remaining, 2);
    assert_eq!(policy.delay_micros, 200_000);
    match policy.next_step_with(503, unavailable(), 1500) {
        MatchStep::Retry { delay_micros } => assert_eq!(delay_micros, 200_000),
        _ => panic!("expected a retry"),
    }
    assert_eq!(policy.delay_micros, 300_000);
    policy.delay_micros = 300_049;
    assert!(matches!(
        policy.next_step_with(503, unavailable(), 1500),
        MatchStep::Retry { delay_micros: 300_049 }
    ));
    assert_eq!(policy.delay_micros, 450_074);
    policy.remaining = 1;
    policy.delay_micros = u64::MAX / 2;
    assert!(matches!(
        policy.next_step_with(503, unavailable(), 2499),
        MatchStep::Retry { .. }
    ));
    assert_eq!(policy.delay_micros, u64::MAX);
}

#[test]
fn random_backoff_stays_in_range() {
    let mut policy = RetryPolicy::new(1);
    assert!(matches!(
        policy.next_step(503, unavailable()),
        MatchStep::Retry { delay_micros: 100_000 }
    ));
    assert!(policy.delay_micros >= 150_000 && policy.delay_micros < 250_000);
}

fn info() -> ServerInfo {
    ServerInfo {
        connection_status: "connected".to_string(),
        most_recent_checkpoint: Some(10),
        most_recent_node_tip: Some(12),
        version: None,
    }
}

fn error_message(health: &Health) -> String {
    match &health.status {
        HealthStatus::Error(message) => message.clone(),
        other => panic!("expected an error, got {:?}", other),
    }
}

#[test]
fn health_codes() {
    let healthy = Health::from_response(200, Some(HealthResponse::Success(info())));
    assert!(matches!(healthy.status, HealthStatus::Healthy));
    assert_eq!(healthy.info.unwrap().most_recent_node_tip, Some(12));
    let syncing = Health::from_response(202, Some(HealthResponse::Success(info())));
    assert!(matches!(syncing.status, HealthStatus::Syncing));
    let down = Health::from_response(503, Some(HealthResponse::Success(info())));
    assert!(matches!(down.status, HealthStatus::Disconnected));
}

#[test]
fn health_failures_are_errors() {
    let unexpected = Health::from_response(501, Some(HealthResponse::Success(info())));
    assert_eq!(error_message(&unexpected), "Unexpected response code 501");
    let unreadable = Health::from_response(501, None);
    assert_eq!(error_message(&unreadable), "Unexpected response code 501");
    assert!(unreadable.info.is_none());
    let malformed = Health::from_response(200, None);
    assert_eq!(error_message(&malformed), "malformed health response");
    let hinted = Health::from_response(
        200,
        Some(HealthResponse::Failure {
            hint: "node down".to_string(),
        }),
    );
    assert_eq!(error_message(&hinted), "node down");
    let invalid = Health::from_error(&KuponError::InvalidQuery("x".to_string()));
    assert_eq!(error_message(&invalid), "invalid query: x");
    let kupo = Health::from_error(&KuponError::KupoError("y".to_string()));
    assert_eq!(error_message(&kupo), "error from kupo: y");
}

#[test]
fn unreachable_server_is_an_error() {
    let client = Builder::with_endpoint("http://127.0.0.1:1").build().unwrap();
    let failed = client.http.get("no scheme here").build().unwrap_err();
    let health = Health::from_error(&KuponError::RequestFailed(failed));
    assert_eq!(error_message(&health), "request failed");
}

#[test]
fn datum_answers() {
    let found = datum_from_response(200, Some(DatumResponse::Success {
        datum: "d87980".to_string(),
    }));
    assert_eq!(found.unwrap(), Some("d87980".to_string()));
    assert_eq!(datum_from_response(200, None).unwrap(), None);
    let missing = datum_from_response(
        404,
        Some(DatumResponse::Failure {
            hint: "not found".to_string(),
        }),
    );
    assert_eq!(missing.unwrap(), None);
    match datum_from_response(
        400,
        Some(DatumResponse::Failure {
            hint: "bad hash".to_string(),
        }),
    ) {
        Err(KuponError::KupoError(hint)) => assert_eq!(hint, "bad hash"),
        _ => panic!("expected the server's error"),
    }
}

#[test]
fn builder_settings() {
    let client = Builder::default().build().unwrap();
    assert_eq!(client.endpoint.as_str(), "http://localhost:1442/");
    assert_eq!(client.retries, 0);
    let configured = Builder::with_endpoint("http://example.org:1442")
        .with_retries(3)
        .build()
        .unwrap();
    assert_eq!(configured.retries, 3);
    assert_eq!(
        configured.datum_url("abcd").as_str(),
        "http://example.org:1442/v1/datums/abcd"
    );
    assert_eq!(configured.health_url().as_str(), "http://example.org:1442/health");
    assert!(matches!(
        Builder::with_endpoint("not a url").build(),
        Err(KuponError::InvalidUrl(_))
    ));
}
