use currency_converter::decimal::Decimal;
use currency_converter::error::ExchangeRateError;
use currency_converter::provider::{Action, ApiExchangeRateProvider, Event, Resolution};
use currency_converter::rates::RateTable;

fn table(entries: &[(&str, Decimal)]) -> RateTable {
    let mut t = RateTable::new();
    for (code, rate) in entries {
        t.insert(code.to_string(), *rate);
    }
    t
}

fn finish(action: Action) -> Result<Decimal, ExchangeRateError> {
    match action {
        Action::Finish(r) => r,
        _ => panic!("expected the resolution to finish"),
    }
}

/// Starts a resolution and lets its one request fail, leaving it at the snapshot.
fn fail_fetch(p: &ApiExchangeRateProvider, from: &str, to: &str) -> Resolution {
    let (state, action) = p.start(from);
    assert!(matches!(action, Action::Fetch(_)));
    let (state, action) = p.step(from, to, state, Event::FetchFailed("refused".to_string()));
    assert!(matches!(action, Action::ReadSnapshot));
    state
}

#[test]
fn request_url_names_base_currency() {
    let p = ApiExchangeRateProvider::new("https://api.example.com/v4");
    assert_eq!(p.request_url("USD"), "https://api.example.com/v4/latest/USD");
    match p.start("USD") {
        (Resolution::Fetching(1), Action::Fetch(url)) => {
            assert_eq!(url, "https://api.example.com/v4/latest/USD")
        },
        _ => panic!("expected a fetch"),
    }
}

#[test]
fn fallback_snapshot_answers() {
    let p = ApiExchangeRateProvider::new("http://rates");
    let snapshot = || table(&[("EUR", Decimal { units: 9, scale: 1 })]);
    let state = fail_fetch(&p, "USD", "EUR");
    let (state, action) = p.step("USD", "EUR", state, Event::SnapshotLoaded(snapshot()));
    assert!(matches!(state, Resolution::Done));
    assert_eq!(finish(action), Ok(Decimal { units: 9, scale: 1 }));

    let state = fail_fetch(&p, "USD", "GBP");
    let (_, action) = p.step("USD", "GBP", state, Event::SnapshotLoaded(snapshot()));
    assert_eq!(
        finish(action),
        Err(ExchangeRateError::RateNotFound("USD".to_string(), "GBP".to_string()))
    );
}

#[test]
fn fetched_table_is_saved_and_later_answers_from_snapshot() {
    let p = ApiExchangeRateProvider::new("http://rates");
    let fetched = table(&[
        ("EUR", Decimal { units: 91, scale: 2 }),
        ("GBP", Decimal { units: 78, scale: 2 }),
    ]);
    let (state, _) = p.start("USD");
    let (state, action) = p.step("USD", "EUR", state, Event::Fetched(fetched));
    let saved = match action {
        Action::Persist(t) => t,
        _ => panic!("expected the table to be saved"),
    };
    let (_, action) = p.step("USD", "EUR", state, Event::Persisted);
    assert_eq!(finish(action), Ok(Decimal { units: 91, scale: 2 }));

    let state = fail_fetch(&p, "USD", "GBP");
    let (_, action) = p.step("USD", "GBP", state, Event::SnapshotLoaded(saved));
    assert_eq!(finish(action), Ok(Decimal { units: 78, scale: 2 }));
}

#[test]
fn malformed_snapshot_is_io_failure() {
    let p = ApiExchangeRateProvider::new("http://rates");
    let state = fail_fetch(&p, "USD", "EUR");
    let (state, action) =
        p.step("USD", "EUR", state, Event::SnapshotFailed("expected value at line 1".to_string()));
    assert!(matches!(state, Resolution::Done));
    assert_eq!(
        finish(action),
        Err(ExchangeRateError::IoFailed("expected value at line 1".to_string()))
    );
}

#[test]
fn fetched_table_without_target_is_not_found_after_saving() {
    let p = ApiExchangeRateProvider::new("http://rates");
    let (state, _) = p.start("USD");
    let fetched = table(&[("EUR", Decimal { units: 91, scale: 2 })]);
    let (state, action) = p.step("USD", "JPY", state, Event::Fetched(fetched));
    assert!(matches!(action, Action::Persist(_)));
    let (_, action) = p.step("USD", "JPY", state, Event::Persisted);
    assert_eq!(
        finish(action),
        Err(ExchangeRateError::RateNotFound("USD".to_string(), "JPY".to_string()))
    );
}

#[test]
fn save_failure_is_io_failure() {
    let p = ApiExchangeRateProvider::new("http://rates");
    let (state, _) = p.start("USD");
    let fetched = table(&[("EUR", Decimal { units: 91, scale: 2 })]);
    let (state, _) = p.step("USD", "EUR", state, Event::Fetched(fetched));
    let (_, action) = p.step("USD", "EUR", state, Event::PersistFailed("read-only".to_string()));
    assert_eq!(finish(action), Err(ExchangeRateError::IoFailed("read-only".to_string())));
}

#[test]
fn undecodable_response_is_request_failure() {
    let p = ApiExchangeRateProvider::new("http://rates");
    let (state, _) = p.start("USD");
    let (_, action) = p.step("USD", "EUR", state, Event::DecodeFailed("missing field".to_string()));
    assert_eq!(finish(action), Err(ExchangeRateError::RequestFailed("missing field".to_string())));
}

#[test]
fn more_attempts_fetch_again_before_falling_back() {
    let mut p = ApiExchangeRateProvider::new("http://rates");
    p.max_attempts = 2;
    let (state, _) = p.start("USD");
    let (state, action) = p.step("USD", "EUR", state, Event::FetchFailed("reset".to_string()));
    assert!(matches!(state, Resolution::Fetching(2)));
    assert!(matches!(action, Action::Fetch(ref url) if url == "http://rates/latest/USD"));
    let (state, action) = p.step("USD", "EUR", state, Event::FetchFailed("reset".to_string()));
    assert!(matches!(state, Resolution::ReadingSnapshot));
    assert!(matches!(action, Action::ReadSnapshot));
}

#[test]
fn no_attempts_is_network_exhausted() {
    let mut p = ApiExchangeRateProvider::new("http://rates");
    p.max_attempts = 0;
    let (state, action) = p.start("USD");
    assert!(matches!(state, Resolution::Done));
    assert_eq!(
        finish(action),
        Err(ExchangeRateError::NetworkExhausted("Exceeded maximum retries".to_string()))
    );
}

#[test]
fn accepts_only_answers_to_the_pending_action() {
    assert!(Resolution::Fetching(1).accepts(&Event::FetchFailed("x".to_string())));
    assert!(!Resolution::Fetching(1).accepts(&Event::Persisted));
    assert!(Resolution::ReadingSnapshot.accepts(&Event::SnapshotFailed("x".to_string())));
    assert!(!Resolution::Done.accepts(&Event::Persisted));
}

#[test]
fn saved_table_records_requested_base() {
    let p = ApiExchangeRateProvider::new("http://rates");
    let (state, _) = p.start("USD");
    let fetched = table(&[("EUR", Decimal { units: 91, scale: 2 })]);
    assert_eq!(fetched.base(), None);
    let (_, action) = p.step("USD", "EUR", state, Event::Fetched(fetched));
    match action {
        Action::Persist(saved) => {
            assert_eq!(saved.base(), Some("USD".to_string()));
            assert_eq!(saved.get("EUR"), Some(Decimal { units: 91, scale: 2 }));
        },
        _ => panic!("expected the table to be saved"),
    }
}

#[test]
fn snapshot_for_another_base_does_not_answer() {
    let p = ApiExchangeRateProvider::new("http://rates");
    let mut snapshot = table(&[("EUR", Decimal { units: 9, scale: 1 })]);
    snapshot.set_base("GBP");
    let state = fail_fetch(&p, "USD", "EUR");
    let (_, action) = p.step("USD", "EUR", state, Event::SnapshotLoaded(snapshot));
    assert_eq!(
        finish(action),
        Err(ExchangeRateError::RateNotFound("USD".to_string(), "EUR".to_string()))
    );
}

#[test]
fn snapshot_for_same_base_answers() {
    let p = ApiExchangeRateProvider::new("http://rates");
    let mut snapshot = table(&[("EUR", Decimal { units: 9, scale: 1 })]);
    snapshot.set_base("USD");
    let state = fail_fetch(&p, "USD", "EUR");
    let (_, action) = p.step("USD", "EUR", state, Event::SnapshotLoaded(snapshot));
    assert_eq!(finish(action), Ok(Decimal { units: 9, scale: 1 }));
}
