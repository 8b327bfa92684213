use std::time::Duration;

use dlsite_gamebox::client::product::{product_of_parts, AjaxFields, ApiFields, ApiGenre};
use dlsite_gamebox::client::product_api::interface::{Creator, Creators};
use dlsite_gamebox::interface::genre::Genre;
use dlsite_gamebox::interface::product::{AgeCategory, WorkType};

use dlsite_gamebox::cache::{GenericCache, ResponseCache};
use dlsite_gamebox::client::fetch::{
    exhausted, next_step, rate_limit_step, rate_limit_wait_ms, raw_next_step, request_url, AttemptOutcome, NextStep,
    RequestSession,
};
use dlsite_gamebox::client::product::product_of_answer;
use dlsite_gamebox::client::product_api::product_from_answer;
use dlsite_gamebox::client::product::{check_review_response, parse_date, ReleaseDate};
use dlsite_gamebox::client::product_api::first_product;
use dlsite_gamebox::client::DlsiteClientBuilder;
use dlsite_gamebox::error::{parse_error, DlsiteError};
use dlsite_gamebox::interface::query::Language;
use dlsite_gamebox::interface::site::Site;
use dlsite_gamebox::retry::RetryConfig;

fn quick_config() -> RetryConfig {
    RetryConfig { max_retries: 3, initial_delay_ms: 100, max_delay_ms: 1_000, backoff_multiplier_milli: 3000 }
}

fn message(e: &DlsiteError) -> String {
    match e {
        DlsiteError::Parse(m) | DlsiteError::RateLimit(m) | DlsiteError::Server(m) | DlsiteError::AuthRequired(m) => {
            m.clone()
        }
        other => format!("{other:?}"),
    }
}

#[test]
fn request_url_joins_base_and_path() {
    assert_eq!(
        request_url("https://www.dlsite.com/maniax", "/product/info/ajax?product_id=RJ1"),
        "https://www.dlsite.com/maniax/product/info/ajax?product_id=RJ1"
    );
}

#[test]
fn rate_limit_waits_out_the_interval() {
    assert_eq!(rate_limit_wait_ms(1_000, 1_000), 500);
    assert_eq!(rate_limit_wait_ms(1_200, 1_000), 300);
    assert_eq!(rate_limit_wait_ms(1_500, 1_000), 0);
    assert_eq!(rate_limit_wait_ms(9_000, 1_000), 0);
    assert_eq!(rate_limit_wait_ms(900, 1_000), 500);
}

#[test]
fn default_retry_config() {
    let c = RetryConfig::default();
    assert_eq!(c.max_retries, 3);
    assert_eq!(c.initial_delay_ms, 500);
    assert_eq!(c.max_delay_ms, 10_000);
    assert_eq!(c.backoff_multiplier_milli, 2000);
}

#[test]
fn delays_grow_and_are_capped() {
    let c = RetryConfig::default();
    let delays: Vec<u64> = (0..8).map(|a| c.calculate_delay(a)).collect();
    assert_eq!(delays, vec![500, 1_000, 2_000, 4_000, 8_000, 10_000, 10_000, 10_000]);
    assert_eq!(quick_config().calculate_delay(2), 900);
    assert_eq!(quick_config().calculate_delay(3), 1_000);
    assert_eq!(c.calculate_delay(u32::MAX), 10_000);
}

#[test]
fn delay_with_large_multiplier_does_not_overflow() {
    let c = RetryConfig { max_retries: 1, initial_delay_ms: u64::MAX, max_delay_ms: u64::MAX, backoff_multiplier_milli: u64::MAX };
    assert_eq!(c.calculate_delay(0), u64::MAX);
    assert_eq!(c.calculate_delay(5), u64::MAX);
    let zero = RetryConfig { max_retries: 1, initial_delay_ms: 500, max_delay_ms: 10_000, backoff_multiplier_milli: 0 };
    assert_eq!(zero.calculate_delay(0), 500);
    assert_eq!(zero.calculate_delay(1), 0);
}

#[test]
fn retryable_errors() {
    let c = RetryConfig::default();
    assert!(c.is_retryable(&DlsiteError::HttpStatus(500)));
    assert!(c.is_retryable(&DlsiteError::HttpStatus(503)));
    assert!(c.is_retryable(&DlsiteError::HttpStatus(429)));
    assert!(!c.is_retryable(&DlsiteError::HttpStatus(404)));
    assert!(c.is_retryable(&DlsiteError::RateLimit("slow down".to_string())));
    assert!(c.is_retryable(&DlsiteError::Timeout));
    assert!(!c.is_retryable(&DlsiteError::Parse("x".to_string())));
    assert!(!c.is_retryable(&DlsiteError::AuthRequired("x".to_string())));
}

#[test]
fn success_reads_body() {
    assert!(matches!(next_step(&quick_config(), 0, AttemptOutcome::Status(200)), NextStep::ReadBody));
    assert!(matches!(next_step(&quick_config(), 3, AttemptOutcome::Status(204)), NextStep::ReadBody));
}

#[test]
fn too_many_requests_retries_then_fails() {
    let c = quick_config();
    match next_step(&c, 1, AttemptOutcome::Status(429)) {
        NextStep::Retry { delay_ms, error } => {
            assert_eq!(delay_ms, 300);
            assert_eq!(message(&error), "Too many requests, please retry later");
        }
        _ => panic!("expected a retry"),
    }
    match next_step(&c, 3, AttemptOutcome::Status(429)) {
        NextStep::Fail(DlsiteError::RateLimit(m)) => assert_eq!(m, "Too many requests, please retry later"),
        _ => panic!("expected a rate-limit failure"),
    }
}

#[test]
fn auth_statuses_fail_at_once() {
    let c = quick_config();
    match next_step(&c, 0, AttemptOutcome::Status(401)) {
        NextStep::Fail(e) => assert_eq!(message(&e), "HTTP 401 Unauthorized"),
        _ => panic!("expected failure"),
    }
    match next_step(&c, 0, AttemptOutcome::Status(403)) {
        NextStep::Fail(DlsiteError::AuthRequired(m)) => assert_eq!(m, "HTTP 403 Forbidden"),
        _ => panic!("expected failure"),
    }
}

#[test]
fn server_errors_retry_client_errors_do_not() {
    let c = quick_config();
    match next_step(&c, 0, AttemptOutcome::Status(500)) {
        NextStep::Retry { delay_ms, error } => {
            assert_eq!(delay_ms, 100);
            assert!(matches!(error, DlsiteError::HttpStatus(500)));
        }
        _ => panic!("expected a retry"),
    }
    assert!(matches!(next_step(&c, 3, AttemptOutcome::Status(502)), NextStep::Fail(DlsiteError::HttpStatus(502))));
    assert!(matches!(next_step(&c, 0, AttemptOutcome::Status(404)), NextStep::Fail(DlsiteError::HttpStatus(404))));
    assert!(matches!(next_step(&c, 0, AttemptOutcome::Status(302)), NextStep::Fail(DlsiteError::HttpStatus(302))));
}

#[test]
fn send_failures_follow_the_policy() {
    let c = quick_config();
    assert!(matches!(next_step(&c, 0, AttemptOutcome::SendFailed(DlsiteError::Timeout)), NextStep::Retry { delay_ms: 100, error: DlsiteError::Timeout }));
    assert!(matches!(next_step(&c, 3, AttemptOutcome::SendFailed(DlsiteError::Timeout)), NextStep::Fail(DlsiteError::Timeout)));
    match next_step(&c, 0, AttemptOutcome::SendFailed(parse_error("bad"))) {
        NextStep::Fail(e) => assert_eq!(message(&e), "bad"),
        _ => panic!("expected failure"),
    }
}

#[test]
fn no_retries_configured() {
    let c = RetryConfig { max_retries: 0, initial_delay_ms: 0, max_delay_ms: 0, backoff_multiplier_milli: 1000 };
    assert!(matches!(next_step(&c, 0, AttemptOutcome::Status(500)), NextStep::Fail(DlsiteError::HttpStatus(500))));
}

#[test]
fn exhausted_reports_last_error() {
    assert!(matches!(exhausted(Some(DlsiteError::HttpStatus(503))), DlsiteError::HttpStatus(503)));
    assert_eq!(message(&exhausted(None)), "Unknown error");
}

#[test]
fn cache_returns_fresh_values() {
    let mut cache: ResponseCache = GenericCache::new(2, 1_000);
    cache.insert("a".to_string(), "A".to_string(), 0);
    assert_eq!(cache.get("a", 999), Some("A".to_string()));
    assert_eq!(cache.get("b", 10), None);
    assert_eq!(cache.len(), 1);
}

#[test]
fn cache_drops_stale_values() {
    let mut cache: ResponseCache = GenericCache::new(2, 1_000);
    cache.insert("a".to_string(), "A".to_string(), 0);
    assert_eq!(cache.get("a", 1_000), None);
    assert_eq!(cache.len(), 0);
}

#[test]
fn cache_evicts_least_recently_used() {
    let mut cache: GenericCache<u32> = GenericCache::new(2, 10_000);
    cache.insert("a".to_string(), 1, 0);
    cache.insert("b".to_string(), 2, 1);
    assert_eq!(cache.get("a", 2), Some(1));
    cache.insert("c".to_string(), 3, 3);
    assert_eq!(cache.len(), 2);
    assert_eq!(cache.get("b", 4), None);
    assert_eq!(cache.get("a", 4), Some(1));
    assert_eq!(cache.get("c", 4), Some(3));
}

#[test]
fn cache_replaces_a_key() {
    let mut cache: GenericCache<u32> = GenericCache::new(2, 10_000);
    cache.insert("a".to_string(), 1, 0);
    cache.insert("a".to_string(), 2, 5);
    assert_eq!(cache.len(), 1);
    assert_eq!(cache.get("a", 6), Some(2));
}

#[test]
fn cache_of_capacity_zero_stores_nothing() {
    let mut cache: GenericCache<u32> = GenericCache::new(0, 10_000);
    cache.insert("a".to_string(), 1, 0);
    assert_eq!(cache.len(), 0);
    assert_eq!(cache.get("a", 1), None);
}

#[test]
fn cache_clear_empties() {
    let mut cache: GenericCache<u32> = GenericCache::new(4, 10_000);
    cache.insert("a".to_string(), 1, 0);
    cache.insert("b".to_string(), 2, 0);
    cache.clear();
    assert_eq!(cache.len(), 0);
    assert_eq!(cache.get("a", 1), None);
}

#[test]
fn builder_defaults() {
    let s = DlsiteClientBuilder::new("https://www.dlsite.com/maniax").settings();
    assert_eq!(s.base_url, "https://www.dlsite.com/maniax");
    assert_eq!(s.pool_max_idle_per_host, 10);
    assert_eq!(s.timeout, Duration::from_secs(30));
    assert_eq!(s.cache_capacity, 100);
    assert_eq!(s.cache_ttl, Duration::from_secs(3600));
    assert_eq!(s.retry_config, RetryConfig::default());
    assert_eq!(s.default_locale, Language::Jp);
    assert_eq!(s.user_agent, "dlsite-rs/0.2.0");
}

#[test]
fn builder_setters() {
    let s = DlsiteClientBuilder::new("https://example.com")
        .locale(Language::En)
        .pool_max_idle_per_host(3)
        .timeout(Duration::from_secs(5))
        .cache(7, Duration::from_secs(60))
        .retry_config(quick_config())
        .site(Site::Home)
        .settings();
    assert_eq!(s.base_url, "https://www.dlsite.com/home");
    assert_eq!(s.pool_max_idle_per_host, 3);
    assert_eq!(s.timeout, Duration::from_secs(5));
    assert_eq!(s.cache_capacity, 7);
    assert_eq!(s.cache_ttl, Duration::from_secs(60));
    assert_eq!(s.retry_config, quick_config());
    assert_eq!(s.default_locale, Language::En);
}

#[test]
fn release_dates() {
    assert_eq!(parse_date("2024-01-15 12:00:00"), Some(ReleaseDate { year: 2024, month: 1, day: 15 }));
    assert_eq!(parse_date("2022-07-20"), Some(ReleaseDate { year: 2022, month: 7, day: 20 }));
    assert_eq!(parse_date("2023-02-30"), None);
    assert_eq!(parse_date("not a date"), None);
    assert_eq!(parse_date(""), None);
}

#[test]
fn review_responses() {
    assert!(check_review_response(r#"{"is_success": true, "review_list": []}"#).is_ok());
    match check_review_response(r#"{"is_success": false, "error_msg": "busy"}"#) {
        Err(DlsiteError::Server(m)) => assert_eq!(m, "Failed to get review: busy"),
        other => panic!("unexpected {other:?}"),
    }
    match check_review_response(r#"{"is_success": false}"#) {
        Err(DlsiteError::Server(m)) => assert_eq!(m, "Failed to get review: Failed to get error message"),
        other => panic!("unexpected {other:?}"),
    }
    match check_review_response(r#"{"review_list": []}"#) {
        Err(DlsiteError::Parse(m)) => assert_eq!(m, "Failed to parse revire json"),
        other => panic!("unexpected {other:?}"),
    }
    assert!(matches!(check_review_response("not json"), Err(DlsiteError::SerdeJson(_))));
}

#[test]
fn first_product_of_response() {
    assert_eq!(first_product(vec![7, 8]).unwrap(), 7);
    match first_product::<u8>(vec![]) {
        Err(DlsiteError::Parse(m)) => assert_eq!(m, "No product found"),
        other => panic!("unexpected {other:?}"),
    }
}

#[test]
fn cache_store_with_room_keeps_other_entries() {
    let mut cache: GenericCache<u32> = GenericCache::new(3, 10_000);
    cache.insert("a".to_string(), 1, 0);
    cache.insert("b".to_string(), 2, 0);
    cache.insert("c".to_string(), 3, 0);
    cache.insert("b".to_string(), 20, 1);
    assert_eq!(cache.len(), 3);
    assert_eq!(cache.get("a", 2), Some(1));
    assert_eq!(cache.get("c", 2), Some(3));
    assert_eq!(cache.get("b", 2), Some(20));
}

#[test]
fn rate_limit_step_records_departure() {
    assert_eq!(rate_limit_step(1_200, 1_000), (300, 1_500));
    assert_eq!(rate_limit_step(2_000, 1_000), (0, 2_000));
    assert_eq!(rate_limit_step(u64::MAX, u64::MAX), (500, u64::MAX));
    let (w1, d1) = rate_limit_step(10_000, 0);
    assert_eq!((w1, d1), (0, 10_000));
    let (w2, d2) = rate_limit_step(10_001, d1);
    assert_eq!((w2, d2), (499, 10_500));
}

#[test]
fn session_stops_after_last_attempt() {
    let mut s = RequestSession::new(quick_config());
    let mut steps = 0;
    while !s.is_finished() {
        let step = s.on_outcome(AttemptOutcome::Status(503));
        steps += 1;
        if steps <= 3 {
            assert!(matches!(step, NextStep::Retry { .. }));
        } else {
            assert!(matches!(step, NextStep::Fail(DlsiteError::HttpStatus(503))));
        }
    }
    assert_eq!(steps, 4);
    assert_eq!(s.sent(), 4);
}

#[test]
fn session_ends_on_auth_error() {
    let mut s = RequestSession::new(quick_config());
    match s.on_outcome(AttemptOutcome::Status(401)) {
        NextStep::Fail(e) => assert_eq!(message(&e), "HTTP 401 Unauthorized"),
        _ => panic!("expected failure"),
    }
    assert!(s.is_finished());
    assert_eq!(s.sent(), 1);
}

#[test]
fn raw_requests_read_any_status() {
    let c = quick_config();
    assert!(matches!(raw_next_step(&c, 0, AttemptOutcome::Status(401)), NextStep::ReadBody));
    assert!(matches!(raw_next_step(&c, 0, AttemptOutcome::Status(404)), NextStep::ReadBody));
    assert!(matches!(raw_next_step(&c, 0, AttemptOutcome::Status(200)), NextStep::ReadBody));
    assert!(matches!(raw_next_step(&c, 0, AttemptOutcome::Status(500)), NextStep::Retry { delay_ms: 100, .. }));
    match raw_next_step(&c, 1, AttemptOutcome::Status(429)) {
        NextStep::Retry { delay_ms, error } => {
            assert_eq!(delay_ms, 300);
            assert_eq!(message(&error), "Too many requests, please retry later");
        }
        _ => panic!("expected a retry"),
    }
    assert!(matches!(raw_next_step(&c, 3, AttemptOutcome::Status(500)), NextStep::ReadBody));
    assert!(matches!(raw_next_step(&c, 3, AttemptOutcome::SendFailed(DlsiteError::Timeout)), NextStep::Fail(DlsiteError::Timeout)));
}

#[test]
fn product_api_answers() {
    assert_eq!(product_from_answer(Ok(vec![1, 2])).unwrap(), 1);
    assert_eq!(message(&product_from_answer::<u8>(Ok(vec![])).unwrap_err()), "No product found");
    assert_eq!(
        message(&product_from_answer::<u8>(Err("expected value at line 1 column 1".to_string())).unwrap_err()),
        "Failed to parse json: expected value at line 1 column 1"
    );
}

#[test]
fn ajax_answer_lookup() {
    let entries = vec![("RJ1".to_string(), 10), ("RJ2".to_string(), 20)];
    assert_eq!(product_of_answer(entries.clone(), "RJ2").unwrap(), 20);
    assert_eq!(message(&product_of_answer(entries, "RJ3").unwrap_err()), "Failed to parse ajax json");
}

#[test]
fn fractional_multiplier_rounds_down_each_step() {
    let c = RetryConfig { max_retries: 5, initial_delay_ms: 5, max_delay_ms: 1_000, backoff_multiplier_milli: 1500 };
    let delays: Vec<u64> = (0..4).map(|a| c.calculate_delay(a)).collect();
    assert_eq!(delays, vec![5, 7, 10, 15]);
}

#[test]
fn product_is_put_together_from_three_answers() {
    let ajax = AjaxFields {
        work_name: "Title".to_string(),
        work_type: WorkType::SOU,
        price: 1320,
        rate_count: Some(12),
        dl_count: Some(3456),
        review_count: Some(7),
    };
    let api = ApiFields {
        age_category: AgeCategory::R15,
        series_name: Some("Series".to_string()),
        maker_id: "RG24350".to_string(),
        maker_name: "Circle".to_string(),
        file_size: Some("500MB".to_string()),
        genres: vec![ApiGenre { name: "ASMR".to_string(), id: 497 }, ApiGenre { name: "Neg".to_string(), id: -3 }],
        regist_date: Some("2024-01-15 12:00:00".to_string()),
        creators: Some(Creators {
            created_by: None,
            scenario_by: None,
            illust_by: None,
            voice_by: Some(vec![Creator {
                id: "1".to_string(),
                name: "Voice".to_string(),
                classification: "voice".to_string(),
                sub_classification: None,
            }]),
        }),
        image_samples: Some(vec!["//img/1.jpg".to_string(), "//img/2.jpg".to_string()]),
    };
    let p = product_of_parts("RJ403038", ajax, api, None);
    assert_eq!(p.id, "RJ403038");
    assert_eq!(p.title, "Title");
    assert_eq!(p.work_type, WorkType::SOU);
    assert_eq!(p.price, 1320);
    assert_eq!((p.rate_count, p.sale_count, p.review_count), (Some(12), Some(3456), Some(7)));
    assert_eq!(p.age_rating, Some(AgeCategory::R15));
    assert_eq!(p.series.as_deref(), Some("Series"));
    assert_eq!(p.circle_id.as_deref(), Some("RG24350"));
    assert_eq!(p.circle_name.as_deref(), Some("Circle"));
    assert_eq!(p.file_size.as_deref(), Some("500MB"));
    assert_eq!(
        p.genre,
        vec![
            Genre { name: "ASMR".to_string(), id: "497".to_string() },
            Genre { name: "Neg".to_string(), id: "-3".to_string() }
        ]
    );
    assert_eq!(p.released_at, Some(ReleaseDate { year: 2024, month: 1, day: 15 }));
    assert_eq!(p.images, vec!["//img/1.jpg".to_string(), "//img/2.jpg".to_string()]);
    assert_eq!(p.people.unwrap().voice_actor, Some(vec!["Voice".to_string()]));
    assert!(p.reviewer_genre.is_empty());
}
