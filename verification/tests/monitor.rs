use polymarket_gamma_listener::catalog::{
    market_details_report, market_token_ids, resolve_catalog_body, token_ids_from_body,
    MarketRecord, MonitorError,
};
use polymarket_gamma_listener::gamma::gamma_step;
use polymarket_gamma_listener::interval::{
    calculate_current_15m_market_timestamp, calculate_next_15m_market_timestamp,
    seconds_until_next_interval,
};
use polymarket_gamma_listener::slug::{
    current_market_slug, market_slug, next_market_slug, u64_to_decimal,
};
use polymarket_gamma_listener::stream::{
    market_update_report, parse_market_update, stream_start, stream_step, subscribe_message,
    subscribe_messages, StreamAction, StreamEvent, StreamState,
};
use polymarket_gamma_listener::tokens::{split_commas_exec, split_token_ids, trim_spaces_exec};

fn record(clob_token_ids: Option<&str>) -> MarketRecord {
    MarketRecord {
        question: Some("Bitcoin Up or Down?".to_string()),
        slug: Some("btc-updown-15m-1700000100".to_string()),
        end_date: Some("2023-11-14T22:30:00Z".to_string()),
        active: Some("true".to_string()),
        volume_24hr: Some("1.5".to_string()),
        clob_token_ids: clob_token_ids.map(|s| s.to_string()),
    }
}

#[test]
fn interval_floor_bounds() {
    let start = calculate_current_15m_market_timestamp(1700000000);
    assert_eq!(start, 1699999200);
    assert!(start <= 1700000000 && 1700000000 < start + 900);
    assert_eq!(start % 900, 0);
}

#[test]
fn next_interval_is_one_width_later() {
    let start = calculate_current_15m_market_timestamp(1700000000);
    let next = calculate_next_15m_market_timestamp(1700000000);
    assert_eq!(next, start + 900);
    assert_eq!(next, 1700000100);
    let wait = seconds_until_next_interval(1700000000);
    assert_eq!(wait, 100);
    assert!(1 <= wait && wait <= 900);
}

#[test]
fn boundary_is_a_fixed_point() {
    let floor = calculate_current_15m_market_timestamp(1700000000);
    assert_eq!(calculate_current_15m_market_timestamp(floor), floor);
    assert_eq!(seconds_until_next_interval(floor), 900);
}

#[test]
fn interval_at_zero() {
    assert_eq!(calculate_current_15m_market_timestamp(0), 0);
    assert_eq!(seconds_until_next_interval(0), 900);
    assert_eq!(calculate_current_15m_market_timestamp(899), 0);
    assert_eq!(calculate_next_15m_market_timestamp(899), 900);
    assert_eq!(seconds_until_next_interval(899), 1);
}

#[test]
fn decimal_rendering() {
    assert_eq!(u64_to_decimal(0), "0");
    assert_eq!(u64_to_decimal(7), "7");
    assert_eq!(u64_to_decimal(900), "900");
    assert_eq!(u64_to_decimal(1700000000), "1700000000");
}

#[test]
fn slug_derivation_is_idempotent() {
    let a = market_slug(1700000000);
    let b = market_slug(1700000000);
    assert_eq!(a, b);
    assert_eq!(a, "btc-updown-15m-1700000000");
}

#[test]
fn slugs_for_current_and_next_interval() {
    assert_eq!(current_market_slug(1700000000), "btc-updown-15m-1699999200");
    assert_eq!(next_market_slug(1700000000), "btc-updown-15m-1700000100");
}

#[test]
fn token_ids_split_on_commas() {
    assert_eq!(split_token_ids("12345,67890"), vec!["12345", "67890"]);
}

#[test]
fn token_ids_are_trimmed() {
    assert_eq!(split_token_ids(" 123 , 456 "), vec!["123", "456"]);
}

#[test]
fn splitting_keeps_empty_pieces() {
    assert_eq!(split_commas_exec("a,,b"), vec!["a", "", "b"]);
    assert_eq!(split_commas_exec(""), vec![""]);
}

#[test]
fn trimming_touches_only_the_ends() {
    assert_eq!(trim_spaces_exec("  12 34\t\n"), "12 34");
    assert_eq!(trim_spaces_exec("   "), "");
    assert_eq!(trim_spaces_exec("x"), "x");
}

#[test]
fn unicode_whitespace_is_trimmed() {
    assert_eq!(trim_spaces_exec("\u{a0}12 34\u{3000}"), "12 34");
    assert_eq!(split_token_ids("\u{2003}123\u{a0},\u{85}456 "), vec!["123", "456"]);
}

#[test]
fn absent_token_field_yields_no_tokens() {
    let m = record(None);
    assert_eq!(market_token_ids(&m), Vec::<String>::new());
}

#[test]
fn present_token_field_is_split_and_trimmed() {
    let m = record(Some("111, 222"));
    assert_eq!(market_token_ids(&m), vec!["111", "222"]);
}

#[test]
fn resolving_a_market_body_reads_its_fields() {
    let body = r#"[{"question":"Bitcoin Up or Down?","slug":"btc-updown-15m-1700000100","endDate":"2023-11-14T22:30:00Z","active":true,"volume24hr":1.5,"clobTokenIds":"111,222"}]"#;
    let resolved = resolve_catalog_body(body).expect("body parses");
    let m = resolved.expect("one market");
    assert_eq!(m.question.as_deref(), Some("Bitcoin Up or Down?"));
    assert_eq!(m.slug.as_deref(), Some("btc-updown-15m-1700000100"));
    assert_eq!(m.end_date.as_deref(), Some("2023-11-14T22:30:00Z"));
    assert_eq!(m.active.as_deref(), Some("true"));
    assert_eq!(m.volume_24hr.as_deref(), Some("1.5"));
    assert_eq!(m.clob_token_ids.as_deref(), Some("111,222"));
}

#[test]
fn resolving_an_empty_body_is_not_found() {
    let resolved = resolve_catalog_body("[]").expect("body parses");
    assert!(resolved.is_none());
}

#[test]
fn resolving_a_malformed_body_is_an_error() {
    assert!(matches!(resolve_catalog_body("not json"), Err(MonitorError::MalformedBody)));
    assert!(matches!(resolve_catalog_body(r#"{"a":1}"#), Err(MonitorError::MalformedBody)));
}

#[test]
fn token_ids_from_catalog_bodies() {
    let body = r#"[{"clobTokenIds":" 12345 ,67890"}]"#;
    assert_eq!(token_ids_from_body(body), Ok(vec!["12345".to_string(), "67890".to_string()]));
    assert_eq!(token_ids_from_body("[]"), Ok(Vec::new()));
    assert_eq!(token_ids_from_body(r#"[{"question":"q"}]"#), Ok(Vec::new()));
    assert_eq!(token_ids_from_body("oops"), Err(MonitorError::MalformedBody));
}

#[test]
fn market_details_report_lists_present_fields() {
    let m = record(Some("111,222"));
    assert_eq!(
        market_details_report(&m),
        vec![
            "Question: Bitcoin Up or Down?",
            "Slug: btc-updown-15m-1700000100",
            "End Date: 2023-11-14T22:30:00Z",
            "Active: true",
            "24h Volume: 1.5",
        ]
    );
}

#[test]
fn market_details_report_skips_absent_fields() {
    let m = MarketRecord {
        question: Some("Bitcoin Up or Down?".to_string()),
        slug: None,
        end_date: None,
        active: None,
        volume_24hr: None,
        clob_token_ids: None,
    };
    assert_eq!(market_details_report(&m), vec!["Question: Bitcoin Up or Down?"]);
}

#[test]
fn gamma_reports_not_found_and_still_sleeps() {
    let step = gamma_step(&Ok(None), 1700000000);
    assert_eq!(step.report, vec!["No active market found"]);
    assert_eq!(step.sleep_seconds, 100);
}

#[test]
fn gamma_reports_found_market() {
    let m = record(Some("111,222"));
    let step = gamma_step(&Ok(Some(m.clone())), 1699999200);
    assert_eq!(step.report, market_details_report(&m));
    assert_eq!(step.sleep_seconds, 900);
}

#[test]
fn gamma_reports_errors_without_stopping() {
    let step = gamma_step(&Err(MonitorError::Transport), 1700000000);
    assert_eq!(step.report, vec!["Catalog request failed"]);
    assert_eq!(step.sleep_seconds, 100);
    let step = gamma_step(&Err(MonitorError::MalformedBody), 1700000000);
    assert_eq!(step.report, vec!["Malformed catalog response"]);
    assert_eq!(step.sleep_seconds, 100);
}

#[test]
fn parsing_a_market_update_reads_its_fields() {
    let text = r#"{"type":"price_change","market":"0xabc","asset_id":"111","price":0.55,"last":0.54,"bid":0.53,"ask":0.56}"#;
    let u = parse_market_update(text).expect("text parses");
    assert_eq!(u.msg_type.as_deref(), Some("price_change"));
    assert_eq!(u.market.as_deref(), Some("\"0xabc\""));
    assert_eq!(u.asset_id.as_deref(), Some("111"));
    assert_eq!(u.price.as_deref(), Some("0.55"));
    assert_eq!(u.last.as_deref(), Some("0.54"));
    assert_eq!(u.bid.as_deref(), Some("0.53"));
    assert_eq!(u.ask.as_deref(), Some("0.56"));
}

#[test]
fn parsing_rejects_non_json_text() {
    assert!(parse_market_update("not json at all").is_none());
}

#[test]
fn update_report_lists_present_fields_in_order() {
    let u = parse_market_update(r#"{"type":"book","asset_id":"111","bid":0.4}"#).unwrap();
    assert_eq!(
        market_update_report(&u),
        vec!["Type: book", "Token ID: 111", "Bid: 0.4"]
    );
}

#[test]
fn subscribe_message_shape() {
    assert_eq!(
        subscribe_message("12345"),
        r#"{"type":"subscribe","channel":"market","market":"12345"}"#
    );
}

#[test]
fn one_subscription_per_token() {
    let tokens = vec!["111".to_string(), "222".to_string()];
    let msgs = subscribe_messages(&tokens);
    assert_eq!(
        msgs,
        vec![
            r#"{"type":"subscribe","channel":"market","market":"111"}"#,
            r#"{"type":"subscribe","channel":"market","market":"222"}"#,
        ]
    );
}

#[test]
fn a_cycle_starts_by_resolving_the_next_market() {
    match stream_start(1700000000) {
        StreamAction::Resolve(slug) => assert_eq!(slug, "btc-updown-15m-1700000100"),
        other => panic!("unexpected action: {:?}", other),
    }
}

#[test]
fn zero_token_ids_skip_the_connection() {
    let (state, action) = stream_step(
        StreamState::Resolving,
        StreamEvent::Resolved(Vec::new()),
        1700000000,
    );
    assert_eq!(state, StreamState::Backoff);
    match action {
        StreamAction::Wait(s) => assert_eq!(s, 10),
        other => panic!("unexpected action: {:?}", other),
    }
}

#[test]
fn resolved_tokens_are_subscribed() {
    let (state, action) = stream_step(
        StreamState::Resolving,
        StreamEvent::Resolved(vec!["111".to_string(), "222".to_string()]),
        1700000000,
    );
    assert_eq!(state, StreamState::Subscribing);
    match action {
        StreamAction::Subscribe(msgs) => assert_eq!(
            msgs,
            vec![
                r#"{"type":"subscribe","channel":"market","market":"111"}"#,
                r#"{"type":"subscribe","channel":"market","market":"222"}"#,
            ]
        ),
        other => panic!("unexpected action: {:?}", other),
    }
}

#[test]
fn subscriptions_sent_enter_streaming() {
    let (state, action) = stream_step(StreamState::Subscribing, StreamEvent::Subscribed, 0);
    assert_eq!(state, StreamState::Streaming);
    assert!(matches!(action, StreamAction::AwaitFrame));
}

#[test]
fn a_text_frame_is_reported_and_streaming_continues() {
    let (state, action) = stream_step(
        StreamState::Streaming,
        StreamEvent::TextFrame(r#"{"type":"book","price":0.5}"#.to_string()),
        0,
    );
    assert_eq!(state, StreamState::Streaming);
    match action {
        StreamAction::Report(lines) => assert_eq!(lines, vec!["Type: book", "Price: 0.5"]),
        other => panic!("unexpected action: {:?}", other),
    }
}

#[test]
fn a_close_frame_backs_off_then_resolves_afresh() {
    let (state, action) = stream_step(StreamState::Streaming, StreamEvent::CloseFrame, 1700000000);
    assert_eq!(state, StreamState::Backoff);
    match action {
        StreamAction::Wait(s) => assert_eq!(s, 10),
        other => panic!("unexpected action: {:?}", other),
    }
    // By the time the backoff has elapsed, the clock has moved on; the next
    // cycle resolves a fresh slug from the new instant.
    let later = 1700000000 + 10;
    let (state, action) = stream_step(state, StreamEvent::BackoffElapsed, later);
    assert_eq!(state, StreamState::Resolving);
    match action {
        StreamAction::Resolve(slug) => assert_eq!(slug, next_market_slug(later)),
        other => panic!("unexpected action: {:?}", other),
    }
}

#[test]
fn a_stream_error_backs_off_like_a_close() {
    let (state, action) = stream_step(StreamState::Streaming, StreamEvent::StreamFailed, 0);
    assert_eq!(state, StreamState::Backoff);
    assert!(matches!(action, StreamAction::Wait(10)));
    let (state, action) = stream_step(StreamState::Resolving, StreamEvent::ResolveFailed, 0);
    assert_eq!(state, StreamState::Backoff);
    assert!(matches!(action, StreamAction::Wait(10)));
    let (state, action) = stream_step(StreamState::Subscribing, StreamEvent::SubscribeFailed, 0);
    assert_eq!(state, StreamState::Backoff);
    assert!(matches!(action, StreamAction::Wait(10)));
}

#[test]
fn a_mismatched_event_leaves_the_state_alone() {
    let (state, action) = stream_step(StreamState::Resolving, StreamEvent::CloseFrame, 0);
    assert_eq!(state, StreamState::Resolving);
    assert!(matches!(action, StreamAction::Wait(10)));
}
