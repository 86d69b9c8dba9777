use vaultless_core::error::VaultlessError;
use vaultless_core::usage::config::{
    active_client_keys_set, active_keys_set, processing_flag, ClientUsageAggregate, ClientUsageEngineConfig,
    MetricsConfig, UsageAggregate, UsageEngineConfig,
};
use vaultless_core::usage::counters::{
    get_hour_window, get_minute_window, ClientMetricKey, MetricCounters, MetricGranularity, MetricKey,
};
use vaultless_core::usage::engine::{
    app_hourly_key, app_monthly_key_at, client_hourly_key, client_message_sent_call, client_proof_verified_call,
    message_received_call, message_sent_call, multi_record_result, proof_verified_call, rate_limit_hit_call,
    was_counted, RecordClientMessageSentInput, RecordClientProofVerifiedInput, RecordMessageReceivedInput,
    RecordMessageSentInput, RecordProofVerifiedInput, RecordRateLimitHitInput,
};
use vaultless_core::usage::flush::{
    batch_is_full, collect_entry, flush_chunks, flush_cutoff, flush_progress, flush_step, is_falling_behind,
    resolve_rows, scan_key, FlushAction, FlushEvent, KeyScan,
};
use vaultless_core::usage::client::{ClientMetricKey as ClientKey, MetricGranularity as ClientGranularity};
use vaultless_core::usage::restore::{
    client_restore_write, latest_period_per_app, latest_period_per_client, restore_mode, restore_write, RestoreMode,
};

const APP: u128 = 0x0123_4567_89ab_4def_8123_456789abcdef;
const APP_TEXT: &str = "01234567-89ab-4def-8123-456789abcdef";
const CLIENT: u128 = 0xfedc_ba98_7654_4321_8fed_cba987654321;
const CLIENT_TEXT: &str = "fedcba98-7654-4321-8fed-cba987654321";
/// 2023-11-14T22:13:20Z
const T: i64 = 1_700_000_000;
const HOUR: i64 = 1_699_999_200;

fn fields(pairs: &[(&str, i64)]) -> Vec<(String, i64)> {
    pairs.iter().map(|(k, v)| (k.to_string(), *v)).collect()
}

#[test]
fn windows_round_down_to_the_hour_and_minute() {
    assert_eq!(get_hour_window(T), HOUR);
    assert_eq!(get_minute_window(T), 1_699_999_980);
}

#[test]
fn application_key_text_and_parse() {
    let k = MetricKey::new(APP, T, MetricGranularity::Hour).unwrap();
    assert_eq!(k.as_str(), format!("vaultless:metric:app:{APP_TEXT}:hour:2023_11_14_22"));
    assert_eq!(k.parse(), Some((APP, HOUR)));
    let m = MetricKey::new(APP, T, MetricGranularity::Minute).unwrap();
    assert_eq!(m.as_str(), format!("vaultless:metric:app:{APP_TEXT}:minute:2023_11_14_22_13"));
}

#[test]
fn application_key_reads_back_from_its_text() {
    let k = MetricKey::new(APP, T, MetricGranularity::Hour).unwrap();
    let back = MetricKey::try_from(k.as_str()).unwrap();
    assert_eq!(back, k);
}

#[test]
fn application_key_reads_the_documented_form() {
    let s = "metric:app:00000000-0000-0000-0000-000000000001:hour:2024_03_05_17".to_string();
    let k = MetricKey::try_from(s).unwrap();
    assert_eq!(k, MetricKey { app_id: 1, granularity: MetricGranularity::Hour, window: 1_709_658_000 });
    let m = MetricKey::try_from(format!("metric:app:{APP_TEXT}:minute:2023_11_14_22_13")).unwrap();
    assert_eq!(m, MetricKey::new(APP, T, MetricGranularity::Minute).unwrap());
}

#[test]
fn client_key_reads_the_documented_form_and_its_own_text() {
    let k = ClientMetricKey::new(APP, CLIENT, T, MetricGranularity::Hour).unwrap();
    assert_eq!(ClientMetricKey::try_from(k.as_str()).unwrap(), k);
    let bare = format!("metric:client:{APP_TEXT}:{CLIENT_TEXT}:hour:2023_11_14_22");
    assert_eq!(ClientMetricKey::try_from(bare).unwrap(), k);
}

#[test]
fn application_key_refuses_short_text() {
    match MetricKey::try_from("garbage".to_string()) {
        Err(VaultlessError::Internal(m)) => assert_eq!(m, "Invalid metric key format: garbage"),
        other => panic!("unexpected {:?}", other),
    }
}

#[test]
fn client_key_text() {
    let k = ClientMetricKey::new(APP, CLIENT, T, MetricGranularity::Hour).unwrap();
    assert_eq!(k.as_str(), format!("vaultless:metric:client:{APP_TEXT}:{CLIENT_TEXT}:hour:2023_11_14_22"));
    assert_eq!(k.parse(), Some((APP, CLIENT, HOUR)));
}

#[test]
fn granularity_names() {
    assert_eq!(MetricGranularity::from_str("HR").unwrap(), MetricGranularity::Hour);
    assert_eq!(MetricGranularity::from_str("mon").unwrap(), MetricGranularity::Month);
    assert_eq!(MetricGranularity::from_str("week").unwrap_err(), "Unknown metric granularity: week");
    assert_eq!(MetricGranularity::Day.ttl_multiplier_hours(), 48);
    assert_eq!(MetricGranularity::Minute.key_prefix(), "minute");
    assert_eq!(MetricGranularity::Month.key_suffix(T), "2023_11");
}

#[test]
fn counters_cost_is_a_tenth_of_a_cent_per_thousand_messages_and_per_megabyte() {
    let c = MetricCounters {
        messages_sent: 15_000,
        messages_received: 6_000,
        proofs_verified: 0,
        total_bytes_sent: 25_000_000,
        total_bytes_received: 0,
        rate_limit_hits: 0,
        bytes_proved: 0,
    };
    assert_eq!(c.estimate_cost_cents(), 2 + 2);
    let ten_thousand = MetricCounters { messages_sent: 10_000, ..MetricCounters::default() };
    assert_eq!(ten_thousand.estimate_cost_cents(), 1);
    let below = MetricCounters { messages_sent: 9_999, total_bytes_received: 9_999_999, ..MetricCounters::default() };
    assert_eq!(below.estimate_cost_cents(), 0);
}

#[test]
fn engine_keys() {
    assert_eq!(app_monthly_key_at(APP, T), format!("vaultless:metric:app:{APP_TEXT}:monthly:202311"));
    assert_eq!(app_hourly_key(APP, T), format!("vaultless:metric:app:{APP_TEXT}:hour:2023_11_14_22"));
    assert_eq!(
        client_hourly_key(APP, CLIENT, T),
        format!("vaultless:metric:client:{APP_TEXT}:{CLIENT_TEXT}:hour:2023_11_14_22")
    );
}

#[test]
fn message_sent_call_hands_keys_and_lifetimes() {
    let input = RecordMessageSentInput::new(CLIENT, APP, "s1".to_string(), 512);
    let config = UsageEngineConfig::default();
    let call = message_sent_call(&input, &config, T);
    assert_eq!(
        call.keys,
        vec![
            format!("vaultless:counted:{CLIENT_TEXT}"),
            format!("vaultless:metric:app:{APP_TEXT}:monthly:202311"),
            format!("vaultless:metric:app:{APP_TEXT}:hour:2023_11_14_22"),
        ]
    );
    assert_eq!(call.args, vec![3600, 35 * 24 * 3600, 7200, 512]);
}

#[test]
fn other_application_calls() {
    let config = UsageEngineConfig::default();
    let r = message_received_call(&RecordMessageReceivedInput::new(CLIENT, APP, "s".to_string(), 9), &config, T);
    assert_eq!(r.keys.len(), 2);
    assert_eq!(r.args, vec![3600, 7200, 9]);
    let p = proof_verified_call(&RecordProofVerifiedInput::new(CLIENT, APP, "s".to_string()), &config, T);
    assert_eq!(p.args, vec![3600, 7200]);
    let h = rate_limit_hit_call(&RecordRateLimitHitInput::new(CLIENT, APP), &config, T);
    assert_eq!(h.keys[0], format!("vaultless:counted:{CLIENT_TEXT}"));
}

#[test]
fn client_calls() {
    let config = ClientUsageEngineConfig::default();
    let input = RecordClientMessageSentInput { message_id: APP, application_id: APP, client_id: CLIENT, content_size_bytes: 7 };
    let c = client_message_sent_call(&input, &config, T);
    assert_eq!(c.keys[0], format!("vaultless:counted:client:{APP_TEXT}"));
    assert_eq!(c.keys[1], format!("vaultless:metric:client:{APP_TEXT}:{CLIENT_TEXT}:hour:2023_11_14_22"));
    assert_eq!(c.args, vec![3600, 7200, 7]);
    let p = client_proof_verified_call(
        &RecordClientProofVerifiedInput { proof_id: CLIENT, application_id: APP, client_id: CLIENT },
        &config,
        T,
    );
    assert_eq!(p.args, vec![3600, 7200]);
}

#[test]
fn script_answers_and_summaries() {
    assert!(was_counted(1));
    assert!(!was_counted(0));
    assert!(!was_counted(2));
    let r = multi_record_result(Some(false), None, Some(true));
    assert!(!r.message_sent_counted && !r.message_received_counted && r.proof_verified_counted && r.any_counted);
    assert!(!multi_record_result(None, Some(false), None).any_counted);
}

#[test]
fn configuration_defaults() {
    let m = MetricsConfig::default();
    assert_eq!((m.max_batch_size, m.metric_ttl_secs, m.flush_interval_secs, m.redis_operation_timeout_secs), (1000, 7200, 300, 30));
    let e = UsageEngineConfig::default();
    assert_eq!((e.counted_ttl_secs, e.monthly_ttl_secs, e.hourly_ttl_secs, e.operation_timeout_secs, e.max_batch_size), (3600, 3_024_000, 7200, 5, 100));
    let c = ClientUsageEngineConfig::default();
    assert_eq!((c.counted_ttl_secs, c.hourly_ttl_secs, c.operation_timeout_secs), (3600, 7200, 5));
    assert_eq!(UsageAggregate::default().total_messages_sent, 0);
    assert_eq!(ClientUsageAggregate::default().total_estimated_cost_cents, 0);
    assert_eq!(processing_flag(), "_processing");
    assert_eq!(active_keys_set(), "vaultless:metric:app:active_keys");
    assert_eq!(active_client_keys_set(), "vaultless:metric:client:active_keys");
}

#[test]
fn flush_cycle_decisions() {
    assert_eq!(flush_cutoff(T, false), HOUR);
    assert_eq!(flush_cutoff(T, true), T + 86_400);
    let closed = MetricKey::new(APP, T - 7200, MetricGranularity::Hour).unwrap();
    let open = MetricKey::new(APP, T, MetricGranularity::Hour).unwrap();
    assert_eq!(scan_key(closed.as_str(), HOUR), KeyScan::Due(closed));
    assert_eq!(scan_key(open.as_str(), HOUR), KeyScan::NotDue);
    assert_eq!(scan_key("nope".to_string(), HOUR), KeyScan::Invalid);
    assert!(batch_is_full(1000, 1000));
    assert!(!batch_is_full(999, 1000));
    assert!(is_falling_behind(151, 300));
    assert!(!is_falling_behind(150, 300));
}

#[test]
fn flush_writes_each_nonzero_entry_once_in_order() {
    let k = MetricKey::new(APP, T - 7200, MetricGranularity::Hour).unwrap();
    let busy = collect_entry(k, &fields(&[("messages_sent", 3), ("total_bytes_sent", 10)]));
    let idle = collect_entry(k, &fields(&[]));
    let later = collect_entry(k, &fields(&[("rate_limit_hits", 1), ("rate_limit_hits", 4)]));
    assert_eq!(later.counters.rate_limit_hits, 4);
    let batch = vec![busy, idle, idle, later, idle];
    let chunks = flush_chunks(&batch, 2);
    assert_eq!(chunks, vec![vec![busy], vec![later]]);
    let all: Vec<_> = chunks.concat();
    assert_eq!(all, vec![busy, later]);
}

#[test]
fn rows_need_a_subscription() {
    let k = MetricKey::new(APP, T - 7200, MetricGranularity::Hour).unwrap();
    let e = collect_entry(k, &fields(&[("messages_sent", 20_000), ("total_bytes_sent", 1), ("total_bytes_received", 2)]));
    let rows = resolve_rows(&vec![e], &vec![(APP, 77)]);
    assert_eq!(rows.len(), 1);
    assert_eq!(rows[0].subscription_id, 77);
    assert_eq!(rows[0].period_end, rows[0].period_start + 3600);
    assert_eq!(rows[0].total_bytes_stored, 3);
    assert_eq!(rows[0].estimated_cost_cents, 2);
    assert!(resolve_rows(&vec![e], &vec![(CLIENT, 1)]).is_empty());
}

#[test]
fn restore_decisions() {
    assert_eq!(restore_mode(0), RestoreMode::Lookback);
    assert_eq!(restore_mode(3), RestoreMode::AfterLatest);
    let a = MetricKey::new(APP, T - 7200, MetricGranularity::Hour).unwrap().as_str();
    let b = MetricKey::new(APP, T, MetricGranularity::Hour).unwrap().as_str();
    let latest = latest_period_per_app(&vec![b.clone(), "junk".to_string(), a]);
    assert_eq!(latest, vec![(APP, HOUR)]);
    let w = restore_write(APP, T, [1, 2, 3, 4, 5, 6]).unwrap();
    assert_eq!(w.key, b);
    assert_eq!(w.fields[5], ("rate_limit_hits".to_string(), 6));
}

#[test]
fn client_restore_decisions() {
    let older = ClientKey::new(APP, CLIENT, T - 7200, ClientGranularity::Hour).unwrap();
    let newer = ClientKey::new(APP, CLIENT, T, ClientGranularity::Hour).unwrap();
    let other = ClientKey::new(CLIENT, APP, T - 3600, ClientGranularity::Hour).unwrap();
    let keys = vec![
        older.as_str().to_string(),
        "vaultless:metric:client_hour:junk".to_string(),
        newer.as_str().to_string(),
        other.as_str().to_string(),
    ];
    let latest = latest_period_per_client(&keys);
    assert_eq!(latest, vec![((APP, CLIENT), HOUR), ((CLIENT, APP), HOUR - 3600)]);
    assert!(latest_period_per_client(&vec![]).is_empty());
    let w = client_restore_write(APP, CLIENT, T, [1, 2, 3, 4, 5, 6]).unwrap();
    assert_eq!(w.key, newer.as_str());
    assert_eq!(w.key, format!("vaultless:metric:client_hour:{}:{}:2023111422", APP_TEXT, CLIENT_TEXT));
    assert_eq!(w.fields[0], ("messages_sent".to_string(), 1));
    assert_eq!(w.fields[4], ("total_bytes_received".to_string(), 5));
}

#[test]
fn restored_keys_count_as_latest() {
    let older = MetricKey::new(APP, T - 7200, MetricGranularity::Hour).unwrap().as_str();
    let later = MetricKey::new(APP, T + 7200, MetricGranularity::Hour).unwrap().as_str();
    let restored = restore_write(APP, T, [0, 0, 0, 0, 0, 0]).unwrap().key;
    assert_eq!(latest_period_per_app(&vec![older.clone(), restored.clone()]), vec![(APP, HOUR)]);
    assert_eq!(latest_period_per_app(&vec![later, restored.clone()]), vec![(APP, HOUR + 7200)]);
    let other = MetricKey::new(CLIENT, T - 3600, MetricGranularity::Hour).unwrap().as_str();
    assert_eq!(latest_period_per_app(&vec![other, restored]), vec![(CLIENT, HOUR - 3600), (APP, HOUR)]);
}

#[test]
fn flush_forgets_each_chunk_right_after_its_commit() {
    let k0 = MetricKey::new(APP, T - 7200, MetricGranularity::Hour).unwrap();
    let k1 = MetricKey::new(APP, T - 10800, MetricGranularity::Hour).unwrap();
    let k2 = MetricKey::new(CLIENT, T - 7200, MetricGranularity::Hour).unwrap();
    let k3 = MetricKey::new(CLIENT, T - 10800, MetricGranularity::Hour).unwrap();
    let busy = collect_entry(k0, &fields(&[("messages_sent", 3)]));
    let idle = collect_entry(k1, &fields(&[]));
    let idle2 = collect_entry(k2, &fields(&[]));
    let late = collect_entry(k3, &fields(&[("rate_limit_hits", 2)]));
    let batch = vec![busy, idle, idle2, idle, late];
    let p = flush_progress(&batch, 2);
    assert_eq!(p.chunks, vec![vec![busy, idle], vec![idle2, idle], vec![late]]);
    assert_eq!((p.released, p.stopped), (0, false));

    let (p, a) = flush_step(p, FlushEvent::Start);
    assert!(matches!(a, FlushAction::Write { chunk: 0, ref entries } if *entries == vec![busy]));
    let (p, a) = flush_step(p, FlushEvent::ChunkCommitted(0));
    assert!(matches!(a, FlushAction::Release { chunk: 0, ref keys } if *keys == vec![k0, k1]));
    let (p, a) = flush_step(p, FlushEvent::Released(0));
    assert_eq!(p.released, 1);
    // The second chunk has nothing to write: its keys are forgotten at once.
    assert!(matches!(a, FlushAction::Release { chunk: 1, ref keys } if *keys == vec![k2, k1]));
    let (p, a) = flush_step(p, FlushEvent::Released(1));
    assert!(matches!(a, FlushAction::Write { chunk: 2, ref entries } if *entries == vec![late]));
    let (p, a) = flush_step(p, FlushEvent::ChunkFailed(2));
    assert!(matches!(a, FlushAction::Stop));
    assert_eq!((p.released, p.stopped), (2, true));
    let (_, a) = flush_step(p, FlushEvent::Start);
    assert!(matches!(a, FlushAction::Stop));
}

#[test]
fn flush_ends_when_every_chunk_is_released_and_stops_on_a_stray_event() {
    let k0 = MetricKey::new(APP, T - 7200, MetricGranularity::Hour).unwrap();
    let busy = collect_entry(k0, &fields(&[("messages_sent", 3)]));
    let (p, _) = flush_step(flush_progress(&vec![busy], 5), FlushEvent::Start);
    let (p, _) = flush_step(p, FlushEvent::ChunkCommitted(0));
    let (p, a) = flush_step(p, FlushEvent::Released(0));
    assert!(matches!(a, FlushAction::Done));
    let (p, a) = flush_step(p, FlushEvent::ChunkCommitted(0));
    assert!(matches!(a, FlushAction::Stop));
    assert!(p.stopped);
    let (_, a) = flush_step(flush_progress(&vec![], 5), FlushEvent::Start);
    assert!(matches!(a, FlushAction::Done));
}

#[test]
fn client_counters_cost_a_cent_per_thousand_messages_and_per_megabyte() {
    let c = vaultless_core::usage::counters::ClientMetricCounters {
        messages_sent: 1500,
        messages_received: 500,
        total_bytes_sent: 2_500_000,
        total_bytes_received: 600_000,
        ..Default::default()
    };
    assert_eq!(c.estimate_cost_cents(), 5);
}

#[test]
fn client_key_parses_back_to_the_window_of_its_time() {
    let t = T + 1234;
    let hour = ClientKey::new(APP, CLIENT, t, ClientGranularity::Hour).unwrap();
    assert_eq!(hour.parse(), Some((APP, CLIENT, t - t % 3600)));
    let minute = ClientKey::new(APP, CLIENT, t, ClientGranularity::Minute).unwrap();
    assert_eq!(minute.parse(), Some((APP, CLIENT, t - t % 60)));
    assert_eq!(vaultless_core::usage::client::get_hour_window(t), t - t % 3600);
    assert_eq!(vaultless_core::usage::client::get_minute_window(t), t - t % 60);
}

#[test]
fn minute_and_hour_keys_read_back_from_their_text() {
    for g in [MetricGranularity::Minute, MetricGranularity::Hour] {
        let k = MetricKey::new(APP, T + 77, g).unwrap();
        assert_eq!(MetricKey::try_from(k.as_str()).unwrap(), k);
    }
}
