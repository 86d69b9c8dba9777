use vaultless_core::error::VaultlessError;
use vaultless_core::usage::per_key::{
    collect_entry, flush_cutoff, get_period_start, nonzero_chunk, scan_per_key, usage_row, validate_api_key_text,
    FlusherMetrics, MetricCounters, MetricKey, MetricsConfig, PerKeyScan,
};
use vaultless_core::usage::reports::{
    chart_data, monthly_offset, monthly_revenue_page, quota_counts, weekly_trend, MonthlyApplicationRevenueRow,
    MonthlyRevenueData, UsageTrend,
};

const KEY: u128 = 0x0123_4567_89ab_4def_8123_456789abcdef;
const KEY_TEXT: &str = "01234567-89ab-4def-8123-456789abcdef";
/// 2023-11-14T22:13:20Z
const T: i64 = 1_700_000_000;
const HOUR: i64 = 1_699_999_200;

#[test]
fn chart_keeps_month_order() {
    let rows = vec![
        MonthlyRevenueData {
            month_label: "2024-02".to_string(),
            revenue_cents: 500,
            revenue_usd: "5.00".to_string(),
            messages: 10,
            bytes_transferred: 100,
        },
        MonthlyRevenueData {
            month_label: "2024-01".to_string(),
            revenue_cents: 250,
            revenue_usd: "2.50".to_string(),
            messages: 4,
            bytes_transferred: 40,
        },
    ];
    let c = chart_data(&rows);
    assert_eq!(c.labels, vec!["2024-02".to_string(), "2024-01".to_string()]);
    assert_eq!(c.revenue_cents, vec![500, 250]);
    assert_eq!(c.messages, vec![10, 4]);
    assert_eq!(c.bytes_transferred, vec![100, 40]);
}

#[test]
fn monthly_revenue_pages() {
    assert_eq!(monthly_offset(3, 20), 40);
    assert_eq!(monthly_offset(0, 20), 0);
    let row = |id: u128, cents: i64| MonthlyApplicationRevenueRow {
        application_id: id,
        application_name: format!("app{id}"),
        revenue_cents: cents,
        total_count: 5,
    };
    let p = monthly_revenue_page(vec![row(1, 900), row(2, 100)], 1, 2);
    assert_eq!(p.total_count, 5);
    assert_eq!(p.total_pages, 3);
    assert_eq!(p.data.len(), 2);
    assert_eq!(p.data[1].application_name, "app2");
    let empty = monthly_revenue_page(vec![], 4, 2);
    assert_eq!((empty.total_count, empty.total_pages), (0, 0));
}

#[test]
fn week_over_week_trend() {
    assert_eq!(weekly_trend(Some(106), Some(100)).trend, UsageTrend::Up);
    assert_eq!(weekly_trend(Some(105), Some(100)).trend, UsageTrend::Stable);
    assert_eq!(weekly_trend(Some(95), Some(100)).trend, UsageTrend::Stable);
    assert_eq!(weekly_trend(Some(94), Some(100)).trend, UsageTrend::Down);
    assert_eq!(weekly_trend(Some(3), None).trend, UsageTrend::Up);
    let w = weekly_trend(None, None);
    assert_eq!((w.current_week, w.previous_week, w.trend), (0, 0, UsageTrend::Stable));
    assert_eq!(UsageTrend::Down.as_text(), "down");
}

#[test]
fn live_quota() {
    let q = quota_counts(100, Some(30));
    assert_eq!((q.used, q.remaining, q.is_exceeded), (30, 70, false));
    assert!(quota_counts(100, Some(100)).is_exceeded);
    assert_eq!(quota_counts(50, None).remaining, 50);
    assert_eq!(quota_counts(i64::MIN, Some(1)).remaining, i64::MIN);
    assert_eq!(quota_counts(i64::MAX, Some(-1)).remaining, i64::MAX);
}

#[test]
fn per_key_names() {
    assert_eq!(get_period_start(T), HOUR);
    assert_eq!(get_period_start(-1), -3600);
    let k = MetricKey::new_at(KEY, T, T).unwrap();
    assert_eq!(k.as_str(), format!("metric:hash:{KEY_TEXT}:2023111422"));
    assert_eq!(k.parse(), Some((KEY, HOUR)));
    let back = MetricKey::try_from(k.as_str().to_string()).unwrap();
    assert_eq!(back.parse(), Some((KEY, HOUR)));
}

#[test]
fn per_key_refusals() {
    match MetricKey::new_at(KEY, T + 7200, T) {
        Err(VaultlessError::InvalidInput(m)) => assert_eq!(m, "Future periods not allowed for metric keys"),
        other => panic!("unexpected {:?}", other.map(|k| k.0)),
    }
    match MetricKey::new_at(0, T, T) {
        Err(VaultlessError::InvalidInput(m)) => assert_eq!(m, "Nil UUID not allowed for metric keys"),
        other => panic!("unexpected {:?}", other.map(|k| k.0)),
    }
    match MetricKey::try_from("usage:x".to_string()) {
        Err(VaultlessError::InvalidInput(m)) => assert_eq!(m, "Invalid metric key format"),
        other => panic!("unexpected {:?}", other.map(|k| k.0)),
    }
    match MetricKey::try_from(format!("metric:hash:{KEY_TEXT}:2023131422")) {
        Err(VaultlessError::InvalidInput(m)) => assert_eq!(m, "Failed to parse metric key components"),
        other => panic!("unexpected {:?}", other.map(|k| k.0)),
    }
    assert!(MetricKey(format!("metric:hash:{KEY_TEXT}:2023111422:x")).parse().is_none());
    assert!(MetricKey(format!("metric:hash:{KEY_TEXT}:20231114é")).parse().is_none());
}

#[test]
fn per_key_flush_decisions() {
    assert_eq!(flush_cutoff(T, false), HOUR);
    let closed = MetricKey::new_at(KEY, T - 3600, T).unwrap();
    match scan_per_key(closed.0.clone(), HOUR) {
        PerKeyScan::Due { api_key_id, period_start, key } => {
            assert_eq!((api_key_id, period_start, key.0), (KEY, HOUR - 3600, closed.0.clone()));
        }
        _ => panic!("expected a due key"),
    }
    assert!(matches!(scan_per_key(MetricKey::new_at(KEY, T, T).unwrap().0, HOUR), PerKeyScan::NotDue));
    assert!(matches!(scan_per_key("bad".to_string(), HOUR), PerKeyScan::Invalid));

    let values = vec![("messages_sent".to_string(), 4), ("total_bytes_received".to_string(), 6)];
    let busy = collect_entry(KEY, HOUR - 3600, closed.clone(), &values);
    let idle = collect_entry(KEY, HOUR, closed.clone(), &vec![]);
    assert!(idle.counters.is_zero());
    let kept = nonzero_chunk(&vec![idle.clone(), busy.clone(), idle]);
    assert_eq!(kept.len(), 1);
    assert_eq!(kept[0].counters, busy.counters);
    let row = usage_row(&busy, 12);
    assert_eq!(row.period_end, HOUR);
    assert_eq!(row.total_bytes_stored, 6);
    assert_eq!(row.estimated_cost_cents, 12);
}

#[test]
fn per_key_counters_add_up() {
    let mut c = MetricCounters::zero();
    c.merge_from_map(&vec![("messages_sent".to_string(), 2)]);
    c.merge_from_map(&vec![("messages_sent".to_string(), 3), ("proofs_verified".to_string(), 1)]);
    assert_eq!((c.messages_sent, c.proofs_verified), (5, 1));
    let mut m = FlusherMetrics::new();
    m.record_error();
    assert_eq!(m.errors, 1);
    let mut top = FlusherMetrics { errors: u64::MAX, ..FlusherMetrics::new() };
    top.record_error();
    assert_eq!(top.errors, 0);
    assert_eq!(MetricsConfig::default().metric_ttl_secs, 7200);
}

#[test]
fn api_key_text_length() {
    assert!(validate_api_key_text("k").is_ok());
    assert!(validate_api_key_text(&"a".repeat(256)).is_ok());
    assert!(matches!(validate_api_key_text(""), Err(VaultlessError::InvalidInput(_))));
    assert!(validate_api_key_text(&"é".repeat(129)).is_err());
}
