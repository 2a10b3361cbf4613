use pulse_client::{aggs, windows, WindowSpec};

#[test]
fn windows_tumbling_emits_expected_string() {
    assert_eq!(windows::tumbling("60s").spec(), "tumbling(60s)");
}

#[test]
fn windows_sliding_emits_expected_string() {
    assert_eq!(windows::sliding("10m", "1m").spec(), "sliding(10m,1m)");
}

#[test]
fn windows_session_emits_expected_string() {
    assert_eq!(windows::session("30s").spec(), "session(30s)");
}

#[test]
fn windows_global_emits_expected_string() {
    assert_eq!(windows::global().spec(), "global");
}

#[test]
fn windows_count_emits_expected_string() {
    assert_eq!(windows::count(100).spec(), "count(100)");
}

#[test]
fn windows_count_sliding_emits_expected_string() {
    assert_eq!(
        windows::count_sliding(100, 10).spec(),
        "count_sliding(100,10)"
    );
}

#[test]
fn windows_count_takes_the_largest_number() {
    assert_eq!(
        windows::count(u64::MAX).spec(),
        "count(18446744073709551615)"
    );
}

#[test]
fn window_spec_display_returns_spec() {
    assert_eq!(windows::tumbling("60s").text(), "tumbling(60s)");
}

#[test]
fn window_spec_keeps_a_raw_text() {
    let spec = WindowSpec::new(" tumbling(5m) ");
    assert_eq!(spec.spec(), " tumbling(5m) ");
    assert_eq!(spec.clone(), spec);
    assert_ne!(spec, windows::tumbling("5m"));
}

#[test]
fn aggs_all_emit_expected_strings() {
    assert_eq!(aggs::count(), "count()");
    assert_eq!(aggs::sum("amount"), "sum(amount)");
    assert_eq!(aggs::avg("price"), "avg(price)");
    assert_eq!(aggs::min("latency"), "min(latency)");
    assert_eq!(aggs::max("latency"), "max(latency)");
    assert_eq!(aggs::collect_list("sku"), "collect_list(sku)");
    assert_eq!(aggs::distinct_count("user_id"), "distinct_count(user_id)");
}
