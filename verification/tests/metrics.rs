use mini_redis::Metrics;
use std::time::Duration;

#[test]
fn metrics_test_metrics_creation() {
    let metrics = Metrics::new();
    assert_eq!(metrics.ops_ok, 0);
    assert_eq!(metrics.ops_err, 0);
    assert_eq!(metrics.get_hits, 0);
    assert_eq!(metrics.get_misses, 0);
    assert_eq!(metrics.pub_count, 0);
    assert_eq!(metrics.sub_count, 0);
    assert_eq!(metrics.keys, 0);
    assert_eq!(metrics.mem_bytes, 0);
}

#[test]
fn test_metrics_increment() {
    let mut metrics = Metrics::new();

    metrics.inc_ops_ok();
    metrics.inc_ops_ok();
    assert_eq!(metrics.ops_ok, 2);

    metrics.inc_ops_err();
    assert_eq!(metrics.ops_err, 1);

    metrics.inc_get_hits();
    metrics.inc_get_hits();
    metrics.inc_get_hits();
    assert_eq!(metrics.get_hits, 3);

    metrics.inc_get_misses();
    assert_eq!(metrics.get_misses, 1);

    metrics.inc_pub_count();
    metrics.inc_pub_count();
    assert_eq!(metrics.pub_count, 2);

    metrics.inc_sub_count();
    assert_eq!(metrics.sub_count, 1);
}

#[test]
fn test_metrics_set() {
    let mut metrics = Metrics::new();

    metrics.set_keys(42);
    assert_eq!(metrics.keys, 42);

    metrics.set_mem_bytes(1024);
    assert_eq!(metrics.mem_bytes, 1024);
}

#[test]
fn test_info_string() {
    let mut metrics = Metrics::new();
    metrics.inc_ops_ok();
    metrics.inc_get_hits();
    metrics.set_keys(5);
    metrics.set_mem_bytes(100);

    let info = metrics.info_string();
    assert!(info.contains("ops_ok:1"));
    assert!(info.contains("get_hits:1"));
    assert!(info.contains("keys:5"));
    assert!(info.contains("mem_bytes:100"));
    assert!(info.ends_with("\r\n"));
}

#[test]
fn test_prometheus_string() {
    let mut metrics = Metrics::new();
    metrics.inc_ops_ok();
    metrics.inc_get_hits();
    metrics.set_keys(5);
    metrics.set_mem_bytes(100);

    let prometheus = metrics.prometheus_string();
    assert!(prometheus.contains("# HELP mini_redis_ops_ok"));
    assert!(prometheus.contains("# TYPE mini_redis_ops_ok counter"));
    assert!(prometheus.contains("mini_redis_ops_ok 1"));
    assert!(prometheus.contains("mini_redis_keys 5"));
    assert!(prometheus.contains("mini_redis_mem_bytes 100"));
}

#[test]
fn test_gc_metrics() {
    let mut metrics = Metrics::new();

    metrics.inc_gc_cleanup_count();
    metrics.inc_gc_cleanup_count();
    assert_eq!(metrics.gc_cleanup_count, 2);

    metrics.add_gc_cleanup_total(10);
    metrics.add_gc_cleanup_total(15);
    assert_eq!(metrics.gc_cleanup_total, 25);

    let duration = Duration::from_millis(50);
    metrics.record_gc_duration(duration);
    metrics.record_gc_duration(duration);
    assert_eq!(metrics.gc_duration_count, 2);
    assert_eq!(metrics.gc_duration_total, 100);
    assert_eq!(metrics.gc_duration_avg_ms(), 50);
}

#[test]
fn test_metrics_creation() {
    let metrics = Metrics::new();

    assert_eq!(metrics.ops_ok, 0);
    assert_eq!(metrics.ops_err, 0);
    assert_eq!(metrics.get_hits, 0);
    assert_eq!(metrics.get_misses, 0);
    assert_eq!(metrics.pub_count, 0);
    assert_eq!(metrics.sub_count, 0);
    assert_eq!(metrics.keys, 0);
    assert_eq!(metrics.mem_bytes, 0);
}

#[test]
fn test_metrics_ops_counting() {
    let mut metrics = Metrics::new();

    metrics.inc_ops_ok();
    assert_eq!(metrics.ops_ok, 1);
    assert_eq!(metrics.ops_err, 0);

    metrics.inc_ops_ok();
    assert_eq!(metrics.ops_ok, 2);

    metrics.inc_ops_err();
    assert_eq!(metrics.ops_ok, 2);
    assert_eq!(metrics.ops_err, 1);

    metrics.inc_ops_err();
    assert_eq!(metrics.ops_ok, 2);
    assert_eq!(metrics.ops_err, 2);
}

#[test]
fn test_metrics_get_ops() {
    let mut metrics = Metrics::new();

    metrics.inc_get_hits();
    assert_eq!(metrics.get_hits, 1);

    metrics.inc_get_hits();
    assert_eq!(metrics.get_hits, 2);

    metrics.inc_get_hits();
    assert_eq!(metrics.get_hits, 3);

    metrics.inc_get_misses();
    assert_eq!(metrics.get_misses, 1);

    metrics.inc_get_hits();
    assert_eq!(metrics.get_hits, 4);

    metrics.inc_get_misses();
    assert_eq!(metrics.get_misses, 2);
}

#[test]
fn test_metrics_pub_sub() {
    let mut metrics = Metrics::new();

    metrics.inc_pub_count();
    assert_eq!(metrics.pub_count, 1);

    metrics.inc_pub_count();
    assert_eq!(metrics.pub_count, 2);

    metrics.inc_sub_count();
    assert_eq!(metrics.sub_count, 1);

    metrics.inc_sub_count();
    assert_eq!(metrics.sub_count, 2);

    metrics.inc_sub_count();
    assert_eq!(metrics.sub_count, 3);
}

#[test]
fn test_metrics_keys_and_memory() {
    let mut metrics = Metrics::new();

    metrics.set_keys(100);
    assert_eq!(metrics.keys, 100);

    metrics.set_keys(250);
    assert_eq!(metrics.keys, 250);

    metrics.set_mem_bytes(1024);
    assert_eq!(metrics.mem_bytes, 1024);

    metrics.set_mem_bytes(2048);
    assert_eq!(metrics.mem_bytes, 2048);

    metrics.set_keys(1_000_000);
    assert_eq!(metrics.keys, 1_000_000);

    metrics.set_mem_bytes(1_073_741_824);
    assert_eq!(metrics.mem_bytes, 1_073_741_824);
}

#[test]
fn test_metrics_clone() {
    let mut metrics = Metrics::new();

    metrics.inc_ops_ok();
    metrics.inc_get_hits();
    metrics.set_keys(50);

    let cloned_metrics = metrics.clone();

    assert_eq!(metrics.ops_ok, 1);
    assert_eq!(cloned_metrics.ops_ok, 1);

    assert_eq!(metrics.get_hits, 1);
    assert_eq!(cloned_metrics.get_hits, 1);

    assert_eq!(metrics.keys, 50);
    assert_eq!(cloned_metrics.keys, 50);

    metrics.inc_ops_ok();

    assert_eq!(metrics.ops_ok, 2);
    assert_eq!(cloned_metrics.ops_ok, 1);
}

#[test]
fn test_metrics_debug() {
    let mut metrics = Metrics::new();

    metrics.inc_ops_ok();
    metrics.inc_get_hits();
    metrics.set_keys(100);

    let debug_str = format!("{:?}", metrics);

    assert!(debug_str.contains("ops_ok"));
    assert!(debug_str.contains("get_hits"));
    assert!(debug_str.contains("keys"));
}

#[test]
fn test_metrics_edge_cases() {
    let mut metrics = Metrics::new();

    metrics.set_keys(u64::MAX);
    assert_eq!(metrics.keys, u64::MAX);

    metrics.set_mem_bytes(u64::MAX);
    assert_eq!(metrics.mem_bytes, u64::MAX);

    let large_number = 1_000_000_000_000_u64;
    metrics.set_keys(large_number);
    assert_eq!(metrics.keys, large_number);

    metrics.set_mem_bytes(large_number);
    assert_eq!(metrics.mem_bytes, large_number);
}

#[test]
fn test_metrics_operations_chain() {
    let mut metrics = Metrics::new();

    metrics.inc_ops_ok();
    metrics.inc_get_hits();
    metrics.inc_get_hits();
    metrics.inc_pub_count();
    metrics.inc_sub_count();

    assert_eq!(metrics.ops_ok, 1);
    assert_eq!(metrics.get_hits, 2);
    assert_eq!(metrics.pub_count, 1);
    assert_eq!(metrics.sub_count, 1);
}

#[test]
fn test_metrics_negative_scenarios() {
    let mut metrics = Metrics::new();

    metrics.set_keys(0);
    assert_eq!(metrics.keys, 0);

    metrics.set_mem_bytes(0);
    assert_eq!(metrics.mem_bytes, 0);

    assert_eq!(metrics.ops_ok, 0);
    assert_eq!(metrics.ops_err, 0);
}

#[test]
fn test_metrics_performance() {
    let mut metrics = Metrics::new();

    let start = std::time::Instant::now();

    for _ in 0..1_000_000 {
        metrics.inc_ops_ok();
    }

    let duration = start.elapsed();

    assert_eq!(metrics.ops_ok, 1_000_000);

    assert!(duration.as_secs() < 1);
}

#[test]
fn test_metrics_serialization() {
    let mut metrics = Metrics::new();

    metrics.inc_ops_ok();
    metrics.inc_get_hits();
    metrics.set_keys(100);
    metrics.set_mem_bytes(1024);

    let ops_total = metrics.ops_ok.to_string();
    let keys = metrics.keys.to_string();
    let mem_bytes = metrics.mem_bytes.to_string();

    assert_eq!(ops_total, "1");
    assert_eq!(keys, "100");
    assert_eq!(mem_bytes, "1024");
}

#[test]
fn test_metrics_info_string() {
    let mut metrics = Metrics::new();

    metrics.inc_ops_ok();
    metrics.inc_get_hits();
    metrics.set_keys(100);
    metrics.set_mem_bytes(1024);

    let info = metrics.info_string();

    assert!(info.contains("ops_ok:1"));
    assert!(info.contains("get_hits:1"));
    assert!(info.contains("keys:100"));
    assert!(info.contains("mem_bytes:1024"));
}

#[test]
fn test_metrics_prometheus_string() {
    let mut metrics = Metrics::new();

    metrics.inc_ops_ok();
    metrics.inc_get_hits();
    metrics.set_keys(100);
    metrics.set_mem_bytes(1024);

    let prometheus = metrics.prometheus_string();

    assert!(prometheus.contains("mini_redis_ops_ok 1"));
    assert!(prometheus.contains("mini_redis_get_hits 1"));
    assert!(prometheus.contains("mini_redis_keys 100"));
    assert!(prometheus.contains("mini_redis_mem_bytes 1024"));
}

#[test]
fn test_metrics_gc_operations() {
    let mut metrics = Metrics::new();

    metrics.inc_gc_cleanup_count();
    assert_eq!(metrics.gc_cleanup_count, 1);

    metrics.add_gc_cleanup_total(50);
    assert_eq!(metrics.gc_cleanup_total, 50);

    metrics.add_gc_cleanup_total(25);
    assert_eq!(metrics.gc_cleanup_total, 75);

    let duration = std::time::Duration::from_millis(100);
    metrics.record_gc_duration(duration);

    assert_eq!(metrics.gc_duration_count, 1);
    assert_eq!(metrics.gc_duration_total, 100);
}

#[test]
fn test_metrics_default() {
    let metrics = Metrics::default();

    assert_eq!(metrics.ops_ok, 0);
    assert_eq!(metrics.ops_err, 0);
    assert_eq!(metrics.get_hits, 0);
    assert_eq!(metrics.get_misses, 0);
    assert_eq!(metrics.pub_count, 0);
    assert_eq!(metrics.sub_count, 0);
    assert_eq!(metrics.keys, 0);
    assert_eq!(metrics.mem_bytes, 0);
}

#[test]
fn test_metrics_server_metrics_operations() {
    let mut metrics = Metrics::new();

    assert_eq!(metrics.ops_ok, 0);
    assert_eq!(metrics.keys, 0);
    assert_eq!(metrics.mem_bytes, 0);

    metrics.inc_ops_ok();
    metrics.set_keys(100);
    metrics.set_mem_bytes(1024);

    assert_eq!(metrics.ops_ok, 1);
    assert_eq!(metrics.keys, 100);
    assert_eq!(metrics.mem_bytes, 1024);
}

#[test]
fn metrics_info_string_exact() {
    let mut metrics = Metrics::new();
    metrics.inc_ops_ok();
    metrics.inc_ops_err();
    metrics.inc_get_misses();
    metrics.inc_pub_count();
    metrics.inc_sub_count();
    metrics.set_keys(1250);
    metrics.set_mem_bytes(51200);
    metrics.inc_gc_cleanup_count();
    metrics.add_gc_cleanup_total(1250);
    metrics.record_gc_duration(Duration::from_millis(10));
    metrics.record_gc_duration(Duration::from_millis(21));
    assert_eq!(
        metrics.info_string(),
        "ops_ok:1\r\nops_err:1\r\nget_hits:0\r\nget_misses:1\r\npub_count:1\r\nsub_count:1\r\n\
keys:1250\r\nmem_bytes:51200\r\ngc_cleanup_count:1\r\ngc_cleanup_total:1250\r\n\
gc_duration_avg_ms:15\r\n"
    );
}

#[test]
fn metrics_prometheus_string_exact_block() {
    let mut metrics = Metrics::new();
    metrics.set_mem_bytes(u64::MAX);
    let text = metrics.prometheus_string();
    assert!(text.starts_with(
        "# HELP mini_redis_ops_ok Total successful operations\n\
# TYPE mini_redis_ops_ok counter\n\
mini_redis_ops_ok 0\n\
# HELP mini_redis_ops_err Total number of failed operations\n"
    ));
    assert!(text.contains(
        "# HELP mini_redis_mem_bytes Memory usage in bytes\n\
# TYPE mini_redis_mem_bytes gauge\n\
mini_redis_mem_bytes 18446744073709551615\n"
    ));
    assert!(text.ends_with(
        "# HELP mini_redis_gc_duration_avg_ms Average GC cleanup duration in milliseconds\n\
# TYPE mini_redis_gc_duration_avg_ms gauge\n\
mini_redis_gc_duration_avg_ms 0\n"
    ));
    assert_eq!(text.lines().count(), 33);
}

#[test]
fn metrics_counters_wrap_around() {
    let mut metrics = Metrics::new();
    metrics.ops_ok = u64::MAX;
    metrics.inc_ops_ok();
    assert_eq!(metrics.ops_ok, 0);
    metrics.gc_cleanup_total = u64::MAX - 1;
    metrics.add_gc_cleanup_total(3);
    assert_eq!(metrics.gc_cleanup_total, 1);
}

#[test]
fn metrics_record_whole_milliseconds() {
    let mut metrics = Metrics::new();
    metrics.record_gc_duration(Duration::from_micros(2_999));
    metrics.record_gc_duration(Duration::from_secs(3));
    assert_eq!(metrics.gc_duration_total, 3_002);
    assert_eq!(metrics.gc_duration_count, 2);
    assert_eq!(metrics.gc_duration_avg_ms(), 1_501);
}

#[test]
fn metrics_uniform_average() {
    let mut metrics = Metrics::new();
    assert_eq!(metrics.gc_duration_avg_ms(), 0);
    for _ in 0..7 {
        metrics.record_gc_duration(Duration::from_millis(40));
    }
    assert_eq!(metrics.gc_duration_avg_ms(), 40);
}

#[test]
fn metrics_prometheus_matches_the_monitoring_guide() {
    let mut metrics = Metrics::new();
    for _ in 0..42 {
        metrics.inc_ops_ok();
    }
    metrics.set_keys(15);
    metrics.set_mem_bytes(2048);
    let text = metrics.prometheus_string();
    assert!(text.contains(
        "# HELP mini_redis_ops_ok Total successful operations\n# TYPE mini_redis_ops_ok counter\nmini_redis_ops_ok 42\n"
    ));
    assert!(text.contains(
        "# HELP mini_redis_keys Total number of keys\n# TYPE mini_redis_keys gauge\nmini_redis_keys 15\n"
    ));
    assert!(text.contains(
        "# HELP mini_redis_mem_bytes Memory usage in bytes\n# TYPE mini_redis_mem_bytes gauge\nmini_redis_mem_bytes 2048\n"
    ));
}

#[test]
fn metrics_record_gc_cycle() {
    let mut metrics = Metrics::new();
    metrics.record_gc_cycle(120, Duration::from_millis(8));
    metrics.record_gc_cycle(0, Duration::from_millis(2));
    assert_eq!(metrics.gc_cleanup_count, 2);
    assert_eq!(metrics.gc_cleanup_total, 120);
    assert_eq!(metrics.gc_duration_count, 2);
    assert_eq!(metrics.gc_duration_total, 10);
    assert_eq!(metrics.gc_duration_avg_ms(), 5);
    assert!(metrics.info_string().contains("gc_cleanup_count:2\r\ngc_cleanup_total:120\r\ngc_duration_avg_ms:5\r\n"));
}
