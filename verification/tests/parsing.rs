use intel_gpu_stats::fdinfo::list_drm_clients;
use intel_gpu_stats::fdinfo::find_quicksync_clients;
use intel_gpu_stats::fdinfo::parse_engine_ns;
use intel_gpu_stats::fdinfo::parse_fdinfo;
use intel_gpu_stats::fdinfo::parse_memory_bytes;
use intel_gpu_stats::fdinfo::FdinfoData;
use intel_gpu_stats::pmu::parse_event_config;
use intel_gpu_stats::strutil::parse_hex_or_dec;
use intel_gpu_stats::strutil::parse_i64_dec;
use intel_gpu_stats::strutil::u64_to_dec;
use intel_gpu_stats::types::DrmClient;

#[test]
fn test_parse_hex_or_dec() {
    assert_eq!(parse_hex_or_dec("0x10"), Some(16));
    assert_eq!(parse_hex_or_dec("0X10"), Some(16));
    assert_eq!(parse_hex_or_dec("16"), Some(16));
    assert_eq!(parse_hex_or_dec("0xabc"), Some(0xabc));
    assert_eq!(parse_hex_or_dec("invalid"), None);
}

#[test]
fn test_parse_hex_or_dec_edges() {
    assert_eq!(parse_hex_or_dec("  42\n"), Some(42));
    assert_eq!(parse_hex_or_dec("0x"), None);
    assert_eq!(parse_hex_or_dec(""), None);
    assert_eq!(parse_hex_or_dec("18446744073709551615"), Some(u64::MAX));
    assert_eq!(parse_hex_or_dec("18446744073709551616"), None);
}

#[test]
fn test_parse_i64() {
    assert_eq!(parse_i64_dec("-15000"), Some(-15000));
    assert_eq!(parse_i64_dec("45000"), Some(45000));
    assert_eq!(parse_i64_dec("-"), None);
}

#[test]
fn test_parse_event_config() {
    assert_eq!(parse_event_config("config=0x1"), Some(1));
    assert_eq!(parse_event_config("config=1"), Some(1));
    assert_eq!(parse_event_config("config=0x30000"), Some(0x30000));
}

#[test]
fn test_parse_event_config_multi_part() {
    assert_eq!(parse_event_config("umask=0x2,config=0x5"), Some(5));
    assert_eq!(parse_event_config("0x7"), Some(7));
    assert_eq!(parse_event_config("nonsense"), None);
}

#[test]
fn test_parse_engine_ns() {
    assert_eq!(
        parse_engine_ns("drm-engine-render:      12345678 ns"),
        12345678
    );
    assert_eq!(parse_engine_ns("drm-engine-copy:        0 ns"), 0);
    assert_eq!(parse_engine_ns("drm-engine-video:       999 ns"), 999);
}

#[test]
fn test_parse_memory_bytes() {
    assert_eq!(
        parse_memory_bytes("drm-memory-resident:    1234567"),
        1234567
    );
    assert_eq!(parse_memory_bytes("drm-memory-resident:    0"), 0);
}

#[test]
fn test_parse_fdinfo_ours() {
    let text = "drm-driver:\ti915\ndrm-client-id:\t42\ndrm-engine-render:\t100 ns\ndrm-engine-video:\t200 ns\ndrm-engine-video-enhance:\t300 ns\ndrm-memory-resident:\t4096\n";
    let data = parse_fdinfo(text).expect("driver line should mark this as ours");
    assert_eq!(data.client_id, Some(42));
    assert_eq!(data.render_ns, 100);
    assert_eq!(data.video_ns, 200);
    assert_eq!(data.video_enhance_ns, 300);
    assert_eq!(data.memory_bytes, 4096);
}

#[test]
fn test_parse_fdinfo_other_driver() {
    let text = "drm-driver:\tamdgpu\ndrm-engine-render:\t100 ns\n";
    assert!(parse_fdinfo(text).is_none());
}

#[test]
fn test_list_drm_clients_orders_and_merges() {
    let mut a = FdinfoData::new();
    a.render_ns = 100;
    let mut b = FdinfoData::new();
    b.video_ns = 900;
    let mut a2 = FdinfoData::new();
    a2.video_ns = 50;
    a2.memory_bytes = 10;
    let records = vec![
        (10, "one".to_string(), a),
        (20, "two".to_string(), b),
        (10, "one".to_string(), a2),
    ];
    let clients = list_drm_clients(&records);
    assert_eq!(clients.len(), 2);
    assert_eq!(clients[0].pid, 20);
    assert_eq!(clients[0].total_usage_ns(), 900);
    assert_eq!(clients[1].pid, 10);
    assert_eq!(clients[1].render_ns, 100);
    assert_eq!(clients[1].video_ns, 50);
    assert_eq!(clients[1].memory_bytes, 10);
}

#[test]
fn test_find_quicksync_clients() {
    let mut plain = DrmClient::new(1, "render-only".to_string());
    plain.render_ns = 500;
    let mut qs = DrmClient::new(2, "encoder".to_string());
    qs.video_enhance_ns = 10;
    let clients = vec![plain, qs];
    let found = find_quicksync_clients(&clients);
    assert_eq!(found.len(), 1);
    assert_eq!(found[0].pid, 2);
}

#[test]
fn test_u64_to_dec() {
    assert_eq!(u64_to_dec(0), "0");
    assert_eq!(u64_to_dec(128), "128");
    assert_eq!(u64_to_dec(18446744073709551615), "18446744073709551615");
}
