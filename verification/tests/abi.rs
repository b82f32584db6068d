use intel_gpu_stats::error::Error;
use intel_gpu_stats::kmt::query_node_mapping;
use intel_gpu_stats::kmt::node_running_time_ns;
use intel_gpu_stats::kmt::list_gpu_processes;
use intel_gpu_stats::kmt::wchar_to_string;
use intel_gpu_stats::kmt::STATUS_SUCCESS;
use intel_gpu_stats::perf::classify_open_error;
use intel_gpu_stats::perf::decode_counter_value;
use intel_gpu_stats::perf::PerfEventAttr;
use intel_gpu_stats::perf::EACCES;
use intel_gpu_stats::perf::ENOENT;
use intel_gpu_stats::perf::PERF_ATTR_SIZE;

#[test]
fn test_perf_event_attr_size() {
    // The advertised structure size matches the encoded layout exactly.
    let attr = PerfEventAttr::default();
    assert!(attr.size > 0);
    assert_eq!(attr.size as usize, attr.to_bytes().len());
}

#[test]
fn test_new_i915_attr() {
    let attr = PerfEventAttr::new_i915(10, 0x30000);
    assert_eq!(attr.type_, 10);
    assert_eq!(attr.config, 0x30000);
}

#[test]
fn test_attr_bytes_layout() {
    let attr = PerfEventAttr::new_i915(0x11223344, 0x0102030405060708);
    let bytes = attr.to_bytes();
    assert_eq!(bytes.len(), PERF_ATTR_SIZE as usize);
    // type id: little-endian at offset 0.
    assert_eq!(&bytes[0..4], &[0x44, 0x33, 0x22, 0x11]);
    // structure size at offset 4.
    assert_eq!(&bytes[4..8], &[136, 0, 0, 0]);
    // config value: little-endian at offset 8.
    assert_eq!(
        &bytes[8..16],
        &[0x08, 0x07, 0x06, 0x05, 0x04, 0x03, 0x02, 0x01]
    );
    // everything after the config value is zero for a plain request.
    assert!(bytes[16..].iter().all(|&b| b == 0));
}

#[test]
fn test_decode_counter_value() {
    let name = "render-busy".to_string();
    let payload = vec![0x08, 0x07, 0x06, 0x05, 0x04, 0x03, 0x02, 0x01];
    assert_eq!(
        decode_counter_value(&payload, &name).unwrap(),
        0x0102030405060708
    );
    let short = vec![1, 2, 3];
    assert!(matches!(
        decode_counter_value(&short, &name),
        Err(Error::PerfEventRead { .. })
    ));
}

#[test]
fn test_classify_open_error() {
    let denied = classify_open_error(EACCES, "render-busy".to_string());
    assert!(denied.is_permission_error());
    let unsupported = classify_open_error(ENOENT, "vcs1-sema".to_string());
    assert!(matches!(unsupported, Error::EventNotSupported { .. }));
    let other = classify_open_error(22, "video-busy".to_string());
    assert!(matches!(other, Error::PerfEventOpen { errno: 22, .. }));
}

#[test]
fn test_error_classification() {
    assert!(Error::NoGpuFound.is_gpu_missing());
    assert!(Error::GpuUnavailable.is_gpu_missing());
    assert!(!Error::PmuNotAvailable.is_gpu_missing());
    assert!(!Error::NoGpuFound.is_permission_error());
}

#[test]
fn test_status_success() {
    assert_eq!(STATUS_SUCCESS, 0);
}

#[test]
fn test_wchar_to_string() {
    let wchar: Vec<u16> = vec![
        'H' as u16, 'e' as u16, 'l' as u16, 'l' as u16, 'o' as u16, 0, 0, 0, 0, 0,
    ];
    assert_eq!(wchar_to_string(&wchar), "Hello");
}

#[test]
fn test_wchar_to_string_no_null() {
    let wchar: Vec<u16> = vec!['H' as u16, 'e' as u16, 'l' as u16, 'l' as u16, 'o' as u16];
    assert_eq!(wchar_to_string(&wchar), "Hello");
}

#[test]
fn test_node_mapping() {
    let full = query_node_mapping(5);
    assert_eq!(full.render, Some(0));
    assert_eq!(full.compute, Some(4));
    let basic = query_node_mapping(4);
    assert_eq!(basic.video_enhance, Some(3));
    assert_eq!(basic.compute, None);
    let none = query_node_mapping(0);
    assert_eq!(none.render, None);
}

#[test]
fn test_node_running_time() {
    assert_eq!(node_running_time_ns(7), 700);
    assert_eq!(node_running_time_ns(u64::MAX), u64::MAX);
}

#[test]
fn test_list_gpu_processes() {
    let processes = vec![(100, "a.exe".to_string()), (200, "b.exe".to_string())];
    let clients = list_gpu_processes(&processes);
    assert_eq!(clients.len(), 2);
    assert_eq!(clients[0].pid, 100);
    assert_eq!(clients[1].name, "b.exe");
    assert_eq!(clients[0].total_usage_ns(), 0);
}

#[test]
fn test_adapter_desc_to_gpu_info() {
    let description: Vec<u16> = vec!['A' as u16, 'r' as u16, 'c' as u16, 0, 0];
    let info = intel_gpu_stats::kmt::adapter_desc_to_gpu_info(
        &description,
        0x8086,
        0x56a0,
        0x0000_0012_0000_ab34,
        0,
    );
    assert_eq!(info.id, "adapter0");
    assert_eq!(info.pci_path, "LUID:000000120000ab34");
    assert_eq!(info.device_name.as_deref(), Some("Arc"));
    assert_eq!(info.vendor_id, 0x8086);
    assert_eq!(info.device_id, 0x56a0);
    assert!(info.render_node.is_none());
    assert!(info.driver.is_none());
}
