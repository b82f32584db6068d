use intel_gpu_stats::discovery::discover_gpus;
use intel_gpu_stats::discovery::discover_pmu;
use intel_gpu_stats::discovery::find_render_node;
use intel_gpu_stats::discovery::get_device_name;
use intel_gpu_stats::discovery::parse_card_id;
use intel_gpu_stats::discovery::read_gpu_info;
use intel_gpu_stats::discovery::select_pmu;
use intel_gpu_stats::discovery::underscores_to_colons2;
use intel_gpu_stats::discovery::CardEntry;
use intel_gpu_stats::discovery::PmuEntry;
use intel_gpu_stats::error::Error;
use intel_gpu_stats::pmu::get_engine_instances;
use intel_gpu_stats::pmu::PmuInfo;
use intel_gpu_stats::types::EngineClass;
use intel_gpu_stats::types::GpuDriver;

fn intel_card(name: &str) -> CardEntry {
    CardEntry {
        name: name.to_string(),
        vendor_text: Some("0x8086\n".to_string()),
        device_text: Some("0x56a0\n".to_string()),
        pci_path: "../../../0000:03:00.0".to_string(),
        driver_name: Some("i915".to_string()),
        has_card_node: true,
        has_render_node: true,
    }
}

#[test]
fn test_discover_gpus_empty_is_error() {
    // A vendor-filtered empty candidate list is the distinguished no-GPU
    // outcome, never an empty success list.
    let outcome = discover_gpus(&Vec::new());
    assert!(matches!(outcome, Err(Error::NoGpuFound)));

    let mut other_vendor = intel_card("card0");
    other_vendor.vendor_text = Some("0x10de".to_string());
    let outcome = discover_gpus(&vec![other_vendor]);
    assert!(matches!(outcome, Err(Error::NoGpuFound)));
    assert!(outcome.err().unwrap().is_gpu_missing());
}

#[test]
fn test_discover_gpus_filters_to_intel() {
    let mut other_vendor = intel_card("card0");
    other_vendor.vendor_text = Some("0x10de".to_string());
    let gpus = discover_gpus(&vec![other_vendor, intel_card("card1")]).unwrap();
    assert_eq!(gpus.len(), 1);
    assert_eq!(gpus[0].id, "card1");
    assert!(gpus[0].is_intel());
}

#[test]
fn test_read_gpu_info_fields() {
    let gpu = read_gpu_info(&intel_card("card0")).unwrap();
    assert_eq!(gpu.id, "card0");
    assert_eq!(gpu.vendor_id, 0x8086);
    assert_eq!(gpu.device_id, 0x56a0);
    assert_eq!(gpu.driver, Some(GpuDriver::I915));
    assert_eq!(gpu.render_node.as_deref(), Some("/dev/dri/renderD128"));
    assert_eq!(gpu.card_node.as_deref(), Some("/dev/dri/card0"));
    assert_eq!(gpu.device_name.as_deref(), Some("Intel Arc A770"));
}

#[test]
fn test_read_gpu_info_bad_vendor() {
    let mut entry = intel_card("card0");
    entry.vendor_text = Some("bogus".to_string());
    assert!(matches!(
        read_gpu_info(&entry),
        Err(Error::SysfsParse { .. })
    ));
}

#[test]
fn test_find_render_node() {
    assert_eq!(
        find_render_node("card0", true).as_deref(),
        Some("/dev/dri/renderD128")
    );
    assert_eq!(
        find_render_node("card2", true).as_deref(),
        Some("/dev/dri/renderD130")
    );
    assert_eq!(find_render_node("card0", false), None);
    assert_eq!(find_render_node("weird", true), None);
}

#[test]
fn test_get_device_name() {
    assert_eq!(
        get_device_name(0x3e91).as_deref(),
        Some("Intel UHD Graphics 630")
    );
    assert_eq!(get_device_name(0x1234), None);
}

#[test]
fn test_underscores_to_colons() {
    assert_eq!(underscores_to_colons2("0000_00_02.0"), "0000:00:02.0");
    assert_eq!(underscores_to_colons2("no-underscores"), "no-underscores");
    assert_eq!(underscores_to_colons2("a_b"), "a:b");
}

#[test]
fn test_parse_card_id() {
    let cards = vec![intel_card("card0"), {
        let mut c = intel_card("card1");
        c.pci_path = "../../../0000:00:02.0".to_string();
        c
    }];
    assert_eq!(parse_card_id("i915", GpuDriver::I915, &cards), "card0");
    assert_eq!(
        parse_card_id("i915-0000:00:02.0", GpuDriver::I915, &cards),
        "card1"
    );
    assert_eq!(
        parse_card_id("xe_0000_00_02.0", GpuDriver::Xe, &cards),
        "card1"
    );
    assert_eq!(
        parse_card_id("i915-0000:99:00.0", GpuDriver::I915, &cards),
        "card0"
    );
}

#[test]
fn test_discover_pmu_and_select() {
    let entries = vec![
        PmuEntry {
            name: "cpu".to_string(),
            path: "/sys/bus/event_source/devices/cpu".to_string(),
            type_text: Some("4\n".to_string()),
            event_files: Vec::new(),
        },
        PmuEntry {
            name: "i915".to_string(),
            path: "/sys/bus/event_source/devices/i915".to_string(),
            type_text: Some("18\n".to_string()),
            event_files: vec![
                ("actual-frequency".to_string(), "config=0x2\n".to_string()),
                ("render-busy".to_string(), "config=0x0\n".to_string()),
            ],
        },
    ];
    let pmus = discover_pmu(&entries, &Vec::new()).unwrap();
    assert_eq!(pmus.len(), 1);
    assert_eq!(pmus[0].type_id, 18);
    assert_eq!(pmus[0].card_id, "card0");
    assert_eq!(pmus[0].driver, GpuDriver::I915);
    assert_eq!(pmus[0].event_config("actual-frequency"), Some(2));
    assert!(pmus[0].has_event("render-busy"));
    assert!(!pmus[0].has_event("rc6-residency"));

    assert_eq!(select_pmu(&pmus, "card0"), Some(0));
    assert_eq!(select_pmu(&pmus, "card7"), Some(0));
    assert_eq!(select_pmu(&Vec::new(), "card0"), None);
}

#[test]
fn test_discover_pmu_none_is_error() {
    let entries = vec![PmuEntry {
        name: "software".to_string(),
        path: "/sys/bus/event_source/devices/software".to_string(),
        type_text: Some("1".to_string()),
        event_files: Vec::new(),
    }];
    assert!(matches!(
        discover_pmu(&entries, &Vec::new()),
        Err(Error::PmuNotAvailable)
    ));
}

fn pmu_with_events(driver: GpuDriver, names: &[&str]) -> PmuInfo {
    PmuInfo {
        type_id: 18,
        path: "/sys/bus/event_source/devices/i915".to_string(),
        events: names.iter().map(|n| (n.to_string(), 0u64)).collect(),
        card_id: "card0".to_string(),
        driver,
    }
}

#[test]
fn test_engine_config() {
    // Render busy: class 0, instance 0, sample 0.
    assert_eq!(PmuInfo::engine_config(EngineClass::Render, 0, 0), 0);

    // Video busy: class 2, instance 0, sample 0.
    assert_eq!(PmuInfo::engine_config(EngineClass::Video, 0, 0), 0x20000);

    // VideoEnhance busy: class 3, instance 0, sample 0.
    assert_eq!(
        PmuInfo::engine_config(EngineClass::VideoEnhance, 0, 0),
        0x30000
    );

    // Video wait: class 2, instance 0, sample 1.
    assert_eq!(PmuInfo::engine_config(EngineClass::Video, 0, 1), 0x20001);
}

#[test]
fn test_engine_config_roundtrip() {
    // Decoding a packed config and re-encoding yields the original value.
    let config = PmuInfo::engine_config(EngineClass::Video, 0, 0);
    let (class, instance, sample_type) = intel_gpu_stats::pmu::decode_engine_config(config);
    assert_eq!((class, instance, sample_type), (2, 0, 0));
    assert_eq!(
        PmuInfo::engine_config(EngineClass::from_u16(class).unwrap(), instance, sample_type),
        config
    );
    let wait = PmuInfo::engine_config(EngineClass::Video, 0, 1);
    assert_eq!(wait, 0x20001);
    assert_eq!(intel_gpu_stats::pmu::decode_engine_config(wait), (2, 0, 1));
}

#[test]
fn test_engine_instances_i915() {
    let pmu = pmu_with_events(
        GpuDriver::I915,
        &[
            "render-busy",
            "render-wait",
            "vcs0-busy",
            "vcs1-busy",
            "bcs0-busy",
            "actual-frequency",
            "ccs2-busy",
        ],
    );
    let instances = get_engine_instances(&pmu);
    assert_eq!(instances.render, vec![0]);
    assert_eq!(instances.copy, vec![0]);
    assert_eq!(instances.video, vec![0, 1]);
    assert!(instances.video_enhance.is_empty());
    assert_eq!(instances.compute, vec![2]);
}

#[test]
fn test_engine_instances_xe() {
    let pmu = pmu_with_events(
        GpuDriver::Xe,
        &["render-group-busy-gt0", "media-group-busy-gt0"],
    );
    let instances = get_engine_instances(&pmu);
    assert_eq!(instances.render, vec![0]);
    assert!(instances.copy.is_empty());
    assert_eq!(instances.video, vec![0]);
    assert_eq!(instances.video_enhance, vec![0]);
    assert!(instances.compute.is_empty());
}

#[test]
fn test_engine_instances_fallback() {
    // With no advertised engines, the four basic engines are assumed at
    // instance 0 — a deliberately optimistic default.
    let pmu = pmu_with_events(GpuDriver::I915, &["actual-frequency"]);
    let instances = get_engine_instances(&pmu);
    assert_eq!(instances.render, vec![0]);
    assert_eq!(instances.copy, vec![0]);
    assert_eq!(instances.video, vec![0]);
    assert_eq!(instances.video_enhance, vec![0]);
    assert!(instances.compute.is_empty());
}

#[test]
fn test_engine_class_values() {
    assert_eq!(EngineClass::from_u16(2), Some(EngineClass::Video));
    assert_eq!(EngineClass::from_u16(9), None);
    assert_eq!(EngineClass::Video.value(), 2);
    assert!(!EngineClass::Compute.name().is_empty());
    assert_eq!(GpuDriver::I915.name(), "i915");
    assert_eq!(GpuDriver::Xe.name(), "xe");
    assert_eq!(
        intel_gpu_stats::types::SampleType::from_u8(1),
        Some(intel_gpu_stats::types::SampleType::Wait)
    );
    assert_eq!(intel_gpu_stats::types::SampleType::from_u8(3), None);
}
