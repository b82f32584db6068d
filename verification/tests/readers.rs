use intel_gpu_stats::hwmon::find_gpu_hwmon;
use intel_gpu_stats::hwmon::read_temperature;
use intel_gpu_stats::hwmon::HwmonEntry;
use intel_gpu_stats::hwmon::HwmonReader;
use intel_gpu_stats::rapl::find_hwmon_power;
use intel_gpu_stats::rapl::find_rapl_paths;
use intel_gpu_stats::rapl::PowercapEntry;
use intel_gpu_stats::rapl::PowercapSubentry;
use intel_gpu_stats::rapl::RaplReader;
use intel_gpu_stats::throttle::find_gt_path;
use intel_gpu_stats::throttle::parse_throttle_text;
use intel_gpu_stats::throttle::read_throttle_info;
use intel_gpu_stats::throttle::GtPathProbe;
use intel_gpu_stats::throttle::ThrottleReader;
use intel_gpu_stats::throttle::ThrottleReadings;

fn hwmon_entry(path: &str, link: Option<&str>, name: Option<&str>) -> HwmonEntry {
    HwmonEntry {
        path: path.to_string(),
        device_link: link.map(|s| s.to_string()),
        name_text: name.map(|s| s.to_string()),
        has_temp_input: true,
        has_fan_input: false,
        has_power_input: false,
    }
}

#[test]
fn test_find_gpu_hwmon_by_pci_and_name() {
    let entries = vec![
        hwmon_entry("/sys/class/hwmon/hwmon0", Some("../pci/0000:00:1f.0"), Some("coretemp")),
        hwmon_entry("/sys/class/hwmon/hwmon1", Some("../pci/0000:00:02.0"), Some("i915")),
    ];
    assert_eq!(find_gpu_hwmon(&entries, "0000:00:02.0"), Some(1));
    // With no bus path to match, the driver name still selects the monitor.
    assert_eq!(find_gpu_hwmon(&entries, ""), Some(1));
    let none = vec![hwmon_entry("/sys/class/hwmon/hwmon0", None, Some("acpi"))];
    assert_eq!(find_gpu_hwmon(&none, "0000:00:02.0"), None);
}

#[test]
fn test_hwmon_reader() {
    let mut gpu_entry =
        hwmon_entry("/sys/class/hwmon/hwmon1", Some("../pci/0000:00:02.0"), Some("xe"));
    gpu_entry.has_fan_input = true;
    let reader = HwmonReader::new(&vec![gpu_entry], "0000:00:02.0");
    assert!(reader.is_available());
    assert!(reader.has_fan());
    let temp = reader.read(Some("45000\n"), Some("1500\n")).unwrap();
    assert_eq!(temp.gpu_millicelsius, 45000);
    assert_eq!(temp.fan_rpm, Some(1500));

    let absent = HwmonReader::new(&Vec::new(), "0000:00:02.0");
    assert!(!absent.is_available());
    assert!(absent.read(Some("45000"), None).is_none());
}

#[test]
fn test_read_temperature() {
    let temp = read_temperature(" 45000 \n", None).unwrap();
    assert_eq!(temp.gpu_millicelsius, 45000);
    assert_eq!(temp.fan_rpm, None);
    assert!(read_temperature("not-a-number", None).is_none());
    let negative = read_temperature("-5000", None).unwrap();
    assert_eq!(negative.gpu_millicelsius, -5000);
}

#[test]
fn test_find_rapl_paths() {
    let entries = vec![
        PowercapEntry {
            name: "intel-rapl:0".to_string(),
            domain_name: Some("package-0\n".to_string()),
            has_energy: true,
            energy_path: "/sys/class/powercap/intel-rapl:0/energy_uj".to_string(),
            subentries: vec![PowercapSubentry {
                name: "intel-rapl:0:2".to_string(),
                domain_name: Some("uncore\n".to_string()),
                has_energy: true,
                energy_path: "/sys/class/powercap/intel-rapl:0:2/energy_uj".to_string(),
            }],
        },
        PowercapEntry {
            name: "other".to_string(),
            domain_name: Some("dram".to_string()),
            has_energy: true,
            energy_path: "/sys/class/powercap/other/energy_uj".to_string(),
            subentries: Vec::new(),
        },
    ];
    let (package, gpu) = find_rapl_paths(&entries);
    assert_eq!(
        package.as_deref(),
        Some("/sys/class/powercap/intel-rapl:0/energy_uj")
    );
    assert_eq!(
        gpu.as_deref(),
        Some("/sys/class/powercap/intel-rapl:0:2/energy_uj")
    );
}

#[test]
fn test_find_hwmon_power() {
    let mut discrete =
        hwmon_entry("/sys/class/hwmon/hwmon2", Some("../pci/0000:03:00.0"), None);
    discrete.has_power_input = true;
    let entries = vec![discrete];
    assert_eq!(
        find_hwmon_power(&entries, "0000:03:00.0").as_deref(),
        Some("/sys/class/hwmon/hwmon2/power1_input")
    );
    assert_eq!(find_hwmon_power(&entries, ""), None);
}

#[test]
fn test_rapl_reader_creation() {
    // Creation from an empty selection works and reports nothing available.
    let reader = RaplReader::new(None, None, None, None, None, 0);
    let _ = reader.is_available();
    assert!(!reader.is_available());
    assert!(!reader.has_gpu_power());
}

#[test]
fn test_rapl_reader_declines_close_reads() {
    let mut reader = RaplReader::new(
        Some("pkg".to_string()),
        None,
        None,
        Some(1_000_000),
        None,
        0,
    );
    // 500 microseconds is below the minimum spacing: no value.
    assert!(reader.read(500, None, Some(1_500_000), None).is_none());
    // The declined read changed nothing, so a later read sees the full delta.
    let stats = reader.read(1_000_000, None, Some(3_000_000), None).unwrap();
    // 2 joules over 1 second is 2 watts.
    assert_eq!(stats.package_milliwatts, Some(2000));
    assert_eq!(stats.gpu_milliwatts, 0);
}

#[test]
fn test_rapl_reader_gpu_energy_and_hwmon() {
    let mut reader = RaplReader::new(
        Some("pkg".to_string()),
        Some("gpu".to_string()),
        None,
        Some(0),
        Some(0),
        0,
    );
    let stats = reader
        .read(1_000_000, None, Some(5_000_000), Some(1_500_000))
        .unwrap();
    assert_eq!(stats.gpu_milliwatts, 1500);
    assert_eq!(stats.package_milliwatts, Some(5000));

    // A direct power input takes precedence: 15.5 W reported as microwatts.
    let mut direct = RaplReader::new(None, None, Some("p".to_string()), None, None, 0);
    let stats = direct.read(2_000, Some(15_500_000), None, None).unwrap();
    assert_eq!(stats.gpu_milliwatts, 15500);
    assert_eq!(stats.package_milliwatts, None);
}

#[test]
fn test_rapl_counter_reset_saturates() {
    // An energy counter that went backwards contributes a zero delta.
    let mut reader = RaplReader::new(
        Some("pkg".to_string()),
        None,
        None,
        Some(9_000_000),
        None,
        0,
    );
    let stats = reader.read(1_000_000, None, Some(1_000_000), None).unwrap();
    assert_eq!(stats.package_milliwatts, Some(0));
}

#[test]
fn test_find_gt_path() {
    let all = GtPathProbe { gt0_exists: true, gt_exists: true, device_gt_exists: true };
    assert_eq!(
        find_gt_path("card0", &all).as_deref(),
        Some("/sys/class/drm/card0/gt/gt0")
    );
    let old = GtPathProbe { gt0_exists: false, gt_exists: true, device_gt_exists: true };
    assert_eq!(
        find_gt_path("card0", &old).as_deref(),
        Some("/sys/class/drm/card0/gt")
    );
    let dev = GtPathProbe { gt0_exists: false, gt_exists: false, device_gt_exists: true };
    assert_eq!(
        find_gt_path("card1", &dev).as_deref(),
        Some("/sys/class/drm/card1/device/gt")
    );
    let none = GtPathProbe { gt0_exists: false, gt_exists: false, device_gt_exists: false };
    assert_eq!(find_gt_path("card0", &none), None);
}

#[test]
fn test_parse_throttle_text() {
    assert!(parse_throttle_text("1\n"));
    assert!(!parse_throttle_text("0\n"));
    assert!(!parse_throttle_text("11"));
}

#[test]
fn test_read_throttle_info() {
    let readings = ThrottleReadings {
        status: Some(false),
        power_limit: Some(true),
        thermal: None,
        prochot: Some(false),
        ratl: None,
        vr_thermal: None,
        vr_tdc: None,
    };
    let info = read_throttle_info(&readings);
    assert!(info.power_limit);
    assert!(!info.thermal);
    assert!(info.is_throttled);
    assert!(info.any_throttling());

    let quiet = ThrottleReadings {
        status: None,
        power_limit: None,
        thermal: None,
        prochot: None,
        ratl: None,
        vr_thermal: None,
        vr_tdc: None,
    };
    let info = read_throttle_info(&quiet);
    assert!(!info.is_throttled);
    assert!(!info.any_throttling());
}

#[test]
fn test_throttle_reader() {
    let probe = GtPathProbe { gt0_exists: true, gt_exists: false, device_gt_exists: false };
    let reader = ThrottleReader::new("card0", &probe);
    assert!(reader.is_available());
    let quiet = ThrottleReadings {
        status: None,
        power_limit: None,
        thermal: Some(true),
        prochot: None,
        ratl: None,
        vr_thermal: None,
        vr_tdc: None,
    };
    let info = reader.read(&quiet).unwrap();
    assert!(info.thermal);
    assert!(info.is_throttled);

    let missing = GtPathProbe { gt0_exists: false, gt_exists: false, device_gt_exists: false };
    let absent = ThrottleReader::new("card0", &missing);
    assert!(!absent.is_available());
    assert!(absent.read(&quiet).is_none());
}
