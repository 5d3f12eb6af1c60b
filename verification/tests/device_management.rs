use rustltfs::device::{
    assess_device_health, health_score, DeviceHealth, DeviceIssue, ErrorRateBand, HealthChecks, IssueSeverity, IssueType,
};
use rustltfs::device_manager::{DeviceManager, DeviceReportGenerator, DeviceStatusInfo};

#[test]
fn test_device_health_assessment() {
    assert_eq!(DeviceHealth::Excellent, DeviceHealth::Excellent);
}

#[test]
fn healthy_drive_is_excellent() {
    let checks = HealthChecks {
        responsive: true,
        error_rate: ErrorRateBand::Low,
        temperature_ok: Some(true),
        head_ok: Some(true),
    };
    assert_eq!(health_score(&checks), 100);
    assert_eq!(assess_device_health(&checks), DeviceHealth::Excellent);
}

#[test]
fn unresponsive_drive_with_elevated_errors_is_fair() {
    let checks = HealthChecks {
        responsive: false,
        error_rate: ErrorRateBand::Elevated,
        temperature_ok: None,
        head_ok: Some(true),
    };
    assert_eq!(health_score(&checks), 60);
    assert_eq!(assess_device_health(&checks), DeviceHealth::Fair);
}

#[test]
fn everything_failing_is_critical() {
    let checks = HealthChecks {
        responsive: false,
        error_rate: ErrorRateBand::High,
        temperature_ok: Some(false),
        head_ok: Some(false),
    };
    assert_eq!(health_score(&checks), 10);
    assert_eq!(assess_device_health(&checks), DeviceHealth::Critical);
}

fn status(path: &str, health: DeviceHealth) -> DeviceStatusInfo {
    DeviceStatusInfo {
        path: path.to_string(),
        vendor: "HP".to_string(),
        model: "Ultrium".to_string(),
        serial: "1".to_string(),
        health_status: health,
        media_info: None,
        recent_issues: Vec::new(),
        last_updated: "t".to_string(),
        is_online: true,
        is_ready: true,
    }
}

fn issue(severity: IssueSeverity, n: usize) -> DeviceIssue {
    DeviceIssue {
        issue_type: IssueType::Hardware,
        severity,
        description: format!("issue {}", n),
        timestamp: "t".to_string(),
        error_code: None,
        recommended_action: None,
    }
}

#[test]
fn device_manager_keeps_ten_recent_issues() {
    let mut m = DeviceManager::new();
    assert_eq!(m.monitoring_interval_ms, 30_000);
    m.enable_auto_monitoring(5_000);
    assert!(m.auto_monitoring_enabled);
    m.disable_auto_monitoring();
    assert!(!m.auto_monitoring_enabled);
    m.initialize_device_status(status("/dev/nst0", DeviceHealth::Good));
    m.initialize_device_status(status("/dev/nst1", DeviceHealth::Poor));
    m.initialize_device_status(status("/dev/nst0", DeviceHealth::Fair));
    assert_eq!(m.devices.len(), 2);
    assert_eq!(m.get_devices_needing_attention(), vec!["/dev/nst0".to_string(), "/dev/nst1".to_string()]);
    assert!(!m.has_critical_issues());
    for n in 0..12 {
        m.add_device_issue("/dev/nst0", issue(IssueSeverity::Warning, n));
    }
    let d = m.get_device_status("/dev/nst0").unwrap();
    assert_eq!(d.recent_issues.len(), 10);
    assert_eq!(d.recent_issues[0].description, "issue 2");
    m.add_device_issue("/dev/nst1", issue(IssueSeverity::Critical, 0));
    assert!(m.has_critical_issues());
    m.clear_device_issues("/dev/nst1");
    assert!(!m.has_critical_issues());
    m.add_device_issue("/dev/none", issue(IssueSeverity::Critical, 0));
    assert!(!m.has_critical_issues());
    assert!(m.get_device_status("/dev/none").is_none());
    let mut inquiry = vec![0u8; 36];
    inquiry[8..16].copy_from_slice(b"HP      ");
    inquiry[16..32].copy_from_slice(b"Ultrium 8-SCSI  ");
    inquiry[32..36].copy_from_slice(b"Q3 \0");
    let (v, model, s) = m.get_device_basic_info(&inquiry);
    assert_eq!((v.as_str(), model.as_str()), ("HP", "Ultrium 8-SCSI"));
    assert_eq!(s, "Q3 \0".trim());
    assert_eq!(m.get_device_basic_info(&[1, 2]), ("Unknown".to_string(), "Unknown".to_string(), "N/A".to_string()));
}

#[test]
fn device_inventory_as_csv() {
    let mut m = DeviceManager::new();
    m.initialize_device_status(status("/dev/nst0", DeviceHealth::Good));
    let mut off = status("/dev/nst1", DeviceHealth::Critical);
    off.is_online = false;
    m.initialize_device_status(off);
    let g = DeviceReportGenerator::new(m);
    assert_eq!(
        g.generate_device_inventory_csv(),
        "设备路径,厂商,型号,序列号,健康状态,在线状态,最后更新时间\n/dev/nst0,HP,Ultrium,1,Good,在线,t\n/dev/nst1,HP,Ultrium,1,Critical,离线,t\n"
    );
}
