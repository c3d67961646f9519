use shieldx_engine::analysis::analyze;
use shieldx_engine::models::{
    CollectorData, CollectorFinding, Metadata, NetworkInterface, Severity,
};

fn metadata(firewall_enabled: bool) -> Metadata {
    Metadata {
        scan_duration_ms: 120,
        interfaces_found: 1,
        open_ports: 5,
        active_connections: 10,
        firewall_enabled,
    }
}

fn snapshot(
    interfaces: Vec<NetworkInterface>,
    findings: Vec<CollectorFinding>,
    meta: Metadata,
) -> CollectorData {
    CollectorData {
        collector: "probe".to_string(),
        timestamp: 1700000000,
        interfaces,
        findings,
        metadata: meta,
    }
}

fn risky_port(port: u16, binding: &str, service: &str) -> CollectorFinding {
    CollectorFinding {
        finding_type: "risky_port".to_string(),
        port,
        protocol: "tcp".to_string(),
        service: service.to_string(),
        binding: binding.to_string(),
        state: "LISTENING".to_string(),
        process: "svchost.exe".to_string(),
        pid: 4,
        risk_level: "high".to_string(),
    }
}

fn suspicious_connection(port: u16) -> CollectorFinding {
    CollectorFinding {
        finding_type: "suspicious_connection".to_string(),
        port,
        protocol: "tcp".to_string(),
        service: "unknown".to_string(),
        binding: "10.0.0.8".to_string(),
        state: "ESTABLISHED".to_string(),
        process: "powershell.exe".to_string(),
        pid: 991,
        risk_level: "medium".to_string(),
    }
}

fn wireless_interface(name: &str, up: bool, wireless: bool) -> NetworkInterface {
    NetworkInterface {
        name: name.to_string(),
        description: "adapter".to_string(),
        mac: "00:11:22:33:44:55".to_string(),
        ipv4: "192.168.1.7".to_string(),
        ipv6: "fe80::1".to_string(),
        gateway: "192.168.1.1".to_string(),
        is_up: up,
        is_wireless: wireless,
    }
}

#[test]
fn firewall_disabled_alone_gives_one_critical_and_low_posture() {
    let data = snapshot(vec![], vec![], metadata(false));
    let report = analyze(&data);
    assert_eq!(report.findings.len(), 1);
    assert_eq!(report.findings[0].id, "FW-001");
    assert_eq!(report.findings[0].severity, Severity::Critical);
    assert_eq!(report.findings[0].cvss_score, 91);
    assert_eq!(report.summary.critical, 1);
    assert_eq!(report.summary.high, 0);
    // raw = 10.0 points, times the 1.5 firewall multiplier, divided by 10.
    assert_eq!(report.risk_index, 150);
    assert_eq!(report.posture, "🔵 LOW RISK - ACCEPTABLE");
}

#[test]
fn port_445_on_non_loopback_binding_is_critical() {
    let data = snapshot(
        vec![],
        vec![risky_port(445, "192.168.1.5", "microsoft-ds")],
        metadata(true),
    );
    let report = analyze(&data);
    assert_eq!(report.findings.len(), 1);
    let finding = &report.findings[0];
    assert_eq!(finding.id, "PORT-445");
    assert_eq!(finding.severity, Severity::Critical);
    assert_eq!(finding.cvss_score, 90);
    assert_eq!(finding.title, "Risky Port 445 (microsoft-ds) Exposed");
    assert_eq!(
        finding.description,
        "Port 445 (microsoft-ds) is listening on 192.168.1.5 - Process: svchost.exe"
    );
    assert_eq!(finding.affected_asset, "192.168.1.5:445");
    assert_eq!(report.summary.critical, 1);
}

#[test]
fn port_table_rows_classify_as_expected() {
    let cases: Vec<(u16, Severity, u32)> = vec![
        (21, Severity::High, 75),
        (23, Severity::Critical, 98),
        (135, Severity::High, 81),
        (139, Severity::Critical, 90),
        (445, Severity::Critical, 90),
        (3389, Severity::High, 88),
        (5900, Severity::High, 75),
        (8080, Severity::Medium, 50),
    ];
    for (port, severity, cvss) in cases {
        let data = snapshot(
            vec![],
            vec![risky_port(port, "127.0.0.1", "svc")],
            metadata(true),
        );
        let report = analyze(&data);
        assert_eq!(report.findings.len(), 1);
        assert_eq!(report.findings[0].id, format!("PORT-{}", port));
        assert_eq!(report.findings[0].severity, severity);
        assert_eq!(report.findings[0].cvss_score, cvss);
    }
}

#[test]
fn fifty_five_suspicious_connections_give_one_high_aggregate() {
    let findings: Vec<CollectorFinding> =
        (0..55).map(|i| suspicious_connection(40000 + i as u16)).collect();
    let data = snapshot(vec![], findings, metadata(true));
    let report = analyze(&data);
    assert_eq!(report.findings.len(), 1);
    let finding = &report.findings[0];
    assert_eq!(finding.id, "NET-002");
    assert_eq!(finding.severity, Severity::High);
    assert_eq!(finding.cvss_score, 78);
    assert_eq!(finding.title, "55 Suspicious Network Connections Detected");
    assert_eq!(report.summary.high, 1);
    assert_eq!(report.summary.critical, 0);
    assert_eq!(report.summary.medium, 0);
    assert_eq!(report.summary.low, 0);
}

#[test]
fn suspicious_connection_thresholds() {
    let mid: Vec<CollectorFinding> =
        (0..25).map(|i| suspicious_connection(40000 + i as u16)).collect();
    let report = analyze(&snapshot(vec![], mid, metadata(true)));
    assert_eq!(report.findings[0].severity, Severity::Medium);
    assert_eq!(report.findings[0].cvss_score, 55);
    assert_eq!(report.summary.medium, 1);

    let few: Vec<CollectorFinding> =
        (0..3).map(|i| suspicious_connection(40000 + i as u16)).collect();
    let report = analyze(&snapshot(vec![], few, metadata(true)));
    assert_eq!(report.findings[0].severity, Severity::Low);
    assert_eq!(report.findings[0].cvss_score, 32);
    assert_eq!(report.summary.low, 1);

    let none: Vec<CollectorFinding> = vec![];
    let report = analyze(&snapshot(vec![], none, metadata(true)));
    assert!(report.findings.is_empty());
}

#[test]
fn four_wildcard_bound_risky_ports_fire_mass_exposure() {
    let findings: Vec<CollectorFinding> = vec![
        risky_port(8000, "0.0.0.0", "svc-a"),
        risky_port(8001, "0.0.0.0", "svc-b"),
        risky_port(8002, "0.0.0.0", "svc-c"),
        risky_port(8003, "0.0.0.0", "svc-d"),
    ];
    let data = snapshot(vec![], findings, metadata(true));
    let report = analyze(&data);
    // Four port findings plus the aggregate exposure finding.
    assert_eq!(report.findings.len(), 5);
    let exposure = report.findings.last().unwrap();
    assert_eq!(exposure.id, "NET-003");
    assert_eq!(exposure.severity, Severity::High);
    assert_eq!(exposure.cvss_score, 73);
    assert_eq!(exposure.title, "4 Services Exposed on All Interfaces");
    assert_eq!(report.summary.high, 1);
    assert_eq!(report.summary.medium, 4);
}

#[test]
fn three_wildcard_bound_risky_ports_do_not_fire_mass_exposure() {
    let findings: Vec<CollectorFinding> = vec![
        risky_port(8000, "0.0.0.0", "svc-a"),
        risky_port(8001, "0.0.0.0", "svc-b"),
        risky_port(8002, "0.0.0.0", "svc-c"),
    ];
    let data = snapshot(vec![], findings, metadata(true));
    let report = analyze(&data);
    assert_eq!(report.findings.len(), 3);
    assert!(report.findings.iter().all(|f| f.id != "NET-003"));
    assert_eq!(report.summary.high, 0);
}

#[test]
fn clean_snapshot_is_secure_with_baseline_recommendations_only() {
    let data = snapshot(vec![], vec![], metadata(true));
    let report = analyze(&data);
    assert_eq!(report.risk_index, 0);
    assert_eq!(report.posture, "✅ SECURE - GOOD POSTURE");
    assert_eq!(report.recommendations.len(), 2);
    assert_eq!(report.recommendations[0].priority, 3);
    assert_eq!(report.recommendations[0].action, "Implement Network Segmentation");
    assert_eq!(report.recommendations[1].priority, 4);
    assert_eq!(
        report.recommendations[1].action,
        "Enable Comprehensive Logging and Monitoring"
    );
    assert!(report.findings.is_empty());
    assert!(report.compliance.pci_dss_compliant);
}

#[test]
fn wireless_up_interface_gives_info_finding_with_hyphenated_id() {
    let data = snapshot(
        vec![wireless_interface("Wi-Fi 1", true, true)],
        vec![],
        metadata(true),
    );
    let report = analyze(&data);
    assert_eq!(report.findings.len(), 1);
    let finding = &report.findings[0];
    assert_eq!(finding.id, "WIFI-Wi-Fi-1");
    assert_eq!(finding.severity, Severity::Info);
    assert_eq!(finding.cvss_score, 0);
    assert_eq!(finding.title, "Wireless Interface Active: Wi-Fi 1");
    assert_eq!(
        finding.description,
        "Wireless interface Wi-Fi 1 (192.168.1.7) is active"
    );
    assert_eq!(finding.affected_asset, "Wi-Fi 1");
    assert_eq!(report.summary.info, 1);
}

#[test]
fn wired_or_down_interfaces_give_no_finding() {
    let data = snapshot(
        vec![
            wireless_interface("Ethernet", true, false),
            wireless_interface("Wi-Fi 2", false, true),
        ],
        vec![],
        metadata(true),
    );
    let report = analyze(&data);
    assert!(report.findings.is_empty());
    assert_eq!(report.summary.info, 0);
}

#[test]
fn summary_counters_sum_to_findings_len() {
    let mut findings: Vec<CollectorFinding> = vec![
        risky_port(445, "0.0.0.0", "microsoft-ds"),
        risky_port(23, "0.0.0.0", "telnet"),
        risky_port(3389, "0.0.0.0", "ms-wbt-server"),
        risky_port(9999, "0.0.0.0", "unknown"),
    ];
    for i in 0..22 {
        findings.push(suspicious_connection(41000 + i as u16));
    }
    let data = snapshot(
        vec![wireless_interface("Wi-Fi", true, true)],
        findings,
        metadata(false),
    );
    let report = analyze(&data);
    let total = report.summary.critical
        + report.summary.high
        + report.summary.medium
        + report.summary.low
        + report.summary.info;
    assert_eq!(total as usize, report.findings.len());
    // firewall + 4 ports + suspicious aggregate + wifi + exposure aggregate
    assert_eq!(report.findings.len(), 8);
}

#[test]
fn analysis_is_idempotent_on_the_same_snapshot() {
    let data = snapshot(
        vec![wireless_interface("Wi-Fi 1", true, true)],
        vec![
            risky_port(445, "0.0.0.0", "microsoft-ds"),
            suspicious_connection(40001),
        ],
        metadata(false),
    );
    let first = analyze(&data);
    let second = analyze(&data);
    assert_eq!(first.findings, second.findings);
    assert_eq!(first.summary, second.summary);
    assert_eq!(first.compliance, second.compliance);
    assert_eq!(first.recommendations, second.recommendations);
    assert_eq!(first.risk_index, second.risk_index);
    assert_eq!(first, second);
}

#[test]
fn report_metadata_is_stamped_from_the_snapshot() {
    let data = snapshot(
        vec![],
        vec![risky_port(21, "0.0.0.0", "ftp"), suspicious_connection(40500)],
        metadata(true),
    );
    let report = analyze(&data);
    assert_eq!(report.metadata.scan_timestamp, 1700000000);
    assert_eq!(report.metadata.engine_version, "2.0.0");
    assert_eq!(report.metadata.total_checks, 2);
    assert_eq!(report.metadata.analysis_duration_ms, 0);
}

#[test]
fn unknown_risky_port_falls_back_to_medium_default() {
    let data = snapshot(vec![], vec![risky_port(6543, "0.0.0.0", "odd")], metadata(true));
    let report = analyze(&data);
    assert_eq!(report.findings.len(), 1);
    assert_eq!(report.findings[0].id, "PORT-6543");
    assert_eq!(report.findings[0].severity, Severity::Medium);
    assert_eq!(report.findings[0].cvss_score, 50);
    assert_eq!(
        report.findings[0].reasoning,
        "Port is exposed on all interfaces"
    );
}
