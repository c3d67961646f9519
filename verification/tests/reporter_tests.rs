use shieldx_engine::analysis::analyze;
use shieldx_engine::models::{CollectorData, Metadata, Severity};
use shieldx_engine::reporter::{generate_executive_summary, get_severity_icon};
use shieldx_engine::strfmt::{fmt_hundredths, fmt_percent, push_dec, u64_to_string};

fn empty_snapshot(firewall_enabled: bool) -> CollectorData {
    CollectorData {
        collector: "probe".to_string(),
        timestamp: 1700000000,
        interfaces: vec![],
        findings: vec![],
        metadata: Metadata {
            scan_duration_ms: 40,
            interfaces_found: 0,
            open_ports: 3,
            active_connections: 12,
            firewall_enabled,
        },
    }
}

#[test]
fn decimal_rendering() {
    assert_eq!(u64_to_string(0), "0");
    assert_eq!(u64_to_string(7), "7");
    assert_eq!(u64_to_string(10), "10");
    assert_eq!(u64_to_string(12345), "12345");
    assert_eq!(u64_to_string(1000000), "1000000");
}

#[test]
fn push_dec_appends_in_place() {
    let mut s = String::from("PORT-");
    push_dec(&mut s, 445);
    assert_eq!(s, "PORT-445");
}

#[test]
fn fixed_point_rendering() {
    assert_eq!(fmt_hundredths(0), "0.00");
    assert_eq!(fmt_hundredths(5), "0.05");
    assert_eq!(fmt_hundredths(150), "1.50");
    assert_eq!(fmt_hundredths(1000), "10.00");
    assert_eq!(fmt_hundredths(215), "2.15");
    assert_eq!(fmt_percent(0), "0.0");
    assert_eq!(fmt_percent(90), "90.0");
    assert_eq!(fmt_percent(100), "100.0");
}

#[test]
fn severity_icons() {
    assert_eq!(get_severity_icon(Severity::Critical), "🔴");
    assert_eq!(get_severity_icon(Severity::High), "🟠");
    assert_eq!(get_severity_icon(Severity::Medium), "🟡");
    assert_eq!(get_severity_icon(Severity::Low), "🟢");
    assert_eq!(get_severity_icon(Severity::Info), "ℹ️");
}

#[test]
fn executive_summary_for_a_clean_report() {
    let report = analyze(&empty_snapshot(true));
    let text = generate_executive_summary(&report);
    let expected = "\nEXECUTIVE SUMMARY\n=================\n\n\
Overall Security Posture: ✅ SECURE - GOOD POSTURE\n\
Risk Index: 0.00/10.0\n\n\
Key Findings:\n\
- 0 Critical vulnerabilities requiring immediate attention\n\
- 0 High-severity issues needing urgent remediation\n\
- 0 Medium-severity concerns to address\n\n\
Compliance Status:\n\
- CIS Benchmark: 100.0%\n\
- NIST Framework: 100.0%\n\
- PCI-DSS: Compliant\n\n\
Immediate Actions Required:\n\
\u{20}\u{20}• Implement Network Segmentation\n\
\u{20}\u{20}• Enable Comprehensive Logging and Monitoring\n\n\
This system requires timely remediation to address identified security gaps.\n        ";
    assert_eq!(text, expected);
}

#[test]
fn executive_summary_for_a_firewall_disabled_report() {
    let report = analyze(&empty_snapshot(false));
    let text = generate_executive_summary(&report);
    let expected = "\nEXECUTIVE SUMMARY\n=================\n\n\
Overall Security Posture: 🔵 LOW RISK - ACCEPTABLE\n\
Risk Index: 1.50/10.0\n\n\
Key Findings:\n\
- 1 Critical vulnerabilities requiring immediate attention\n\
- 0 High-severity issues needing urgent remediation\n\
- 0 Medium-severity concerns to address\n\n\
Compliance Status:\n\
- CIS Benchmark: 80.0%\n\
- NIST Framework: 95.0%\n\
- PCI-DSS: Non-Compliant\n\n\
Immediate Actions Required:\n\
\u{20}\u{20}• Address Critical Security Issues Immediately\n\
\u{20}\u{20}• Enable Windows Firewall on All Profiles\n\
\u{20}\u{20}• Implement Network Segmentation\n\n\
This system requires IMMEDIATE ACTION to address identified security gaps.\n        ";
    assert_eq!(text, expected);
}
