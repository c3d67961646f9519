use shieldx_engine::analysis::{calculate_compliance, generate_recommendations};
use shieldx_engine::models::{FindingSummary, Metadata};
use shieldx_engine::scoring::{
    calculate_cvss_base_score, calculate_risk_index, determine_posture, AttackComplexity,
    AttackVector, CvssScope, ImpactMetric, PrivilegesRequired, UserInteraction,
};

fn summary(critical: u32, high: u32, medium: u32, low: u32, info: u32) -> FindingSummary {
    FindingSummary { critical, high, medium, low, info }
}

fn metadata(firewall_enabled: bool, open_ports: u32, active_connections: u32) -> Metadata {
    Metadata {
        scan_duration_ms: 50,
        interfaces_found: 2,
        open_ports,
        active_connections,
        firewall_enabled,
    }
}

#[test]
fn risk_index_formula_with_all_factors() {
    // raw = 1*10.0 + 1*5.0 = 15.0; plus (25-20)*0.3 = 1.5 and
    // (150-100)*0.1 = 5.0; total 21.5, divided by 10 -> 2.15.
    let risk = calculate_risk_index(&summary(1, 1, 0, 0, 0), &metadata(true, 25, 150));
    assert_eq!(risk, 215);
}

#[test]
fn risk_index_firewall_multiplier_applies_to_base_only() {
    // raw = 2.0, *1.5 = 3.0, plus (30-20)*0.3 = 3.0; total 6.0 -> 0.60.
    let risk = calculate_risk_index(&summary(0, 0, 1, 0, 0), &metadata(false, 30, 0));
    assert_eq!(risk, 60);
}

#[test]
fn risk_index_rounds_half_up_to_two_decimals() {
    // One low finding: raw = 0.5 points -> 0.05 exactly.
    assert_eq!(calculate_risk_index(&summary(0, 0, 0, 1, 0), &metadata(true, 0, 0)), 5);
    // Three low findings: raw = 1.5 -> 0.15.
    assert_eq!(calculate_risk_index(&summary(0, 0, 0, 3, 0), &metadata(true, 0, 0)), 15);
    // One low finding without firewall: 0.5*1.5 = 0.75 -> 0.075 rounds up to 0.08.
    assert_eq!(calculate_risk_index(&summary(0, 0, 0, 1, 0), &metadata(false, 0, 0)), 8);
}

#[test]
fn risk_index_is_capped_at_ten() {
    let risk = calculate_risk_index(&summary(200, 0, 0, 0, 0), &metadata(false, 500, 5000));
    assert_eq!(risk, 1000);
}

#[test]
fn risk_index_ignores_info_findings() {
    let quiet = calculate_risk_index(&summary(0, 0, 0, 0, 0), &metadata(true, 0, 0));
    let chatty = calculate_risk_index(&summary(0, 0, 0, 0, 40), &metadata(true, 0, 0));
    assert_eq!(quiet, 0);
    assert_eq!(chatty, 0);
}

#[test]
fn risk_index_is_monotone_in_each_severity_count() {
    let meta = metadata(false, 25, 120);
    let base = calculate_risk_index(&summary(1, 2, 3, 4, 5), &meta);
    assert!(calculate_risk_index(&summary(2, 2, 3, 4, 5), &meta) >= base);
    assert!(calculate_risk_index(&summary(1, 3, 3, 4, 5), &meta) >= base);
    assert!(calculate_risk_index(&summary(1, 2, 4, 4, 5), &meta) >= base);
    assert!(calculate_risk_index(&summary(1, 2, 3, 5, 5), &meta) >= base);
}

#[test]
fn posture_bands() {
    assert_eq!(determine_posture(1000), "🔴 CRITICAL - IMMEDIATE ACTION REQUIRED");
    assert_eq!(determine_posture(900), "🔴 CRITICAL - IMMEDIATE ACTION REQUIRED");
    assert_eq!(determine_posture(899), "🟠 HIGH RISK - URGENT ATTENTION NEEDED");
    assert_eq!(determine_posture(700), "🟠 HIGH RISK - URGENT ATTENTION NEEDED");
    assert_eq!(determine_posture(699), "🟡 ELEVATED RISK - REMEDIATION RECOMMENDED");
    assert_eq!(determine_posture(500), "🟡 ELEVATED RISK - REMEDIATION RECOMMENDED");
    assert_eq!(determine_posture(499), "🟢 MODERATE RISK - MONITOR CLOSELY");
    assert_eq!(determine_posture(300), "🟢 MODERATE RISK - MONITOR CLOSELY");
    assert_eq!(determine_posture(299), "🔵 LOW RISK - ACCEPTABLE");
    assert_eq!(determine_posture(100), "🔵 LOW RISK - ACCEPTABLE");
    assert_eq!(determine_posture(99), "✅ SECURE - GOOD POSTURE");
    assert_eq!(determine_posture(0), "✅ SECURE - GOOD POSTURE");
}

#[test]
fn cvss_canonical_network_vector_scores_nine_point_eight() {
    let score = calculate_cvss_base_score(
        AttackVector::Network,
        AttackComplexity::Low,
        PrivilegesRequired::NoPrivileges,
        UserInteraction::NoInteraction,
        CvssScope::Unchanged,
        ImpactMetric::High,
        ImpactMetric::High,
        ImpactMetric::High,
    );
    assert_eq!(score, 98);
}

#[test]
fn cvss_changed_scope_raises_the_canonical_vector() {
    let score = calculate_cvss_base_score(
        AttackVector::Network,
        AttackComplexity::Low,
        PrivilegesRequired::NoPrivileges,
        UserInteraction::NoInteraction,
        CvssScope::Changed,
        ImpactMetric::High,
        ImpactMetric::High,
        ImpactMetric::High,
    );
    assert_eq!(score, 99);
}

#[test]
fn cvss_zero_impact_scores_zero() {
    let score = calculate_cvss_base_score(
        AttackVector::Network,
        AttackComplexity::Low,
        PrivilegesRequired::NoPrivileges,
        UserInteraction::NoInteraction,
        CvssScope::Unchanged,
        ImpactMetric::NoImpact,
        ImpactMetric::NoImpact,
        ImpactMetric::NoImpact,
    );
    assert_eq!(score, 0);
}

#[test]
fn cvss_low_privilege_changed_scope_example() {
    let score = calculate_cvss_base_score(
        AttackVector::Network,
        AttackComplexity::High,
        PrivilegesRequired::High,
        UserInteraction::Required,
        CvssScope::Changed,
        ImpactMetric::Low,
        ImpactMetric::Low,
        ImpactMetric::NoImpact,
    );
    assert_eq!(score, 37);
}

#[test]
fn cvss_local_vector_partial_impact_example() {
    let score = calculate_cvss_base_score(
        AttackVector::Adjacent,
        AttackComplexity::Low,
        PrivilegesRequired::NoPrivileges,
        UserInteraction::Required,
        CvssScope::Unchanged,
        ImpactMetric::Low,
        ImpactMetric::NoImpact,
        ImpactMetric::NoImpact,
    );
    assert_eq!(score, 35);
}

#[test]
fn compliance_clean_system_scores_full_marks() {
    let status = calculate_compliance(&summary(0, 0, 1, 2, 3), &metadata(true, 5, 5));
    assert_eq!(status.cis_score, 100);
    assert_eq!(status.nist_score, 100);
    assert!(status.pci_dss_compliant);
    assert!(status.issues.is_empty());
}

#[test]
fn compliance_firewall_and_critical_violations_deduct_scores() {
    let status = calculate_compliance(&summary(2, 3, 0, 0, 0), &metadata(false, 5, 5));
    assert_eq!(status.cis_score, 80);
    // 2 critical + 3 high = 5 violations: (20-5)/20*100 = 75.
    assert_eq!(status.nist_score, 75);
    assert!(!status.pci_dss_compliant);
    assert_eq!(
        status.issues,
        vec![
            "CIS 9.2.1: Firewall must be enabled".to_string(),
            "CIS 1.1: Critical vulnerabilities present".to_string(),
            "PCI-DSS 1.1: Firewall must be configured and enabled".to_string(),
        ]
    );
}

#[test]
fn compliance_nist_score_floors_at_zero() {
    let status = calculate_compliance(&summary(15, 10, 0, 0, 0), &metadata(true, 5, 5));
    assert_eq!(status.nist_score, 0);
}

#[test]
fn pci_compliance_follows_firewall_and_critical_exactly() {
    for &(firewall, critical, expected) in
        &[(true, 0, true), (true, 1, false), (false, 0, false), (false, 1, false)]
    {
        let status = calculate_compliance(&summary(critical, 0, 0, 0, 0), &metadata(firewall, 5, 5));
        assert_eq!(status.pci_dss_compliant, expected);
    }
}

#[test]
fn compliance_critical_without_firewall_violation() {
    let status = calculate_compliance(&summary(1, 0, 0, 0, 0), &metadata(true, 5, 5));
    assert_eq!(status.cis_score, 90);
    assert!(!status.pci_dss_compliant);
    assert_eq!(
        status.issues,
        vec![
            "CIS 1.1: Critical vulnerabilities present".to_string(),
            "PCI-DSS 1.1: Firewall must be configured and enabled".to_string(),
        ]
    );
}

#[test]
fn recommendations_cover_all_conditions_in_priority_order() {
    let recs = generate_recommendations(&summary(3, 2, 0, 0, 0), &metadata(false, 5, 5));
    assert_eq!(recs.len(), 5);
    assert_eq!(recs[0].priority, 1);
    assert_eq!(recs[0].action, "Address Critical Security Issues Immediately");
    assert_eq!(
        recs[0].rationale,
        "3 critical vulnerabilities require urgent attention to prevent system compromise"
    );
    assert_eq!(recs[1].priority, 1);
    assert_eq!(recs[1].action, "Enable Windows Firewall on All Profiles");
    assert_eq!(recs[2].priority, 2);
    assert_eq!(recs[2].action, "Review and Secure High-Risk Services");
    assert_eq!(recs[2].rationale, "2 high-severity issues expose critical attack vectors");
    assert_eq!(recs[3].priority, 3);
    assert_eq!(recs[4].priority, 4);
    for window in recs.windows(2) {
        assert!(window[0].priority <= window[1].priority);
    }
}

#[test]
fn recommendations_baseline_only_when_nothing_fires() {
    let recs = generate_recommendations(&summary(0, 0, 4, 4, 4), &metadata(true, 5, 5));
    assert_eq!(recs.len(), 2);
    assert_eq!(recs[0].priority, 3);
    assert_eq!(recs[1].priority, 4);
}
