//! The rule evaluator and report assembler: turns one snapshot into a
//! complete [`SecurityReport`].
//!
//! Five independent rules are evaluated over the snapshot — disabled
//! firewall, risky ports, suspicious connections, active wireless
//! interfaces and mass public exposure — and their findings are folded into
//! per-severity counts, a compliance scorecard, recommendations and the
//! risk index.

use vstd::prelude::*;

use crate::models::{
    AnalyzedFinding, AnalyzedFindingView, CollectorData, CollectorDataView, CollectorFinding,
    CollectorFindingView, ComplianceStatus, ComplianceStatusView, FindingSummary, Metadata,
    NetworkInterface, NetworkInterfaceView, Recommendation, RecommendationView, ReportMetadata,
    ReportMetadataView, SecurityReport, SecurityReportView, Severity,
};
use crate::scoring::{calculate_risk_index, determine_posture, spec_posture, spec_risk_index};
use crate::strfmt::{push_dec, spec_dec, u64_to_string};

verus! {

/// A raw observation the risky-port rule reacts to.
pub open spec fn spec_is_risky_port(f: CollectorFindingView) -> bool {
    f.finding_type == "risky_port"@
}

/// A raw observation the suspicious-connections rule counts.
pub open spec fn spec_is_suspicious(f: CollectorFindingView) -> bool {
    f.finding_type == "suspicious_connection"@
}

/// A risky-port observation bound to the wildcard address, counted by the
/// mass-public-exposure rule.
pub open spec fn spec_is_public_risky(f: CollectorFindingView) -> bool {
    f.binding == "0.0.0.0"@ && f.finding_type == "risky_port"@
}

/// Severity assigned to a risky port by the fixed port table.
pub open spec fn spec_port_severity(port: u16) -> Severity {
    if port == 23 || port == 139 || port == 445 {
        Severity::Critical
    } else if port == 21 || port == 135 || port == 3389 || port == 5900 {
        Severity::High
    } else {
        Severity::Medium
    }
}

/// CVSS score (tenths) assigned to a risky port by the fixed port table.
pub open spec fn spec_port_cvss(port: u16) -> u32 {
    if port == 23 {
        98
    } else if port == 139 || port == 445 {
        90
    } else if port == 3389 {
        88
    } else if port == 135 {
        81
    } else if port == 21 || port == 5900 {
        75
    } else {
        50
    }
}

/// Why the port in question matters, from the fixed port table.
pub open spec fn spec_port_reasoning(port: u16) -> Seq<char> {
    if port == 21 {
        "FTP transmits credentials and data in plaintext, allowing network eavesdropping and man-in-the-middle attacks"@
    } else if port == 23 {
        "Telnet sends all data including passwords in cleartext. Trivially exploitable for credential theft and session hijacking"@
    } else if port == 135 {
        "RPC Endpoint Mapper is frequently targeted for remote code execution exploits (e.g., MS03-026, MS08-067). Should not be exposed externally"@
    } else if port == 139 || port == 445 {
        "SMB/NetBIOS is a primary target for ransomware (WannaCry, NotPetya) and lateral movement attacks. Highly dangerous when exposed to internet"@
    } else if port == 3389 {
        "RDP is frequently brute-forced and exploited (BlueKeep CVE-2019-0708). Common ransomware entry point"@
    } else if port == 5900 {
        "VNC often uses weak authentication and unencrypted connections, allowing session hijacking and credential theft"@
    } else {
        "Port is exposed on all interfaces"@
    }
}

/// How to remediate the port in question, from the fixed port table.
pub open spec fn spec_port_remediation(port: u16) -> Seq<char> {
    if port == 21 {
        "Disable FTP. Use SFTP (SSH File Transfer Protocol) or FTPS (FTP over SSL/TLS) instead"@
    } else if port == 23 {
        "Disable Telnet immediately. Use SSH for remote access"@
    } else if port == 135 {
        "Restrict RPC access using Windows Firewall. Block port 135 from external networks. Disable RPC if not needed"@
    } else if port == 139 || port == 445 {
        "Never expose SMB to internet. Use firewall to restrict to local network only. Disable SMBv1. Consider disabling NetBIOS over TCP/IP"@
    } else if port == 3389 {
        "Use VPN for remote access. Enable Network Level Authentication. Implement account lockout policies. Use non-standard port. Require strong passwords"@
    } else if port == 5900 {
        "Use VPN tunnel for VNC. Enable strong authentication. Consider using RDP or SSH tunneling instead"@
    } else {
        "Review if this service needs to be publicly accessible. Restrict to localhost or specific IPs using firewall rules"@
    }
}

/// The finding produced by the firewall-disabled rule.
pub open spec fn spec_firewall_finding() -> AnalyzedFindingView {
    AnalyzedFindingView {
        id: "FW-001"@,
        title: "Firewall Disabled"@,
        severity: Severity::Critical,
        category: "Network Security"@,
        description: "Windows Firewall is disabled or partially disabled on one or more profiles"@,
        reasoning: "A disabled firewall exposes the system to unauthorized network access, malware propagation, and data exfiltration"@,
        affected_asset: "System-wide"@,
        remediation: "Enable Windows Firewall on all profiles (Domain, Private, Public). Run: netsh advfirewall set allprofiles state on"@,
        cvss_score: 91,
        attack_vector: "Network"@,
        exploitability: "High"@,
    }
}

/// The finding produced by the risky-port rule for one raw observation.
pub open spec fn spec_port_finding(f: CollectorFindingView) -> AnalyzedFindingView {
    AnalyzedFindingView {
        id: "PORT-"@ + spec_dec(f.port as nat),
        title: "Risky Port "@ + spec_dec(f.port as nat) + " ("@ + f.service + ") Exposed"@,
        severity: spec_port_severity(f.port),
        category: "Network Exposure"@,
        description: "Port "@ + spec_dec(f.port as nat) + " ("@ + f.service + ") is listening on "@
            + f.binding + " - Process: "@ + f.process,
        reasoning: spec_port_reasoning(f.port),
        affected_asset: f.binding + ":"@ + spec_dec(f.port as nat),
        remediation: spec_port_remediation(f.port),
        cvss_score: spec_port_cvss(f.port),
        attack_vector: "Network"@,
        exploitability: "High"@,
    }
}

/// Severity of the aggregate suspicious-connections finding for `count`
/// suspicious connections.
pub open spec fn spec_suspicious_severity(count: nat) -> Severity {
    if count > 50 {
        Severity::High
    } else if count > 20 {
        Severity::Medium
    } else {
        Severity::Low
    }
}

/// CVSS score (tenths) of the aggregate suspicious-connections finding.
pub open spec fn spec_suspicious_cvss(count: nat) -> u32 {
    if count > 50 {
        78
    } else if count > 20 {
        55
    } else {
        32
    }
}

/// The single aggregate finding produced by the suspicious-connections
/// rule for a positive count.
pub open spec fn spec_suspicious_finding(count: nat) -> AnalyzedFindingView {
    AnalyzedFindingView {
        id: "NET-002"@,
        title: spec_dec(count) + " Suspicious Network Connections Detected"@,
        severity: spec_suspicious_severity(count),
        category: "Network Behavior"@,
        description: "Detected "@ + spec_dec(count) + " potentially suspicious outbound connections"@,
        reasoning: "Multiple connections from system processes to external IPs or unusual high-numbered ports may indicate data exfiltration, malware C2 communication, or compromised processes"@,
        affected_asset: "Network Layer"@,
        remediation: "Review process legitimacy, check for malware, monitor network traffic patterns, implement egress filtering"@,
        cvss_score: spec_suspicious_cvss(count),
        attack_vector: "Network"@,
        exploitability: "Medium"@,
    }
}

/// `s` with every space replaced by a hyphen.
pub open spec fn spec_hyphenate(s: Seq<char>) -> Seq<char>
    decreases s.len(),
{
    if s.len() == 0 {
        Seq::empty()
    } else {
        spec_hyphenate(s.drop_last()).push(
            if s.last() == ' ' {
                '-'
            } else {
                s.last()
            },
        )
    }
}

/// The finding produced by the wireless-interface rule for one interface
/// that is both wireless and up.
pub open spec fn spec_wifi_finding(i: NetworkInterfaceView) -> AnalyzedFindingView {
    AnalyzedFindingView {
        id: "WIFI-"@ + spec_hyphenate(i.name),
        title: "Wireless Interface Active: "@ + i.name,
        severity: Severity::Info,
        category: "Network Configuration"@,
        description: "Wireless interface "@ + i.name + " ("@ + i.ipv4 + ") is active"@,
        reasoning: "Active wireless interfaces should use WPA3 or at minimum WPA2 encryption with strong passphrases"@,
        affected_asset: i.name,
        remediation: "Verify WiFi security: Ensure WPA2/WPA3 is enabled, disable WPS, use strong passphrase (20+ characters)"@,
        cvss_score: 0,
        attack_vector: "Adjacent Network"@,
        exploitability: "Low"@,
    }
}

/// The single aggregate finding produced by the mass-public-exposure rule
/// for `count` wildcard-bound risky ports.
pub open spec fn spec_exposure_finding(count: nat) -> AnalyzedFindingView {
    AnalyzedFindingView {
        id: "NET-003"@,
        title: spec_dec(count) + " Services Exposed on All Interfaces"@,
        severity: Severity::High,
        category: "Attack Surface"@,
        description: spec_dec(count)
            + " services are listening on 0.0.0.0, making them accessible from any network interface"@,
        reasoning: "Services bound to all interfaces (0.0.0.0) increase attack surface. They should be restricted to localhost (127.0.0.1) or specific interfaces when external access is not required"@,
        affected_asset: "Network Services"@,
        remediation: "Review each service: bind to 127.0.0.1 for local-only services, use firewall rules to restrict access, disable unnecessary services"@,
        cvss_score: 73,
        attack_vector: "Network"@,
        exploitability: "High"@,
    }
}

/// Builds the firewall-disabled finding.
fn make_firewall_finding() -> (res: AnalyzedFinding)
    ensures
        res@ == spec_firewall_finding(),
{
    AnalyzedFinding {
        id: String::from_str("FW-001"),
        title: String::from_str("Firewall Disabled"),
        severity: Severity::Critical,
        category: String::from_str("Network Security"),
        description: String::from_str(
            "Windows Firewall is disabled or partially disabled on one or more profiles",
        ),
        reasoning: String::from_str(
            "A disabled firewall exposes the system to unauthorized network access, malware propagation, and data exfiltration",
        ),
        affected_asset: String::from_str("System-wide"),
        remediation: String::from_str(
            "Enable Windows Firewall on all profiles (Domain, Private, Public). Run: netsh advfirewall set allprofiles state on",
        ),
        cvss_score: 91,
        attack_vector: String::from_str("Network"),
        exploitability: String::from_str("High"),
    }
}

/// Classifies one risky-port observation by the fixed port table.
pub fn analyze_risky_port(finding: &CollectorFinding) -> (res: AnalyzedFinding)
    ensures
        res@ == spec_port_finding(finding@),
{
    let port = finding.port;
    let port64 = port as u64;
    let severity = if port == 23 || port == 139 || port == 445 {
        Severity::Critical
    } else if port == 21 || port == 135 || port == 3389 || port == 5900 {
        Severity::High
    } else {
        Severity::Medium
    };
    let cvss_score: u32 = if port == 23 {
        98
    } else if port == 139 || port == 445 {
        90
    } else if port == 3389 {
        88
    } else if port == 135 {
        81
    } else if port == 21 || port == 5900 {
        75
    } else {
        50
    };
    let reasoning = if port == 21 {
        "FTP transmits credentials and data in plaintext, allowing network eavesdropping and man-in-the-middle attacks"
    } else if port == 23 {
        "Telnet sends all data including passwords in cleartext. Trivially exploitable for credential theft and session hijacking"
    } else if port == 135 {
        "RPC Endpoint Mapper is frequently targeted for remote code execution exploits (e.g., MS03-026, MS08-067). Should not be exposed externally"
    } else if port == 139 || port == 445 {
        "SMB/NetBIOS is a primary target for ransomware (WannaCry, NotPetya) and lateral movement attacks. Highly dangerous when exposed to internet"
    } else if port == 3389 {
        "RDP is frequently brute-forced and exploited (BlueKeep CVE-2019-0708). Common ransomware entry point"
    } else if port == 5900 {
        "VNC often uses weak authentication and unencrypted connections, allowing session hijacking and credential theft"
    } else {
        "Port is exposed on all interfaces"
    };
    let remediation = if port == 21 {
        "Disable FTP. Use SFTP (SSH File Transfer Protocol) or FTPS (FTP over SSL/TLS) instead"
    } else if port == 23 {
        "Disable Telnet immediately. Use SSH for remote access"
    } else if port == 135 {
        "Restrict RPC access using Windows Firewall. Block port 135 from external networks. Disable RPC if not needed"
    } else if port == 139 || port == 445 {
        "Never expose SMB to internet. Use firewall to restrict to local network only. Disable SMBv1. Consider disabling NetBIOS over TCP/IP"
    } else if port == 3389 {
        "Use VPN for remote access. Enable Network Level Authentication. Implement account lockout policies. Use non-standard port. Require strong passwords"
    } else if port == 5900 {
        "Use VPN tunnel for VNC. Enable strong authentication. Consider using RDP or SSH tunneling instead"
    } else {
        "Review if this service needs to be publicly accessible. Restrict to localhost or specific IPs using firewall rules"
    };
    let mut id = String::from_str("PORT-");
    push_dec(&mut id, port64);
    let mut title = String::from_str("Risky Port ");
    push_dec(&mut title, port64);
    title.append(" (");
    title.append(finding.service.as_str());
    title.append(") Exposed");
    let mut description = String::from_str("Port ");
    push_dec(&mut description, port64);
    description.append(" (");
    description.append(finding.service.as_str());
    description.append(") is listening on ");
    description.append(finding.binding.as_str());
    description.append(" - Process: ");
    description.append(finding.process.as_str());
    let mut affected_asset = finding.binding.clone();
    affected_asset.append(":");
    push_dec(&mut affected_asset, port64);
    AnalyzedFinding {
        id,
        title,
        severity,
        category: String::from_str("Network Exposure"),
        description,
        reasoning: String::from_str(reasoning),
        affected_asset,
        remediation: String::from_str(remediation),
        cvss_score,
        attack_vector: String::from_str("Network"),
        exploitability: String::from_str("High"),
    }
}

/// Builds the aggregate suspicious-connections finding for a count.
fn make_suspicious_finding(count: u32) -> (res: AnalyzedFinding)
    ensures
        res@ == spec_suspicious_finding(count as nat),
{
    let severity = if count > 50 {
        Severity::High
    } else if count > 20 {
        Severity::Medium
    } else {
        Severity::Low
    };
    let cvss_score: u32 = if count > 50 {
        78
    } else if count > 20 {
        55
    } else {
        32
    };
    let mut title = u64_to_string(count as u64);
    title.append(" Suspicious Network Connections Detected");
    let mut description = String::from_str("Detected ");
    push_dec(&mut description, count as u64);
    description.append(" potentially suspicious outbound connections");
    AnalyzedFinding {
        id: String::from_str("NET-002"),
        title,
        severity,
        category: String::from_str("Network Behavior"),
        description,
        reasoning: String::from_str(
            "Multiple connections from system processes to external IPs or unusual high-numbered ports may indicate data exfiltration, malware C2 communication, or compromised processes",
        ),
        affected_asset: String::from_str("Network Layer"),
        remediation: String::from_str(
            "Review process legitimacy, check for malware, monitor network traffic patterns, implement egress filtering",
        ),
        cvss_score,
        attack_vector: String::from_str("Network"),
        exploitability: String::from_str("Medium"),
    }
}

/// Replaces every space in `s` by a hyphen.
fn hyphenate(s: &str) -> (res: String)
    ensures
        res@ == spec_hyphenate(s@),
{
    let mut out = String::new();
    let n = s.unicode_len();
    let mut i: usize = 0;
    while i < n
        invariant
            i <= n,
            n == s@.len(),
            out@ == spec_hyphenate(s@.take(i as int)),
        decreases n - i,
    {
        proof {
            assert(s@.take(i + 1).drop_last() =~= s@.take(i as int));
        }
        let c = s.get_char(i);
        if c == ' ' {
            out.append("-");
            proof {
                reveal_strlit("-");
                assert(out@ =~= spec_hyphenate(s@.take(i + 1)));
            }
        } else {
            let piece = s.substring_char(i, i + 1);
            out.append(piece);
            proof {
                assert(out@ =~= spec_hyphenate(s@.take(i + 1)));
            }
        }
        i = i + 1;
    }
    proof {
        assert(s@.take(n as int) =~= s@);
    }
    out
}

/// Builds the wireless-interface finding for one interface.
fn make_wifi_finding(interface: &NetworkInterface) -> (res: AnalyzedFinding)
    ensures
        res@ == spec_wifi_finding(interface@),
{
    let mut id = String::from_str("WIFI-");
    let hyphenated = hyphenate(interface.name.as_str());
    id.append(hyphenated.as_str());
    let mut title = String::from_str("Wireless Interface Active: ");
    title.append(interface.name.as_str());
    let mut description = String::from_str("Wireless interface ");
    description.append(interface.name.as_str());
    description.append(" (");
    description.append(interface.ipv4.as_str());
    description.append(") is active");
    AnalyzedFinding {
        id,
        title,
        severity: Severity::Info,
        category: String::from_str("Network Configuration"),
        description,
        reasoning: String::from_str(
            "Active wireless interfaces should use WPA3 or at minimum WPA2 encryption with strong passphrases",
        ),
        affected_asset: interface.name.clone(),
        remediation: String::from_str(
            "Verify WiFi security: Ensure WPA2/WPA3 is enabled, disable WPS, use strong passphrase (20+ characters)",
        ),
        cvss_score: 0,
        attack_vector: String::from_str("Adjacent Network"),
        exploitability: String::from_str("Low"),
    }
}

/// Builds the aggregate mass-public-exposure finding for a count.
fn make_exposure_finding(count: u32) -> (res: AnalyzedFinding)
    ensures
        res@ == spec_exposure_finding(count as nat),
{
    let mut title = u64_to_string(count as u64);
    title.append(" Services Exposed on All Interfaces");
    let mut description = u64_to_string(count as u64);
    description.append(
        " services are listening on 0.0.0.0, making them accessible from any network interface",
    );
    AnalyzedFinding {
        id: String::from_str("NET-003"),
        title,
        severity: Severity::High,
        category: String::from_str("Attack Surface"),
        description,
        reasoning: String::from_str(
            "Services bound to all interfaces (0.0.0.0) increase attack surface. They should be restricted to localhost (127.0.0.1) or specific interfaces when external access is not required",
        ),
        affected_asset: String::from_str("Network Services"),
        remediation: String::from_str(
            "Review each service: bind to 127.0.0.1 for local-only services, use firewall rules to restrict access, disable unnecessary services",
        ),
        cvss_score: 73,
        attack_vector: String::from_str("Network"),
        exploitability: String::from_str("High"),
    }
}


/// How many raw observations in `fs` the suspicious-connections rule
/// counts.
pub open spec fn spec_suspicious_count(fs: Seq<CollectorFindingView>) -> nat
    decreases fs.len(),
{
    if fs.len() == 0 {
        0
    } else {
        spec_suspicious_count(fs.drop_last()) + (if spec_is_suspicious(fs.last()) {
            1nat
        } else {
            0
        })
    }
}

/// How many raw observations in `fs` the mass-public-exposure rule counts.
pub open spec fn spec_public_count(fs: Seq<CollectorFindingView>) -> nat
    decreases fs.len(),
{
    if fs.len() == 0 {
        0
    } else {
        spec_public_count(fs.drop_last()) + (if spec_is_public_risky(fs.last()) {
            1nat
        } else {
            0
        })
    }
}

/// How many findings in `fs` carry severity `sev`.
pub open spec fn spec_severity_count(fs: Seq<AnalyzedFindingView>, sev: Severity) -> nat
    decreases fs.len(),
{
    if fs.len() == 0 {
        0
    } else {
        spec_severity_count(fs.drop_last(), sev) + (if fs.last().severity == sev {
            1nat
        } else {
            0
        })
    }
}

/// The findings emitted by the risky-port rule, one per matching raw
/// observation, in snapshot order.
pub open spec fn spec_port_findings(fs: Seq<CollectorFindingView>) -> Seq<AnalyzedFindingView>
    decreases fs.len(),
{
    if fs.len() == 0 {
        Seq::empty()
    } else {
        spec_port_findings(fs.drop_last()) + (if spec_is_risky_port(fs.last()) {
            seq![spec_port_finding(fs.last())]
        } else {
            Seq::empty()
        })
    }
}

/// An interface the wireless-interface rule reports on.
pub open spec fn spec_wifi_active(i: NetworkInterfaceView) -> bool {
    i.is_wireless && i.is_up
}

/// The findings emitted by the wireless-interface rule, one per interface
/// that is both wireless and up, in snapshot order.
pub open spec fn spec_wifi_findings(ifs: Seq<NetworkInterfaceView>) -> Seq<AnalyzedFindingView>
    decreases ifs.len(),
{
    if ifs.len() == 0 {
        Seq::empty()
    } else {
        spec_wifi_findings(ifs.drop_last()) + (if spec_wifi_active(ifs.last()) {
            seq![spec_wifi_finding(ifs.last())]
        } else {
            Seq::empty()
        })
    }
}

/// All findings of one analysis run, in emission order: the firewall rule,
/// then one finding per risky port, the aggregate suspicious-connections
/// finding, one finding per active wireless interface, and the aggregate
/// mass-public-exposure finding.
pub open spec fn spec_findings(d: CollectorDataView) -> Seq<AnalyzedFindingView> {
    (if !d.metadata.firewall_enabled {
        seq![spec_firewall_finding()]
    } else {
        Seq::empty()
    }) + spec_port_findings(d.findings) + (if spec_suspicious_count(d.findings) > 0 {
        seq![spec_suspicious_finding(spec_suspicious_count(d.findings))]
    } else {
        Seq::empty()
    }) + spec_wifi_findings(d.interfaces) + (if spec_public_count(d.findings) > 3 {
        seq![spec_exposure_finding(spec_public_count(d.findings))]
    } else {
        Seq::empty()
    })
}

/// The per-severity counts over all findings of one analysis run.
pub open spec fn spec_summary(d: CollectorDataView) -> FindingSummary {
    FindingSummary {
        critical: spec_severity_count(spec_findings(d), Severity::Critical) as u32,
        high: spec_severity_count(spec_findings(d), Severity::High) as u32,
        medium: spec_severity_count(spec_findings(d), Severity::Medium) as u32,
        low: spec_severity_count(spec_findings(d), Severity::Low) as u32,
        info: spec_severity_count(spec_findings(d), Severity::Info) as u32,
    }
}

/// The compliance scorecard derived from the severity counts and the scan
/// metadata: the CIS score loses ten points per violated check (firewall
/// disabled, critical findings present), the NIST score loses five points
/// per critical or high finding, and PCI-DSS compliance holds exactly when
/// the firewall is enabled and no critical finding exists.
pub open spec fn spec_compliance(s: FindingSummary, m: Metadata) -> ComplianceStatusView {
    let violations: int = (if !m.firewall_enabled {
        1int
    } else {
        0int
    }) + (if s.critical > 0 {
        1int
    } else {
        0int
    });
    let nist_violations: int = s.critical + s.high;
    let pci = m.firewall_enabled && s.critical == 0;
    ComplianceStatusView {
        cis_score: (100 - violations * 10) as u32,
        nist_score: (if nist_violations >= 20 {
            0int
        } else {
            (20 - nist_violations) * 5
        }) as u32,
        pci_dss_compliant: pci,
        issues: (if !m.firewall_enabled {
            seq!["CIS 9.2.1: Firewall must be enabled"@]
        } else {
            Seq::empty()
        }) + (if s.critical > 0 {
            seq!["CIS 1.1: Critical vulnerabilities present"@]
        } else {
            Seq::empty()
        }) + (if !pci {
            seq!["PCI-DSS 1.1: Firewall must be configured and enabled"@]
        } else {
            Seq::empty()
        }),
    }
}

/// Derives the compliance scorecard from the severity counts and the scan
/// metadata. Both scores stay within `[0, 100]`, and PCI-DSS compliance
/// holds if and only if the firewall is enabled and there is no critical
/// finding.
pub fn calculate_compliance(summary: &FindingSummary, metadata: &Metadata) -> (res:
    ComplianceStatus)
    ensures
        res@ == spec_compliance(*summary, *metadata),
        res.cis_score <= 100,
        res.nist_score <= 100,
        res.pci_dss_compliant == (metadata.firewall_enabled && summary.critical == 0),
{
    let mut issues: Vec<String> = Vec::new();
    let mut violations: u32 = 0;
    if !metadata.firewall_enabled {
        issues.push(String::from_str("CIS 9.2.1: Firewall must be enabled"));
        violations = violations + 1;
    }
    if summary.critical > 0 {
        issues.push(String::from_str("CIS 1.1: Critical vulnerabilities present"));
        violations = violations + 1;
    }
    let cis_score: u32 = 100 - violations * 10;
    let nist_violations: u64 = summary.critical as u64 + summary.high as u64;
    let nist_score: u32 = if nist_violations >= 20 {
        0
    } else {
        ((20 - nist_violations) * 5) as u32
    };
    let pci_dss_compliant = metadata.firewall_enabled && summary.critical == 0;
    if !pci_dss_compliant {
        issues.push(String::from_str("PCI-DSS 1.1: Firewall must be configured and enabled"));
    }
    let res = ComplianceStatus { cis_score, nist_score, pci_dss_compliant, issues };
    proof {
        assert(res@.issues =~~= spec_compliance(*summary, *metadata).issues);
        assert(res@ =~~= spec_compliance(*summary, *metadata));
    }
    res
}

/// The priority-1 recommendation emitted when critical findings exist.
pub open spec fn spec_critical_recommendation(critical: u32) -> RecommendationView {
    RecommendationView {
        priority: 1,
        action: "Address Critical Security Issues Immediately"@,
        rationale: spec_dec(critical as nat)
            + " critical vulnerabilities require urgent attention to prevent system compromise"@,
        impact: "Prevents active exploitation and potential data breach"@,
    }
}

/// The priority-1 recommendation emitted when the firewall is disabled.
pub open spec fn spec_firewall_recommendation() -> RecommendationView {
    RecommendationView {
        priority: 1,
        action: "Enable Windows Firewall on All Profiles"@,
        rationale: "Firewall provides essential network-level protection against unauthorized access"@,
        impact: "Blocks most network-based attacks and limits lateral movement"@,
    }
}

/// The priority-2 recommendation emitted when high findings exist.
pub open spec fn spec_high_recommendation(high: u32) -> RecommendationView {
    RecommendationView {
        priority: 2,
        action: "Review and Secure High-Risk Services"@,
        rationale: spec_dec(high as nat) + " high-severity issues expose critical attack vectors"@,
        impact: "Significantly reduces attack surface and exploitation risk"@,
    }
}

/// The unconditional priority-3 network-segmentation recommendation.
pub open spec fn spec_segmentation_recommendation() -> RecommendationView {
    RecommendationView {
        priority: 3,
        action: "Implement Network Segmentation"@,
        rationale: "Isolate critical systems from general network traffic"@,
        impact: "Limits blast radius of potential breaches"@,
    }
}

/// The unconditional priority-4 logging-and-monitoring recommendation.
pub open spec fn spec_monitoring_recommendation() -> RecommendationView {
    RecommendationView {
        priority: 4,
        action: "Enable Comprehensive Logging and Monitoring"@,
        rationale: "Early detection is critical for incident response"@,
        impact: "Enables threat detection and forensic analysis"@,
    }
}

/// The ordered recommendation list: conditional priority-1 and priority-2
/// entries, then the two unconditional baseline entries; priorities ascend
/// and ties keep generation order.
pub open spec fn spec_recommendations(s: FindingSummary, m: Metadata) -> Seq<RecommendationView> {
    (if s.critical > 0 {
        seq![spec_critical_recommendation(s.critical)]
    } else {
        Seq::empty()
    }) + (if !m.firewall_enabled {
        seq![spec_firewall_recommendation()]
    } else {
        Seq::empty()
    }) + (if s.high > 0 {
        seq![spec_high_recommendation(s.high)]
    } else {
        Seq::empty()
    }) + seq![spec_segmentation_recommendation(), spec_monitoring_recommendation()]
}

/// Produces the ordered, never-empty recommendation list for the given
/// severity counts and metadata.
pub fn generate_recommendations(summary: &FindingSummary, metadata: &Metadata) -> (res: Vec<
    Recommendation>)
    ensures
        res.deep_view() == spec_recommendations(*summary, *metadata),
        res.len() >= 2,
{
    let mut recs: Vec<Recommendation> = Vec::new();
    if summary.critical > 0 {
        let mut rationale = u64_to_string(summary.critical as u64);
        rationale.append(
            " critical vulnerabilities require urgent attention to prevent system compromise",
        );
        recs.push(
            Recommendation {
                priority: 1,
                action: String::from_str("Address Critical Security Issues Immediately"),
                rationale,
                impact: String::from_str("Prevents active exploitation and potential data breach"),
            },
        );
    }
    if !metadata.firewall_enabled {
        recs.push(
            Recommendation {
                priority: 1,
                action: String::from_str("Enable Windows Firewall on All Profiles"),
                rationale: String::from_str(
                    "Firewall provides essential network-level protection against unauthorized access",
                ),
                impact: String::from_str(
                    "Blocks most network-based attacks and limits lateral movement",
                ),
            },
        );
    }
    if summary.high > 0 {
        let mut rationale = u64_to_string(summary.high as u64);
        rationale.append(" high-severity issues expose critical attack vectors");
        recs.push(
            Recommendation {
                priority: 2,
                action: String::from_str("Review and Secure High-Risk Services"),
                rationale,
                impact: String::from_str(
                    "Significantly reduces attack surface and exploitation risk",
                ),
            },
        );
    }
    recs.push(
        Recommendation {
            priority: 3,
            action: String::from_str("Implement Network Segmentation"),
            rationale: String::from_str("Isolate critical systems from general network traffic"),
            impact: String::from_str("Limits blast radius of potential breaches"),
        },
    );
    recs.push(
        Recommendation {
            priority: 4,
            action: String::from_str("Enable Comprehensive Logging and Monitoring"),
            rationale: String::from_str("Early detection is critical for incident response"),
            impact: String::from_str("Enables threat detection and forensic analysis"),
        },
    );
    proof {
        assert(recs.deep_view() =~~= spec_recommendations(*summary, *metadata));
    }
    recs
}

/// Recommendations come out ordered by ascending priority; ties keep
/// generation order.
pub proof fn lemma_recommendations_sorted(s: FindingSummary, m: Metadata, i: int, j: int)
    requires
        0 <= i <= j < spec_recommendations(s, m).len(),
    ensures
        spec_recommendations(s, m)[i].priority <= spec_recommendations(s, m)[j].priority,
{
}

/// No severity bucket can hold more findings than there are findings.
proof fn lemma_severity_count_le_len(fs: Seq<AnalyzedFindingView>, sev: Severity)
    ensures
        spec_severity_count(fs, sev) <= fs.len(),
    decreases fs.len(),
{
    if fs.len() > 0 {
        lemma_severity_count_le_len(fs.drop_last(), sev);
    }
}

/// Appending one finding raises exactly the bucket of its severity.
proof fn lemma_severity_count_push(fs: Seq<AnalyzedFindingView>, f: AnalyzedFindingView, sev: Severity)
    ensures
        spec_severity_count(fs.push(f), sev) == spec_severity_count(fs, sev) + (if f.severity
            == sev {
            1nat
        } else {
            0
        }),
{
    assert(fs.push(f).drop_last() =~= fs);
}

/// One step of the suspicious-connections count over a prefix.
proof fn lemma_suspicious_count_take_step(fs: Seq<CollectorFindingView>, i: int)
    requires
        0 <= i < fs.len(),
    ensures
        spec_suspicious_count(fs.take(i + 1)) == spec_suspicious_count(fs.take(i)) + (
        if spec_is_suspicious(fs[i]) {
            1nat
        } else {
            0
        }),
{
    assert(fs.take(i + 1).drop_last() =~= fs.take(i));
    assert(fs.take(i + 1).last() == fs[i]);
}

/// One step of the mass-public-exposure count over a prefix.
proof fn lemma_public_count_take_step(fs: Seq<CollectorFindingView>, i: int)
    requires
        0 <= i < fs.len(),
    ensures
        spec_public_count(fs.take(i + 1)) == spec_public_count(fs.take(i)) + (
        if spec_is_public_risky(fs[i]) {
            1nat
        } else {
            0
        }),
{
    assert(fs.take(i + 1).drop_last() =~= fs.take(i));
    assert(fs.take(i + 1).last() == fs[i]);
}

/// One step of the risky-port findings over a prefix.
proof fn lemma_port_findings_take_step(fs: Seq<CollectorFindingView>, i: int)
    requires
        0 <= i < fs.len(),
    ensures
        spec_port_findings(fs.take(i + 1)) == spec_port_findings(fs.take(i)) + (
        if spec_is_risky_port(fs[i]) {
            seq![spec_port_finding(fs[i])]
        } else {
            Seq::empty()
        }),
{
    assert(fs.take(i + 1).drop_last() =~= fs.take(i));
    assert(fs.take(i + 1).last() == fs[i]);
}

/// One step of the wireless-interface findings over a prefix.
proof fn lemma_wifi_findings_take_step(ifs: Seq<NetworkInterfaceView>, i: int)
    requires
        0 <= i < ifs.len(),
    ensures
        spec_wifi_findings(ifs.take(i + 1)) == spec_wifi_findings(ifs.take(i)) + (
        if spec_wifi_active(ifs[i]) {
            seq![spec_wifi_finding(ifs[i])]
        } else {
            Seq::empty()
        }),
{
    assert(ifs.take(i + 1).drop_last() =~= ifs.take(i));
    assert(ifs.take(i + 1).last() == ifs[i]);
}

/// The severity aggregator: appends `f` to the findings and raises the
/// counter of exactly its severity bucket.
fn record_finding(findings: &mut Vec<AnalyzedFinding>, summary: &mut FindingSummary, f: AnalyzedFinding)
    requires
        old(findings).deep_view().len() + 1 <= u32::MAX,
        old(summary).critical == spec_severity_count(old(findings).deep_view(), Severity::Critical),
        old(summary).high == spec_severity_count(old(findings).deep_view(), Severity::High),
        old(summary).medium == spec_severity_count(old(findings).deep_view(), Severity::Medium),
        old(summary).low == spec_severity_count(old(findings).deep_view(), Severity::Low),
        old(summary).info == spec_severity_count(old(findings).deep_view(), Severity::Info),
    ensures
        final(findings).deep_view() == old(findings).deep_view().push(f@),
        final(summary).critical == spec_severity_count(final(findings).deep_view(), Severity::Critical),
        final(summary).high == spec_severity_count(final(findings).deep_view(), Severity::High),
        final(summary).medium == spec_severity_count(final(findings).deep_view(), Severity::Medium),
        final(summary).low == spec_severity_count(final(findings).deep_view(), Severity::Low),
        final(summary).info == spec_severity_count(final(findings).deep_view(), Severity::Info),
{
    proof {
        lemma_severity_count_le_len(old(findings).deep_view(), Severity::Critical);
        lemma_severity_count_le_len(old(findings).deep_view(), Severity::High);
        lemma_severity_count_le_len(old(findings).deep_view(), Severity::Medium);
        lemma_severity_count_le_len(old(findings).deep_view(), Severity::Low);
        lemma_severity_count_le_len(old(findings).deep_view(), Severity::Info);
        lemma_severity_count_push(old(findings).deep_view(), f@, Severity::Critical);
        lemma_severity_count_push(old(findings).deep_view(), f@, Severity::High);
        lemma_severity_count_push(old(findings).deep_view(), f@, Severity::Medium);
        lemma_severity_count_push(old(findings).deep_view(), f@, Severity::Low);
        lemma_severity_count_push(old(findings).deep_view(), f@, Severity::Info);
    }
    match f.severity {
        Severity::Critical => {
            summary.critical = summary.critical + 1;
        },
        Severity::High => {
            summary.high = summary.high + 1;
        },
        Severity::Medium => {
            summary.medium = summary.medium + 1;
        },
        Severity::Low => {
            summary.low = summary.low + 1;
        },
        Severity::Info => {
            summary.info = summary.info + 1;
        },
    }
    findings.push(f);
    proof {
        assert(findings.deep_view() =~= old(findings).deep_view().push(f@));
    }
}


/// The complete report produced for snapshot `d`: all computed fields are
/// pure functions of the snapshot; the analysis-duration field is zero and
/// may be overwritten by a caller that times the run.
pub open spec fn spec_report(d: CollectorDataView) -> SecurityReportView {
    let s = spec_summary(d);
    SecurityReportView {
        risk_index: spec_risk_index(s, d.metadata) as u32,
        posture: spec_posture(spec_risk_index(s, d.metadata)),
        summary: s,
        findings: spec_findings(d),
        recommendations: spec_recommendations(s, d.metadata),
        compliance: spec_compliance(s, d.metadata),
        metadata: ReportMetadataView {
            scan_timestamp: d.timestamp,
            analysis_duration_ms: 0,
            engine_version: "2.0.0"@,
            total_checks: d.findings.len() as u32,
        },
    }
}

/// The risky-port rule emits at most one finding per raw observation.
proof fn lemma_port_findings_len(fs: Seq<CollectorFindingView>)
    ensures
        spec_port_findings(fs).len() <= fs.len(),
    decreases fs.len(),
{
    if fs.len() > 0 {
        lemma_port_findings_len(fs.drop_last());
    }
}

/// The wireless-interface rule emits at most one finding per interface.
proof fn lemma_wifi_findings_len(ifs: Seq<NetworkInterfaceView>)
    ensures
        spec_wifi_findings(ifs).len() <= ifs.len(),
    decreases ifs.len(),
{
    if ifs.len() > 0 {
        lemma_wifi_findings_len(ifs.drop_last());
    }
}

/// A run emits at most one finding per raw observation and interface,
/// plus the three aggregate rules.
proof fn lemma_findings_len(d: CollectorDataView)
    ensures
        spec_findings(d).len() <= 3 + d.findings.len() + d.interfaces.len(),
{
    lemma_port_findings_len(d.findings);
    lemma_wifi_findings_len(d.interfaces);
}

/// Each finding falls in exactly one severity bucket, so the five bucket
/// counts always sum to the number of findings.
proof fn lemma_severity_partition(fs: Seq<AnalyzedFindingView>)
    ensures
        spec_severity_count(fs, Severity::Critical) + spec_severity_count(fs, Severity::High)
            + spec_severity_count(fs, Severity::Medium) + spec_severity_count(fs, Severity::Low)
            + spec_severity_count(fs, Severity::Info) == fs.len(),
    decreases fs.len(),
{
    if fs.len() > 0 {
        lemma_severity_partition(fs.drop_last());
    }
}

/// For every snapshot, the five counters of the report's summary sum to
/// the number of findings in the report.
pub proof fn lemma_summary_counts_findings(d: CollectorDataView)
    requires
        d.findings.len() + d.interfaces.len() + 3 <= u32::MAX,
    ensures
        spec_summary(d).critical + spec_summary(d).high + spec_summary(d).medium + spec_summary(
            d,
        ).low + spec_summary(d).info == spec_findings(d).len(),
{
    lemma_severity_partition(spec_findings(d));
    lemma_findings_len(d);
    lemma_severity_count_le_len(spec_findings(d), Severity::Critical);
    lemma_severity_count_le_len(spec_findings(d), Severity::High);
    lemma_severity_count_le_len(spec_findings(d), Severity::Medium);
    lemma_severity_count_le_len(spec_findings(d), Severity::Low);
    lemma_severity_count_le_len(spec_findings(d), Severity::Info);
}

/// Analysis is deterministic: two reports produced for the same snapshot
/// agree on every field, the measured duration included, since the engine
/// itself never reads a clock.
pub proof fn lemma_analysis_deterministic(
    d: CollectorDataView,
    r1: SecurityReportView,
    r2: SecurityReportView,
)
    requires
        r1 == spec_report(d),
        r2 == spec_report(d),
    ensures
        r1 == r2,
{
}

/// Runs the five detection rules over the snapshot and assembles the full
/// report: findings, severity counts, risk index, posture label,
/// compliance scorecard, recommendations and report metadata.
///
/// The report is a pure function of the snapshot, and its severity
/// counters always sum to the number of findings.
#[verifier::rlimit(100)]
pub fn analyze(data: &CollectorData) -> (res: SecurityReport)
    requires
        data@.findings.len() + data@.interfaces.len() + 3 <= u32::MAX,
    ensures
        res@ == spec_report(data@),
        res.summary.critical + res.summary.high + res.summary.medium + res.summary.low
            + res.summary.info == res@.findings.len(),
{
    let ghost d = data@;
    let mut findings: Vec<AnalyzedFinding> = Vec::new();
    let mut summary = FindingSummary { critical: 0, high: 0, medium: 0, low: 0, info: 0 };
    if !data.metadata.firewall_enabled {
        let f = make_firewall_finding();
        record_finding(&mut findings, &mut summary, f);
    }
    let ghost fw_part: Seq<AnalyzedFindingView> = if !d.metadata.firewall_enabled {
        seq![spec_firewall_finding()]
    } else {
        Seq::empty()
    };
    proof {
        assert(findings.deep_view() =~= fw_part);
    }
    let risky_tag = String::from_str("risky_port");
    let n = data.findings.len();
    proof {
        assert(findings.deep_view() =~= fw_part + spec_port_findings(d.findings.take(0)));
    }
    let mut idx: usize = 0;
    while idx < n
        invariant
            idx <= n,
            n == d.findings.len(),
            d == data@,
            d.findings.len() + d.interfaces.len() + 3 <= u32::MAX,
            risky_tag@ == "risky_port"@,
            findings.deep_view() == fw_part + spec_port_findings(d.findings.take(idx as int)),
            findings.deep_view().len() <= 1 + idx,
            summary.critical == spec_severity_count(findings.deep_view(), Severity::Critical),
            summary.high == spec_severity_count(findings.deep_view(), Severity::High),
            summary.medium == spec_severity_count(findings.deep_view(), Severity::Medium),
            summary.low == spec_severity_count(findings.deep_view(), Severity::Low),
            summary.info == spec_severity_count(findings.deep_view(), Severity::Info),
        decreases n - idx,
    {
        let f = &data.findings[idx];
        proof {
            assert(f@ == d.findings[idx as int]);
        }
        if f.finding_type == risky_tag {
            let analyzed = analyze_risky_port(f);
            record_finding(&mut findings, &mut summary, analyzed);
        }
        proof {
            lemma_port_findings_take_step(d.findings, idx as int);
            assert(findings.deep_view() =~= fw_part + spec_port_findings(
                d.findings.take(idx as int + 1),
            ));
        }
        idx = idx + 1;
    }
    proof {
        assert(d.findings.take(n as int) =~= d.findings);
    }
    let ghost ports_prefix = fw_part + spec_port_findings(d.findings);
    let susp_tag = String::from_str("suspicious_connection");
    let mut suspicious_count: u32 = 0;
    let mut idx2: usize = 0;
    while idx2 < n
        invariant
            idx2 <= n,
            n == d.findings.len(),
            d == data@,
            susp_tag@ == "suspicious_connection"@,
            d.findings.len() + d.interfaces.len() + 3 <= u32::MAX,
            suspicious_count as nat == spec_suspicious_count(d.findings.take(idx2 as int)),
            suspicious_count <= idx2,
        decreases n - idx2,
    {
        let f = &data.findings[idx2];
        proof {
            assert(f@ == d.findings[idx2 as int]);
            lemma_suspicious_count_take_step(d.findings, idx2 as int);
        }
        if f.finding_type == susp_tag {
            suspicious_count = suspicious_count + 1;
        }
        idx2 = idx2 + 1;
    }
    proof {
        assert(d.findings.take(n as int) =~= d.findings);
    }
    if suspicious_count > 0 {
        let f = make_suspicious_finding(suspicious_count);
        record_finding(&mut findings, &mut summary, f);
    }
    let ghost susp_prefix = ports_prefix + (if spec_suspicious_count(d.findings) > 0 {
        seq![spec_suspicious_finding(spec_suspicious_count(d.findings))]
    } else {
        Seq::<AnalyzedFindingView>::empty()
    });
    proof {
        assert(findings.deep_view() =~= susp_prefix);
        assert(findings.deep_view().len() <= 2 + d.findings.len());
        assert(findings.deep_view() =~= susp_prefix + spec_wifi_findings(d.interfaces.take(0)));
    }
    let interface_count = data.interfaces.len();
    let mut j: usize = 0;
    while j < interface_count
        invariant
            j <= interface_count,
            interface_count == d.interfaces.len(),
            d == data@,
            d.findings.len() + d.interfaces.len() + 3 <= u32::MAX,
            findings.deep_view() == susp_prefix + spec_wifi_findings(d.interfaces.take(j as int)),
            findings.deep_view().len() <= 2 + d.findings.len() + j,
            summary.critical == spec_severity_count(findings.deep_view(), Severity::Critical),
            summary.high == spec_severity_count(findings.deep_view(), Severity::High),
            summary.medium == spec_severity_count(findings.deep_view(), Severity::Medium),
            summary.low == spec_severity_count(findings.deep_view(), Severity::Low),
            summary.info == spec_severity_count(findings.deep_view(), Severity::Info),
        decreases interface_count - j,
    {
        let itf = &data.interfaces[j];
        proof {
            assert(itf@ == d.interfaces[j as int]);
        }
        if itf.is_wireless && itf.is_up {
            let f = make_wifi_finding(itf);
            record_finding(&mut findings, &mut summary, f);
        }
        proof {
            lemma_wifi_findings_take_step(d.interfaces, j as int);
            assert(findings.deep_view() =~= susp_prefix + spec_wifi_findings(
                d.interfaces.take(j as int + 1),
            ));
        }
        j = j + 1;
    }
    proof {
        assert(d.interfaces.take(interface_count as int) =~= d.interfaces);
    }
    let ghost wifi_prefix = susp_prefix + spec_wifi_findings(d.interfaces);
    let wildcard = String::from_str("0.0.0.0");
    let mut public_count: u32 = 0;
    let mut idx3: usize = 0;
    while idx3 < n
        invariant
            idx3 <= n,
            n == d.findings.len(),
            d == data@,
            wildcard@ == "0.0.0.0"@,
            d.findings.len() + d.interfaces.len() + 3 <= u32::MAX,
            risky_tag@ == "risky_port"@,
            public_count as nat == spec_public_count(d.findings.take(idx3 as int)),
            public_count <= idx3,
        decreases n - idx3,
    {
        let f = &data.findings[idx3];
        proof {
            assert(f@ == d.findings[idx3 as int]);
            lemma_public_count_take_step(d.findings, idx3 as int);
        }
        if f.binding == wildcard && f.finding_type == risky_tag {
            public_count = public_count + 1;
        }
        idx3 = idx3 + 1;
    }
    proof {
        assert(d.findings.take(n as int) =~= d.findings);
    }
    if public_count > 3 {
        let f = make_exposure_finding(public_count);
        record_finding(&mut findings, &mut summary, f);
    }
    proof {
        assert(findings.deep_view() =~= spec_findings(d));
        lemma_findings_len(d);
        lemma_severity_count_le_len(spec_findings(d), Severity::Critical);
        lemma_severity_count_le_len(spec_findings(d), Severity::High);
        lemma_severity_count_le_len(spec_findings(d), Severity::Medium);
        lemma_severity_count_le_len(spec_findings(d), Severity::Low);
        lemma_severity_count_le_len(spec_findings(d), Severity::Info);
        assert(summary == spec_summary(d));
        lemma_summary_counts_findings(d);
    }
    let recommendations = generate_recommendations(&summary, &data.metadata);
    let compliance = calculate_compliance(&summary, &data.metadata);
    let risk_index = calculate_risk_index(&summary, &data.metadata);
    let posture = determine_posture(risk_index);
    let total_checks = data.findings.len() as u32;
    let res = SecurityReport {
        risk_index,
        posture,
        summary,
        findings,
        recommendations,
        compliance,
        metadata: ReportMetadata {
            scan_timestamp: data.timestamp,
            analysis_duration_ms: 0,
            engine_version: String::from_str("2.0.0"),
            total_checks,
        },
    };
    proof {
        assert(res@ =~~= spec_report(d));
    }
    res
}

} // verus!
