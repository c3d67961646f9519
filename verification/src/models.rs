//! Value types for the analysis engine: the snapshot handed in by the
//! collector and the report produced by the engine, together with their
//! mathematical views.
//!
//! Fixed-point conventions: `cvss_score` is tenths of a CVSS point
//! (`91` means 9.1), `risk_index` is hundredths of a point (`150` means
//! 1.50), and `cis_score` / `nist_score` are whole percentages.

use vstd::prelude::*;

verus! {

/// Severity of a finding, ordered from most to least severe:
/// `Critical > High > Medium > Low > Info`.
#[derive(Clone, Copy, Debug, PartialEq, Eq, Structural)]
pub enum Severity {
    Critical,
    High,
    Medium,
    Low,
    Info,
}

/// One network interface as observed by the collector.
#[derive(Clone, Debug, PartialEq)]
pub struct NetworkInterface {
    pub name: String,
    pub description: String,
    pub mac: String,
    pub ipv4: String,
    pub ipv6: String,
    pub gateway: String,
    pub is_up: bool,
    pub is_wireless: bool,
}

/// Mathematical view of a [`NetworkInterface`].
#[verifier::ext_equal]
pub struct NetworkInterfaceView {
    pub name: Seq<char>,
    pub description: Seq<char>,
    pub mac: Seq<char>,
    pub ipv4: Seq<char>,
    pub ipv6: Seq<char>,
    pub gateway: Seq<char>,
    pub is_up: bool,
    pub is_wireless: bool,
}

impl View for NetworkInterface {
    type V = NetworkInterfaceView;

    open spec fn view(&self) -> NetworkInterfaceView {
        NetworkInterfaceView {
            name: self.name@,
            description: self.description@,
            mac: self.mac@,
            ipv4: self.ipv4@,
            ipv6: self.ipv6@,
            gateway: self.gateway@,
            is_up: self.is_up,
            is_wireless: self.is_wireless,
        }
    }
}

impl DeepView for NetworkInterface {
    type V = NetworkInterfaceView;

    open spec fn deep_view(&self) -> NetworkInterfaceView {
        self.view()
    }
}

/// One low-level observation reported by the collector, tagged with a
/// `finding_type` such as `"risky_port"` or `"suspicious_connection"`.
#[derive(Clone, Debug, PartialEq)]
pub struct CollectorFinding {
    pub finding_type: String,
    pub port: u16,
    pub protocol: String,
    pub service: String,
    pub binding: String,
    pub state: String,
    pub process: String,
    pub pid: i32,
    pub risk_level: String,
}

/// Mathematical view of a [`CollectorFinding`].
#[verifier::ext_equal]
pub struct CollectorFindingView {
    pub finding_type: Seq<char>,
    pub port: u16,
    pub protocol: Seq<char>,
    pub service: Seq<char>,
    pub binding: Seq<char>,
    pub state: Seq<char>,
    pub process: Seq<char>,
    pub pid: i32,
    pub risk_level: Seq<char>,
}

impl View for CollectorFinding {
    type V = CollectorFindingView;

    open spec fn view(&self) -> CollectorFindingView {
        CollectorFindingView {
            finding_type: self.finding_type@,
            port: self.port,
            protocol: self.protocol@,
            service: self.service@,
            binding: self.binding@,
            state: self.state@,
            process: self.process@,
            pid: self.pid,
            risk_level: self.risk_level@,
        }
    }
}

impl DeepView for CollectorFinding {
    type V = CollectorFindingView;

    open spec fn deep_view(&self) -> CollectorFindingView {
        self.view()
    }
}

/// Scan-level facts about the snapshot.
#[derive(Clone, Debug, PartialEq)]
pub struct Metadata {
    pub scan_duration_ms: u32,
    pub interfaces_found: u32,
    pub open_ports: u32,
    pub active_connections: u32,
    pub firewall_enabled: bool,
}

impl View for Metadata {
    type V = Metadata;

    open spec fn view(&self) -> Metadata {
        *self
    }
}

/// The whole snapshot handed to the engine: interfaces, raw findings and
/// scan metadata. Treated as immutable for the duration of one analysis.
#[derive(Clone, Debug, PartialEq)]
pub struct CollectorData {
    pub collector: String,
    pub timestamp: i64,
    pub interfaces: Vec<NetworkInterface>,
    pub findings: Vec<CollectorFinding>,
    pub metadata: Metadata,
}

/// Mathematical view of a [`CollectorData`] snapshot.
#[verifier::ext_equal]
pub struct CollectorDataView {
    pub collector: Seq<char>,
    pub timestamp: i64,
    pub interfaces: Seq<NetworkInterfaceView>,
    pub findings: Seq<CollectorFindingView>,
    pub metadata: Metadata,
}

impl View for CollectorData {
    type V = CollectorDataView;

    open spec fn view(&self) -> CollectorDataView {
        CollectorDataView {
            collector: self.collector@,
            timestamp: self.timestamp,
            interfaces: self.interfaces.deep_view(),
            findings: self.findings.deep_view(),
            metadata: self.metadata,
        }
    }
}

/// Per-severity counters over the findings of one report.
#[derive(Clone, Copy, Debug, PartialEq, Eq, Structural)]
pub struct FindingSummary {
    pub critical: u32,
    pub high: u32,
    pub medium: u32,
    pub low: u32,
    pub info: u32,
}

impl View for FindingSummary {
    type V = FindingSummary;

    open spec fn view(&self) -> FindingSummary {
        *self
    }
}

/// One enriched, classified finding produced by a rule.
#[derive(Clone, Debug, PartialEq)]
pub struct AnalyzedFinding {
    pub id: String,
    pub title: String,
    pub severity: Severity,
    pub category: String,
    pub description: String,
    pub reasoning: String,
    pub affected_asset: String,
    pub remediation: String,
    /// CVSS score in tenths of a point, in `0 ..= 100`.
    pub cvss_score: u32,
    pub attack_vector: String,
    pub exploitability: String,
}

/// Mathematical view of an [`AnalyzedFinding`].
#[verifier::ext_equal]
pub struct AnalyzedFindingView {
    pub id: Seq<char>,
    pub title: Seq<char>,
    pub severity: Severity,
    pub category: Seq<char>,
    pub description: Seq<char>,
    pub reasoning: Seq<char>,
    pub affected_asset: Seq<char>,
    pub remediation: Seq<char>,
    pub cvss_score: u32,
    pub attack_vector: Seq<char>,
    pub exploitability: Seq<char>,
}

impl View for AnalyzedFinding {
    type V = AnalyzedFindingView;

    open spec fn view(&self) -> AnalyzedFindingView {
        AnalyzedFindingView {
            id: self.id@,
            title: self.title@,
            severity: self.severity,
            category: self.category@,
            description: self.description@,
            reasoning: self.reasoning@,
            affected_asset: self.affected_asset@,
            remediation: self.remediation@,
            cvss_score: self.cvss_score,
            attack_vector: self.attack_vector@,
            exploitability: self.exploitability@,
        }
    }
}

impl DeepView for AnalyzedFinding {
    type V = AnalyzedFindingView;

    open spec fn deep_view(&self) -> AnalyzedFindingView {
        self.view()
    }
}

/// One remediation action; `priority` 1 is the most urgent.
#[derive(Clone, Debug, PartialEq)]
pub struct Recommendation {
    pub priority: u32,
    pub action: String,
    pub rationale: String,
    pub impact: String,
}

/// Mathematical view of a [`Recommendation`].
#[verifier::ext_equal]
pub struct RecommendationView {
    pub priority: u32,
    pub action: Seq<char>,
    pub rationale: Seq<char>,
    pub impact: Seq<char>,
}

impl View for Recommendation {
    type V = RecommendationView;

    open spec fn view(&self) -> RecommendationView {
        RecommendationView {
            priority: self.priority,
            action: self.action@,
            rationale: self.rationale@,
            impact: self.impact@,
        }
    }
}

impl DeepView for Recommendation {
    type V = RecommendationView;

    open spec fn deep_view(&self) -> RecommendationView {
        self.view()
    }
}

/// Simplified compliance scorecard. Scores are whole percentages.
#[derive(Clone, Debug, PartialEq)]
pub struct ComplianceStatus {
    pub cis_score: u32,
    pub nist_score: u32,
    pub pci_dss_compliant: bool,
    pub issues: Vec<String>,
}

/// Mathematical view of a [`ComplianceStatus`].
#[verifier::ext_equal]
pub struct ComplianceStatusView {
    pub cis_score: u32,
    pub nist_score: u32,
    pub pci_dss_compliant: bool,
    pub issues: Seq<Seq<char>>,
}

impl View for ComplianceStatus {
    type V = ComplianceStatusView;

    open spec fn view(&self) -> ComplianceStatusView {
        ComplianceStatusView {
            cis_score: self.cis_score,
            nist_score: self.nist_score,
            pci_dss_compliant: self.pci_dss_compliant,
            issues: self.issues.deep_view(),
        }
    }
}

/// Timing and provenance stamped onto a report.
#[derive(Clone, Debug, PartialEq)]
pub struct ReportMetadata {
    pub scan_timestamp: i64,
    /// Wall-clock duration of the analysis. The engine itself never reads a
    /// clock: it stores zero here, and a caller that measures the call may
    /// fill the field in afterwards.
    pub analysis_duration_ms: u128,
    pub engine_version: String,
    pub total_checks: u32,
}

/// Mathematical view of a [`ReportMetadata`].
#[verifier::ext_equal]
pub struct ReportMetadataView {
    pub scan_timestamp: i64,
    pub analysis_duration_ms: u128,
    pub engine_version: Seq<char>,
    pub total_checks: u32,
}

impl View for ReportMetadata {
    type V = ReportMetadataView;

    open spec fn view(&self) -> ReportMetadataView {
        ReportMetadataView {
            scan_timestamp: self.scan_timestamp,
            analysis_duration_ms: self.analysis_duration_ms,
            engine_version: self.engine_version@,
            total_checks: self.total_checks,
        }
    }
}

/// The complete assessment produced by one analysis run.
#[derive(Clone, Debug, PartialEq)]
pub struct SecurityReport {
    /// Risk index in hundredths of a point, in `0 ..= 1000`.
    pub risk_index: u32,
    pub posture: String,
    pub summary: FindingSummary,
    pub findings: Vec<AnalyzedFinding>,
    pub recommendations: Vec<Recommendation>,
    pub compliance: ComplianceStatus,
    pub metadata: ReportMetadata,
}

/// Mathematical view of a [`SecurityReport`].
#[verifier::ext_equal]
pub struct SecurityReportView {
    pub risk_index: u32,
    pub posture: Seq<char>,
    pub summary: FindingSummary,
    pub findings: Seq<AnalyzedFindingView>,
    pub recommendations: Seq<RecommendationView>,
    pub compliance: ComplianceStatusView,
    pub metadata: ReportMetadataView,
}

impl View for SecurityReport {
    type V = SecurityReportView;

    open spec fn view(&self) -> SecurityReportView {
        SecurityReportView {
            risk_index: self.risk_index,
            posture: self.posture@,
            summary: self.summary,
            findings: self.findings.deep_view(),
            recommendations: self.recommendations.deep_view(),
            compliance: self.compliance@,
            metadata: self.metadata@,
        }
    }
}

} // verus!
