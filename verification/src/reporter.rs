//! Report rendering helpers that are pure text computations: the severity
//! icon and the plain-text executive summary.

use vstd::prelude::*;

use crate::models::{FindingSummary, Recommendation, RecommendationView, SecurityReport, SecurityReportView, Severity};
use crate::strfmt::{fmt_hundredths, fmt_percent, push_dec, spec_dec, spec_hundredths, spec_percent};

verus! {

/// The icon shown beside findings of severity `sev`.
pub open spec fn spec_severity_icon(sev: Severity) -> Seq<char> {
    match sev {
        Severity::Critical => "🔴"@,
        Severity::High => "🟠"@,
        Severity::Medium => "🟡"@,
        Severity::Low => "🟢"@,
        Severity::Info => "ℹ️"@,
    }
}

/// Returns the icon shown beside findings of the given severity.
pub fn get_severity_icon(severity: Severity) -> (res: &'static str)
    ensures
        res@ == spec_severity_icon(severity),
{
    match severity {
        Severity::Critical => "🔴",
        Severity::High => "🟠",
        Severity::Medium => "🟡",
        Severity::Low => "🟢",
        Severity::Info => "ℹ️",
    }
}

/// The bulleted action lines of the executive summary, one line per
/// recommendation, joined by newlines.
pub open spec fn spec_action_lines(recs: Seq<RecommendationView>) -> Seq<char>
    decreases recs.len(),
{
    if recs.len() == 0 {
        Seq::empty()
    } else if recs.len() == 1 {
        "  • "@ + recs[0].action
    } else {
        spec_action_lines(recs.drop_last()) + "\n"@ + "  • "@ + recs.last().action
    }
}

/// One step of the action lines over a prefix.
proof fn lemma_action_lines_take_step(recs: Seq<RecommendationView>, i: int)
    requires
        0 <= i < recs.len(),
    ensures
        spec_action_lines(recs.take(i + 1)) == if i == 0 {
            "  • "@ + recs[0].action
        } else {
            spec_action_lines(recs.take(i)) + "\n"@ + "  • "@ + recs[i].action
        },
{
    assert(recs.take(i + 1).drop_last() =~= recs.take(i));
    assert(recs.take(i + 1).last() == recs[i]);
    assert(recs.take(i + 1).len() == i + 1);
}

/// Appends the bulleted action lines of the first `k` recommendations.
fn append_action_lines(out: &mut String, recs: &Vec<Recommendation>, k: usize)
    requires
        k <= recs@.len(),
    ensures
        final(out)@ == old(out)@ + spec_action_lines(recs.deep_view().take(k as int)),
{
    proof {
        assert(old(out)@ + spec_action_lines(recs.deep_view().take(0)) =~= old(out)@);
    }
    let mut i: usize = 0;
    while i < k
        invariant
            i <= k,
            k <= recs@.len(),
            out@ == old(out)@ + spec_action_lines(recs.deep_view().take(i as int)),
        decreases k - i,
    {
        if i > 0 {
            out.append("\n");
        }
        out.append("  • ");
        out.append(recs[i].action.as_str());
        proof {
            lemma_action_lines_take_step(recs.deep_view(), i as int);
            assert(out@ =~= old(out)@ + spec_action_lines(recs.deep_view().take(i as int + 1)));
        }
        i = i + 1;
    }
}

/// The urgency phrase closing the executive summary.
pub open spec fn spec_urgency_phrase(s: FindingSummary) -> Seq<char> {
    if s.critical > 0 {
        "IMMEDIATE ACTION"@
    } else if s.high > 0 {
        "URGENT ATTENTION"@
    } else {
        "timely remediation"@
    }
}

/// The first three recommendations of the report (fewer if the report
/// holds fewer).
pub open spec fn spec_top_recommendations(r: SecurityReportView) -> Seq<RecommendationView> {
    if r.recommendations.len() < 3 {
        r.recommendations
    } else {
        r.recommendations.take(3)
    }
}

/// The plain-text executive summary of a report: posture, risk index,
/// severity counts, compliance scores, the top three recommended actions
/// and an urgency phrase.
pub open spec fn spec_executive_summary(r: SecurityReportView) -> Seq<char> {
    "\nEXECUTIVE SUMMARY\n=================\n\nOverall Security Posture: "@ + r.posture
        + "\nRisk Index: "@ + spec_hundredths(r.risk_index as nat)
        + "/10.0\n\nKey Findings:\n- "@ + spec_dec(r.summary.critical as nat)
        + " Critical vulnerabilities requiring immediate attention\n- "@ + spec_dec(
        r.summary.high as nat,
    ) + " High-severity issues needing urgent remediation\n- "@ + spec_dec(
        r.summary.medium as nat,
    ) + " Medium-severity concerns to address\n\nCompliance Status:\n- CIS Benchmark: "@
        + spec_percent(r.compliance.cis_score as nat) + "%\n- NIST Framework: "@ + spec_percent(
        r.compliance.nist_score as nat,
    ) + "%\n- PCI-DSS: "@ + (if r.compliance.pci_dss_compliant {
        "Compliant"@
    } else {
        "Non-Compliant"@
    }) + "\n\nImmediate Actions Required:\n"@ + spec_action_lines(spec_top_recommendations(r))
        + "\n\nThis system requires "@ + spec_urgency_phrase(r.summary)
        + " to address identified security gaps.\n        "@
}

/// Renders the plain-text executive summary of a report.
pub fn generate_executive_summary(report: &SecurityReport) -> (res: String)
    ensures
        res@ == spec_executive_summary(report@),
{
    let mut out = String::from_str(
        "\nEXECUTIVE SUMMARY\n=================\n\nOverall Security Posture: ",
    );
    out.append(report.posture.as_str());
    out.append("\nRisk Index: ");
    let risk_text = fmt_hundredths(report.risk_index as u64);
    out.append(risk_text.as_str());
    out.append("/10.0\n\nKey Findings:\n- ");
    push_dec(&mut out, report.summary.critical as u64);
    out.append(" Critical vulnerabilities requiring immediate attention\n- ");
    push_dec(&mut out, report.summary.high as u64);
    out.append(" High-severity issues needing urgent remediation\n- ");
    push_dec(&mut out, report.summary.medium as u64);
    out.append(" Medium-severity concerns to address\n\nCompliance Status:\n- CIS Benchmark: ");
    let cis_text = fmt_percent(report.compliance.cis_score as u64);
    out.append(cis_text.as_str());
    out.append("%\n- NIST Framework: ");
    let nist_text = fmt_percent(report.compliance.nist_score as u64);
    out.append(nist_text.as_str());
    out.append("%\n- PCI-DSS: ");
    if report.compliance.pci_dss_compliant {
        out.append("Compliant");
    } else {
        out.append("Non-Compliant");
    }
    out.append("\n\nImmediate Actions Required:\n");
    let k = if report.recommendations.len() < 3 {
        report.recommendations.len()
    } else {
        3
    };
    proof {
        assert(spec_top_recommendations(report@) =~= report.recommendations.deep_view().take(
            k as int,
        ));
    }
    append_action_lines(&mut out, &report.recommendations, k);
    out.append("\n\nThis system requires ");
    if report.summary.critical > 0 {
        out.append("IMMEDIATE ACTION");
    } else if report.summary.high > 0 {
        out.append("URGENT ATTENTION");
    } else {
        out.append("timely remediation");
    }
    out.append(" to address identified security gaps.\n        ");
    proof {
        assert(out@ =~= spec_executive_summary(report@));
    }
    out
}

} // verus!
