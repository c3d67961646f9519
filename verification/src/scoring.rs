//! Risk scoring: the bounded risk index, the posture label derived from it,
//! and a simplified CVSS v3.1 base-score approximation.
//!
//! All arithmetic is exact fixed-point: the risk index is hundredths of a
//! point and CVSS scores are tenths of a point.

use vstd::arithmetic::div_mod::lemma_div_is_ordered;
use vstd::prelude::*;

use crate::models::{FindingSummary, Metadata};

verus! {

/// Raw (un-normalized) risk in hundredths of a point: `10.0` points per
/// critical finding, `5.0` per high, `2.0` per medium, `0.5` per low, the
/// whole base multiplied by `1.5` when the firewall is disabled, plus `0.3`
/// per open port above 20 and `0.1` per active connection above 100.
pub open spec fn spec_raw_risk(s: FindingSummary, m: Metadata) -> int {
    let base = s.critical * 1000 + s.high * 500 + s.medium * 200 + s.low * 50;
    let boosted = if !m.firewall_enabled {
        (base * 3) / 2
    } else {
        base as int
    };
    let port_factor = if m.open_ports > 20 {
        (m.open_ports - 20) * 30
    } else {
        0
    };
    let conn_factor = if m.active_connections > 100 {
        (m.active_connections - 100) * 10
    } else {
        0
    };
    boosted + port_factor + conn_factor
}

/// The risk index in hundredths of a point: the raw risk divided by ten,
/// clamped to `10.00` and rounded half-up to two decimal places.
pub open spec fn spec_risk_index(s: FindingSummary, m: Metadata) -> int {
    let raw = spec_raw_risk(s, m);
    if raw >= 10000 {
        1000
    } else {
        (raw + 5) / 10
    }
}

/// Computes the risk index (hundredths of a point, `0 ..= 1000`) from the
/// severity counts and the scan metadata.
pub fn calculate_risk_index(summary: &FindingSummary, metadata: &Metadata) -> (res: u32)
    ensures
        res == spec_risk_index(*summary, *metadata),
        res <= 1000,
{
    let mut raw: u64 = summary.critical as u64 * 1000 + summary.high as u64 * 500
        + summary.medium as u64 * 200 + summary.low as u64 * 50;
    if !metadata.firewall_enabled {
        raw = raw * 3 / 2;
    }
    if metadata.open_ports > 20 {
        raw = raw + (metadata.open_ports as u64 - 20) * 30;
    }
    if metadata.active_connections > 100 {
        raw = raw + (metadata.active_connections as u64 - 100) * 10;
    }
    if raw >= 10000 {
        1000
    } else {
        ((raw + 5) / 10) as u32
    }
}

/// The risk index never leaves `[0.00, 10.00]` and is monotone
/// non-decreasing in each severity count (holding the metadata and the
/// other counts fixed).
pub proof fn lemma_risk_index_monotonic(s1: FindingSummary, s2: FindingSummary, m: Metadata)
    requires
        s1.critical <= s2.critical,
        s1.high <= s2.high,
        s1.medium <= s2.medium,
        s1.low <= s2.low,
    ensures
        0 <= spec_risk_index(s1, m) <= spec_risk_index(s2, m) <= 1000,
{
    let base1 = s1.critical * 1000 + s1.high * 500 + s1.medium * 200 + s1.low * 50;
    let base2 = s2.critical * 1000 + s2.high * 500 + s2.medium * 200 + s2.low * 50;
    assert(base1 <= base2);
    lemma_div_is_ordered(base1 * 3, base2 * 3, 2);
    let raw1 = spec_raw_risk(s1, m);
    let raw2 = spec_raw_risk(s2, m);
    assert(0 <= raw1 <= raw2);
    lemma_div_is_ordered(0, raw1 + 5, 10);
    if raw2 < 10000 {
        lemma_div_is_ordered(raw1 + 5, raw2 + 5, 10);
        lemma_div_is_ordered(raw2 + 5, 10005, 10);
    } else if raw1 < 10000 {
        lemma_div_is_ordered(raw1 + 5, 10005, 10);
    }
}

/// The posture label for a risk index given in hundredths of a point.
/// Bands are half-open below their upper threshold; the top band is closed.
pub open spec fn spec_posture(risk_index: int) -> Seq<char> {
    if risk_index >= 900 {
        "🔴 CRITICAL - IMMEDIATE ACTION REQUIRED"@
    } else if risk_index >= 700 {
        "🟠 HIGH RISK - URGENT ATTENTION NEEDED"@
    } else if risk_index >= 500 {
        "🟡 ELEVATED RISK - REMEDIATION RECOMMENDED"@
    } else if risk_index >= 300 {
        "🟢 MODERATE RISK - MONITOR CLOSELY"@
    } else if risk_index >= 100 {
        "🔵 LOW RISK - ACCEPTABLE"@
    } else {
        "✅ SECURE - GOOD POSTURE"@
    }
}

/// Maps a risk index (hundredths of a point) to its qualitative posture
/// label.
pub fn determine_posture(risk_index: u32) -> (res: String)
    ensures
        res@ == spec_posture(risk_index as int),
{
    if risk_index >= 900 {
        String::from_str("🔴 CRITICAL - IMMEDIATE ACTION REQUIRED")
    } else if risk_index >= 700 {
        String::from_str("🟠 HIGH RISK - URGENT ATTENTION NEEDED")
    } else if risk_index >= 500 {
        String::from_str("🟡 ELEVATED RISK - REMEDIATION RECOMMENDED")
    } else if risk_index >= 300 {
        String::from_str("🟢 MODERATE RISK - MONITOR CLOSELY")
    } else if risk_index >= 100 {
        String::from_str("🔵 LOW RISK - ACCEPTABLE")
    } else {
        String::from_str("✅ SECURE - GOOD POSTURE")
    }
}

/// CVSS v3.1 attack vector metric.
#[derive(Clone, Copy, Debug, PartialEq, Eq, Structural)]
pub enum AttackVector {
    Network,
    Adjacent,
    Local,
    Physical,
}

/// CVSS v3.1 attack complexity metric.
#[derive(Clone, Copy, Debug, PartialEq, Eq, Structural)]
pub enum AttackComplexity {
    Low,
    High,
}

/// CVSS v3.1 privileges required metric.
#[derive(Clone, Copy, Debug, PartialEq, Eq, Structural)]
pub enum PrivilegesRequired {
    NoPrivileges,
    Low,
    High,
}

/// CVSS v3.1 user interaction metric.
#[derive(Clone, Copy, Debug, PartialEq, Eq, Structural)]
pub enum UserInteraction {
    NoInteraction,
    Required,
}

/// CVSS v3.1 scope metric.
#[derive(Clone, Copy, Debug, PartialEq, Eq, Structural)]
pub enum CvssScope {
    Unchanged,
    Changed,
}

/// CVSS v3.1 impact metric (confidentiality, integrity or availability).
#[derive(Clone, Copy, Debug, PartialEq, Eq, Structural)]
pub enum ImpactMetric {
    NoImpact,
    Low,
    High,
}

/// Attack-vector weight in hundredths.
pub open spec fn spec_av_weight(av: AttackVector) -> int {
    match av {
        AttackVector::Network => 85,
        AttackVector::Adjacent => 62,
        AttackVector::Local => 55,
        AttackVector::Physical => 20,
    }
}

/// Attack-complexity weight in hundredths.
pub open spec fn spec_ac_weight(ac: AttackComplexity) -> int {
    match ac {
        AttackComplexity::Low => 77,
        AttackComplexity::High => 44,
    }
}

/// Privileges-required weight in hundredths; depends on the scope.
pub open spec fn spec_pr_weight(pr: PrivilegesRequired, scope: CvssScope) -> int {
    match (pr, scope) {
        (PrivilegesRequired::NoPrivileges, _) => 85,
        (PrivilegesRequired::Low, CvssScope::Unchanged) => 62,
        (PrivilegesRequired::Low, CvssScope::Changed) => 68,
        (PrivilegesRequired::High, CvssScope::Unchanged) => 27,
        (PrivilegesRequired::High, CvssScope::Changed) => 50,
    }
}

/// User-interaction weight in hundredths.
pub open spec fn spec_ui_weight(ui: UserInteraction) -> int {
    match ui {
        UserInteraction::NoInteraction => 85,
        UserInteraction::Required => 62,
    }
}

/// Impact weight in hundredths.
pub open spec fn spec_impact_weight(m: ImpactMetric) -> int {
    match m {
        ImpactMetric::High => 56,
        ImpactMetric::Low => 22,
        ImpactMetric::NoImpact => 0,
    }
}

/// The CVSS impact sub-score `1 - (1-C)(1-I)(1-A)` in millionths.
pub open spec fn spec_impact_score(c: ImpactMetric, i: ImpactMetric, a: ImpactMetric) -> int {
    1000000 - (100 - spec_impact_weight(c)) * (100 - spec_impact_weight(i)) * (100
        - spec_impact_weight(a))
}

/// The exploitability sub-score `8.22 * AV * AC * PR * UI` in units of
/// `10^-10` of a point.
pub open spec fn spec_exploitability(
    av: AttackVector,
    ac: AttackComplexity,
    pr: PrivilegesRequired,
    ui: UserInteraction,
    scope: CvssScope,
) -> int {
    822 * spec_av_weight(av) * spec_ac_weight(ac) * spec_pr_weight(pr, scope) * spec_ui_weight(ui)
}

/// The exact value, rounded to the nearest unit of `10^-10` of a point, of
/// the changed-scope power term `3.25 * (impact_score - 0.02)^15` for each
/// impact sub-score the three impact metrics can produce (`isc` is the
/// sub-score in millionths). The term shrinks so fast that for all but the
/// largest sub-scores it is far below one tenth of a point.
pub open spec fn spec_changed_power_term(isc: int) -> int {
    if isc == 220000 {
        1
    } else if isc == 391600 {
        11562
    } else if isc == 525448 {
        1166892
    } else if isc == 560000 {
        3146225
    } else if isc == 656800 {
        37318930
    } else if isc == 732304 {
        200384492
    } else if isc == 806400 {
        884170322
    } else if isc == 848992 {
        1950466312
    } else if isc == 914816 {
        6136058285
    } else {
        0
    }
}

/// The CVSS base score in tenths of a point: the standard v3.1 combination
/// of the impact term (`6.42 * isc` for unchanged scope,
/// `7.52 * (isc - 0.029) - 3.25 * (isc - 0.02)^15` for changed scope) with
/// the exploitability term, capped at `10.0` and rounded half-up to one
/// decimal place. Intermediate values are exact, in units of `10^-10` of a
/// point.
pub open spec fn spec_cvss_base_score(
    av: AttackVector,
    ac: AttackComplexity,
    pr: PrivilegesRequired,
    ui: UserInteraction,
    scope: CvssScope,
    c: ImpactMetric,
    i: ImpactMetric,
    a: ImpactMetric,
) -> int {
    let isc = spec_impact_score(c, i, a);
    if isc == 0 {
        0
    } else {
        let impact_term = if scope == CvssScope::Changed {
            752 * (isc - 29000) * 100 - spec_changed_power_term(isc)
        } else {
            642 * isc * 100
        };
        let total = impact_term + spec_exploitability(av, ac, pr, ui, scope);
        let capped = if total > 100000000000 {
            100000000000
        } else {
            total
        };
        (capped + 500000000) / 1000000000
    }
}

/// The impact sub-score is always one of the ten values that products of
/// the three impact weights can reach.
proof fn lemma_impact_score_values(c: ImpactMetric, i: ImpactMetric, a: ImpactMetric)
    ensures
        spec_impact_score(c, i, a) == 0 || spec_impact_score(c, i, a) == 220000
            || spec_impact_score(c, i, a) == 391600 || spec_impact_score(c, i, a) == 525448
            || spec_impact_score(c, i, a) == 560000 || spec_impact_score(c, i, a) == 656800
            || spec_impact_score(c, i, a) == 732304 || spec_impact_score(c, i, a) == 806400
            || spec_impact_score(c, i, a) == 848992 || spec_impact_score(c, i, a) == 914816,
        0 <= spec_impact_score(c, i, a) <= 914816,
{
    match (c, i, a) {
        (ImpactMetric::NoImpact, ImpactMetric::NoImpact, ImpactMetric::NoImpact) => {
            assert((100 - spec_impact_weight(c)) * (100 - spec_impact_weight(i)) * (100
                - spec_impact_weight(a)) == 1000000) by (nonlinear_arith)
                requires
                    spec_impact_weight(c) == 0,
                    spec_impact_weight(i) == 0,
                    spec_impact_weight(a) == 0,
            ;
            assert(spec_impact_score(c, i, a) == 0);
        },
        (ImpactMetric::NoImpact, ImpactMetric::NoImpact, ImpactMetric::Low) => {
            assert((100 - spec_impact_weight(c)) * (100 - spec_impact_weight(i)) * (100
                - spec_impact_weight(a)) == 780000) by (nonlinear_arith)
                requires
                    spec_impact_weight(c) == 0,
                    spec_impact_weight(i) == 0,
                    spec_impact_weight(a) == 22,
            ;
            assert(spec_impact_score(c, i, a) == 220000);
        },
        (ImpactMetric::NoImpact, ImpactMetric::NoImpact, ImpactMetric::High) => {
            assert((100 - spec_impact_weight(c)) * (100 - spec_impact_weight(i)) * (100
                - spec_impact_weight(a)) == 440000) by (nonlinear_arith)
                requires
                    spec_impact_weight(c) == 0,
                    spec_impact_weight(i) == 0,
                    spec_impact_weight(a) == 56,
            ;
            assert(spec_impact_score(c, i, a) == 560000);
        },
        (ImpactMetric::NoImpact, ImpactMetric::Low, ImpactMetric::NoImpact) => {
            assert((100 - spec_impact_weight(c)) * (100 - spec_impact_weight(i)) * (100
                - spec_impact_weight(a)) == 780000) by (nonlinear_arith)
                requires
                    spec_impact_weight(c) == 0,
                    spec_impact_weight(i) == 22,
                    spec_impact_weight(a) == 0,
            ;
            assert(spec_impact_score(c, i, a) == 220000);
        },
        (ImpactMetric::NoImpact, ImpactMetric::Low, ImpactMetric::Low) => {
            assert((100 - spec_impact_weight(c)) * (100 - spec_impact_weight(i)) * (100
                - spec_impact_weight(a)) == 608400) by (nonlinear_arith)
                requires
                    spec_impact_weight(c) == 0,
                    spec_impact_weight(i) == 22,
                    spec_impact_weight(a) == 22,
            ;
            assert(spec_impact_score(c, i, a) == 391600);
        },
        (ImpactMetric::NoImpact, ImpactMetric::Low, ImpactMetric::High) => {
            assert((100 - spec_impact_weight(c)) * (100 - spec_impact_weight(i)) * (100
                - spec_impact_weight(a)) == 343200) by (nonlinear_arith)
                requires
                    spec_impact_weight(c) == 0,
                    spec_impact_weight(i) == 22,
                    spec_impact_weight(a) == 56,
            ;
            assert(spec_impact_score(c, i, a) == 656800);
        },
        (ImpactMetric::NoImpact, ImpactMetric::High, ImpactMetric::NoImpact) => {
            assert((100 - spec_impact_weight(c)) * (100 - spec_impact_weight(i)) * (100
                - spec_impact_weight(a)) == 440000) by (nonlinear_arith)
                requires
                    spec_impact_weight(c) == 0,
                    spec_impact_weight(i) == 56,
                    spec_impact_weight(a) == 0,
            ;
            assert(spec_impact_score(c, i, a) == 560000);
        },
        (ImpactMetric::NoImpact, ImpactMetric::High, ImpactMetric::Low) => {
            assert((100 - spec_impact_weight(c)) * (100 - spec_impact_weight(i)) * (100
                - spec_impact_weight(a)) == 343200) by (nonlinear_arith)
                requires
                    spec_impact_weight(c) == 0,
                    spec_impact_weight(i) == 56,
                    spec_impact_weight(a) == 22,
            ;
            assert(spec_impact_score(c, i, a) == 656800);
        },
        (ImpactMetric::NoImpact, ImpactMetric::High, ImpactMetric::High) => {
            assert((100 - spec_impact_weight(c)) * (100 - spec_impact_weight(i)) * (100
                - spec_impact_weight(a)) == 193600) by (nonlinear_arith)
                requires
                    spec_impact_weight(c) == 0,
                    spec_impact_weight(i) == 56,
                    spec_impact_weight(a) == 56,
            ;
            assert(spec_impact_score(c, i, a) == 806400);
        },
        (ImpactMetric::Low, ImpactMetric::NoImpact, ImpactMetric::NoImpact) => {
            assert((100 - spec_impact_weight(c)) * (100 - spec_impact_weight(i)) * (100
                - spec_impact_weight(a)) == 780000) by (nonlinear_arith)
                requires
                    spec_impact_weight(c) == 22,
                    spec_impact_weight(i) == 0,
                    spec_impact_weight(a) == 0,
            ;
            assert(spec_impact_score(c, i, a) == 220000);
        },
        (ImpactMetric::Low, ImpactMetric::NoImpact, ImpactMetric::Low) => {
            assert((100 - spec_impact_weight(c)) * (100 - spec_impact_weight(i)) * (100
                - spec_impact_weight(a)) == 608400) by (nonlinear_arith)
                requires
                    spec_impact_weight(c) == 22,
                    spec_impact_weight(i) == 0,
                    spec_impact_weight(a) == 22,
            ;
            assert(spec_impact_score(c, i, a) == 391600);
        },
        (ImpactMetric::Low, ImpactMetric::NoImpact, ImpactMetric::High) => {
            assert((100 - spec_impact_weight(c)) * (100 - spec_impact_weight(i)) * (100
                - spec_impact_weight(a)) == 343200) by (nonlinear_arith)
                requires
                    spec_impact_weight(c) == 22,
                    spec_impact_weight(i) == 0,
                    spec_impact_weight(a) == 56,
            ;
            assert(spec_impact_score(c, i, a) == 656800);
        },
        (ImpactMetric::Low, ImpactMetric::Low, ImpactMetric::NoImpact) => {
            assert((100 - spec_impact_weight(c)) * (100 - spec_impact_weight(i)) * (100
                - spec_impact_weight(a)) == 608400) by (nonlinear_arith)
                requires
                    spec_impact_weight(c) == 22,
                    spec_impact_weight(i) == 22,
                    spec_impact_weight(a) == 0,
            ;
            assert(spec_impact_score(c, i, a) == 391600);
        },
        (ImpactMetric::Low, ImpactMetric::Low, ImpactMetric::Low) => {
            assert((100 - spec_impact_weight(c)) * (100 - spec_impact_weight(i)) * (100
                - spec_impact_weight(a)) == 474552) by (nonlinear_arith)
                requires
                    spec_impact_weight(c) == 22,
                    spec_impact_weight(i) == 22,
                    spec_impact_weight(a) == 22,
            ;
            assert(spec_impact_score(c, i, a) == 525448);
        },
        (ImpactMetric::Low, ImpactMetric::Low, ImpactMetric::High) => {
            assert((100 - spec_impact_weight(c)) * (100 - spec_impact_weight(i)) * (100
                - spec_impact_weight(a)) == 267696) by (nonlinear_arith)
                requires
                    spec_impact_weight(c) == 22,
                    spec_impact_weight(i) == 22,
                    spec_impact_weight(a) == 56,
            ;
            assert(spec_impact_score(c, i, a) == 732304);
        },
        (ImpactMetric::Low, ImpactMetric::High, ImpactMetric::NoImpact) => {
            assert((100 - spec_impact_weight(c)) * (100 - spec_impact_weight(i)) * (100
                - spec_impact_weight(a)) == 343200) by (nonlinear_arith)
                requires
                    spec_impact_weight(c) == 22,
                    spec_impact_weight(i) == 56,
                    spec_impact_weight(a) == 0,
            ;
            assert(spec_impact_score(c, i, a) == 656800);
        },
        (ImpactMetric::Low, ImpactMetric::High, ImpactMetric::Low) => {
            assert((100 - spec_impact_weight(c)) * (100 - spec_impact_weight(i)) * (100
                - spec_impact_weight(a)) == 267696) by (nonlinear_arith)
                requires
                    spec_impact_weight(c) == 22,
                    spec_impact_weight(i) == 56,
                    spec_impact_weight(a) == 22,
            ;
            assert(spec_impact_score(c, i, a) == 732304);
        },
        (ImpactMetric::Low, ImpactMetric::High, ImpactMetric::High) => {
            assert((100 - spec_impact_weight(c)) * (100 - spec_impact_weight(i)) * (100
                - spec_impact_weight(a)) == 151008) by (nonlinear_arith)
                requires
                    spec_impact_weight(c) == 22,
                    spec_impact_weight(i) == 56,
                    spec_impact_weight(a) == 56,
            ;
            assert(spec_impact_score(c, i, a) == 848992);
        },
        (ImpactMetric::High, ImpactMetric::NoImpact, ImpactMetric::NoImpact) => {
            assert((100 - spec_impact_weight(c)) * (100 - spec_impact_weight(i)) * (100
                - spec_impact_weight(a)) == 440000) by (nonlinear_arith)
                requires
                    spec_impact_weight(c) == 56,
                    spec_impact_weight(i) == 0,
                    spec_impact_weight(a) == 0,
            ;
            assert(spec_impact_score(c, i, a) == 560000);
        },
        (ImpactMetric::High, ImpactMetric::NoImpact, ImpactMetric::Low) => {
            assert((100 - spec_impact_weight(c)) * (100 - spec_impact_weight(i)) * (100
                - spec_impact_weight(a)) == 343200) by (nonlinear_arith)
                requires
                    spec_impact_weight(c) == 56,
                    spec_impact_weight(i) == 0,
                    spec_impact_weight(a) == 22,
            ;
            assert(spec_impact_score(c, i, a) == 656800);
        },
        (ImpactMetric::High, ImpactMetric::NoImpact, ImpactMetric::High) => {
            assert((100 - spec_impact_weight(c)) * (100 - spec_impact_weight(i)) * (100
                - spec_impact_weight(a)) == 193600) by (nonlinear_arith)
                requires
                    spec_impact_weight(c) == 56,
                    spec_impact_weight(i) == 0,
                    spec_impact_weight(a) == 56,
            ;
            assert(spec_impact_score(c, i, a) == 806400);
        },
        (ImpactMetric::High, ImpactMetric::Low, ImpactMetric::NoImpact) => {
            assert((100 - spec_impact_weight(c)) * (100 - spec_impact_weight(i)) * (100
                - spec_impact_weight(a)) == 343200) by (nonlinear_arith)
                requires
                    spec_impact_weight(c) == 56,
                    spec_impact_weight(i) == 22,
                    spec_impact_weight(a) == 0,
            ;
            assert(spec_impact_score(c, i, a) == 656800);
        },
        (ImpactMetric::High, ImpactMetric::Low, ImpactMetric::Low) => {
            assert((100 - spec_impact_weight(c)) * (100 - spec_impact_weight(i)) * (100
                - spec_impact_weight(a)) == 267696) by (nonlinear_arith)
                requires
                    spec_impact_weight(c) == 56,
                    spec_impact_weight(i) == 22,
                    spec_impact_weight(a) == 22,
            ;
            assert(spec_impact_score(c, i, a) == 732304);
        },
        (ImpactMetric::High, ImpactMetric::Low, ImpactMetric::High) => {
            assert((100 - spec_impact_weight(c)) * (100 - spec_impact_weight(i)) * (100
                - spec_impact_weight(a)) == 151008) by (nonlinear_arith)
                requires
                    spec_impact_weight(c) == 56,
                    spec_impact_weight(i) == 22,
                    spec_impact_weight(a) == 56,
            ;
            assert(spec_impact_score(c, i, a) == 848992);
        },
        (ImpactMetric::High, ImpactMetric::High, ImpactMetric::NoImpact) => {
            assert((100 - spec_impact_weight(c)) * (100 - spec_impact_weight(i)) * (100
                - spec_impact_weight(a)) == 193600) by (nonlinear_arith)
                requires
                    spec_impact_weight(c) == 56,
                    spec_impact_weight(i) == 56,
                    spec_impact_weight(a) == 0,
            ;
            assert(spec_impact_score(c, i, a) == 806400);
        },
        (ImpactMetric::High, ImpactMetric::High, ImpactMetric::Low) => {
            assert((100 - spec_impact_weight(c)) * (100 - spec_impact_weight(i)) * (100
                - spec_impact_weight(a)) == 151008) by (nonlinear_arith)
                requires
                    spec_impact_weight(c) == 56,
                    spec_impact_weight(i) == 56,
                    spec_impact_weight(a) == 22,
            ;
            assert(spec_impact_score(c, i, a) == 848992);
        },
        (ImpactMetric::High, ImpactMetric::High, ImpactMetric::High) => {
            assert((100 - spec_impact_weight(c)) * (100 - spec_impact_weight(i)) * (100
                - spec_impact_weight(a)) == 85184) by (nonlinear_arith)
                requires
                    spec_impact_weight(c) == 56,
                    spec_impact_weight(i) == 56,
                    spec_impact_weight(a) == 56,
            ;
            assert(spec_impact_score(c, i, a) == 914816);
        },
    }
}

/// The impact weight, in hundredths, of one impact metric.
fn impact_weight(m: ImpactMetric) -> (res: u64)
    ensures
        res == spec_impact_weight(m),
{
    match m {
        ImpactMetric::High => 56,
        ImpactMetric::Low => 22,
        ImpactMetric::NoImpact => 0,
    }
}

/// Computes the impact sub-score `1 - (1-C)(1-I)(1-A)` in millionths.
fn impact_subscore(c: ImpactMetric, i: ImpactMetric, a: ImpactMetric) -> (res: u64)
    ensures
        res == spec_impact_score(c, i, a),
{
    let cw: u64 = impact_weight(c);
    let iw: u64 = impact_weight(i);
    let aw: u64 = impact_weight(a);
    proof {
        assert(0 <= (100 - cw) * (100 - iw) <= 10000) by (nonlinear_arith)
            requires
                cw <= 56,
                iw <= 56,
        ;
    }
    let ci: u64 = (100 - cw) * (100 - iw);
    proof {
        assert(0 <= ci * (100 - aw) <= 1000000) by (nonlinear_arith)
            requires
                ci <= 10000,
                aw <= 56,
        ;
    }
    1000000 - ci * (100 - aw)
}

/// Computes the exploitability term `8.22 * AV * AC * PR * UI` in units of
/// `10^-10` of a point.
fn exploitability_score(
    av: AttackVector,
    ac: AttackComplexity,
    pr: PrivilegesRequired,
    ui: UserInteraction,
    scope: CvssScope,
) -> (res: u64)
    ensures
        res == spec_exploitability(av, ac, pr, ui, scope),
        res <= 38870427750,
{
    let avw: u64 = match av {
        AttackVector::Network => 85,
        AttackVector::Adjacent => 62,
        AttackVector::Local => 55,
        AttackVector::Physical => 20,
    };
    let acw: u64 = match ac {
        AttackComplexity::Low => 77,
        AttackComplexity::High => 44,
    };
    let prw: u64 = match (pr, scope) {
        (PrivilegesRequired::NoPrivileges, _) => 85,
        (PrivilegesRequired::Low, CvssScope::Unchanged) => 62,
        (PrivilegesRequired::Low, CvssScope::Changed) => 68,
        (PrivilegesRequired::High, CvssScope::Unchanged) => 27,
        (PrivilegesRequired::High, CvssScope::Changed) => 50,
    };
    let uiw: u64 = match ui {
        UserInteraction::NoInteraction => 85,
        UserInteraction::Required => 62,
    };
    let e1: u64 = 822 * avw;
    proof {
        assert(e1 * acw <= 5379990) by (nonlinear_arith)
            requires
                e1 <= 69870,
                acw <= 77,
        ;
    }
    let e2: u64 = e1 * acw;
    proof {
        assert(e2 * prw <= 457299150) by (nonlinear_arith)
            requires
                e2 <= 5379990,
                prw <= 85,
        ;
    }
    let e3: u64 = e2 * prw;
    proof {
        assert(e3 * uiw <= 38870427750) by (nonlinear_arith)
            requires
                e3 <= 457299150,
                uiw <= 85,
        ;
    }
    e3 * uiw
}

/// Computes the changed-scope impact term
/// `7.52 * (isc - 0.029) - 3.25 * (isc - 0.02)^15` in units of `10^-10` of
/// a point, for the impact sub-scores that actually occur.
fn changed_impact_term(isc: u64) -> (res: u64)
    requires
        isc == 220000 || isc == 391600 || isc == 525448 || isc == 560000 || isc == 656800
            || isc == 732304 || isc == 806400 || isc == 848992 || isc == 914816,
    ensures
        res == 752 * (isc - 29000) * 100 - spec_changed_power_term(isc as int),
        res <= 66613363200,
{
    let power: u64 = if isc == 220000 {
        1
    } else if isc == 391600 {
        11562
    } else if isc == 525448 {
        1166892
    } else if isc == 560000 {
        3146225
    } else if isc == 656800 {
        37318930
    } else if isc == 732304 {
        200384492
    } else if isc == 806400 {
        884170322
    } else if isc == 848992 {
        1950466312
    } else {
        6136058285
    };
    752 * (isc - 29000) * 100 - power
}

/// Computes the simplified CVSS v3.1 base score, in tenths of a point,
/// from the eight categorical metric values.
#[verifier::rlimit(60)]
pub fn calculate_cvss_base_score(
    attack_vector: AttackVector,
    attack_complexity: AttackComplexity,
    privileges_required: PrivilegesRequired,
    user_interaction: UserInteraction,
    scope: CvssScope,
    confidentiality: ImpactMetric,
    integrity: ImpactMetric,
    availability: ImpactMetric,
) -> (res: u32)
    ensures
        res == spec_cvss_base_score(
            attack_vector,
            attack_complexity,
            privileges_required,
            user_interaction,
            scope,
            confidentiality,
            integrity,
            availability,
        ),
        res <= 100,
{
    proof {
        lemma_impact_score_values(confidentiality, integrity, availability);
    }
    let isc: u64 = impact_subscore(confidentiality, integrity, availability);
    if isc == 0 {
        return 0;
    }
    let exploitability: u64 = exploitability_score(
        attack_vector,
        attack_complexity,
        privileges_required,
        user_interaction,
        scope,
    );
    let impact_term: u64 = match scope {
        CvssScope::Changed => changed_impact_term(isc),
        CvssScope::Unchanged => 642 * isc * 100,
    };
    let total: u64 = impact_term + exploitability;
    let capped: u64 = if total > 100000000000 {
        100000000000
    } else {
        total
    };
    ((capped + 500000000) / 1000000000) as u32
}

} // verus!
