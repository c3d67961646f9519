//! Misconfiguration analysis and risk scoring engine.
//!
//! The engine ingests a structured snapshot of a host's network/security
//! posture (interfaces, raw collector findings, firewall state, port and
//! connection counts) and produces a prioritized assessment: enriched
//! findings, per-severity counts, a bounded risk index with a posture label,
//! a simplified compliance scorecard, and ranked remediation advice.
//!
//! All scores are fixed-point integers so that every computation is exact:
//! CVSS scores are tenths of a point, the risk index is hundredths of a
//! point, and compliance scores are whole percentages.

pub mod analysis;
pub mod models;
pub mod reporter;
pub mod scoring;
pub mod strfmt;
