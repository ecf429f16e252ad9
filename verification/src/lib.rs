//! Dependency-compliance policy engine: given resolved package identities and
//! license-provenance records, it decides per package whether the declared
//! license and quality score satisfy a caller-supplied policy, and computes the
//! cells of a Text, CSV or Markdown report.

pub mod outcome;
pub mod text;
pub mod data;
pub mod checks;
pub mod eval;
pub mod sort;
pub mod report;
