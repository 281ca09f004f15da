//! Choosing how a report is produced.

use vstd::prelude::*;

verus! {

/// The report layouts.
#[derive(Debug, Clone, Copy, PartialEq, Eq, Structural)]
pub enum ReportTemplate {
    QuickSummary,
    Detailed,
    PrePostComparison,
}

/// The report output formats.
#[derive(Debug, Clone, Copy, PartialEq, Eq, Structural)]
pub enum ReportFormat {
    Html,
    Pdf,
}

/// Errors of report generation.
#[derive(Debug, Clone)]
pub enum ReportError {
    MissingComparison,
    PdfGenError(String),
}

/// How a report is to be rendered.
#[derive(Debug, Clone, Copy, PartialEq, Eq, Structural)]
pub enum ReportRoute {
    /// An HTML page in the given layout.
    Html(ReportTemplate),
    /// A PDF document (one layout for every template).
    Pdf,
}

/// Produces calibration reports.
pub struct ReportEngine;

impl ReportEngine {
    /// Decides how to render a report: PDF for the PDF format; otherwise an
    /// HTML page in the requested layout, where the comparison layout needs
    /// a second session to compare with.
    pub fn route(template: ReportTemplate, format: ReportFormat, has_comparison: bool) -> (r:
        Result<ReportRoute, ReportError>)
        ensures
            format == ReportFormat::Pdf ==> (r matches Ok(ReportRoute::Pdf)),
            format == ReportFormat::Html && (template != ReportTemplate::PrePostComparison
                || has_comparison) ==> (r matches Ok(ReportRoute::Html(t)) && t == template),
            format == ReportFormat::Html && template == ReportTemplate::PrePostComparison
                && !has_comparison ==> (r matches Err(ReportError::MissingComparison)),
    {
        match format {
            ReportFormat::Pdf => Ok(ReportRoute::Pdf),
            ReportFormat::Html => match template {
                ReportTemplate::PrePostComparison => {
                    if has_comparison {
                        Ok(ReportRoute::Html(ReportTemplate::PrePostComparison))
                    } else {
                        Err(ReportError::MissingComparison)
                    }
                },
                _ => Ok(ReportRoute::Html(template)),
            },
        }
    }
}

} // verus!
