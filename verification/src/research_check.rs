//! Options of the research-check service: what to check, how to summarise, how to cite.

use vstd::prelude::*;

verus! {

/// What the research-check service is asked to do.
#[derive(Debug, Clone, Copy, PartialEq, Eq, Structural)]
pub enum ResearchCheckType {
    ResearchCheck,
    GenerateArticle,
    GetInfo,
}

impl Default for ResearchCheckType {
    fn default() -> (r: Self)
        ensures
            r == ResearchCheckType::ResearchCheck,
    {
        ResearchCheckType::ResearchCheck
    }
}

/// Depth of the summary asked for.
#[derive(Debug, Clone, Copy, PartialEq, Eq, Structural)]
pub enum ResearchCheckSummaryType {
    Basic,
    Advanced,
}

impl Default for ResearchCheckSummaryType {
    fn default() -> (r: Self)
        ensures
            r == ResearchCheckSummaryType::Basic,
    {
        ResearchCheckSummaryType::Basic
    }
}

/// Focus of an advanced summary.
#[derive(Debug, Clone, Copy, PartialEq, Eq, Structural)]
pub enum ResearchCheckAdvancedMethod {
    Weight,
    Method,
    Result,
    Limitation,
    Finding,
    Data,
}

impl Default for ResearchCheckAdvancedMethod {
    fn default() -> (r: Self)
        ensures
            r == ResearchCheckAdvancedMethod::Weight,
    {
        ResearchCheckAdvancedMethod::Weight
    }
}

/// Citation style of a generated article.
#[derive(Debug, Clone, Copy, PartialEq, Eq, Structural)]
pub enum ResearchCheckCitationFormat {
    APA,
    Chicago,
    CSE,
    AIP,
    ACS,
    IEEE,
}

impl Default for ResearchCheckCitationFormat {
    fn default() -> (r: Self)
        ensures
            r == ResearchCheckCitationFormat::APA,
    {
        ResearchCheckCitationFormat::APA
    }
}

} // verus!
