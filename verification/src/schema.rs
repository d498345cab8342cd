//! The data shapes the server exchanges: operation payloads, argument
//! records, health reports, and the typed errors, each with its
//! mathematical view.

use vstd::prelude::*;

verus! {

/// Metadata describing the server and the freshness of the resume.
#[derive(Clone, Debug)]
pub struct Metadata {
    pub mcp_version: String,
    pub mcp_website: String,
    pub resume_last_updated: String,
}

#[verifier::ext_equal]
pub struct MetadataView {
    pub mcp_version: Seq<char>,
    pub mcp_website: Seq<char>,
    pub resume_last_updated: Seq<char>,
}

impl View for Metadata {
    type V = MetadataView;

    open spec fn view(&self) -> MetadataView {
        MetadataView {
            mcp_version: self.mcp_version@,
            mcp_website: self.mcp_website@,
            resume_last_updated: self.resume_last_updated@,
        }
    }
}

/// Availability and size of one registered resource, as the health check
/// reports it.
#[derive(Clone, Copy, Debug, PartialEq, Eq, Structural)]
pub struct ResourceStatus {
    pub available: bool,
    pub size_bytes: usize,
}

/// The health check's full report.
#[derive(Clone, Debug)]
pub struct HealthCheckResponse {
    pub status: String,
    pub version: String,
    pub resources: Vec<(String, ResourceStatus)>,
}

#[verifier::ext_equal]
pub struct HealthCheckView {
    pub status: Seq<char>,
    pub version: Seq<char>,
    pub resources: Seq<(Seq<char>, ResourceStatus)>,
}

impl View for HealthCheckResponse {
    type V = HealthCheckView;

    open spec fn view(&self) -> HealthCheckView {
        HealthCheckView {
            status: self.status@,
            version: self.version@,
            resources: Seq::new(
                self.resources@.len(),
                |i: int| (self.resources@[i].0@, self.resources@[i].1),
            ),
        }
    }
}

/// The argument record of the search operation.
#[derive(Clone, Debug)]
pub struct SearchQuery {
    pub query: String,
}

/// Arguments of the role-summary prompt.
#[derive(Clone, Debug)]
pub struct SummarizeForRoleArgs {
    pub role: String,
}

/// Arguments of the job-comparison prompt.
#[derive(Clone, Debug)]
pub struct CompareToJobArgs {
    pub job_description: String,
}

/// Arguments of the interview-preparation prompt; the company is
/// optional.
#[derive(Clone, Debug)]
pub struct InterviewPrepArgs {
    pub role: String,
    pub company: Option<String>,
}

/// Arguments of the project deep-dive prompt.
#[derive(Clone, Debug)]
pub struct ProjectDeepDiveArgs {
    pub project_name: String,
}

/// What a prompt template produces: a short description and the directive
/// message itself.
#[derive(Clone, Debug)]
pub struct PromptResult {
    pub description: String,
    pub message: String,
}

#[verifier::ext_equal]
pub struct PromptResultView {
    pub description: Seq<char>,
    pub message: Seq<char>,
}

impl View for PromptResult {
    type V = PromptResultView;

    open spec fn view(&self) -> PromptResultView {
        PromptResultView { description: self.description@, message: self.message@ }
    }
}

/// The successful payload of an invoked operation.
#[derive(Clone, Debug)]
pub enum Payload {
    /// Verbatim document text or a formatted report.
    Text(String),
    /// The server metadata record.
    Meta(Metadata),
    /// The health check report.
    Health(HealthCheckResponse),
    /// A list of resource names.
    Names(Vec<String>),
}

#[verifier::ext_equal]
pub enum PayloadView {
    Text(Seq<char>),
    Meta(MetadataView),
    Health(HealthCheckView),
    Names(Seq<Seq<char>>),
}

impl View for Payload {
    type V = PayloadView;

    open spec fn view(&self) -> PayloadView {
        match self {
            Payload::Text(s) => PayloadView::Text(s@),
            Payload::Meta(m) => PayloadView::Meta(m@),
            Payload::Health(h) => PayloadView::Health(h@),
            Payload::Names(ns) => PayloadView::Names(ns.deep_view()),
        }
    }
}

/// The typed per-call errors. None of them terminates the server; each
/// carries the offending name for the caller's diagnostics.
#[derive(Clone, Debug)]
pub enum InvokeError {
    /// The requested name is not in the registry.
    UnknownCapability(String),
    /// Required arguments were missing; their names are listed.
    InvalidArguments(Vec<String>),
    /// The requested resource identifier is not in the known set.
    ResourceNotFound(String),
}

#[verifier::ext_equal]
pub enum InvokeErrorView {
    UnknownCapability(Seq<char>),
    InvalidArguments(Seq<Seq<char>>),
    ResourceNotFound(Seq<char>),
}

impl View for InvokeError {
    type V = InvokeErrorView;

    open spec fn view(&self) -> InvokeErrorView {
        match self {
            InvokeError::UnknownCapability(n) => InvokeErrorView::UnknownCapability(n@),
            InvokeError::InvalidArguments(ns) => InvokeErrorView::InvalidArguments(ns.deep_view()),
            InvokeError::ResourceNotFound(u) => InvokeErrorView::ResourceNotFound(u@),
        }
    }
}

/// The content a resource identifier resolves to.
#[derive(Clone, Debug)]
pub enum ResourceContent {
    /// Plain UTF-8 text.
    Text(String),
    /// The PDF document, base64-encoded, to be delivered as
    /// `application/pdf`.
    PdfBase64(String),
}

#[verifier::ext_equal]
pub enum ResourceContentView {
    Text(Seq<char>),
    Pdf(Seq<char>),
}

impl View for ResourceContent {
    type V = ResourceContentView;

    open spec fn view(&self) -> ResourceContentView {
        match self {
            ResourceContent::Text(s) => ResourceContentView::Text(s@),
            ResourceContent::PdfBase64(s) => ResourceContentView::Pdf(s@),
        }
    }
}

} // verus!
