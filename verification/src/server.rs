//! The server: the dispatcher that routes invoked operations and prompts
//! through the registry, resolves resource identifiers, and computes the
//! health report.

use vstd::prelude::*;
use vstd::string::*;
use crate::encode::{b64_encode, b64_of};
use crate::meta::{
    mcp_version, mcp_version_spec, mcp_website, mcp_website_spec, resume_version,
    resume_version_spec,
};
use crate::prompts::{
    compare_desc_spec, compare_msg_spec, compare_to_job, deep_dive_desc_spec, deep_dive_msg_spec,
    interview_desc_spec, interview_msg_spec, interview_prep, project_deep_dive, summarize_desc_spec,
    summarize_msg_spec, summarize_for_role,
};
use crate::registry::{
    arg_value, find_cap, find_capability, list_operations, list_prompts, lookup_arg, missing,
    missing_args, ops_catalog, prompts_catalog,
};
use crate::schema::{
    CompareToJobArgs, HealthCheckResponse, HealthCheckView, InterviewPrepArgs, InvokeError,
    InvokeErrorView, Metadata, MetadataView, Payload, PayloadView, ProjectDeepDiveArgs,
    PromptResult, PromptResultView, ResourceContent, ResourceContentView, ResourceStatus,
    SearchQuery, SummarizeForRoleArgs,
};
use crate::search::{format_results, search_output_spec};
use crate::store::{ContentStore, StoreView, doc_name, doc_text, store_wf};
use crate::text::{starts_with_spec, str_eq, str_starts_with};

verus! {

/// The server: the immutable content store behind the fixed capability
/// catalog.
pub struct LarkinServer {
    store: ContentStore,
}

impl View for LarkinServer {
    type V = StoreView;

    closed spec fn view(&self) -> StoreView {
        self.store@
    }
}

/// The metadata record every `get_metadata` call returns.
pub open spec fn metadata_spec() -> MetadataView {
    MetadataView {
        mcp_version: mcp_version_spec(),
        mcp_website: mcp_website_spec(),
        resume_last_updated: resume_version_spec(),
    }
}

/// The resource names `get_available_resources` returns, in declared
/// order.
pub open spec fn names_spec() -> Seq<Seq<char>> {
    seq!["resume"@, "bio"@, "projects"@, "contact"@, "skills"@, "work"@, "tennis"@]
}

/// The health record of one document: available unless its text begins
/// with a sentinel marker, with its byte size exactly when available.
pub open spec fn status_of(text: Seq<char>) -> ResourceStatus {
    if !starts_with_spec(text, "Resource '"@) && !starts_with_spec(text, "Error"@) {
        ResourceStatus {
            available: true,
            size_bytes: vstd::utf8::encode_utf8(text).len() as usize,
        }
    } else {
        ResourceStatus { available: false, size_bytes: 0 }
    }
}

/// The per-resource health entries, in declared document order.
pub open spec fn health_list(sv: StoreView) -> Seq<(Seq<char>, ResourceStatus)> {
    seq![
        ("resume"@, status_of(sv.resume)),
        ("bio"@, status_of(sv.bio)),
        ("projects"@, status_of(sv.projects)),
        ("contact"@, status_of(sv.contact)),
        ("skills"@, status_of(sv.skills)),
        ("work"@, status_of(sv.work)),
        ("tennis"@, status_of(sv.tennis)),
    ]
}

/// The full health report: a fixed healthy status, the version, and the
/// per-resource entries, recomputed on every call.
pub open spec fn health_spec(sv: StoreView) -> HealthCheckView {
    HealthCheckView {
        status: "healthy"@,
        version: mcp_version_spec(),
        resources: health_list(sv),
    }
}

/// What a resource identifier resolves to, or nothing for an identifier
/// outside the known set.
pub open spec fn read_resource_spec(sv: StoreView, uri: Seq<char>) -> Option<ResourceContentView> {
    if uri == "config://version"@ {
        Some(ResourceContentView::Text(mcp_version_spec()))
    } else if uri == "config://resume-version"@ {
        Some(ResourceContentView::Text(resume_version_spec()))
    } else if uri == "larkin://resume"@ {
        Some(ResourceContentView::Text(sv.resume))
    } else if uri == "larkin://resume.pdf"@ {
        Some(ResourceContentView::Pdf(b64_of(sv.resume_pdf)))
    } else if uri == "larkin://bio"@ {
        Some(ResourceContentView::Text(sv.bio))
    } else if uri == "larkin://projects"@ {
        Some(ResourceContentView::Text(sv.projects))
    } else if uri == "larkin://contact"@ {
        Some(ResourceContentView::Text(sv.contact))
    } else if uri == "larkin://skills"@ {
        Some(ResourceContentView::Text(sv.skills))
    } else if uri == "larkin://work"@ {
        Some(ResourceContentView::Text(sv.work))
    } else if uri == "larkin://tennis"@ {
        Some(ResourceContentView::Text(sv.tennis))
    } else {
        None
    }
}

/// The supplied value of an argument, or the empty text where it is
/// absent. Validation guarantees a required argument is present before
/// any handler reads it.
pub open spec fn arg_or_empty(args: Seq<(Seq<char>, Seq<char>)>, name: Seq<char>) -> Seq<char> {
    match arg_value(args, name) {
        Some(v) => v,
        None => Seq::empty(),
    }
}

/// The successful payload of each operation, for validated arguments.
pub open spec fn op_payload(
    sv: StoreView,
    name: Seq<char>,
    args: Seq<(Seq<char>, Seq<char>)>,
) -> PayloadView {
    if name == "get_metadata"@ {
        PayloadView::Meta(metadata_spec())
    } else if name == "get_resume"@ {
        PayloadView::Text(sv.resume)
    } else if name == "get_bio"@ {
        PayloadView::Text(sv.bio)
    } else if name == "get_contact"@ {
        PayloadView::Text(sv.contact)
    } else if name == "get_projects"@ {
        PayloadView::Text(sv.projects)
    } else if name == "get_skills"@ {
        PayloadView::Text(sv.skills)
    } else if name == "get_work"@ {
        PayloadView::Text(sv.work)
    } else if name == "get_tennis_info"@ {
        PayloadView::Text(sv.tennis)
    } else if name == "get_available_resources"@ {
        PayloadView::Names(names_spec())
    } else if name == "search_info"@ {
        PayloadView::Text(search_output_spec(sv, arg_or_empty(args, "query"@)))
    } else {
        PayloadView::Health(health_spec(sv))
    }
}

/// The outcome of invoking an operation: an unknown name is refused, a
/// known one has its arguments validated against the registry schema,
/// and only then does the handler run.
pub open spec fn invoke_op_spec(
    sv: StoreView,
    name: Seq<char>,
    args: Seq<(Seq<char>, Seq<char>)>,
) -> Result<PayloadView, InvokeErrorView> {
    match find_cap(ops_catalog(), name) {
        None => Err(InvokeErrorView::UnknownCapability(name)),
        Some(d) => {
            let miss = missing_args(d.args, args);
            if miss.len() > 0 {
                Err(InvokeErrorView::InvalidArguments(miss))
            } else {
                Ok(op_payload(sv, name, args))
            }
        },
    }
}

/// What each prompt template produces, for validated arguments.
pub open spec fn prompt_payload(
    name: Seq<char>,
    args: Seq<(Seq<char>, Seq<char>)>,
) -> PromptResultView {
    if name == "summarize_for_role"@ {
        PromptResultView {
            description: summarize_desc_spec(arg_or_empty(args, "role"@)),
            message: summarize_msg_spec(arg_or_empty(args, "role"@)),
        }
    } else if name == "compare_to_job"@ {
        PromptResultView {
            description: compare_desc_spec(),
            message: compare_msg_spec(arg_or_empty(args, "job_description"@)),
        }
    } else if name == "interview_prep"@ {
        PromptResultView {
            description: interview_desc_spec(
                arg_or_empty(args, "role"@),
                arg_value(args, "company"@),
            ),
            message: interview_msg_spec(arg_or_empty(args, "role"@), arg_value(args, "company"@)),
        }
    } else {
        PromptResultView {
            description: deep_dive_desc_spec(arg_or_empty(args, "project_name"@)),
            message: deep_dive_msg_spec(arg_or_empty(args, "project_name"@)),
        }
    }
}

/// The outcome of invoking a prompt template, under the same lookup and
/// validation as the operations.
pub open spec fn invoke_prompt_spec(
    name: Seq<char>,
    args: Seq<(Seq<char>, Seq<char>)>,
) -> Result<PromptResultView, InvokeErrorView> {
    match find_cap(prompts_catalog(), name) {
        None => Err(InvokeErrorView::UnknownCapability(name)),
        Some(d) => {
            let miss = missing_args(d.args, args);
            if miss.len() > 0 {
                Err(InvokeErrorView::InvalidArguments(miss))
            } else {
                Ok(prompt_payload(name, args))
            }
        },
    }
}

pub open spec fn op_outcome_view(r: Result<Payload, InvokeError>) -> Result<
    PayloadView,
    InvokeErrorView,
> {
    match r {
        Ok(p) => Ok(p@),
        Err(e) => Err(e@),
    }
}

pub open spec fn prompt_outcome_view(r: Result<PromptResult, InvokeError>) -> Result<
    PromptResultView,
    InvokeErrorView,
> {
    match r {
        Ok(p) => Ok(p@),
        Err(e) => Err(e@),
    }
}

/// The health record of one document's text.
fn doc_status(text: &str) -> (r: ResourceStatus)
    ensures
        r == status_of(text@),
{
    let s1 = str_starts_with(text, "Resource '");
    let s2 = str_starts_with(text, "Error");
    if !s1 && !s2 {
        ResourceStatus { available: true, size_bytes: text.len() }
    } else {
        ResourceStatus { available: false, size_bytes: 0 }
    }
}

impl LarkinServer {
    /// Stand the server up over a loaded store.
    pub fn new(store: ContentStore) -> (s: Self)
        ensures
            s@ == store@,
    {
        LarkinServer { store }
    }

    /// Metadata describing the server and the resume's freshness.
    pub fn get_metadata(&self) -> (r: Metadata)
        ensures
            r@ == metadata_spec(),
    {
        Metadata {
            mcp_version: mcp_version(),
            mcp_website: mcp_website(),
            resume_last_updated: resume_version(),
        }
    }

    /// The stored resume text, verbatim.
    pub fn get_resume(&self) -> (r: String)
        ensures
            r@ == self@.resume,
    {
        self.store.resume().clone()
    }

    /// The stored biography text, verbatim.
    pub fn get_bio(&self) -> (r: String)
        ensures
            r@ == self@.bio,
    {
        self.store.bio().clone()
    }

    /// The stored contact text, verbatim.
    pub fn get_contact(&self) -> (r: String)
        ensures
            r@ == self@.contact,
    {
        self.store.contact().clone()
    }

    /// The stored projects text, verbatim.
    pub fn get_projects(&self) -> (r: String)
        ensures
            r@ == self@.projects,
    {
        self.store.projects().clone()
    }

    /// The stored skills text, verbatim.
    pub fn get_skills(&self) -> (r: String)
        ensures
            r@ == self@.skills,
    {
        self.store.skills().clone()
    }

    /// The stored work-history text, verbatim.
    pub fn get_work(&self) -> (r: String)
        ensures
            r@ == self@.work,
    {
        self.store.work().clone()
    }

    /// The stored tennis text, verbatim.
    pub fn get_tennis_info(&self) -> (r: String)
        ensures
            r@ == self@.tennis,
    {
        self.store.tennis().clone()
    }

    /// The names of all content resources, in declared order.
    pub fn get_available_resources(&self) -> (r: Vec<String>)
        ensures
            r.deep_view() == names_spec(),
    {
        let mut r: Vec<String> = Vec::new();
        r.push(String::from_str("resume"));
        r.push(String::from_str("bio"));
        r.push(String::from_str("projects"));
        r.push(String::from_str("contact"));
        r.push(String::from_str("skills"));
        r.push(String::from_str("work"));
        r.push(String::from_str("tennis"));
        proof {
            assert(r.deep_view() =~= names_spec());
        }
        r
    }

    /// Search every document and format the report.
    pub fn search_info(&self, params: &SearchQuery) -> (r: String)
        ensures
            r@ == search_output_spec(self@, params.query@),
    {
        let results = self.store.search_resources(params.query.as_str());
        format_results(&results, params.query.as_str())
    }

    /// The health report, recomputed from the store on every call.
    pub fn health_check(&self) -> (r: HealthCheckResponse)
        ensures
            r@ == health_spec(self@),
    {
        let mut resources: Vec<(String, ResourceStatus)> = Vec::new();
        resources.push((String::from_str("resume"), doc_status(self.store.resume().as_str())));
        resources.push((String::from_str("bio"), doc_status(self.store.bio().as_str())));
        resources.push((String::from_str("projects"), doc_status(self.store.projects().as_str())));
        resources.push((String::from_str("contact"), doc_status(self.store.contact().as_str())));
        resources.push((String::from_str("skills"), doc_status(self.store.skills().as_str())));
        resources.push((String::from_str("work"), doc_status(self.store.work().as_str())));
        resources.push((String::from_str("tennis"), doc_status(self.store.tennis().as_str())));
        let r = HealthCheckResponse {
            status: String::from_str("healthy"),
            version: mcp_version(),
            resources,
        };
        proof {
            assert(r@.resources =~= health_list(self@));
            assert(r@ =~~= health_spec(self@));
        }
        r
    }

    /// Resolve a resource identifier: scalars from the build, documents
    /// from the store, the PDF as base64; anything else is refused with
    /// the identifier echoed back.
    pub fn read_resource(&self, uri: &str) -> (r: Result<ResourceContent, InvokeError>)
        requires
            store_wf(self@),
        ensures
            match r {
                Ok(c) => read_resource_spec(self@, uri@) == Some(c@),
                Err(e) => read_resource_spec(self@, uri@) is None && e@
                    == InvokeErrorView::ResourceNotFound(uri@),
            },
    {
        if str_eq(uri, "config://version") {
            Ok(ResourceContent::Text(mcp_version()))
        } else if str_eq(uri, "config://resume-version") {
            Ok(ResourceContent::Text(resume_version()))
        } else if str_eq(uri, "larkin://resume") {
            Ok(ResourceContent::Text(self.store.resume().clone()))
        } else if str_eq(uri, "larkin://resume.pdf") {
            Ok(ResourceContent::PdfBase64(b64_encode(self.store.resume_pdf())))
        } else if str_eq(uri, "larkin://bio") {
            Ok(ResourceContent::Text(self.store.bio().clone()))
        } else if str_eq(uri, "larkin://projects") {
            Ok(ResourceContent::Text(self.store.projects().clone()))
        } else if str_eq(uri, "larkin://contact") {
            Ok(ResourceContent::Text(self.store.contact().clone()))
        } else if str_eq(uri, "larkin://skills") {
            Ok(ResourceContent::Text(self.store.skills().clone()))
        } else if str_eq(uri, "larkin://work") {
            Ok(ResourceContent::Text(self.store.work().clone()))
        } else if str_eq(uri, "larkin://tennis") {
            Ok(ResourceContent::Text(self.store.tennis().clone()))
        } else {
            Err(InvokeError::ResourceNotFound(String::from_str(uri)))
        }
    }

    /// Invoke an operation by name: look it up, validate the supplied
    /// arguments against its schema, and run its handler.
    pub fn invoke_operation(&self, name: &str, args: &Vec<(String, String)>) -> (r: Result<
        Payload,
        InvokeError,
    >)
        ensures
            op_outcome_view(r) == invoke_op_spec(self@, name@, args.deep_view()),
    {
        let catalog = list_operations();
        let found = find_capability(&catalog, name);
        match found {
            None => Err(InvokeError::UnknownCapability(String::from_str(name))),
            Some(d) => {
                let miss = missing(&d.args, args);
                if miss.len() > 0 {
                    proof {
                        assert(miss.deep_view().len() == miss@.len());
                        assert(invoke_op_spec(self@, name@, args.deep_view())
                            == Err::<PayloadView, InvokeErrorView>(
                            InvokeErrorView::InvalidArguments(miss.deep_view()),
                        ));
                    }
                    Err(InvokeError::InvalidArguments(miss))
                } else {
                    proof {
                        assert(miss.deep_view().len() == miss@.len());
                        assert(find_cap(ops_catalog(), name@) == Some(d@));
                        assert(invoke_op_spec(self@, name@, args.deep_view())
                            == Ok::<PayloadView, InvokeErrorView>(
                            op_payload(self@, name@, args.deep_view()),
                        ));
                    }
                    if str_eq(name, "get_metadata") {
                        Ok(Payload::Meta(self.get_metadata()))
                    } else if str_eq(name, "get_resume") {
                        Ok(Payload::Text(self.get_resume()))
                    } else if str_eq(name, "get_bio") {
                        Ok(Payload::Text(self.get_bio()))
                    } else if str_eq(name, "get_contact") {
                        Ok(Payload::Text(self.get_contact()))
                    } else if str_eq(name, "get_projects") {
                        Ok(Payload::Text(self.get_projects()))
                    } else if str_eq(name, "get_skills") {
                        Ok(Payload::Text(self.get_skills()))
                    } else if str_eq(name, "get_work") {
                        Ok(Payload::Text(self.get_work()))
                    } else if str_eq(name, "get_tennis_info") {
                        Ok(Payload::Text(self.get_tennis_info()))
                    } else if str_eq(name, "get_available_resources") {
                        Ok(Payload::Names(self.get_available_resources()))
                    } else if str_eq(name, "search_info") {
                        match lookup_arg(args, "query") {
                            Some(q) => {
                                let params = SearchQuery { query: q.clone() };
                                Ok(Payload::Text(self.search_info(&params)))
                            },
                            None => {
                                let params = SearchQuery { query: String::new() };
                                Ok(Payload::Text(self.search_info(&params)))
                            },
                        }
                    } else {
                        Ok(Payload::Health(self.health_check()))
                    }
                }
            },
        }
    }

    /// Invoke a prompt template by name, under the same lookup and
    /// validation as the operations.
    pub fn invoke_prompt(&self, name: &str, args: &Vec<(String, String)>) -> (r: Result<
        PromptResult,
        InvokeError,
    >)
        ensures
            prompt_outcome_view(r) == invoke_prompt_spec(name@, args.deep_view()),
    {
        let catalog = list_prompts();
        let found = find_capability(&catalog, name);
        match found {
            None => Err(InvokeError::UnknownCapability(String::from_str(name))),
            Some(d) => {
                let miss = missing(&d.args, args);
                if miss.len() > 0 {
                    proof {
                        assert(miss.deep_view().len() == miss@.len());
                        assert(invoke_prompt_spec(name@, args.deep_view())
                            == Err::<PromptResultView, InvokeErrorView>(
                            InvokeErrorView::InvalidArguments(miss.deep_view()),
                        ));
                    }
                    Err(InvokeError::InvalidArguments(miss))
                } else {
                    proof {
                        assert(miss.deep_view().len() == miss@.len());
                        assert(find_cap(prompts_catalog(), name@) == Some(d@));
                        assert(invoke_prompt_spec(name@, args.deep_view())
                            == Ok::<PromptResultView, InvokeErrorView>(
                            prompt_payload(name@, args.deep_view()),
                        ));
                    }
                    if str_eq(name, "summarize_for_role") {
                        let role = match lookup_arg(args, "role") {
                            Some(v) => v.clone(),
                            None => String::new(),
                        };
                        Ok(summarize_for_role(&SummarizeForRoleArgs { role }))
                    } else if str_eq(name, "compare_to_job") {
                        let job_description = match lookup_arg(args, "job_description") {
                            Some(v) => v.clone(),
                            None => String::new(),
                        };
                        Ok(compare_to_job(&CompareToJobArgs { job_description }))
                    } else if str_eq(name, "interview_prep") {
                        let role = match lookup_arg(args, "role") {
                            Some(v) => v.clone(),
                            None => String::new(),
                        };
                        let company = match lookup_arg(args, "company") {
                            Some(v) => Some(v.clone()),
                            None => None,
                        };
                        Ok(interview_prep(&InterviewPrepArgs { role, company }))
                    } else {
                        let project_name = match lookup_arg(args, "project_name") {
                            Some(v) => v.clone(),
                            None => String::new(),
                        };
                        Ok(project_deep_dive(&ProjectDeepDiveArgs { project_name }))
                    }
                }
            },
        }
    }
}

/// Every registered content operation returns the stored text exactly,
/// unmodified: store, get and returned text are the same sequence.
pub proof fn lemma_content_ops_verbatim(sv: StoreView, args: Seq<(Seq<char>, Seq<char>)>)
    ensures
        op_payload(sv, "get_resume"@, args) == PayloadView::Text(sv.resume),
        op_payload(sv, "get_bio"@, args) == PayloadView::Text(sv.bio),
        op_payload(sv, "get_contact"@, args) == PayloadView::Text(sv.contact),
        op_payload(sv, "get_projects"@, args) == PayloadView::Text(sv.projects),
        op_payload(sv, "get_skills"@, args) == PayloadView::Text(sv.skills),
        op_payload(sv, "get_work"@, args) == PayloadView::Text(sv.work),
        op_payload(sv, "get_tennis_info"@, args) == PayloadView::Text(sv.tennis),
{
    reveal_strlit("get_metadata");
    reveal_strlit("get_resume");
    reveal_strlit("get_bio");
    reveal_strlit("get_contact");
    reveal_strlit("get_projects");
    reveal_strlit("get_skills");
    reveal_strlit("get_work");
    reveal_strlit("get_tennis_info");
    assert("get_metadata"@.len() == 12);
    assert("get_resume"@.len() == 10);
    assert("get_bio"@.len() == 7);
    assert("get_contact"@.len() == 11);
    assert("get_projects"@.len() == 12);
    assert("get_skills"@.len() == 10);
    assert("get_work"@.len() == 8);
    assert("get_tennis_info"@.len() == 15);
    assert("get_metadata"@[4] == 'm');
    assert("get_projects"@[4] == 'p');
    assert("get_resume"@[4] == 'r');
    assert("get_skills"@[4] == 's');
}

/// The same, through the dispatcher: the operations are registered, take
/// no arguments, and their invocation succeeds with the verbatim text.
pub proof fn lemma_invoke_content_ops(sv: StoreView, args: Seq<(Seq<char>, Seq<char>)>)
    ensures
        invoke_op_spec(sv, "get_resume"@, args) == Ok::<PayloadView, InvokeErrorView>(
            PayloadView::Text(sv.resume),
        ),
        invoke_op_spec(sv, "get_bio"@, args) == Ok::<PayloadView, InvokeErrorView>(
            PayloadView::Text(sv.bio),
        ),
        invoke_op_spec(sv, "get_contact"@, args) == Ok::<PayloadView, InvokeErrorView>(
            PayloadView::Text(sv.contact),
        ),
        invoke_op_spec(sv, "get_projects"@, args) == Ok::<PayloadView, InvokeErrorView>(
            PayloadView::Text(sv.projects),
        ),
        invoke_op_spec(sv, "get_skills"@, args) == Ok::<PayloadView, InvokeErrorView>(
            PayloadView::Text(sv.skills),
        ),
        invoke_op_spec(sv, "get_work"@, args) == Ok::<PayloadView, InvokeErrorView>(
            PayloadView::Text(sv.work),
        ),
        invoke_op_spec(sv, "get_tennis_info"@, args) == Ok::<PayloadView, InvokeErrorView>(
            PayloadView::Text(sv.tennis),
        ),
{
    lemma_content_ops_verbatim(sv, args);
    reveal_strlit("get_metadata");
    reveal_strlit("get_resume");
    reveal_strlit("get_bio");
    reveal_strlit("get_contact");
    reveal_strlit("get_projects");
    reveal_strlit("get_skills");
    reveal_strlit("get_work");
    reveal_strlit("get_tennis_info");
    assert("get_metadata"@.len() == 12);
    assert("get_resume"@.len() == 10);
    assert("get_bio"@.len() == 7);
    assert("get_contact"@.len() == 11);
    assert("get_projects"@.len() == 12);
    assert("get_skills"@.len() == 10);
    assert("get_work"@.len() == 8);
    assert("get_tennis_info"@.len() == 15);
    assert("get_metadata"@[4] == 'm');
    assert("get_projects"@[4] == 'p');
    assert("get_resume"@[4] == 'r');
    assert("get_skills"@[4] == 's');
    let cat = ops_catalog();
    crate::registry::lemma_find_cap_at(cat, "get_resume"@, 1);
    crate::registry::lemma_find_cap_at(cat, "get_bio"@, 2);
    crate::registry::lemma_find_cap_at(cat, "get_contact"@, 3);
    crate::registry::lemma_find_cap_at(cat, "get_projects"@, 4);
    crate::registry::lemma_find_cap_at(cat, "get_skills"@, 5);
    crate::registry::lemma_find_cap_at(cat, "get_work"@, 6);
    crate::registry::lemma_find_cap_at(cat, "get_tennis_info"@, 7);
    assert(missing_args(Seq::<crate::registry::ArgSpecView>::empty(), args) == Seq::<
        Seq<char>,
    >::empty());
}

/// Invoking a name outside the registered operation set yields
/// `UnknownCapability` carrying that name, for every store and every
/// argument list.
pub proof fn lemma_unknown_operation(
    sv: StoreView,
    name: Seq<char>,
    args: Seq<(Seq<char>, Seq<char>)>,
)
    requires
        forall|i: int|
            0 <= i < ops_catalog().len() ==> (#[trigger] ops_catalog()[i]).name != name,
    ensures
        invoke_op_spec(sv, name, args) == Err::<PayloadView, InvokeErrorView>(
            InvokeErrorView::UnknownCapability(name),
        ),
{
    crate::registry::lemma_find_cap_none(ops_catalog(), name);
}

/// The health check reports every real document — one whose text does
/// not begin with a sentinel marker — as available, with exactly its
/// byte length, on every call.
pub proof fn lemma_health_reports_real_documents(sv: StoreView, j: int)
    requires
        0 <= j < 7,
        !starts_with_spec(doc_text(sv, j), "Resource '"@),
        !starts_with_spec(doc_text(sv, j), "Error"@),
        vstd::utf8::encode_utf8(doc_text(sv, j)).len() <= usize::MAX,
    ensures
        health_list(sv).len() == 7,
        health_list(sv)[j].0 == doc_name(j),
        health_list(sv)[j].1.available == true,
        health_list(sv)[j].1.size_bytes == vstd::utf8::encode_utf8(doc_text(sv, j)).len(),
{
}

} // verus!
