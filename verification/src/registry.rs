//! The capability registry: the static metadata for every operation,
//! resource and prompt template, enumeration of it, and validation of
//! caller-supplied arguments against an argument schema.

use vstd::prelude::*;
use vstd::string::*;
use crate::text::str_eq;

verus! {

/// One field of an argument schema.
#[derive(Clone, Debug)]
pub struct ArgSpec {
    pub name: String,
    pub required: bool,
    pub doc: String,
}

#[verifier::ext_equal]
pub struct ArgSpecView {
    pub name: Seq<char>,
    pub required: bool,
    pub doc: Seq<char>,
}

impl View for ArgSpec {
    type V = ArgSpecView;

    open spec fn view(&self) -> ArgSpecView {
        ArgSpecView { name: self.name@, required: self.required, doc: self.doc@ }
    }
}

impl DeepView for ArgSpec {
    type V = ArgSpecView;

    open spec fn deep_view(&self) -> ArgSpecView {
        self@
    }
}

/// The registry's record of one capability: its name, a human
/// description, and its argument schema in declared order.
#[derive(Clone, Debug)]
pub struct CapabilityDescriptor {
    pub name: String,
    pub description: String,
    pub args: Vec<ArgSpec>,
}

#[verifier::ext_equal]
pub struct CapabilityView {
    pub name: Seq<char>,
    pub description: Seq<char>,
    pub args: Seq<ArgSpecView>,
}

impl View for CapabilityDescriptor {
    type V = CapabilityView;

    open spec fn view(&self) -> CapabilityView {
        CapabilityView {
            name: self.name@,
            description: self.description@,
            args: self.args.deep_view(),
        }
    }
}

impl DeepView for CapabilityDescriptor {
    type V = CapabilityView;

    open spec fn deep_view(&self) -> CapabilityView {
        self@
    }
}

pub open spec fn arg_view(name: Seq<char>, required: bool, doc: Seq<char>) -> ArgSpecView {
    ArgSpecView { name, required, doc }
}

pub open spec fn cap_view(name: Seq<char>, description: Seq<char>, args: Seq<ArgSpecView>) -> CapabilityView {
    CapabilityView { name, description, args }
}

/// The operations the server offers, in their declared order.
pub open spec fn ops_catalog() -> Seq<CapabilityView> {
    seq![
        cap_view(
            "get_metadata"@,
            "Return metadata describing the MCP server and resume freshness."@,
            Seq::empty(),
        ),
        cap_view("get_resume"@, "Return the full resume content as Markdown."@, Seq::empty()),
        cap_view("get_bio"@, "Return the extended biography content."@, Seq::empty()),
        cap_view("get_contact"@, "Return contact instructions for reaching John."@, Seq::empty()),
        cap_view(
            "get_projects"@,
            "Return the curated list of noteworthy projects."@,
            Seq::empty(),
        ),
        cap_view("get_skills"@, "Return the current skills overview."@, Seq::empty()),
        cap_view(
            "get_work"@,
            "Return detailed work experience and employment history."@,
            Seq::empty(),
        ),
        cap_view(
            "get_tennis_info"@,
            "Return collegiate tennis career information including awards and match records."@,
            Seq::empty(),
        ),
        cap_view(
            "get_available_resources"@,
            "Return identifiers for all available content resources."@,
            Seq::empty(),
        ),
        cap_view(
            "search_info"@,
            "Return a formatted summary of resources matching the query string."@,
            seq![arg_view("query"@, true, "The search query to find in resources"@)],
        ),
        cap_view(
            "health_check"@,
            "Return server health status and resource availability."@,
            Seq::empty(),
        ),
    ]
}

/// The prompt templates the server offers, in their declared order.
pub open spec fn prompts_catalog() -> Seq<CapabilityView> {
    seq![
        cap_view(
            "summarize_for_role"@,
            "Generate a tailored summary of John's background for a specific job role."@,
            seq![
                arg_view(
                    "role"@,
                    true,
                    "The job title or role to summarize for (e.g., 'Staff Engineer', 'Engineering Manager')"@,
                ),
            ],
        ),
        cap_view(
            "compare_to_job"@,
            "Analyze how John's background aligns with a specific job description."@,
            seq![
                arg_view(
                    "job_description"@,
                    true,
                    "The full job description text to compare against"@,
                ),
            ],
        ),
        cap_view(
            "interview_prep"@,
            "Generate likely interview questions and talking points for a role."@,
            seq![
                arg_view("role"@, true, "The job title/role being interviewed for"@),
                arg_view("company"@, false, "Optional company name for more targeted prep"@),
            ],
        ),
        cap_view(
            "project_deep_dive"@,
            "Get detailed information about a specific project."@,
            seq![arg_view("project_name"@, true, "The name of the project to explore"@)],
        ),
    ]
}

/// The resource identifiers the server advertises, each with its human
/// label, in their declared order.
pub open spec fn resources_catalog() -> Seq<(Seq<char>, Seq<char>)> {
    seq![
        ("config://version"@, "Get version"@),
        ("config://resume-version"@, "Get resume version"@),
        ("larkin://resume"@, "Get resume"@),
        ("larkin://resume.pdf"@, "Get resume pdf"@),
        ("larkin://bio"@, "Get bio"@),
        ("larkin://projects"@, "Get projects"@),
        ("larkin://contact"@, "Get contact"@),
        ("larkin://skills"@, "Get skills"@),
        ("larkin://work"@, "Get work"@),
        ("larkin://tennis"@, "Get tennis info"@),
    ]
}

/// Enumerating a fixed catalog is stable: any two results of the same
/// listing contract are the same sequence, in the same order.
pub proof fn lemma_operations_listing_stable(r1: Seq<CapabilityView>, r2: Seq<CapabilityView>)
    requires
        r1 == ops_catalog(),
        r2 == ops_catalog(),
    ensures
        r1 == r2,
{
}

/// As `lemma_operations_listing_stable`, for the prompt templates.
pub proof fn lemma_prompts_listing_stable(r1: Seq<CapabilityView>, r2: Seq<CapabilityView>)
    requires
        r1 == prompts_catalog(),
        r2 == prompts_catalog(),
    ensures
        r1 == r2,
{
}

/// As `lemma_operations_listing_stable`, for the resource identifiers.
pub proof fn lemma_resources_listing_stable(
    r1: Seq<(Seq<char>, Seq<char>)>,
    r2: Seq<(Seq<char>, Seq<char>)>,
)
    requires
        r1 == resources_catalog(),
        r2 == resources_catalog(),
    ensures
        r1 == r2,
{
}

fn arg(name: &str, required: bool, doc: &str) -> (a: ArgSpec)
    ensures
        a@ == arg_view(name@, required, doc@),
{
    ArgSpec { name: String::from_str(name), required, doc: String::from_str(doc) }
}

fn cap0(name: &str, description: &str) -> (d: CapabilityDescriptor)
    ensures
        d@ == cap_view(name@, description@, Seq::empty()),
{
    let d = CapabilityDescriptor {
        name: String::from_str(name),
        description: String::from_str(description),
        args: Vec::new(),
    };
    proof {
        assert(d.args.deep_view() =~= Seq::<ArgSpecView>::empty());
        assert(d@ =~~= cap_view(name@, description@, Seq::empty()));
    }
    d
}

fn cap1(name: &str, description: &str, a0: ArgSpec) -> (d: CapabilityDescriptor)
    ensures
        d@ == cap_view(name@, description@, seq![a0@]),
{
    let ghost a0v = a0@;
    let mut args: Vec<ArgSpec> = Vec::new();
    args.push(a0);
    let d = CapabilityDescriptor {
        name: String::from_str(name),
        description: String::from_str(description),
        args,
    };
    proof {
        assert(d.args.deep_view() =~= seq![a0v]);
        assert(d@ =~~= cap_view(name@, description@, seq![a0v]));
    }
    d
}

fn cap2(name: &str, description: &str, a0: ArgSpec, a1: ArgSpec) -> (d: CapabilityDescriptor)
    ensures
        d@ == cap_view(name@, description@, seq![a0@, a1@]),
{
    let ghost a0v = a0@;
    let ghost a1v = a1@;
    let mut args: Vec<ArgSpec> = Vec::new();
    args.push(a0);
    args.push(a1);
    let d = CapabilityDescriptor {
        name: String::from_str(name),
        description: String::from_str(description),
        args,
    };
    proof {
        assert(d.args.deep_view() =~= seq![a0v, a1v]);
        assert(d@ =~~= cap_view(name@, description@, seq![a0v, a1v]));
    }
    d
}

/// The operations listing, as advertised to a connecting peer.
pub fn list_operations() -> (r: Vec<CapabilityDescriptor>)
    ensures
        r.deep_view() == ops_catalog(),
{
    let mut r: Vec<CapabilityDescriptor> = Vec::new();
    r.push(cap0("get_metadata", "Return metadata describing the MCP server and resume freshness."));
    r.push(cap0("get_resume", "Return the full resume content as Markdown."));
    r.push(cap0("get_bio", "Return the extended biography content."));
    r.push(cap0("get_contact", "Return contact instructions for reaching John."));
    r.push(cap0("get_projects", "Return the curated list of noteworthy projects."));
    r.push(cap0("get_skills", "Return the current skills overview."));
    r.push(cap0("get_work", "Return detailed work experience and employment history."));
    r.push(
        cap0(
            "get_tennis_info",
            "Return collegiate tennis career information including awards and match records.",
        ),
    );
    r.push(
        cap0("get_available_resources", "Return identifiers for all available content resources."),
    );
    r.push(
        cap1(
            "search_info",
            "Return a formatted summary of resources matching the query string.",
            arg("query", true, "The search query to find in resources"),
        ),
    );
    r.push(cap0("health_check", "Return server health status and resource availability."));
    proof {
        assert(r.deep_view() =~~= ops_catalog());
    }
    r
}

/// The prompt-template listing, as advertised to a connecting peer.
pub fn list_prompts() -> (r: Vec<CapabilityDescriptor>)
    ensures
        r.deep_view() == prompts_catalog(),
{
    let mut r: Vec<CapabilityDescriptor> = Vec::new();
    r.push(
        cap1(
            "summarize_for_role",
            "Generate a tailored summary of John's background for a specific job role.",
            arg(
                "role",
                true,
                "The job title or role to summarize for (e.g., 'Staff Engineer', 'Engineering Manager')",
            ),
        ),
    );
    r.push(
        cap1(
            "compare_to_job",
            "Analyze how John's background aligns with a specific job description.",
            arg("job_description", true, "The full job description text to compare against"),
        ),
    );
    r.push(
        cap2(
            "interview_prep",
            "Generate likely interview questions and talking points for a role.",
            arg("role", true, "The job title/role being interviewed for"),
            arg("company", false, "Optional company name for more targeted prep"),
        ),
    );
    r.push(
        cap1(
            "project_deep_dive",
            "Get detailed information about a specific project.",
            arg("project_name", true, "The name of the project to explore"),
        ),
    );
    proof {
        assert(r.deep_view() =~~= prompts_catalog());
    }
    r
}

/// The resource listing: identifier and human label, in declared order.
pub fn list_resources() -> (r: Vec<(String, String)>)
    ensures
        r.deep_view() == resources_catalog(),
{
    let mut r: Vec<(String, String)> = Vec::new();
    r.push((String::from_str("config://version"), String::from_str("Get version")));
    r.push((String::from_str("config://resume-version"), String::from_str("Get resume version")));
    r.push((String::from_str("larkin://resume"), String::from_str("Get resume")));
    r.push((String::from_str("larkin://resume.pdf"), String::from_str("Get resume pdf")));
    r.push((String::from_str("larkin://bio"), String::from_str("Get bio")));
    r.push((String::from_str("larkin://projects"), String::from_str("Get projects")));
    r.push((String::from_str("larkin://contact"), String::from_str("Get contact")));
    r.push((String::from_str("larkin://skills"), String::from_str("Get skills")));
    r.push((String::from_str("larkin://work"), String::from_str("Get work")));
    r.push((String::from_str("larkin://tennis"), String::from_str("Get tennis info")));
    proof {
        assert(r.deep_view() =~~= resources_catalog());
    }
    r
}

/// The first capability of that name, if any.
pub open spec fn find_cap(cs: Seq<CapabilityView>, name: Seq<char>) -> Option<CapabilityView>
    decreases cs.len(),
{
    if cs.len() == 0 {
        None
    } else if cs[0].name == name {
        Some(cs[0])
    } else {
        find_cap(cs.drop_first(), name)
    }
}

proof fn lemma_find_cap_skip(cs: Seq<CapabilityView>, name: Seq<char>, i: int)
    requires
        0 <= i <= cs.len(),
        forall|k: int| 0 <= k < i ==> (#[trigger] cs[k]).name != name,
    ensures
        find_cap(cs, name) == find_cap(cs.skip(i), name),
    decreases i,
{
    if i > 0 {
        assert(cs[0].name != name);
        lemma_find_cap_skip(cs.drop_first(), name, i - 1);
        assert(cs.drop_first().skip(i - 1) =~= cs.skip(i));
    } else {
        assert(cs.skip(0) =~= cs);
    }
}

/// A name that no catalog entry carries is not found.
pub proof fn lemma_find_cap_none(cs: Seq<CapabilityView>, name: Seq<char>)
    requires
        forall|i: int| 0 <= i < cs.len() ==> (#[trigger] cs[i]).name != name,
    ensures
        find_cap(cs, name) is None,
{
    lemma_find_cap_skip(cs, name, cs.len() as int);
    assert(cs.skip(cs.len() as int) =~= Seq::<CapabilityView>::empty());
}

/// A name found at position `i`, with no earlier entry of that name, is
/// what the lookup returns.
pub proof fn lemma_find_cap_at(cs: Seq<CapabilityView>, name: Seq<char>, i: int)
    requires
        0 <= i < cs.len(),
        (#[trigger] cs[i]).name == name,
        forall|k: int| 0 <= k < i ==> (#[trigger] cs[k]).name != name,
    ensures
        find_cap(cs, name) == Some(cs[i]),
{
    lemma_find_cap_skip(cs, name, i);
    assert(cs.skip(i)[0] == cs[i]);
}

/// Look a name up in a capability list.
pub fn find_capability<'a>(cs: &'a Vec<CapabilityDescriptor>, name: &str) -> (r: Option<
    &'a CapabilityDescriptor,
>)
    ensures
        match r {
            Some(d) => find_cap(cs.deep_view(), name@) == Some(d@),
            None => find_cap(cs.deep_view(), name@) is None,
        },
{
    let ghost cd = cs.deep_view();
    let mut i: usize = 0;
    while i < cs.len()
        invariant
            cd == cs.deep_view(),
            cd.len() == cs@.len(),
            i <= cs@.len(),
            forall|k: int| 0 <= k < i ==> (#[trigger] cd[k]).name != name@,
        decreases cs@.len() - i,
    {
        if str_eq(cs[i].name.as_str(), name) {
            proof {
                assert(cd[i as int] == cs@[i as int]@);
                lemma_find_cap_skip(cd, name@, i as int);
                assert(cd.skip(i as int)[0] == cd[i as int]);
            }
            return Some(&cs[i]);
        }
        proof {
            assert(cd[i as int] == cs@[i as int]@);
        }
        i += 1;
    }
    proof {
        lemma_find_cap_skip(cd, name@, cd.len() as int);
        assert(cd.skip(cd.len() as int) =~= Seq::<CapabilityView>::empty());
    }
    None
}

/// Some supplied argument has this name.
pub open spec fn has_arg(args: Seq<(Seq<char>, Seq<char>)>, name: Seq<char>) -> bool {
    exists|i: int| 0 <= i < args.len() && (#[trigger] args[i]).0 == name
}

/// The value supplied under this name, from its first occurrence.
pub open spec fn arg_value(args: Seq<(Seq<char>, Seq<char>)>, name: Seq<char>) -> Option<Seq<char>>
    decreases args.len(),
{
    if args.len() == 0 {
        None
    } else if args[0].0 == name {
        Some(args[0].1)
    } else {
        arg_value(args.drop_first(), name)
    }
}

proof fn lemma_arg_value_skip(args: Seq<(Seq<char>, Seq<char>)>, name: Seq<char>, i: int)
    requires
        0 <= i <= args.len(),
        forall|k: int| 0 <= k < i ==> (#[trigger] args[k]).0 != name,
    ensures
        arg_value(args, name) == arg_value(args.skip(i), name),
    decreases i,
{
    if i > 0 {
        assert(args[0].0 != name);
        lemma_arg_value_skip(args.drop_first(), name, i - 1);
        assert(args.drop_first().skip(i - 1) =~= args.skip(i));
    } else {
        assert(args.skip(0) =~= args);
    }
}

/// The value supplied under `name`, if any.
pub fn lookup_arg<'a>(args: &'a Vec<(String, String)>, name: &str) -> (r: Option<&'a String>)
    ensures
        match r {
            Some(v) => arg_value(args.deep_view(), name@) == Some(v@),
            None => arg_value(args.deep_view(), name@) is None,
        },
{
    let ghost ad = args.deep_view();
    let mut i: usize = 0;
    while i < args.len()
        invariant
            ad == args.deep_view(),
            ad.len() == args@.len(),
            i <= args@.len(),
            forall|k: int| 0 <= k < i ==> (#[trigger] ad[k]).0 != name@,
        decreases args@.len() - i,
    {
        if str_eq(args[i].0.as_str(), name) {
            proof {
                assert(ad[i as int] == (args@[i as int].0@, args@[i as int].1@));
                lemma_arg_value_skip(ad, name@, i as int);
                assert(ad.skip(i as int)[0] == ad[i as int]);
            }
            return Some(&args[i].1);
        }
        proof {
            assert(ad[i as int] == (args@[i as int].0@, args@[i as int].1@));
        }
        i += 1;
    }
    proof {
        lemma_arg_value_skip(ad, name@, ad.len() as int);
        assert(ad.skip(ad.len() as int) =~= Seq::<(Seq<char>, Seq<char>)>::empty());
    }
    None
}

/// The names of required schema fields that the supplied arguments do not
/// contain, in schema order.
pub open spec fn missing_args(
    schema: Seq<ArgSpecView>,
    args: Seq<(Seq<char>, Seq<char>)>,
) -> Seq<Seq<char>>
    decreases schema.len(),
{
    if schema.len() == 0 {
        Seq::empty()
    } else {
        let rest = missing_args(schema.drop_first(), args);
        if schema[0].required && !has_arg(args, schema[0].name) {
            seq![schema[0].name] + rest
        } else {
            rest
        }
    }
}

fn has_arg_exec(args: &Vec<(String, String)>, name: &str) -> (r: bool)
    ensures
        r == has_arg(args.deep_view(), name@),
{
    let ghost ad = args.deep_view();
    let mut i: usize = 0;
    while i < args.len()
        invariant
            ad == args.deep_view(),
            ad.len() == args@.len(),
            i <= args@.len(),
            forall|k: int| 0 <= k < i ==> (#[trigger] ad[k]).0 != name@,
        decreases args@.len() - i,
    {
        if str_eq(args[i].0.as_str(), name) {
            proof {
                assert(ad[i as int] == (args@[i as int].0@, args@[i as int].1@));
                assert((ad[i as int]).0 == name@);
            }
            return true;
        }
        proof {
            assert(ad[i as int] == (args@[i as int].0@, args@[i as int].1@));
        }
        i += 1;
    }
    false
}

/// Validate supplied arguments against a schema: collect the names of
/// required fields that are missing.
pub fn missing(schema: &Vec<ArgSpec>, args: &Vec<(String, String)>) -> (r: Vec<String>)
    ensures
        r.deep_view() == missing_args(schema.deep_view(), args.deep_view()),
{
    let ghost sd = schema.deep_view();
    let ghost ad = args.deep_view();
    let mut r: Vec<String> = Vec::new();
    let mut i: usize = 0;
    proof {
        assert(sd.skip(0) =~= sd);
        assert(r.deep_view() =~= Seq::<Seq<char>>::empty());
        assert(missing_args(sd, ad) =~= r.deep_view() + missing_args(sd.skip(0), ad));
    }
    while i < schema.len()
        invariant
            sd == schema.deep_view(),
            ad == args.deep_view(),
            sd.len() == schema@.len(),
            i <= schema@.len(),
            missing_args(sd, ad) == r.deep_view() + missing_args(sd.skip(i as int), ad),
        decreases schema@.len() - i,
    {
        let ghost rest = sd.skip(i as int);
        let present = has_arg_exec(args, schema[i].name.as_str());
        proof {
            assert(sd[i as int] == schema@[i as int]@);
            assert(rest[0] == sd[i as int]);
            assert(rest.drop_first() =~= sd.skip(i + 1));
        }
        if schema[i].required && !present {
            let ghost before = r.deep_view();
            r.push(schema[i].name.clone());
            proof {
                assert(missing_args(rest, ad) == seq![rest[0].name] + missing_args(
                    rest.drop_first(),
                    ad,
                ));
                assert(r.deep_view() =~= before.push(sd[i as int].name));
                assert(r.deep_view() + missing_args(sd.skip(i + 1), ad) =~= before
                    + missing_args(rest, ad));
            }
        } else {
            proof {
                assert(missing_args(rest, ad) == missing_args(rest.drop_first(), ad));
            }
        }
        i += 1;
    }
    proof {
        assert(sd.skip(sd.len() as int) =~= Seq::<ArgSpecView>::empty());
        assert(r.deep_view() =~= r.deep_view() + missing_args(sd.skip(i as int), ad));
    }
    r
}

} // verus!
