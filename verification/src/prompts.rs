//! The prompt formatter: pure string templating. Each template
//! interpolates the caller's arguments into a fixed directive message;
//! the same arguments always produce the same text.

use vstd::prelude::*;
use vstd::string::*;
use crate::schema::{
    CompareToJobArgs, InterviewPrepArgs, ProjectDeepDiveArgs, PromptResult, SummarizeForRoleArgs,
};

verus! {

pub open spec fn summarize_msg_spec(role: Seq<char>) -> Seq<char> {
    "Based on John Larkin's background, create a concise 2-3 paragraph summary\nhighlighting why he would be a strong fit for a "@
        + role
        + " position.\n\nTo gather the necessary information, use these tools:\n- get_resume() - Full professional background\n- get_work() - Detailed employment history\n- get_projects() - Notable projects demonstrating expertise\n- get_skills() - Technical capabilities\n\nFocus on:\n1. Relevant experience from work history that aligns with the role\n2. Technical skills that match typical "@
        + role
        + " requirements\n3. Leadership experience or impact (if applicable)\n4. Notable projects that demonstrate relevant capabilities\n\nKeep the summary professional and tailored specifically for a "@
        + role + " position."@
}

pub open spec fn summarize_desc_spec(role: Seq<char>) -> Seq<char> {
    "Generate a tailored summary for a "@ + role + " position"@
}

pub open spec fn compare_msg_spec(job_description: Seq<char>) -> Seq<char> {
    "Analyze John Larkin's fit for the following job description:\n\n---\n"@ + job_description
        + "\n---\n\nUse these tools to gather information:\n- get_resume() - Full professional background\n- get_work() - Detailed employment history\n- get_skills() - Technical capabilities\n- get_projects() - Project portfolio\n\nPlease provide:\n1. **Matching Qualifications**: Skills and experience that directly match job requirements\n2. **Relevant Projects**: Projects that demonstrate applicable expertise\n3. **Potential Gaps**: Areas where additional context or experience might be needed\n4. **Unique Strengths**: Standout qualities that differentiate John from other candidates\n5. **Suggested Talking Points**: Key accomplishments to highlight in an interview\n\nFormat the analysis in clear sections with bullet points for easy scanning."@
}

pub open spec fn compare_desc_spec() -> Seq<char> {
    "Analyze fit against job description"@
}

/// The clause appended for a given company, and nothing at all when no
/// company was named.
pub open spec fn company_clause(company: Option<Seq<char>>) -> Seq<char> {
    match company {
        Some(c) => " at "@ + c,
        None => Seq::empty(),
    }
}

pub open spec fn interview_msg_spec(role: Seq<char>, company: Option<Seq<char>>) -> Seq<char> {
    "Help prepare John Larkin for an interview for a "@ + role + " position"@ + company_clause(
        company,
    )
        + ".\n\nUse these tools to understand John's background:\n- get_resume() - Full professional background\n- get_work() - Detailed employment history\n- get_projects() - Project portfolio\n- get_skills() - Technical capabilities\n\nGenerate:\n\n## Likely Interview Questions\nBased on John's experience and typical "@
        + role
        + " interviews, list 8-10 questions he's likely to face, categorized by:\n- Technical questions\n- Behavioral/situational questions\n- Experience-based questions\n- Questions about specific projects\n\n## Recommended Answers/Talking Points\nFor each question, suggest specific examples from John's background that would make strong answers.\n\n## Questions John Should Ask\nSuggest thoughtful questions John could ask the interviewer about the "@
        + role
        + " role.\n\n## Potential Weak Points to Prepare For\nIdentify any gaps or areas where John might need to prepare additional context."@
}

pub open spec fn interview_desc_spec(role: Seq<char>, company: Option<Seq<char>>) -> Seq<char> {
    "Interview prep for "@ + role + " role"@ + company_clause(company)
}

pub open spec fn deep_dive_msg_spec(project_name: Seq<char>) -> Seq<char> {
    "Provide a comprehensive overview of John Larkin's \""@ + project_name
        + "\" project.\n\nUse get_projects() and get_resume() to gather information.\n\nPlease include:\n1. **Project Overview**: What the project does and its purpose\n2. **Tech Stack**: Technologies and tools used\n3. **Key Features**: Main capabilities and functionality\n4. **Challenges & Solutions**: Technical challenges overcome\n5. **Impact & Results**: Outcomes and metrics (if available)\n6. **Relevance**: How this project demonstrates transferable skills\n\nIf the project isn't found, list available projects from get_projects() and suggest alternatives."@
}

pub open spec fn deep_dive_desc_spec(project_name: Seq<char>) -> Seq<char> {
    "Deep dive into "@ + project_name + " project"@
}

/// A message tailored to a role: which documents to read and what
/// summary to produce.
pub fn summarize_for_role(args: &SummarizeForRoleArgs) -> (r: PromptResult)
    ensures
        r@.description == summarize_desc_spec(args.role@),
        r@.message == summarize_msg_spec(args.role@),
{
    let mut m = String::from_str(
        "Based on John Larkin's background, create a concise 2-3 paragraph summary\nhighlighting why he would be a strong fit for a ",
    );
    m.append(args.role.as_str());
    m.append(
        " position.\n\nTo gather the necessary information, use these tools:\n- get_resume() - Full professional background\n- get_work() - Detailed employment history\n- get_projects() - Notable projects demonstrating expertise\n- get_skills() - Technical capabilities\n\nFocus on:\n1. Relevant experience from work history that aligns with the role\n2. Technical skills that match typical ",
    );
    m.append(args.role.as_str());
    m.append(
        " requirements\n3. Leadership experience or impact (if applicable)\n4. Notable projects that demonstrate relevant capabilities\n\nKeep the summary professional and tailored specifically for a ",
    );
    m.append(args.role.as_str());
    m.append(" position.");
    let mut d = String::from_str("Generate a tailored summary for a ");
    d.append(args.role.as_str());
    d.append(" position");
    PromptResult { description: d, message: m }
}

/// A message asking for an analysis of the fit against a job
/// description.
pub fn compare_to_job(args: &CompareToJobArgs) -> (r: PromptResult)
    ensures
        r@.description == compare_desc_spec(),
        r@.message == compare_msg_spec(args.job_description@),
{
    let mut m = String::from_str(
        "Analyze John Larkin's fit for the following job description:\n\n---\n",
    );
    m.append(args.job_description.as_str());
    m.append(
        "\n---\n\nUse these tools to gather information:\n- get_resume() - Full professional background\n- get_work() - Detailed employment history\n- get_skills() - Technical capabilities\n- get_projects() - Project portfolio\n\nPlease provide:\n1. **Matching Qualifications**: Skills and experience that directly match job requirements\n2. **Relevant Projects**: Projects that demonstrate applicable expertise\n3. **Potential Gaps**: Areas where additional context or experience might be needed\n4. **Unique Strengths**: Standout qualities that differentiate John from other candidates\n5. **Suggested Talking Points**: Key accomplishments to highlight in an interview\n\nFormat the analysis in clear sections with bullet points for easy scanning.",
    );
    let d = String::from_str("Analyze fit against job description");
    PromptResult { description: d, message: m }
}

/// A message preparing for an interview; the company clause appears only
/// when a company was named.
pub fn interview_prep(args: &InterviewPrepArgs) -> (r: PromptResult)
    ensures
        r@.description == interview_desc_spec(args.role@, args.company.deep_view()),
        r@.message == interview_msg_spec(args.role@, args.company.deep_view()),
{
    let mut cc = String::new();
    match &args.company {
        Some(c) => {
            cc.append(" at ");
            cc.append(c.as_str());
        },
        None => {},
    }
    proof {
        assert(cc@ == company_clause(args.company.deep_view()));
    }
    let mut m = String::from_str("Help prepare John Larkin for an interview for a ");
    m.append(args.role.as_str());
    m.append(" position");
    m.append(cc.as_str());
    m.append(
        ".\n\nUse these tools to understand John's background:\n- get_resume() - Full professional background\n- get_work() - Detailed employment history\n- get_projects() - Project portfolio\n- get_skills() - Technical capabilities\n\nGenerate:\n\n## Likely Interview Questions\nBased on John's experience and typical ",
    );
    m.append(args.role.as_str());
    m.append(
        " interviews, list 8-10 questions he's likely to face, categorized by:\n- Technical questions\n- Behavioral/situational questions\n- Experience-based questions\n- Questions about specific projects\n\n## Recommended Answers/Talking Points\nFor each question, suggest specific examples from John's background that would make strong answers.\n\n## Questions John Should Ask\nSuggest thoughtful questions John could ask the interviewer about the ",
    );
    m.append(args.role.as_str());
    m.append(
        " role.\n\n## Potential Weak Points to Prepare For\nIdentify any gaps or areas where John might need to prepare additional context.",
    );
    let mut d = String::from_str("Interview prep for ");
    d.append(args.role.as_str());
    d.append(" role");
    d.append(cc.as_str());
    PromptResult { description: d, message: m }
}

/// A message asking for a deep dive into one project.
pub fn project_deep_dive(args: &ProjectDeepDiveArgs) -> (r: PromptResult)
    ensures
        r@.description == deep_dive_desc_spec(args.project_name@),
        r@.message == deep_dive_msg_spec(args.project_name@),
{
    let mut m = String::from_str("Provide a comprehensive overview of John Larkin's \"");
    m.append(args.project_name.as_str());
    m.append(
        "\" project.\n\nUse get_projects() and get_resume() to gather information.\n\nPlease include:\n1. **Project Overview**: What the project does and its purpose\n2. **Tech Stack**: Technologies and tools used\n3. **Key Features**: Main capabilities and functionality\n4. **Challenges & Solutions**: Technical challenges overcome\n5. **Impact & Results**: Outcomes and metrics (if available)\n6. **Relevance**: How this project demonstrates transferable skills\n\nIf the project isn't found, list available projects from get_projects() and suggest alternatives.",
    );
    let mut d = String::from_str("Deep dive into ");
    d.append(args.project_name.as_str());
    d.append(" project");
    PromptResult { description: d, message: m }
}

/// Naming a company changes the prepared message in exactly one place:
/// it is the message without a company with a single " at <company>"
/// clause inserted after the role's position phrase.
pub proof fn lemma_interview_company_clause(role: Seq<char>, company: Seq<char>)
    ensures
        exists|a: Seq<char>, b: Seq<char>|
            interview_msg_spec(role, None) == #[trigger] (a + b) && interview_msg_spec(
                role,
                Some(company),
            ) == a + " at "@ + company + b,
{
    let a = "Help prepare John Larkin for an interview for a "@ + role + " position"@;
    let b =
        ".\n\nUse these tools to understand John's background:\n- get_resume() - Full professional background\n- get_work() - Detailed employment history\n- get_projects() - Project portfolio\n- get_skills() - Technical capabilities\n\nGenerate:\n\n## Likely Interview Questions\nBased on John's experience and typical "@
        + role
        + " interviews, list 8-10 questions he's likely to face, categorized by:\n- Technical questions\n- Behavioral/situational questions\n- Experience-based questions\n- Questions about specific projects\n\n## Recommended Answers/Talking Points\nFor each question, suggest specific examples from John's background that would make strong answers.\n\n## Questions John Should Ask\nSuggest thoughtful questions John could ask the interviewer about the "@
        + role
        + " role.\n\n## Potential Weak Points to Prepare For\nIdentify any gaps or areas where John might need to prepare additional context."@;
    assert(interview_msg_spec(role, None) =~= a + b);
    assert(interview_msg_spec(role, Some(company)) =~= a + " at "@ + company + b);
}

} // verus!
