use larkin_mcp::prompts::{compare_to_job, interview_prep, project_deep_dive, summarize_for_role};
use larkin_mcp::schema::{
    CompareToJobArgs, InterviewPrepArgs, InvokeError, ProjectDeepDiveArgs, SummarizeForRoleArgs,
};
use larkin_mcp::server::LarkinServer;
use larkin_mcp::store::ContentStore;

fn count_occurrences(haystack: &str, needle: &str) -> usize {
    let mut count = 0;
    let mut rest = haystack;
    while let Some(pos) = rest.find(needle) {
        count += 1;
        rest = &rest[pos + needle.len()..];
    }
    count
}

fn sample_server() -> LarkinServer {
    LarkinServer::new(ContentStore::new(
        "r".to_string(),
        "b".to_string(),
        "p".to_string(),
        "c".to_string(),
        "s".to_string(),
        "w".to_string(),
        "t".to_string(),
        vec![0u8],
    ))
}

#[test]
fn summarize_interpolates_the_role() {
    let r = summarize_for_role(&SummarizeForRoleArgs { role: "Staff Engineer".to_string() });
    assert_eq!(r.description, "Generate a tailored summary for a Staff Engineer position");
    assert_eq!(count_occurrences(&r.message, "Staff Engineer"), 3);
    assert!(r.message.starts_with("Based on John Larkin's background"));
    assert!(r.message.ends_with("tailored specifically for a Staff Engineer position."));
}

#[test]
fn compare_embeds_the_job_description() {
    let r = compare_to_job(&CompareToJobArgs {
        job_description: "Own the data platform.".to_string(),
    });
    assert_eq!(r.description, "Analyze fit against job description");
    assert!(r.message.contains("---\nOwn the data platform.\n---"));
}

#[test]
fn interview_prep_without_company_has_no_stray_placeholder() {
    let r = interview_prep(&InterviewPrepArgs { role: "Backend Engineer".to_string(), company: None });
    assert_eq!(r.description, "Interview prep for Backend Engineer role");
    assert!(r.message.contains("for a Backend Engineer position.\n"));
    assert!(!r.message.contains("None"));
    assert!(!r.message.contains(" at "));
    assert_eq!(count_occurrences(&r.message, "Backend Engineer"), 3);
}

#[test]
fn interview_prep_with_company_inserts_exactly_one_clause() {
    let with = interview_prep(&InterviewPrepArgs {
        role: "Backend Engineer".to_string(),
        company: Some("Acme".to_string()),
    });
    let without =
        interview_prep(&InterviewPrepArgs { role: "Backend Engineer".to_string(), company: None });
    assert_eq!(count_occurrences(&with.message, " at Acme"), 1);
    assert!(with.message.contains("for a Backend Engineer position at Acme.\n"));
    assert_eq!(with.description, "Interview prep for Backend Engineer role at Acme");
    // the message with a company is the message without one, plus the single clause
    assert_eq!(with.message.replace(" at Acme", ""), without.message);
}

#[test]
fn deep_dive_quotes_the_project_name() {
    let r = project_deep_dive(&ProjectDeepDiveArgs { project_name: "Verus Lab".to_string() });
    assert_eq!(r.description, "Deep dive into Verus Lab project");
    assert!(r.message.contains("\"Verus Lab\" project"));
}

#[test]
fn invoke_prompt_with_arguments() {
    let server = sample_server();
    let args = vec![("role".to_string(), "SRE".to_string())];
    match server.invoke_prompt("summarize_for_role", &args) {
        Ok(r) => assert_eq!(r.description, "Generate a tailored summary for a SRE position"),
        other => panic!("unexpected outcome: {:?}", other),
    }
}

#[test]
fn invoke_prompt_optional_company() {
    let server = sample_server();
    let args = vec![
        ("role".to_string(), "SRE".to_string()),
        ("company".to_string(), "Acme".to_string()),
    ];
    match server.invoke_prompt("interview_prep", &args) {
        Ok(r) => assert_eq!(r.description, "Interview prep for SRE role at Acme"),
        other => panic!("unexpected outcome: {:?}", other),
    }
    let args_no_company = vec![("role".to_string(), "SRE".to_string())];
    match server.invoke_prompt("interview_prep", &args_no_company) {
        Ok(r) => assert_eq!(r.description, "Interview prep for SRE role"),
        other => panic!("unexpected outcome: {:?}", other),
    }
}

#[test]
fn invoke_prompt_missing_required_argument() {
    let server = sample_server();
    match server.invoke_prompt("project_deep_dive", &Vec::new()) {
        Err(InvokeError::InvalidArguments(fields)) => {
            assert_eq!(fields, vec!["project_name".to_string()])
        }
        other => panic!("unexpected outcome: {:?}", other),
    }
}

#[test]
fn invoke_prompt_unknown_name() {
    let server = sample_server();
    match server.invoke_prompt("write_poem", &Vec::new()) {
        Err(InvokeError::UnknownCapability(n)) => assert_eq!(n, "write_poem"),
        other => panic!("unexpected outcome: {:?}", other),
    }
}

#[test]
fn prompts_are_deterministic() {
    let a = summarize_for_role(&SummarizeForRoleArgs { role: "PM".to_string() });
    let b = summarize_for_role(&SummarizeForRoleArgs { role: "PM".to_string() });
    assert_eq!(a.message, b.message);
    assert_eq!(a.description, b.description);
}
