use base64::Engine;
use larkin_mcp::registry::{list_operations, list_prompts, list_resources};
use larkin_mcp::schema::{InvokeError, Payload, ResourceContent};
use larkin_mcp::server::LarkinServer;
use larkin_mcp::store::ContentStore;

fn sample_pdf() -> Vec<u8> {
    let mut bytes = b"%PDF-1.4 sample binary ".to_vec();
    bytes.extend([0u8, 255, 17, 128, 3, 9, 250]);
    bytes
}

fn sample_store() -> ContentStore {
    ContentStore::new(
        "Resume body".to_string(),
        "Bio body".to_string(),
        "Projects body".to_string(),
        "Contact body".to_string(),
        "Skills body".to_string(),
        "Work body".to_string(),
        "Tennis body".to_string(),
        sample_pdf(),
    )
}

fn no_args() -> Vec<(String, String)> {
    Vec::new()
}

#[test]
fn content_operations_return_stored_text_verbatim() {
    let server = LarkinServer::new(sample_store());
    assert_eq!(server.get_resume(), "Resume body");
    assert_eq!(server.get_bio(), "Bio body");
    assert_eq!(server.get_contact(), "Contact body");
    assert_eq!(server.get_projects(), "Projects body");
    assert_eq!(server.get_skills(), "Skills body");
    assert_eq!(server.get_work(), "Work body");
    assert_eq!(server.get_tennis_info(), "Tennis body");
}

#[test]
fn invoke_content_operation_round_trip() {
    let server = LarkinServer::new(sample_store());
    match server.invoke_operation("get_resume", &no_args()) {
        Ok(Payload::Text(t)) => assert_eq!(t, "Resume body"),
        other => panic!("unexpected outcome: {:?}", other),
    }
    match server.invoke_operation("get_tennis_info", &no_args()) {
        Ok(Payload::Text(t)) => assert_eq!(t, "Tennis body"),
        other => panic!("unexpected outcome: {:?}", other),
    }
}

#[test]
fn store_lookup_by_name() {
    let store = sample_store();
    assert_eq!(store.get_resource("resume").unwrap().as_str(), "Resume body");
    assert_eq!(store.get_resource("tennis").unwrap().as_str(), "Tennis body");
    assert!(store.get_resource("unknown").is_none());
}

#[test]
fn metadata_fields() {
    let server = LarkinServer::new(sample_store());
    let m = server.get_metadata();
    assert_eq!(m.mcp_version, "1.0.0");
    assert_eq!(m.mcp_website, "https://johnlarkin.dev");
    assert_eq!(m.resume_last_updated, "2025-01-15");
}

#[test]
fn health_reports_every_real_document_with_exact_size() {
    let server = LarkinServer::new(sample_store());
    let h = server.health_check();
    assert_eq!(h.status, "healthy");
    assert_eq!(h.version, "1.0.0");
    assert_eq!(h.resources.len(), 7);
    let expected = [
        ("resume", "Resume body"),
        ("bio", "Bio body"),
        ("projects", "Projects body"),
        ("contact", "Contact body"),
        ("skills", "Skills body"),
        ("work", "Work body"),
        ("tennis", "Tennis body"),
    ];
    for (i, (name, text)) in expected.iter().enumerate() {
        assert_eq!(h.resources[i].0, *name);
        assert!(h.resources[i].1.available);
        assert_eq!(h.resources[i].1.size_bytes, text.len());
    }
}

#[test]
fn health_flags_sentinel_documents_unavailable() {
    let store = ContentStore::new(
        "Resume body".to_string(),
        "Error loading bio".to_string(),
        "Resource 'projects' missing".to_string(),
        "Contact body".to_string(),
        "Skills body".to_string(),
        "Work body".to_string(),
        "Tennis body".to_string(),
        vec![1u8],
    );
    let server = LarkinServer::new(store);
    let h = server.health_check();
    assert!(h.resources[0].1.available);
    assert!(!h.resources[1].1.available);
    assert_eq!(h.resources[1].1.size_bytes, 0);
    assert!(!h.resources[2].1.available);
    assert_eq!(h.resources[2].1.size_bytes, 0);
}

#[test]
fn health_is_recomputed_identically_on_every_call() {
    let server = LarkinServer::new(sample_store());
    let h1 = server.health_check();
    let h2 = server.health_check();
    assert_eq!(h1.status, h2.status);
    assert_eq!(h1.version, h2.version);
    assert_eq!(h1.resources, h2.resources);
}

#[test]
fn pdf_resource_round_trips_through_base64() {
    let server = LarkinServer::new(sample_store());
    match server.read_resource("larkin://resume.pdf") {
        Ok(ResourceContent::PdfBase64(b64)) => {
            let decoded = base64::engine::general_purpose::STANDARD
                .decode(b64.as_bytes())
                .expect("valid base64");
            assert_eq!(decoded, sample_pdf());
        }
        other => panic!("unexpected outcome: {:?}", other),
    }
}

#[test]
fn text_resources_resolve_verbatim() {
    let server = LarkinServer::new(sample_store());
    match server.read_resource("larkin://resume") {
        Ok(ResourceContent::Text(t)) => assert_eq!(t, "Resume body"),
        other => panic!("unexpected outcome: {:?}", other),
    }
    match server.read_resource("config://version") {
        Ok(ResourceContent::Text(t)) => assert_eq!(t, "1.0.0"),
        other => panic!("unexpected outcome: {:?}", other),
    }
    match server.read_resource("config://resume-version") {
        Ok(ResourceContent::Text(t)) => assert_eq!(t, "2025-01-15"),
        other => panic!("unexpected outcome: {:?}", other),
    }
    match server.read_resource("larkin://work") {
        Ok(ResourceContent::Text(t)) => assert_eq!(t, "Work body"),
        other => panic!("unexpected outcome: {:?}", other),
    }
}

#[test]
fn unknown_resource_identifier_is_refused_with_the_identifier() {
    let server = LarkinServer::new(sample_store());
    match server.read_resource("larkin://nonsense") {
        Err(InvokeError::ResourceNotFound(uri)) => assert_eq!(uri, "larkin://nonsense"),
        other => panic!("unexpected outcome: {:?}", other),
    }
}

#[test]
fn unknown_operation_yields_unknown_capability() {
    let server = LarkinServer::new(sample_store());
    match server.invoke_operation("get_nonexistent", &no_args()) {
        Err(InvokeError::UnknownCapability(n)) => assert_eq!(n, "get_nonexistent"),
        other => panic!("unexpected outcome: {:?}", other),
    }
}

#[test]
fn search_without_query_argument_is_invalid() {
    let server = LarkinServer::new(sample_store());
    match server.invoke_operation("search_info", &no_args()) {
        Err(InvokeError::InvalidArguments(fields)) => {
            assert_eq!(fields, vec!["query".to_string()])
        }
        other => panic!("unexpected outcome: {:?}", other),
    }
}

#[test]
fn invoke_search_with_query_argument() {
    let server = LarkinServer::new(sample_store());
    let args = vec![("query".to_string(), "tennis".to_string())];
    match server.invoke_operation("search_info", &args) {
        Ok(Payload::Text(t)) => assert_eq!(t, "## Tennis\n  - Tennis body"),
        other => panic!("unexpected outcome: {:?}", other),
    }
}

#[test]
fn available_resources_lists_all_documents() {
    let server = LarkinServer::new(sample_store());
    let names = server.get_available_resources();
    assert_eq!(
        names,
        vec!["resume", "bio", "projects", "contact", "skills", "work", "tennis"]
    );
}

#[test]
fn listings_are_stable_across_calls() {
    let ops1 = list_operations();
    let ops2 = list_operations();
    assert_eq!(ops1.len(), 11);
    for (a, b) in ops1.iter().zip(ops2.iter()) {
        assert_eq!(a.name, b.name);
        assert_eq!(a.description, b.description);
        assert_eq!(a.args.len(), b.args.len());
    }
    let prompts1 = list_prompts();
    let prompts2 = list_prompts();
    assert_eq!(prompts1.len(), 4);
    for (a, b) in prompts1.iter().zip(prompts2.iter()) {
        assert_eq!(a.name, b.name);
        assert_eq!(a.description, b.description);
    }
    let res1 = list_resources();
    let res2 = list_resources();
    assert_eq!(res1, res2);
    assert_eq!(res1.len(), 10);
    assert_eq!(res1[0].0, "config://version");
    assert_eq!(res1[3].0, "larkin://resume.pdf");
    assert_eq!(res1[9], ("larkin://tennis".to_string(), "Get tennis info".to_string()));

    let server = LarkinServer::new(sample_store());
    assert_eq!(server.get_available_resources(), server.get_available_resources());
}

#[test]
fn operation_catalog_names_in_declared_order() {
    let ops = list_operations();
    let names: Vec<&str> = ops.iter().map(|d| d.name.as_str()).collect();
    assert_eq!(
        names,
        vec![
            "get_metadata",
            "get_resume",
            "get_bio",
            "get_contact",
            "get_projects",
            "get_skills",
            "get_work",
            "get_tennis_info",
            "get_available_resources",
            "search_info",
            "health_check",
        ]
    );
    assert_eq!(ops[9].args.len(), 1);
    assert_eq!(ops[9].args[0].name, "query");
    assert!(ops[9].args[0].required);
}
