use sidecar_supervisor::probe::{
    check_backend_health, check_ollama_status, is_success, model_names, name_of_entry,
    running_status, HealthStatus, ProbeOutcome, ServiceStatus, BACKEND_HEALTH_URL, INSTALL_HINT,
    OLLAMA_TAGS_URL, PROBE_TIMEOUT_SECS,
};

fn response(status: u16, body: &str) -> ProbeOutcome {
    ProbeOutcome::Response { status, body: Some(body.as_bytes().to_vec()) }
}

fn names(list: &[&str]) -> Vec<String> {
    list.iter().map(|s| s.to_string()).collect()
}

fn document(text: &str) -> serde_json::Value {
    serde_json::from_str(text).unwrap()
}

#[test]
fn ollama_lists_models_in_order() {
    let outcome = response(200, r#"{"models":[{"name":"llama2"},{"name":"mistral"}]}"#);
    let report = check_ollama_status(&outcome);
    assert_eq!(
        report,
        HealthStatus {
            status: ServiceStatus::Running,
            models: names(&["llama2", "mistral"]),
            help: None,
        }
    );
}

#[test]
fn ollama_connection_refused_gives_hint() {
    let report = check_ollama_status(&ProbeOutcome::ConnectionFailure);
    assert_eq!(report.status, ServiceStatus::NotRunning);
    assert!(report.models.is_empty());
    let help = report.help.expect("a hint is owed");
    assert!(!help.is_empty());
    assert_eq!(help, "Please install and start Ollama from https://ollama.ai");
    assert_eq!(help, INSTALL_HINT);
}

#[test]
fn ollama_empty_object_is_running_without_models() {
    let report = check_ollama_status(&response(200, "{}"));
    assert_eq!(
        report,
        HealthStatus { status: ServiceStatus::Running, models: Vec::new(), help: None }
    );
}

#[test]
fn ollama_error_status_is_not_running_without_hint() {
    for status in [100u16, 199, 300, 301, 404, 500, 503, 999] {
        let report =
            check_ollama_status(&response(status, r#"{"models":[{"name":"llama2"}]}"#));
        assert_eq!(
            report,
            HealthStatus { status: ServiceStatus::NotRunning, models: Vec::new(), help: None }
        );
    }
}

#[test]
fn ollama_every_success_status_counts() {
    for status in [200u16, 201, 204, 250, 299] {
        let report = check_ollama_status(&response(status, r#"{"models":[{"name":"phi"}]}"#));
        assert_eq!(report.status, ServiceStatus::Running);
        assert_eq!(report.models, names(&["phi"]));
        assert_eq!(report.help, None);
    }
}

#[test]
fn ollama_unreadable_body_is_running_without_models() {
    let report = check_ollama_status(&ProbeOutcome::Response { status: 200, body: None });
    assert_eq!(
        report,
        HealthStatus { status: ServiceStatus::Running, models: Vec::new(), help: None }
    );
}

#[test]
fn ollama_malformed_body_is_running_without_models() {
    for body in ["", "not json", "{", r#"{"models":[{"name":"a"}]"#, r#"{"models":[]} x"#] {
        let report = check_ollama_status(&response(200, body));
        assert_eq!(
            report,
            HealthStatus { status: ServiceStatus::Running, models: Vec::new(), help: None }
        );
    }
}

#[test]
fn ollama_body_that_is_not_utf8_is_running_without_models() {
    let outcome = ProbeOutcome::Response { status: 200, body: Some(vec![0xff, 0xfe, 0x7b]) };
    let report = check_ollama_status(&outcome);
    assert_eq!(report.status, ServiceStatus::Running);
    assert!(report.models.is_empty());
}

#[test]
fn ollama_models_that_is_no_array_counts_as_empty() {
    for body in [
        r#"{"models":"llama2"}"#,
        r#"{"models":{"name":"llama2"}}"#,
        r#"{"models":null}"#,
        r#"{"models":3}"#,
        r#"[{"name":"llama2"}]"#,
        r#""models""#,
        "null",
        r#"{"Models":[{"name":"llama2"}]}"#,
    ] {
        let report = check_ollama_status(&response(200, body));
        assert_eq!(report.status, ServiceStatus::Running);
        assert!(report.models.is_empty(), "models of {}", body);
    }
}

#[test]
fn ollama_entries_without_a_name_are_skipped() {
    let body = r#"{"models":[{"name":"a"},{"id":1},{"name":5},"x",{"name":null},
        ["name"],{"name":"b","size":7},{"Name":"c"},{"name":""}]}"#;
    let report = check_ollama_status(&response(200, body));
    assert_eq!(report.models, names(&["a", "b", ""]));
}

#[test]
fn ollama_keeps_duplicates_and_unicode() {
    let body = r#"{"models":[{"name":"zwei"},{"name":"zwei"},{"name":"modèle:7b"}]}"#;
    let report = check_ollama_status(&response(200, body));
    assert_eq!(report.models, names(&["zwei", "zwei", "modèle:7b"]));
}

#[test]
fn model_names_reads_a_document() {
    let doc = document(r#"{"models":[{"name":"llama2"},{"digest":"x"},{"name":"mistral"}]}"#);
    assert_eq!(model_names(&doc), names(&["llama2", "mistral"]));
    assert_eq!(model_names(&document("{}")), Vec::<String>::new());
    assert_eq!(model_names(&document("[]")), Vec::<String>::new());
    assert_eq!(model_names(&document(r#"{"models":[]}"#)), Vec::<String>::new());
}

#[test]
fn name_of_entry_reads_the_name_key() {
    assert_eq!(name_of_entry(&document(r#"{"name":"llama2"}"#)), Some("llama2".to_string()));
    assert_eq!(name_of_entry(&document(r#"{"name":7}"#)), None);
    assert_eq!(name_of_entry(&document(r#"{"title":"llama2"}"#)), None);
    assert_eq!(name_of_entry(&document(r#""name""#)), None);
    assert_eq!(name_of_entry(&document(r#"["name"]"#)), None);
}

#[test]
fn running_status_of_a_parsed_document() {
    let doc = document(r#"{"models":[{"name":"llama2"}]}"#);
    assert_eq!(
        running_status(Some(&doc)),
        HealthStatus { status: ServiceStatus::Running, models: names(&["llama2"]), help: None }
    );
    assert_eq!(
        running_status(None),
        HealthStatus { status: ServiceStatus::Running, models: Vec::new(), help: None }
    );
}

#[test]
fn backend_health_is_true_for_success_only() {
    assert!(check_backend_health(&ProbeOutcome::Response { status: 200, body: None }));
    assert!(check_backend_health(&response(200, "ok")));
    assert!(check_backend_health(&ProbeOutcome::Response { status: 204, body: None }));
    assert!(check_backend_health(&ProbeOutcome::Response { status: 299, body: None }));
    for status in [100u16, 199, 300, 302, 400, 404, 500, 503] {
        assert!(!check_backend_health(&ProbeOutcome::Response { status, body: None }));
    }
}

#[test]
fn backend_health_is_false_without_a_response() {
    assert!(!check_backend_health(&ProbeOutcome::ConnectionFailure));
}

#[test]
fn backend_health_agrees_with_the_status_range_everywhere() {
    for status in 0u16..=1000 {
        let expected = (200..300).contains(&status);
        assert_eq!(is_success(status), expected);
        assert_eq!(
            check_backend_health(&ProbeOutcome::Response { status, body: None }),
            expected
        );
    }
}

#[test]
fn status_tags() {
    assert_eq!(ServiceStatus::Running.tag(), "running");
    assert_eq!(ServiceStatus::NotRunning.tag(), "not_running");
}

#[test]
fn probe_requests_are_fixed() {
    assert_eq!(OLLAMA_TAGS_URL, "http://localhost:11434/api/tags");
    assert_eq!(BACKEND_HEALTH_URL, "http://localhost:8000/health");
    assert_eq!(PROBE_TIMEOUT_SECS, 5);
}

#[test]
fn probes_do_not_depend_on_each_other() {
    let first = check_ollama_status(&response(200, r#"{"models":[{"name":"a"}]}"#));
    let healthy = check_backend_health(&ProbeOutcome::ConnectionFailure);
    let second = check_ollama_status(&response(200, r#"{"models":[{"name":"a"}]}"#));
    assert!(!healthy);
    assert_eq!(first, second);
}
