use golem_cli::api::{response_outcome, Method, RequestBody};
use golem_cli::examples::{builtin_catalog, list_examples, process_new, GuestLanguage};
use golem_cli::model::{
    error_message, worker_status_of, Format, GolemError, GolemResult, InvocationKey, Renderable,
    Template, TemplateId, TemplateName, Worker, WorkerName, WorkerStatus,
};
use golem_cli::render::render;
use golem_cli::template::{
    resolve_template_name, resolve_with_cache, template_add_request, template_list_request,
    template_update_request, NameCache,
};
use golem_cli::worker::{
    invocation_key_request, invoke_and_await_request, prepare_parameters, CallingConvention,
};

fn template(id: &str, name: &str, version: u64) -> Template {
    Template {
        id: TemplateId { value: id.to_string() },
        name: TemplateName { value: name.to_string() },
        version,
    }
}

#[test]
fn rendering_empty_template_list_as_json_gives_empty_array() {
    let out = render(
        &GolemResult::Json(serde_json::Value::Array(vec![])),
        Format::Json,
    );
    assert_eq!(out, "[]");
}

#[test]
fn json_render_round_trips() {
    let mut obj = serde_json::Map::new();
    obj.insert("a".to_string(), serde_json::Value::from(1));
    obj.insert(
        "b".to_string(),
        serde_json::Value::Array(vec![serde_json::Value::from(2), serde_json::Value::from(3)]),
    );
    let v = serde_json::Value::Object(obj);
    let out = render(&GolemResult::Json(v.clone()), Format::Json);
    let parsed: serde_json::Value = serde_json::from_str(&out).expect("output parses");
    assert_eq!(parsed, v);
}

#[test]
fn json_value_renders_as_yaml_otherwise() {
    let v = serde_json::Value::Array(vec![serde_json::Value::from(1), serde_json::Value::from(2)]);
    let out = render(&GolemResult::Json(v.clone()), Format::Yaml);
    assert_eq!(out, serde_yaml::to_string(&v).unwrap());
    let text_out = render(&GolemResult::Json(v.clone()), Format::Text);
    assert_eq!(text_out, serde_yaml::to_string(&v).unwrap());
}

#[test]
fn str_result_is_emitted_verbatim() {
    let out = render(
        &GolemResult::Str("already rendered".to_string()),
        Format::Json,
    );
    assert_eq!(out, "already rendered");
}

#[test]
fn template_table_text_view() {
    let ts = vec![template("id1", "one", 0), template("id2", "two", 3)];
    let out = render(&GolemResult::Item(Renderable::Templates(ts)), Format::Text);
    assert_eq!(
        out,
        "templateId\ttemplateName\ttemplateVersion\nid1\tone\t0\nid2\ttwo\t3"
    );
}

#[test]
fn template_json_view_is_pretty_with_two_space_indent() {
    let ts = vec![template("id1", "one", 2)];
    let out = render(&GolemResult::Item(Renderable::Templates(ts)), Format::Json);
    assert_eq!(
        out,
        "[\n  {\n    \"templateId\": \"id1\",\n    \"templateName\": \"one\",\n    \"templateVersion\": 2\n  }\n]"
    );
    let parsed: serde_json::Value = serde_json::from_str(&out).expect("valid JSON");
    assert_eq!(parsed[0]["templateName"], serde_json::Value::String("one".to_string()));
}

#[test]
fn template_json_view_escapes_strings() {
    let ts = vec![template("i\"d", "a\\b", 1)];
    let out = render(&GolemResult::Item(Renderable::Templates(ts)), Format::Json);
    let parsed: serde_json::Value = serde_json::from_str(&out).expect("valid JSON");
    assert_eq!(parsed[0]["templateId"], serde_json::Value::String("i\"d".to_string()));
    assert_eq!(parsed[0]["templateName"], serde_json::Value::String("a\\b".to_string()));
}

#[test]
fn empty_list_renders_as_empty_markers() {
    let out = render(&GolemResult::Item(Renderable::Templates(vec![])), Format::Json);
    assert_eq!(out, "[]");
    let out = render(&GolemResult::Item(Renderable::Templates(vec![])), Format::Yaml);
    assert_eq!(out, "[]");
}

#[test]
fn worker_yaml_view() {
    let w = Worker {
        template_id: TemplateId { value: "T".to_string() },
        name: WorkerName { value: "w1".to_string() },
        status: WorkerStatus::Running,
    };
    let out = render(&GolemResult::Item(Renderable::Worker(w)), Format::Yaml);
    assert_eq!(out, "templateId: \"T\"\nworkerName: \"w1\"\nstatus: \"Running\"");
}

#[test]
fn yaml_view_quotes_awkward_scalars() {
    // A worker name holding a newline and a YAML-special prefix stays one
    // scalar: the emitted document parses back to the same strings.
    let w = Worker {
        template_id: TemplateId { value: "- not: a map".to_string() },
        name: WorkerName { value: "line1\nline2".to_string() },
        status: WorkerStatus::Failed,
    };
    let out = render(&GolemResult::Item(Renderable::Worker(w)), Format::Yaml);
    let parsed: serde_json::Value = serde_yaml::from_str(&out).expect("valid YAML");
    assert_eq!(parsed["templateId"], serde_json::Value::String("- not: a map".to_string()));
    assert_eq!(parsed["workerName"], serde_json::Value::String("line1\nline2".to_string()));
    assert_eq!(parsed["status"], serde_json::Value::String("Failed".to_string()));
}

#[test]
fn json_view_escapes_control_characters() {
    let ts = vec![template("a\u{1}b", "c\u{1f}d", 1)];
    let out = render(&GolemResult::Item(Renderable::Templates(ts)), Format::Json);
    assert!(out.contains("a\\u0001b"));
    assert!(out.contains("c\\u001fd"));
    let parsed: serde_json::Value = serde_json::from_str(&out).expect("valid JSON");
    assert_eq!(parsed[0]["templateId"], serde_json::Value::String("a\u{1}b".to_string()));
    assert_eq!(parsed[0]["templateName"], serde_json::Value::String("c\u{1f}d".to_string()));
}

#[test]
fn worker_status_decoding_is_exact() {
    assert!(matches!(worker_status_of(&"Running".to_string()), Ok(WorkerStatus::Running)));
    assert!(matches!(worker_status_of(&"Suspended".to_string()), Ok(WorkerStatus::Suspended)));
    assert!(matches!(
        worker_status_of(&"Interrupted".to_string()),
        Ok(WorkerStatus::Interrupted)
    ));
    assert!(matches!(worker_status_of(&"Failed".to_string()), Ok(WorkerStatus::Failed)));
    assert!(matches!(worker_status_of(&"Exited".to_string()), Ok(WorkerStatus::Exited)));
    match worker_status_of(&"Booting".to_string()) {
        Err(GolemError::ApiError(m)) => assert_eq!(m, "unknown worker status: Booting"),
        _ => panic!("expected an unknown status to surface as an API error"),
    }
}

#[test]
fn invalid_parameters_fail_before_any_request_is_planned() {
    match prepare_parameters(&"{{not json".to_string()) {
        Err(GolemError::InvalidArgument(m)) => assert_eq!(m, "{{not json"),
        _ => panic!("expected an invalid-argument error"),
    }
}

#[test]
fn valid_parameters_pass_through_as_json() {
    let v = prepare_parameters(&"[1,2]".to_string()).expect("valid JSON");
    assert_eq!(
        v,
        serde_json::Value::Array(vec![serde_json::Value::from(1), serde_json::Value::from(2)])
    );
}

#[test]
fn invoke_and_await_obtains_one_key_and_passes_it_unchanged() {
    let tid = "T".to_string();
    let w = "w1".to_string();
    let key_call = invocation_key_request(&tid, &w);
    assert!(matches!(key_call.method, Method::Post));
    assert_eq!(key_call.path, "/v2/templates/T/workers/w1/key");
    assert!(key_call.query.is_empty());

    let key = InvocationKey { value: "k-123".to_string() };
    let params = prepare_parameters(&"[1,2]".to_string()).unwrap();
    let call = invoke_and_await_request(
        &tid,
        &w,
        &"add".to_string(),
        params.clone(),
        &key,
        CallingConvention::Component,
    );
    assert_eq!(call.path, "/v2/templates/T/workers/w1/invoke-and-await");
    assert_eq!(call.query[0], ("invocation-key".to_string(), "k-123".to_string()));
    assert_eq!(call.query[1], ("function".to_string(), "add".to_string()));
    assert_eq!(call.query[2], ("calling-convention".to_string(), "component".to_string()));
    match call.body {
        RequestBody::JsonValue(v) => assert_eq!(v, params),
        _ => panic!("expected the parameters as the body"),
    }
    // The plan holds exactly one key request.
    assert_ne!(key_call.path, call.path);
}

#[test]
fn template_list_request_carries_name_filter() {
    let c = template_list_request(&None);
    assert!(matches!(c.method, Method::Get));
    assert_eq!(c.path, "/v2/templates");
    assert!(c.query.is_empty());
    let c = template_list_request(&Some("foo".to_string()));
    assert_eq!(c.query, vec![("template-name".to_string(), "foo".to_string())]);
}

#[test]
fn template_add_refuses_unreadable_file() {
    match template_add_request(&"n".to_string(), &"missing.wasm".to_string(), false) {
        Err(GolemError::InvalidConfig(m)) => assert_eq!(m, "missing.wasm"),
        _ => panic!("expected an invalid-config error"),
    }
    match template_add_request(&"n".to_string(), &"ok.wasm".to_string(), true) {
        Ok(c) => {
            assert_eq!(c.path, "/v2/templates");
            assert_eq!(c.query, vec![("template-name".to_string(), "n".to_string())]);
            assert!(matches!(c.body, RequestBody::FileUpload(f) if f == "ok.wasm"));
        }
        _ => panic!("expected a planned upload for a readable file"),
    }
}

#[test]
fn template_update_plans_upload_for_readable_file() {
    match template_update_request(&"T".to_string(), &"v2.wasm".to_string(), true) {
        Ok(c) => {
            assert!(matches!(c.method, Method::Put));
            assert_eq!(c.path, "/v2/templates/T/upload");
            assert!(matches!(c.body, RequestBody::FileUpload(f) if f == "v2.wasm"));
        }
        _ => panic!("expected a planned upload for a readable file"),
    }
    assert!(template_update_request(&"T".to_string(), &"gone.wasm".to_string(), false).is_err());
}

#[test]
fn name_resolution_cases() {
    let name = "shared".to_string();
    match resolve_template_name(&vec![], &name) {
        Err(GolemError::NotFound(m)) => assert_eq!(m, "shared"),
        _ => panic!("expected not-found"),
    }
    // Several versions of one template share the identifier: unambiguous.
    let ts = vec![template("A", "shared", 0), template("A", "shared", 1)];
    let id = resolve_template_name(&ts, &name).expect("one distinct identifier");
    assert_eq!(id.value, "A");
    // Two distinct identifiers under one name: ambiguous.
    let ts = vec![template("A", "shared", 0), template("B", "shared", 0)];
    match resolve_template_name(&ts, &name) {
        Err(GolemError::Ambiguous(c)) => assert_eq!(c, vec!["A".to_string(), "B".to_string()]),
        _ => panic!("expected ambiguous"),
    }
}

#[test]
fn name_resolution_is_idempotent_within_a_process() {
    let mut cache = NameCache::new();
    let name = "foo".to_string();
    let first = resolve_with_cache(&mut cache, &name, &vec![template("A", "foo", 0)])
        .expect("resolves");
    // The server now reports another identifier; the cached answer stands.
    let second = resolve_with_cache(&mut cache, &name, &vec![template("B", "foo", 0)])
        .expect("resolves");
    assert_eq!(first.value, "A");
    assert_eq!(second.value, "A");
}

#[test]
fn scaffold_creates_and_refuses_existing_directory() {
    let catalog = builtin_catalog();
    let plan = process_new(
        &catalog,
        &"rust-hello".to_string(),
        &"myapp".to_string(),
        &None,
        false,
    )
    .expect("example exists");
    assert_eq!(plan.target_dir, "myapp");
    assert_eq!(plan.files.len(), 2);
    assert_eq!(plan.files[0].path, "Cargo.toml");
    assert_eq!(
        plan.files[0].content,
        "[package]\nname = \"myapp\"\nversion = \"0.1.0\"\n"
    );
    assert_eq!(plan.files[1].path, "src/lib.rs");
    assert_eq!(
        plan.files[1].content,
        "// myapp: say hello\npub fn hello() -> &'static str {\n    \"Hello, myapp!\"\n}\n"
    );
    match process_new(
        &catalog,
        &"rust-hello".to_string(),
        &"myapp".to_string(),
        &None,
        true,
    ) {
        Err(GolemError::AlreadyExists(m)) => assert_eq!(m, "myapp"),
        _ => panic!("expected already-exists"),
    }
}

#[test]
fn scaffold_unknown_example_is_not_found() {
    let catalog = builtin_catalog();
    match process_new(
        &catalog,
        &"no-such".to_string(),
        &"x".to_string(),
        &None,
        false,
    ) {
        Err(GolemError::NotFound(m)) => assert_eq!(m, "no-such"),
        _ => panic!("expected not-found"),
    }
}

#[test]
fn scaffold_package_name_substitution() {
    let catalog = builtin_catalog();
    let plan = process_new(
        &catalog,
        &"rust-hello".to_string(),
        &"myapp".to_string(),
        &Some("my_pkg".to_string()),
        false,
    )
    .expect("example exists");
    assert!(plan.files[0].content.contains("name = \"my_pkg\""));
}

#[test]
fn list_examples_filters_by_language_stably() {
    let catalog = builtin_catalog();
    let all: Vec<String> = catalog.iter().map(|e| e.name.clone()).collect();
    let rust_only = list_examples(builtin_catalog(), None, Some(GuestLanguage::Rust));
    assert!(rust_only.iter().all(|e| e.language == GuestLanguage::Rust));
    assert_eq!(rust_only[0].name, "rust-hello");
    // Stability: the kept names appear in catalog order.
    let kept: Vec<String> = list_examples(builtin_catalog(), Some(2), None)
        .iter()
        .map(|e| e.name.clone())
        .collect();
    let mut order = all.iter().filter(|n| kept.contains(n));
    assert!(kept.iter().all(|n| order.next().map(|o| o == n).unwrap_or(false)));
}

#[test]
fn list_examples_min_tier_filter() {
    let tier_one = list_examples(builtin_catalog(), Some(1), None);
    assert_eq!(tier_one.len(), 1);
    assert_eq!(tier_one[0].name, "rust-hello");
    let all = list_examples(builtin_catalog(), Some(3), None);
    assert_eq!(all.len(), 5);
}

#[test]
fn error_messages_name_the_kind_and_the_subject() {
    assert_eq!(
        error_message(&GolemError::InvalidConfig("bad://url".to_string())),
        "invalid configuration: bad://url"
    );
    assert_eq!(
        error_message(&GolemError::InvalidArgument("{x".to_string())),
        "invalid argument: {x"
    );
    assert_eq!(error_message(&GolemError::NotFound("foo".to_string())), "not found: foo");
    assert_eq!(
        error_message(&GolemError::Ambiguous(vec!["A".to_string(), "B".to_string()])),
        "ambiguous template name; candidates: A, B"
    );
    assert_eq!(error_message(&GolemError::ApiError("boom".to_string())), "API error: boom");
    assert_eq!(
        error_message(&GolemError::Transport("refused".to_string())),
        "transport error: refused"
    );
    assert_eq!(error_message(&GolemError::Cancelled), "cancelled");
    assert_eq!(
        error_message(&GolemError::AlreadyExists("myapp".to_string())),
        "already exists: myapp"
    );
}

#[test]
fn template_list_json_pipeline_emits_empty_array() {
    // argv `template list --format json`, the server answers with an empty
    // list: the planned call is the list request and stdout carries `[]`.
    let argv: Vec<String> = ["template", "list", "--format", "json"]
        .iter()
        .map(|s| s.to_string())
        .collect();
    let gc = match golem_cli::args::parse_args(&argv) {
        Ok(golem_cli::args::Parsed::Run(gc)) => gc,
        _ => panic!("expected a run command"),
    };
    assert_eq!(gc.format, Format::Json);
    let call = template_list_request(&None);
    assert_eq!(call.path, "/v2/templates");
    let out = render(
        &GolemResult::Item(Renderable::Templates(vec![])),
        gc.format,
    );
    assert_eq!(out, "[]");
}

#[test]
fn response_outcome_follows_the_error_taxonomy() {
    match response_outcome(200, "body".to_string()) {
        Ok(b) => assert_eq!(b, "body"),
        _ => panic!("expected the body for a 2xx status"),
    }
    match response_outcome(204, "".to_string()) {
        Ok(b) => assert_eq!(b, ""),
        _ => panic!("expected the body for a 2xx status"),
    }
    match response_outcome(404, "missing".to_string()) {
        Err(GolemError::NotFound(m)) => assert_eq!(m, "missing"),
        _ => panic!("expected not-found for 404"),
    }
    match response_outcome(500, "boom".to_string()) {
        Err(GolemError::ApiError(m)) => assert_eq!(m, "boom"),
        _ => panic!("expected an API error for 500"),
    }
    match response_outcome(302, "moved".to_string()) {
        Err(GolemError::ApiError(m)) => assert_eq!(m, "moved"),
        _ => panic!("expected an API error for a redirect"),
    }
}

#[test]
fn every_catalog_entry_scaffolds_its_files() {
    let catalog = builtin_catalog();
    let plan = process_new(&catalog, &"go-hello".to_string(), &"gapp".to_string(), &None, false)
        .expect("example exists");
    assert_eq!(plan.files.len(), 1);
    assert_eq!(plan.files[0].path, "main.go");
    assert_eq!(plan.files[0].content, "package main // gapp\n");
    let plan = process_new(
        &catalog,
        &"python-hello".to_string(),
        &"papp".to_string(),
        &Some("ignored".to_string()),
        false,
    )
    .expect("example exists");
    assert_eq!(plan.files.len(), 1);
    assert_eq!(plan.files[0].path, "main.py");
    assert_eq!(plan.files[0].content, "# papp\n");
    let plan = process_new(&catalog, &"c-hello".to_string(), &"capp".to_string(), &None, false)
        .expect("example exists");
    assert_eq!(plan.files[0].content, "/* capp */\nint main(void) { return 0; }\n");
    let plan = process_new(&catalog, &"js-echo".to_string(), &"japp".to_string(), &None, false)
        .expect("example exists");
    assert_eq!(plan.files[0].content, "// japp\nmodule.exports = {};\n");
}

#[test]
fn examples_render_as_a_table() {
    let es = list_examples(builtin_catalog(), Some(1), None);
    let out = render(&GolemResult::Item(Renderable::Examples(es)), Format::Text);
    assert_eq!(
        out,
        "name\tlanguage\ttier\tdescription\nrust-hello\trust\t1\ta minimal Rust worker"
    );
}
