use exa_search::args::{ArgValue, ArgumentBundle};
use exa_search::result::ToolResult;
use exa_search::schema::{ParamDefault, ParamType, ParameterSchema};
use exa_search::search::{ExaSearchTool, ExecError, SearchRequest, Step};

fn configured() -> ExaSearchTool {
    ExaSearchTool::new("test-key".to_string())
}

fn request_for(tool: &ExaSearchTool, args: &ArgumentBundle) -> SearchRequest {
    match tool.start(args) {
        Step::Send(req) => req,
        Step::Finish(_) => panic!("a configured tool must send a request"),
    }
}

fn bundle_with_query(query: &str) -> ArgumentBundle {
    let mut args = ArgumentBundle::new();
    args.insert("query".to_string(), ArgValue::Text(query.to_string()));
    args
}

fn failed_message(result: &ToolResult) -> String {
    assert!(!result.success);
    assert_eq!(result.output, "");
    result.error.clone().expect("a failed result carries an error")
}

#[test]
fn missing_options_take_defaults() {
    let tool = configured();
    let req = request_for(&tool, &bundle_with_query("rust verification"));
    assert_eq!(req.query, "rust verification");
    assert_eq!(req.num_results, 5);
    assert!(req.use_autoprompt);

    let mut filled = bundle_with_query("rust verification");
    filled.insert("num_results".to_string(), ArgValue::Integer(5));
    filled.insert("use_autoprompt".to_string(), ArgValue::Boolean(true));
    let req2 = request_for(&tool, &filled);
    assert_eq!(req2.query, req.query);
    assert_eq!(req2.num_results, req.num_results);
    assert_eq!(req2.use_autoprompt, req.use_autoprompt);
}

#[test]
fn supplied_options_are_used() {
    let tool = configured();
    let mut args = bundle_with_query("q");
    args.insert("num_results".to_string(), ArgValue::Integer(12));
    args.insert("use_autoprompt".to_string(), ArgValue::Boolean(false));
    let req = request_for(&tool, &args);
    assert_eq!(req.num_results, 12);
    assert!(!req.use_autoprompt);
    assert_eq!(req.api_key, "test-key");
    assert_eq!(req.endpoint(), "https://api.exa.ai/search");
}

#[test]
fn wrong_shaped_options_take_defaults() {
    let tool = configured();
    let mut args = ArgumentBundle::new();
    args.insert("query".to_string(), ArgValue::Integer(3));
    args.insert("num_results".to_string(), ArgValue::Text("ten".to_string()));
    args.insert("use_autoprompt".to_string(), ArgValue::Integer(0));
    let req = request_for(&tool, &args);
    assert_eq!(req.query, "");
    assert_eq!(req.num_results, 5);
    assert!(req.use_autoprompt);

    let mut negative = bundle_with_query("q");
    negative.insert("num_results".to_string(), ArgValue::Integer(-4));
    assert_eq!(request_for(&tool, &negative).num_results, 5);

    let mut too_big = bundle_with_query("q");
    too_big.insert("num_results".to_string(), ArgValue::Integer(u64::MAX as i128 + 1));
    assert_eq!(request_for(&tool, &too_big).num_results, 5);

    let mut largest = bundle_with_query("q");
    largest.insert("num_results".to_string(), ArgValue::Integer(u64::MAX as i128));
    assert_eq!(request_for(&tool, &largest).num_results, u64::MAX);

    let mut other = bundle_with_query("q");
    other.insert("use_autoprompt".to_string(), ArgValue::Other);
    assert!(request_for(&tool, &other).use_autoprompt);
}

#[test]
fn unknown_keys_are_ignored() {
    let tool = configured();
    let mut args = bundle_with_query("q");
    args.insert("language".to_string(), ArgValue::Text("en".to_string()));
    let req = request_for(&tool, &args);
    assert_eq!(req.query, "q");
    assert_eq!(req.num_results, 5);
    assert!(req.use_autoprompt);
}

#[test]
fn later_insert_replaces_earlier() {
    let mut args = bundle_with_query("first");
    args.insert("query".to_string(), ArgValue::Text("second".to_string()));
    assert!(matches!(args.get("query"), Some(ArgValue::Text(s)) if s == "second"));
    assert!(args.get("missing").is_none());
    assert_eq!(request_for(&configured(), &args).query, "second");
}

#[test]
fn empty_credential_fails_without_request() {
    let tool = ExaSearchTool::new(String::new());
    match tool.start(&bundle_with_query("anything")) {
        Step::Finish(result) => {
            let message = failed_message(&result);
            assert!(message.contains("exa_api_key"));
            assert_eq!(
                message,
                "Exa API key is not configured. Please add 'exa_api_key' to [search] in your config.toml."
            );
        }
        Step::Send(_) => panic!("an unconfigured tool must not send"),
    }
}

#[test]
fn rejection_reports_status_and_body() {
    let tool = configured();
    let result = tool.complete(429, b"quota exceeded").ok().expect("a rejection is no hard failure");
    let message = failed_message(&result);
    assert!(message.contains("429"));
    assert!(message.contains("quota exceeded"));
    assert_eq!(message, "Exa AI API error (429 Too Many Requests): quota exceeded");
}

#[test]
fn rejection_with_unnamed_status() {
    let tool = configured();
    let result = tool.complete(599, b"odd").ok().expect("a rejection is no hard failure");
    assert_eq!(failed_message(&result), "Exa AI API error (599 <unknown status code>): odd");

    let redirect = tool.complete(301, b"").ok().expect("a rejection is no hard failure");
    assert_eq!(failed_message(&redirect), "Exa AI API error (301 Moved Permanently): ");
}

#[test]
fn success_body_round_trips() {
    let tool = configured();
    let body = r#"{"results":[{"title":"A"}]}"#;
    let result = tool.complete(200, body.as_bytes()).ok().expect("well-formed JSON decodes");
    assert!(result.success);
    assert!(result.error.is_none());
    assert_eq!(
        result.output,
        "{\n  \"results\": [\n    {\n      \"title\": \"A\"\n    }\n  ]\n}"
    );
    let reparsed: serde_json::Value = serde_json::from_str(&result.output).unwrap();
    let original: serde_json::Value = serde_json::from_str(body).unwrap();
    assert_eq!(reparsed, original);
}

#[test]
fn malformed_success_body_is_hard_failure() {
    let tool = configured();
    assert!(matches!(tool.complete(200, b"not json"), Err(ExecError::Decode(_))));
    assert!(matches!(tool.complete(204, b""), Err(ExecError::Decode(_))));
    assert!(matches!(ExaSearchTool::decode_body(b"{\"a\":"), Err(ExecError::Decode(_))));
}

#[test]
fn concurrent_requests_keep_their_own_queries() {
    let tool = configured();
    let bundles: Vec<ArgumentBundle> = (0..50).map(|i| bundle_with_query(&format!("query {i}"))).collect();
    let requests: Vec<SearchRequest> = bundles.iter().map(|b| request_for(&tool, b)).collect();
    for (i, req) in requests.iter().enumerate() {
        assert_eq!(req.query, format!("query {i}"));
    }
    let outcomes: Vec<ToolResult> = (0..50)
        .map(|i| tool.complete(200, format!("{{\"n\":{i}}}").as_bytes()).ok().unwrap())
        .collect();
    for (i, out) in outcomes.iter().enumerate() {
        let v: serde_json::Value = serde_json::from_str(&out.output).unwrap();
        assert_eq!(v["n"], i);
    }
}

fn schema_fields(schema: &ParameterSchema) -> Vec<(String, ParamType, String, Option<ParamDefault>, bool)> {
    schema
        .params
        .iter()
        .map(|p| (p.name.clone(), p.kind, p.description.clone(), p.default, p.required))
        .collect()
}

#[test]
fn schema_is_the_same_before_and_after_execution() {
    let tool = configured();
    let before = schema_fields(&tool.parameters_schema());
    let _ = tool.start(&bundle_with_query("q"));
    let _ = tool.complete(500, b"boom");
    let _ = tool.complete(200, b"{}");
    let after = schema_fields(&tool.parameters_schema());
    assert_eq!(before, after);
    assert_eq!(before.len(), 3);
    assert_eq!(before[0], ("query".to_string(), ParamType::Text, "The search query".to_string(), None, true));
    assert_eq!(before[1].0, "num_results");
    assert_eq!(before[1].3, Some(ParamDefault::Integer(5)));
    assert!(!before[1].4);
    assert_eq!(before[2].0, "use_autoprompt");
    assert_eq!(before[2].3, Some(ParamDefault::Boolean(true)));
}

#[test]
fn identity_and_description() {
    let tool = configured();
    assert_eq!(tool.name(), "exa_search");
    assert_eq!(
        tool.description(),
        "Search the web using Exa AI for real-time information and high-quality links"
    );
}

#[test]
fn result_constructors_keep_one_active_field() {
    let ok = ToolResult::succeeded("text".to_string());
    assert!(ok.success);
    assert_eq!(ok.output, "text");
    assert!(ok.error.is_none());
    let bad = ToolResult::failed("why".to_string());
    assert_eq!(failed_message(&bad), "why");
}

#[test]
fn body_bytes_are_read_as_the_upstream_sent_them() {
    let tool = configured();
    let rejected = tool.complete(400, b"bad \xff query").ok().expect("a rejection is no hard failure");
    assert_eq!(failed_message(&rejected), "Exa AI API error (400 Bad Request): bad \u{FFFD} query");

    let not_utf8 = tool.complete(200, b"\"\xff\"");
    assert!(matches!(not_utf8, Err(ExecError::Decode(_))));

    let nested = "[".repeat(200) + &"]".repeat(200);
    assert!(matches!(tool.complete(200, nested.as_bytes()), Err(ExecError::Decode(_))));
}

#[test]
fn same_answer_gives_same_outcome() {
    let tool = configured();
    let first = tool.complete(200, b"{\"b\": [1, 2], \"a\": null}").ok().unwrap();
    let second = tool.complete(200, b"{\"b\": [1, 2], \"a\": null}").ok().unwrap();
    assert_eq!(first.output, second.output);
    assert_eq!(first.success, second.success);
    assert_eq!(first.error, second.error);
    let plain = ExaSearchTool::decode_body(b"42").ok().unwrap();
    assert_eq!(plain.output, "42");
}
