use gemini_chat::client::{Client, ClientError, Responses, Step, ToolSpec};
use gemini_chat::common::{Blob, Content, FileData, FunctionCall, Part, Role};
use gemini_chat::model::{GoogleModel, GoogleModelVariant};
use gemini_chat::response::{Candidate, ContentResponse, ErrorObject};
use serde_json::Value;

type JsonMap = serde_json::Map<String, Value>;

fn candidate(parts: Vec<Part>) -> Candidate {
    Candidate {
        content: Content { parts, role: Role::Model },
        finish_reason: None,
        safety_ratings: vec![],
        citation_metadata: None,
        grounding_attributions: vec![],
        url_retrieval_metadata: None,
        index: None,
        token_count: None,
    }
}

fn fragment(candidates: Vec<Candidate>) -> ContentResponse {
    ContentResponse {
        candidates,
        prompt_feedback: None,
        usage_metadata: None,
        model_version: None,
        error: None,
    }
}

fn error_fragment(code: i32, message: &str) -> ContentResponse {
    ContentResponse {
        candidates: vec![],
        prompt_feedback: None,
        usage_metadata: None,
        model_version: None,
        error: Some(ErrorObject { code, message: message.to_string() }),
    }
}

fn text(s: &str) -> Part {
    Part::Text(s.to_string())
}

fn object(key: &str, value: Value) -> JsonMap {
    let mut m = JsonMap::new();
    m.insert(key.to_string(), value);
    m
}

fn call(name: &str, args: Option<JsonMap>) -> Part {
    Part::FunctionCall(FunctionCall { id: Some(format!("id-{}", name)), name: name.to_string(), args })
}

fn flash_client() -> Client {
    Client::new(&GoogleModel::new(GoogleModelVariant::Gemini20Flash, None), "key")
}

fn tool_client(blocks: Vec<Vec<&str>>) -> Client {
    let tools: Vec<Vec<ToolSpec>> = blocks
        .into_iter()
        .map(|b| {
            b.into_iter()
                .map(|n| ToolSpec { name: n.to_string(), schema_mapped: true })
                .collect()
        })
        .collect();
    let mut c = flash_client();
    c.with_tools_client(&tools).unwrap();
    c
}

fn is_text(c: &Content, role: Role, expected: &str) -> bool {
    c.role == role && c.parts.len() == 1 && matches!(&c.parts[0], Part::Text(t) if t == expected)
}

#[test]
fn hello_scenario() {
    let mut c = flash_client();
    assert!(matches!(c.send_text("Hello"), Step::Post));
    let step = c.receive(Ok(vec![fragment(vec![candidate(vec![text("Hi")])])]));
    match step {
        Step::Done(r) => {
            assert_eq!(r.inner().len(), 1);
            assert_eq!(r.text(), Some("Hi".to_string()));
        }
        other => panic!("unexpected: {:?}", other),
    }
    let h = c.history();
    assert_eq!(h.len(), 2);
    assert!(is_text(&h[0], Role::User, "Hello"));
    assert!(is_text(&h[1], Role::Model, "Hi"));
}

#[test]
fn tool_call_scenario() {
    let mut c = tool_client(vec![vec!["X"]]);
    assert!(matches!(c.send_text("Use tool X"), Step::Post));
    let args = object("a", Value::from(1));
    let step = c.receive(Ok(vec![fragment(vec![candidate(vec![call("X", Some(args.clone()))])])]));
    match step {
        Step::Invoke { client, call } => {
            assert_eq!(client, 0);
            assert_eq!(call.name, "X");
            assert_eq!(call.args, Some(args));
        }
        other => panic!("unexpected: {:?}", other),
    }
    assert!(c.is_dispatching());
    let payload = object("text", Value::from("42"));
    assert!(matches!(c.tool_result(Ok(vec![payload.clone()])), Step::Post));
    assert!(!c.is_dispatching());
    let step = c.receive(Ok(vec![fragment(vec![candidate(vec![text("The answer is 42")])])]));
    assert!(matches!(step, Step::Done(_)));
    let h = c.history();
    assert_eq!(h.len(), 4);
    assert!(is_text(&h[0], Role::User, "Use tool X"));
    assert_eq!(h[1].role, Role::Model);
    assert!(matches!(&h[1].parts[0], Part::FunctionCall(f) if f.name == "X"));
    assert_eq!(h[2].role, Role::User);
    assert_eq!(h[2].parts.len(), 1);
    match &h[2].parts[0] {
        Part::FunctionResponse(f) => {
            assert_eq!(f.name, "X");
            assert_eq!(f.id, None);
            assert_eq!(f.response, payload);
        }
        other => panic!("unexpected: {:?}", other),
    }
    assert!(is_text(&h[3], Role::Model, "The answer is 42"));
}

#[test]
fn service_error_scenario() {
    let mut c = flash_client();
    c.send_text("first");
    c.receive(Ok(vec![fragment(vec![candidate(vec![text("ok")])])]));
    let before = c.history().len();
    c.send_text("second");
    match c.receive(Ok(vec![error_fragment(7, "quota")])) {
        Step::Failed(ClientError::Request { code, message }) => {
            assert_eq!(code, 7);
            assert_eq!(message, "quota");
        }
        other => panic!("unexpected: {:?}", other),
    }
    assert_eq!(c.history().len(), before);
    assert!(is_text(&c.history()[0], Role::User, "first"));
    assert!(is_text(&c.history()[1], Role::Model, "ok"));
    assert_eq!(c.outgoing().len(), before);
}

#[test]
fn plain_sends_add_two_turns_each() {
    let mut c = flash_client();
    for (i, q) in ["one", "two", "three"].iter().enumerate() {
        c.send_text(q);
        let step = c.receive(Ok(vec![fragment(vec![candidate(vec![text("answer")])])]));
        assert!(matches!(step, Step::Done(_)));
        assert_eq!(c.history().len(), 2 * (i + 1));
    }
}

#[test]
fn error_after_good_fragments_adds_nothing() {
    let mut c = flash_client();
    c.send_text("q");
    let batch = vec![
        fragment(vec![candidate(vec![text("a")])]),
        fragment(vec![candidate(vec![text("b")]), candidate(vec![text("c")])]),
        error_fragment(13, "internal"),
        fragment(vec![candidate(vec![text("d")])]),
    ];
    match c.receive(Ok(batch)) {
        Step::Failed(ClientError::Request { code, message }) => {
            assert_eq!(code, 13);
            assert_eq!(message, "internal");
        }
        other => panic!("unexpected: {:?}", other),
    }
    assert_eq!(c.history().len(), 0);
}

#[test]
fn consolidated_turns_are_model_turns() {
    let mut c = flash_client();
    c.send_text("q");
    let mut odd = candidate(vec![text("echo")]);
    odd.content.role = Role::User;
    c.receive(Ok(vec![fragment(vec![odd])]));
    let h = c.history();
    assert_eq!(h.len(), 2);
    assert!(is_text(&h[1], Role::Model, "echo"));
}

#[test]
fn send_is_pending_until_reply() {
    let mut c = flash_client();
    c.send_text("Hello");
    assert!(c.history().is_empty());
    let out = c.outgoing();
    assert_eq!(out.len(), 1);
    assert!(is_text(&out[0], Role::User, "Hello"));
}

#[test]
fn first_error_fragment_wins() {
    let mut c = flash_client();
    let r = c.merge_response(vec![error_fragment(1, "a"), error_fragment(2, "b")]);
    assert!(matches!(r, Err(ClientError::Request { code: 1, .. })));
}

#[test]
fn empty_candidates_add_no_turn() {
    let mut c = flash_client();
    c.send_text("q");
    let r = c
        .merge_response(vec![fragment(vec![candidate(vec![]), candidate(vec![text("x")])])])
        .unwrap();
    assert_eq!(r.len(), 1);
    assert_eq!(c.history().len(), 2);
}

#[test]
fn tool_calls_across_fragments_make_one_turn() {
    let mut c = tool_client(vec![vec!["alpha"], vec!["beta", "gamma"]]);
    c.send_text("go");
    let batch = vec![
        fragment(vec![candidate(vec![text("thinking"), call("gamma", None)])]),
        fragment(vec![candidate(vec![call("alpha", None)])]),
    ];
    match c.receive(Ok(batch)) {
        Step::Invoke { client, call } => {
            assert_eq!(client, 1);
            assert_eq!(call.name, "gamma");
        }
        other => panic!("unexpected: {:?}", other),
    }
    let after_batch = c.history().len();
    assert_eq!(after_batch, 3);
    match c.tool_result(Ok(vec![object("r", Value::from("g"))])) {
        Step::Invoke { client, call } => {
            assert_eq!(client, 0);
            assert_eq!(call.name, "alpha");
        }
        other => panic!("unexpected: {:?}", other),
    }
    assert_eq!(c.history().len(), after_batch);
    assert!(matches!(c.tool_result(Ok(vec![object("r", Value::from("a"))])), Step::Post));
    let h = c.history();
    assert_eq!(h.len(), after_batch + 1);
    let last = &h[h.len() - 1];
    assert_eq!(last.role, Role::User);
    assert_eq!(last.parts.len(), 2);
    assert!(matches!(&last.parts[0], Part::FunctionResponse(f) if f.name == "gamma"));
    assert!(matches!(&last.parts[1], Part::FunctionResponse(f) if f.name == "alpha"));
}

#[test]
fn every_returned_item_becomes_a_part() {
    let mut c = tool_client(vec![vec!["many"]]);
    c.send_text("go");
    c.receive(Ok(vec![fragment(vec![candidate(vec![call("many", None)])])]));
    let items = vec![object("n", Value::from(1)), object("n", Value::from(2)), object("n", Value::from(3))];
    assert!(matches!(c.tool_result(Ok(items)), Step::Post));
    let h = c.history();
    assert_eq!(h[h.len() - 1].parts.len(), 3);
}

#[test]
fn unknown_tool_is_not_found() {
    let mut c = tool_client(vec![vec!["X"]]);
    c.send_text("go");
    match c.receive(Ok(vec![fragment(vec![candidate(vec![call("Y", None)])])])) {
        Step::Failed(ClientError::NotFound(name)) => assert_eq!(name, "Y"),
        other => panic!("unexpected: {:?}", other),
    }
    assert_eq!(c.history().len(), 2);
    assert!(!c.is_dispatching());
}

#[test]
fn unknown_second_tool_leaves_history_alone() {
    let mut c = tool_client(vec![vec!["X"]]);
    c.send_text("go");
    c.receive(Ok(vec![fragment(vec![candidate(vec![call("X", None), call("Z", None)])])]));
    let before = c.history().len();
    match c.tool_result(Ok(vec![object("ok", Value::from(true))])) {
        Step::Failed(ClientError::NotFound(name)) => assert_eq!(name, "Z"),
        other => panic!("unexpected: {:?}", other),
    }
    assert_eq!(c.history().len(), before);
}

#[test]
fn no_tools_declared_is_not_found() {
    let mut c = flash_client();
    c.send_text("go");
    let step = c.receive(Ok(vec![fragment(vec![candidate(vec![call("X", None)])])]));
    assert!(matches!(step, Step::Failed(ClientError::NotFound(_))));
}

#[test]
fn failed_tool_ends_the_cycle() {
    let mut c = tool_client(vec![vec!["X"]]);
    c.send_text("go");
    c.receive(Ok(vec![fragment(vec![candidate(vec![call("X", None)])])]));
    let before = c.history().len();
    let err = ClientError::UnsupportedConfig("tool failed".to_string());
    assert!(matches!(c.tool_result(Err(err)), Step::Failed(ClientError::UnsupportedConfig(_))));
    assert_eq!(c.history().len(), before);
    assert!(!c.is_dispatching());
}

#[test]
fn transport_failure_is_passed_on() {
    let mut c = flash_client();
    c.send_text("go");
    let err = ClientError::Io(std::io::Error::new(std::io::ErrorKind::Other, "down"));
    assert!(matches!(c.receive(Err(err)), Step::Failed(ClientError::Io(_))));
    assert_eq!(c.history().len(), 0);
    assert_eq!(c.outgoing().len(), 0);
}

#[test]
fn empty_batch_changes_nothing() {
    let mut c = flash_client();
    c.send_text("go");
    let r = c.merge_response(vec![]).unwrap();
    assert!(r.is_empty());
    assert_eq!(c.history().len(), 1);
    let r = c.merge_response(vec![]).unwrap();
    assert!(r.is_empty());
    assert_eq!(c.history().len(), 1);
    match c.receive(Ok(vec![])) {
        Step::Done(r) => assert_eq!(r.text(), None),
        other => panic!("unexpected: {:?}", other),
    }
    assert_eq!(c.history().len(), 1);
}

#[test]
fn responses_text_and_images() {
    let blob = Blob { mime_type: "image/png".to_string(), data: "AAAA".to_string() };
    let r = Responses(vec![
        fragment(vec![candidate(vec![text("Hel"), Part::InlineData(blob.clone())])]),
        fragment(vec![candidate(vec![Part::Thought(true), text("lo")])]),
    ]);
    assert_eq!(r.text(), Some("Hello".to_string()));
    assert_eq!(r.images(), vec![("image/png".to_string(), "AAAA".to_string())]);
    let none = Responses(vec![fragment(vec![candidate(vec![Part::InlineData(blob)])])]);
    assert_eq!(none.text(), None);
}

#[test]
fn pending_calls_are_found_in_order() {
    let batch = vec![
        fragment(vec![candidate(vec![text("a"), call("one", None)])]),
        fragment(vec![candidate(vec![call("two", None)]), candidate(vec![call("three", None)])]),
    ];
    let calls = gemini_chat::client::pending_calls_of(&batch);
    let names: Vec<&str> = calls.iter().map(|c| c.name.as_str()).collect();
    assert_eq!(names, vec!["one", "two", "three"]);
    assert!(gemini_chat::client::has_pending_calls(&batch));
    assert!(!gemini_chat::client::has_pending_calls(&vec![fragment(vec![candidate(vec![text("a")])])]));
}

#[test]
fn sends_images_and_files() {
    let mut c = flash_client();
    let blob = Blob { mime_type: "image/jpeg".to_string(), data: "Zm9v".to_string() };
    c.send_image(&blob);
    c.send_file_data(&FileData { mime_type: "application/pdf".to_string(), file_uri: "gs://f".to_string() });
    assert!(c.history().is_empty());
    let first = c.outgoing();
    assert_eq!(first.len(), 1);
    assert!(matches!(&first[0].parts[0], Part::FileData(f) if f.file_uri == "gs://f"));
    c.send_image(&blob);
    c.receive(Ok(vec![]));
    c.send_file_data(&FileData { mime_type: "application/pdf".to_string(), file_uri: "gs://f".to_string() });
    c.receive(Ok(vec![]));
    c.send_image_bytes(Some("look".to_string()), "image/png", "YWJj");
    c.receive(Ok(vec![]));
    let h = c.history();
    assert_eq!(h.len(), 3);
    assert!(matches!(&h[0].parts[0], Part::InlineData(b) if b.data == "Zm9v"));
    assert!(matches!(&h[1].parts[0], Part::FileData(f) if f.file_uri == "gs://f"));
    assert_eq!(h[2].parts.len(), 2);
    assert!(matches!(&h[2].parts[0], Part::Text(t) if t == "look"));
    assert!(matches!(&h[2].parts[1], Part::InlineData(b) if b.mime_type == "image/png" && b.data == "YWJj"));
}

#[test]
fn sends_image_file_bytes() {
    let mut c = flash_client();
    let png = [0x89u8, 0x50, 0x4E, 0x47, 0x0D, 0x0A, 0x1A, 0x0A];
    c.send_image_file(None, &png);
    let h = c.outgoing();
    assert_eq!(h[0].parts.len(), 1);
    match &h[0].parts[0] {
        Part::InlineData(b) => {
            assert_eq!(b.mime_type, "image/png");
            assert_eq!(b.data, "iVBORw0KGgo=");
        }
        other => panic!("unexpected: {:?}", other),
    }
    c.send_image_file(Some("raw".to_string()), &[0xfb, 0xff]);
    let h = c.outgoing();
    match &h[0].parts[1] {
        Part::InlineData(b) => assert_eq!(b.data, "-_8="),
        other => panic!("unexpected: {:?}", other),
    }
}

#[test]
fn whole_cycle_results_make_one_turn() {
    let mut c = tool_client(vec![vec!["a"], vec!["b"]]);
    c.send_text("go");
    let batch = vec![
        fragment(vec![candidate(vec![call("b", None)])]),
        fragment(vec![candidate(vec![call("a", None), call("b", None)])]),
    ];
    assert!(matches!(c.receive(Ok(batch)), Step::Invoke { client: 1, .. }));
    let before = c.history().len();
    let replies = vec![
        Ok(vec![object("r", Value::from(1))]),
        Ok(vec![object("r", Value::from(2))]),
        Ok(vec![object("r", Value::from(3))]),
    ];
    assert!(matches!(c.tool_results(replies), Step::Post));
    let h = c.history();
    assert_eq!(h.len(), before + 1);
    let names: Vec<&str> = h[before]
        .parts
        .iter()
        .map(|p| match p {
            Part::FunctionResponse(f) => f.name.as_str(),
            _ => "?",
        })
        .collect();
    assert_eq!(names, vec!["b", "a", "b"]);
}

#[test]
fn whole_cycle_failure_adds_nothing() {
    let mut c = tool_client(vec![vec!["a"]]);
    c.send_text("go");
    c.receive(Ok(vec![fragment(vec![candidate(vec![call("a", None), call("a", None)])])]));
    let before = c.history().len();
    let replies = vec![
        Ok(vec![object("r", Value::from(1))]),
        Err(ClientError::NotFound("gone".to_string())),
    ];
    assert!(matches!(c.tool_results(replies), Step::Failed(ClientError::NotFound(_))));
    assert_eq!(c.history().len(), before);
    assert!(!c.is_dispatching());
}
