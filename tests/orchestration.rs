use kube_agent::conversation::{FinalAnswer, ResponseSegment, ToolCallRequest, Turn};
use kube_agent::dispatch::{tool_output_text, ToolDefinition, ToolDispatcher, ToolError, ToolParameter};
use kube_agent::orchestrator::{Next, Orchestrator};

fn user(text: &str) -> Turn {
    Turn::UserText { text: text.to_string() }
}

fn call(id: &str, tool: &str, args: &str) -> ToolCallRequest {
    ToolCallRequest {
        call_id: id.to_string(),
        tool_name: tool.to_string(),
        arguments: args.to_string(),
    }
}

fn text(t: &str) -> ResponseSegment {
    ResponseSegment::Text(t.to_string())
}

fn manifest_dispatcher() -> ToolDispatcher {
    let mut d = ToolDispatcher::new();
    d.register(ToolDefinition {
        name: "apply_manifest".to_string(),
        description: "applies a manifest".to_string(),
        parameters: vec![ToolParameter {
            name: "manifest".to_string(),
            description: "the manifest".to_string(),
        }],
    });
    d
}

fn is_user_text(t: &Turn, expected: &str) -> bool {
    matches!(t, Turn::UserText { text } if text == expected)
}

fn is_assistant_text(t: &Turn, expected: &str) -> bool {
    matches!(t, Turn::AssistantText { text } if text == expected)
}

fn is_call(t: &Turn, id: &str) -> bool {
    matches!(t, Turn::AssistantToolCall { request } if request.call_id == id)
}

fn is_result(t: &Turn, id: &str, expected: &str) -> bool {
    matches!(t, Turn::UserToolResult { call_id, content } if call_id == id && content == expected)
}

#[test]
fn empty_response_ends_with_no_action() {
    let mut o = Orchestrator::new(user("hello"));
    let next = o.on_response(vec![]);
    assert!(matches!(next, Next::Finished(FinalAnswer::NoFurtherAction)));
    assert!(o.history().is_empty());
    assert!(!o.is_ready());
}

#[test]
fn text_response_is_final_answer() {
    let mut o = Orchestrator::new(user("hello"));
    let next = o.on_response(vec![text("Hi there")]);
    assert!(matches!(next, Next::Finished(FinalAnswer::Answer(ref t)) if t == "Hi there"));
    assert_eq!(o.history().len(), 2);
    assert!(is_user_text(&o.history()[0], "hello"));
    assert!(is_assistant_text(&o.history()[1], "Hi there"));
}

#[test]
fn several_texts_answer_with_the_last() {
    let mut o = Orchestrator::new(user("hello"));
    let next = o.on_response(vec![text("one"), text("two")]);
    assert!(matches!(next, Next::Finished(FinalAnswer::Answer(ref t)) if t == "two"));
    assert_eq!(o.history().len(), 4);
    assert!(is_user_text(&o.history()[0], "hello"));
    assert!(is_assistant_text(&o.history()[1], "one"));
    assert!(is_user_text(&o.history()[2], "hello"));
    assert!(is_assistant_text(&o.history()[3], "two"));
}

#[test]
fn text_then_tool_call_is_not_final() {
    let mut o = Orchestrator::new(user("deploy"));
    let next = o.on_response(vec![
        text("I will deploy it"),
        ResponseSegment::ToolCall(call("c1", "apply_manifest", "{}")),
    ]);
    assert!(matches!(next, Next::CallTool(ref r) if r.call_id == "c1"));
    assert_eq!(o.history().len(), 4);
    assert!(is_assistant_text(&o.history()[1], "I will deploy it"));
    assert!(is_call(&o.history()[3], "c1"));
    assert!(!o.is_ready());
}

#[test]
fn only_first_tool_call_is_actioned() {
    let mut o = Orchestrator::new(user("deploy"));
    let next = o.on_response(vec![
        ResponseSegment::ToolCall(call("c1", "a", "{}")),
        ResponseSegment::ToolCall(call("c2", "b", "{}")),
        text("ignored"),
    ]);
    assert!(matches!(next, Next::CallTool(ref r) if r.call_id == "c1" && r.tool_name == "a"));
    assert_eq!(o.history().len(), 2);
}

#[test]
fn tool_call_round_adds_call_and_result() {
    let mut o = Orchestrator::new(user("deploy"));
    let before = o.history().len() + 1;
    let next = o.on_response(vec![ResponseSegment::ToolCall(call("c1", "apply_manifest", "{}"))]);
    assert!(matches!(next, Next::CallTool(_)));
    o.on_tool_output(Ok("ok".to_string()));
    assert!(o.is_ready());
    let after = o.history().len() + 1;
    assert_eq!(after, before + 2);
    assert!(is_user_text(&o.history()[0], "deploy"));
    assert!(is_call(&o.history()[1], "c1"));
    assert!(is_result(o.current(), "c1", "ok"));
}

#[test]
fn every_call_is_followed_by_its_result() {
    let mut o = Orchestrator::new(user("go"));
    o.on_response(vec![text("a"), ResponseSegment::ToolCall(call("c1", "t", "{}"))]);
    o.on_tool_output(Ok("r1".to_string()));
    o.on_response(vec![ResponseSegment::ToolCall(call("c2", "t", "{}"))]);
    o.on_tool_output(Err(ToolError::HandlerError("boom".to_string())));
    let next = o.on_response(vec![text("x"), text("done")]);
    assert!(matches!(next, Next::Finished(FinalAnswer::Answer(ref t)) if t == "done"));
    let h = o.history();
    for i in 0..h.len() {
        if let Turn::AssistantToolCall { request } = &h[i] {
            assert!(i + 1 < h.len());
            assert!(matches!(&h[i + 1], Turn::UserToolResult { call_id, .. } if *call_id == request.call_id));
        }
    }
    assert!(is_call(&h[5], "c2"));
    assert!(is_result(&h[6], "c2", "tool failed: boom"));
    assert_eq!(h.len(), 10);
}

#[test]
fn deploy_nginx_scenario() {
    let d = manifest_dispatcher();
    let mut o = Orchestrator::new(user("deploy nginx"));
    let args = "{\"manifest\": \"apiVersion: apps/v1\\nkind: Deployment\\nmetadata:\\n  name: nginx\\n\"}";
    let next = o.on_response(vec![ResponseSegment::ToolCall(call("c1", "apply_manifest", args))]);
    let request = match next {
        Next::CallTool(r) => r,
        Next::Finished(_) => panic!("expected a tool call"),
    };
    let invocation = match d.resolve(&request.tool_name, &request.arguments) {
        Ok(inv) => inv,
        Err(_) => panic!("expected a resolved call"),
    };
    assert_eq!(invocation.tool_name, "apply_manifest");
    assert_eq!(invocation.arguments, vec!["apiVersion: apps/v1\nkind: Deployment\nmetadata:\n  name: nginx\n".to_string()]);
    o.on_tool_output(Ok("deployment applied".to_string()));
    assert!(is_result(o.current(), "c1", "deployment applied"));
    let next = o.on_response(vec![text("Done.")]);
    assert!(matches!(next, Next::Finished(FinalAnswer::Answer(ref t)) if t == "Done."));
}

#[test]
fn missing_argument_is_fed_back() {
    let d = manifest_dispatcher();
    let mut o = Orchestrator::new(user("deploy nginx"));
    o.on_response(vec![ResponseSegment::ToolCall(call("c1", "apply_manifest", "{\"other\": \"x\"}"))]);
    let outcome = d.resolve("apply_manifest", "{\"other\": \"x\"}");
    assert!(matches!(outcome, Err(ToolError::InvalidArguments(ref p)) if p == "manifest"));
    o.on_tool_output(outcome.map(|_| String::new()));
    assert!(o.is_ready());
    assert!(is_result(o.current(), "c1", "invalid arguments: missing string argument manifest"));
    let next = o.on_response(vec![text("sorry")]);
    assert!(matches!(next, Next::Finished(FinalAnswer::Answer(ref t)) if t == "sorry"));
}

#[test]
fn unknown_tool_is_fed_back() {
    let d = manifest_dispatcher();
    let mut o = Orchestrator::new(user("hi"));
    o.on_response(vec![ResponseSegment::ToolCall(call("c9", "delete_cluster", "{}"))]);
    let outcome = d.resolve("delete_cluster", "{}");
    assert!(matches!(outcome, Err(ToolError::UnknownTool(ref n)) if n == "delete_cluster"));
    o.on_tool_output(outcome.map(|_| String::new()));
    assert!(o.is_ready());
    assert!(is_result(o.current(), "c9", "unknown tool: delete_cluster"));
}

#[test]
fn error_texts() {
    assert_eq!(tool_output_text(Ok("fine".to_string())), "fine");
    assert_eq!(tool_output_text(Err(ToolError::UnknownTool("x".to_string()))), "unknown tool: x");
    assert_eq!(
        tool_output_text(Err(ToolError::InvalidArguments("m".to_string()))),
        "invalid arguments: missing string argument m"
    );
    assert_eq!(tool_output_text(Err(ToolError::HandlerError("bad".to_string()))), "tool failed: bad");
}

#[test]
fn round_limit_counts_tool_rounds() {
    let mut o = Orchestrator::with_round_limit(user("go"), 2);
    assert!(!o.round_limit_reached());
    o.on_response(vec![ResponseSegment::ToolCall(call("c1", "t", "{}"))]);
    o.on_tool_output(Ok("r".to_string()));
    assert!(!o.round_limit_reached());
    o.on_response(vec![ResponseSegment::ToolCall(call("c2", "t", "{}"))]);
    o.on_tool_output(Ok("r".to_string()));
    assert!(o.round_limit_reached());
}

#[test]
fn no_round_limit_by_default() {
    let mut o = Orchestrator::new(user("go"));
    for i in 0..5 {
        let id = format!("c{}", i);
        o.on_response(vec![ResponseSegment::ToolCall(call(&id, "t", "{}"))]);
        o.on_tool_output(Ok("r".to_string()));
        assert!(!o.round_limit_reached());
    }
    assert_eq!(o.history().len(), 10);
}

#[test]
fn zero_round_limit_is_reached_at_once() {
    let o = Orchestrator::with_round_limit(user("go"), 0);
    assert!(o.round_limit_reached());
}
