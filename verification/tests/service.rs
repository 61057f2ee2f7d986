use amico::retry_service::{RetryServiceError, RetryStep, RetryingConversation, ToolRun};
use amico::retry_service::RetryPhase;
use amico::service::{
    error_result_value, missing_tool_text, CompletionModelError, Conversation, Message, ModelChoice, Phase,
    ServiceError, Step, ToolOutcome,
};
use serde_json::Value;

fn error_object(message: &str) -> Value {
    let mut m = serde_json::Map::new();
    m.insert("result".to_string(), Value::String("error".to_string()));
    m.insert("message".to_string(), Value::String(message.to_string()));
    Value::Object(m)
}

#[test]
fn text_answer_is_the_reply() {
    let mut c = Conversation::new();
    assert!(matches!(c.start("hi".to_string()), Step::Complete));
    assert_eq!(c.current_phase(), Phase::AwaitingCompletion);
    match c.on_completion(Ok(ModelChoice::Message("hello".to_string()))) {
        Step::Reply(m) => assert_eq!(m, "hello"),
        _ => panic!("expected a reply"),
    }
    assert_eq!(
        c.messages(),
        &vec![Message::User("hi".to_string()), Message::Assistant("hello".to_string())]
    );
    assert_eq!(c.current_phase(), Phase::Idle);
}

#[test]
fn tool_calls_are_answered_then_the_model_is_asked_again() {
    let mut c = Conversation::new();
    c.start("balance?".to_string());
    let params = Value::Bool(true);
    match c.on_completion(Ok(ModelChoice::ToolCall("balance".into(), "1".into(), params.clone()))) {
        Step::CallTool(n, i, p) => {
            assert_eq!(n, "balance");
            assert_eq!(i, "1");
            assert_eq!(p, params);
        }
        _ => panic!("expected a tool call"),
    }
    assert_eq!(c.current_phase(), Phase::AwaitingTool);
    assert!(matches!(c.on_tool_outcome(ToolOutcome::Returned(Value::from(5))), Step::Complete));
    assert_eq!(
        c.messages()[2],
        Message::ToolResult("balance".into(), "1".into(), Value::from(5))
    );

    c.on_completion(Ok(ModelChoice::ToolCall("nope".into(), "2".into(), Value::Null)));
    c.on_tool_outcome(ToolOutcome::Missing);
    assert_eq!(
        c.messages()[4],
        Message::ToolResult("nope".into(), "2".into(), error_object("Tool nope not found."))
    );

    c.on_completion(Ok(ModelChoice::ToolCall("bad".into(), "3".into(), Value::Null)));
    c.on_tool_outcome(ToolOutcome::Failed("boom".into()));
    assert_eq!(
        c.messages()[6],
        Message::ToolResult("bad".into(), "3".into(), error_object("boom"))
    );

    assert!(matches!(c.on_completion(Ok(ModelChoice::Message("done".into()))), Step::Reply(_)));
    assert_eq!(c.messages().len(), 8);
}

#[test]
fn model_errors_end_the_generation() {
    let mut c = Conversation::new();
    c.start("hi".to_string());
    let e = CompletionModelError::ProviderError("down".to_string());
    match c.on_completion(Err(e.clone())) {
        Step::Fail(ServiceError::CompletionModelError(got)) => assert_eq!(got, e),
        _ => panic!("expected a failure"),
    }
    assert_eq!(c.messages(), &vec![Message::User("hi".to_string())]);
    assert_eq!(c.current_phase(), Phase::Idle);
    assert_eq!(missing_tool_text("x"), "Tool x not found.");
}

#[test]
fn retrying_service_records_prompt_with_each_exchange() {
    let mut c = RetryingConversation::new();
    match c.start("q".to_string()) {
        RetryStep::Complete(p) => assert_eq!(p, "q"),
        _ => panic!("expected a completion request"),
    }
    match c.on_completion(Ok(ModelChoice::ToolCall("t".into(), "1".into(), Value::Null)), true) {
        RetryStep::CallTool(n, _, _) => assert_eq!(n, "t"),
        _ => panic!("expected a tool call"),
    }
    assert!(c.messages().is_empty());
    match c.on_tool_run(ToolRun::Failed("oops".into())) {
        RetryStep::Complete(p) => assert_eq!(p, "q"),
        _ => panic!("expected a completion request"),
    }
    assert_eq!(
        c.messages(),
        &vec![
            Message::User("q".into()),
            Message::ToolCall("t".into(), "1".into(), Value::Null),
            Message::ToolResult("t".into(), "1".into(), error_object("oops")),
        ]
    );
    match c.on_completion(Ok(ModelChoice::Message("a".into())), true) {
        RetryStep::Reply(m) => assert_eq!(m, "a"),
        _ => panic!("expected a reply"),
    }
    assert_eq!(c.messages().len(), 5);
    assert_eq!(c.messages()[3], Message::User("q".into()));
    assert_eq!(c.messages()[4], Message::Assistant("a".into()));
}

#[test]
fn retrying_service_failures() {
    let mut c = RetryingConversation::new();
    c.start("q".to_string());
    match c.on_completion(Ok(ModelChoice::ToolCall("t".into(), "1".into(), Value::Null)), false) {
        RetryStep::Fail(e) => assert_eq!(e, RetryServiceError::ToolUnavailable("t".into())),
        _ => panic!("expected a failure"),
    }
    c.start("q".to_string());
    match c.on_completion(Err("down".into()), true) {
        RetryStep::Fail(e) => assert_eq!(e, RetryServiceError::ProviderError),
        _ => panic!("expected a failure"),
    }
    assert!(c.messages().is_empty());
}

#[test]
fn error_result_is_an_error_object() {
    assert_eq!(error_result_value("boom".to_string()), error_object("boom"));
    assert_eq!(
        serde_json::to_string(&error_result_value("x".to_string())).unwrap(),
        "{\"message\":\"x\",\"result\":\"error\"}"
    );
}

#[test]
fn missing_tool_generation_scenario() {
    // The model calls a tool that does not exist, then answers with text.
    let mut c = Conversation::new();
    c.start("p".to_string());
    c.on_completion(Ok(ModelChoice::ToolCall("t".into(), "1".into(), Value::Object(Default::default()))));
    assert!(matches!(c.on_tool_outcome(ToolOutcome::Missing), Step::Complete));
    match c.on_completion(Ok(ModelChoice::Message("done".into()))) {
        Step::Reply(m) => assert_eq!(m, "done"),
        _ => panic!("expected a reply"),
    }
    assert_eq!(
        c.messages(),
        &vec![
            Message::User("p".into()),
            Message::ToolCall("t".into(), "1".into(), Value::Object(Default::default())),
            Message::ToolResult("t".into(), "1".into(), error_object("Tool t not found.")),
            Message::Assistant("done".into()),
        ]
    );
}

#[test]
fn any_history_can_be_continued() {
    // A history with an unanswered call is accepted as it is.
    let h = vec![Message::ToolCall("t".into(), "1".into(), Value::Null)];
    let mut c = Conversation::from_history(h);
    assert_eq!(c.current_phase(), Phase::Idle);
    c.start("next".into());
    assert_eq!(c.messages().len(), 2);
}

#[test]
fn retrying_conversation_shows_its_phase() {
    let mut c = RetryingConversation::new();
    assert!(matches!(c.current_phase(), RetryPhase::Idle));
    c.start("p".into());
    assert!(matches!(c.current_phase(), RetryPhase::AwaitingCompletion(p) if p == "p"));
    c.on_completion(Ok(ModelChoice::ToolCall("t".into(), "1".into(), Value::Null)), true);
    assert!(matches!(c.current_phase(), RetryPhase::AwaitingTool(..)));
    c.on_tool_run(ToolRun::Failed("bad".into()));
    assert_eq!(
        c.messages().last().unwrap(),
        &Message::ToolResult("t".into(), "1".into(), error_object("bad"))
    );
}
