use amico::providers::{rig_history, rig_message_of, RigMessage};
use amico::service::Message;
use amico::providers::{openai_model_names, OpenAI, RigProvider};

#[test]
fn rig_provider_constructors_pick_the_variant() {
    let p = RigProvider::openai(rig::providers::openai::Client::from_url("key", "http://localhost"));
    assert!(matches!(p, RigProvider::Openai(_)));
    assert_eq!(p.debug_name(), "RigProvider::Openai");
    let p = RigProvider::deepseek(rig::providers::deepseek::Client::from_url("key", "http://localhost"));
    assert_eq!(p.debug_name(), "RigProvider::Deepseek");
    let p = RigProvider::gemini(rig::providers::gemini::Client::from_url("key", "http://localhost"));
    assert_eq!(p.debug_name(), "RigProvider::Gemini");
    let p = RigProvider::anthropic(rig::providers::anthropic::Client::new(
        "key",
        "http://localhost",
        None,
        "2023-06-01",
    ));
    assert_eq!(p.debug_name(), "RigProvider::Anthropic");
}

#[test]
fn openai_serves_the_listed_models() {
    assert_eq!(
        openai_model_names(),
        vec!["gpt-4", "gpt-4o", "gpt-4o-mini", "gpt-4-turbo", "gpt-3.5-turbo"]
    );
    let provider = OpenAI::new("http://localhost", "key").unwrap();
    assert!(provider.model_available("gpt-4o"));
    assert!(provider.model_available("gpt-3.5-turbo"));
    assert!(!provider.model_available("gpt-5"));
    assert!(!provider.model_available(""));
}


fn describe(m: &RigMessage) -> String {
    match m {
        RigMessage::AssistantText(t) => format!("assistant:{t}"),
        RigMessage::UserText(t) => format!("user:{t}"),
        RigMessage::AssistantToolCall { id, name, arguments } => format!("call:{id}:{name}:{arguments}"),
        RigMessage::UserToolResult { id, content } => format!("result:{id}:{content}"),
    }
}

#[test]
fn messages_convert_to_rig_messages() {
    let args = serde_json::Value::Bool(true);
    assert_eq!(describe(&rig_message_of(&Message::user("hi".into()))), "user:hi");
    assert_eq!(describe(&rig_message_of(&Message::assistant("yo".into()))), "assistant:yo");
    assert_eq!(
        describe(&rig_message_of(&Message::tool_call("t".into(), "1".into(), args.clone()))),
        "call:1:t:true"
    );
    assert_eq!(
        describe(&rig_message_of(&Message::tool_result("t".into(), "1".into(), args))),
        "result:1:true"
    );
}

#[test]
fn history_ends_with_the_prompt() {
    let h = vec![Message::user("a".into()), Message::assistant("b".into())];
    let r: Vec<String> = rig_history(&h, "c".into()).iter().map(describe).collect();
    assert_eq!(r, vec!["user:a", "assistant:b", "user:c"]);
    let r: Vec<String> = rig_history(&Vec::new(), "only".into()).iter().map(describe).collect();
    assert_eq!(r, vec!["user:only"]);
}

#[test]
fn tool_results_are_sent_as_json_text() {
    let mut obj = serde_json::Map::new();
    obj.insert("a".to_string(), serde_json::Value::String("x".to_string()));
    let m = Message::tool_result("t".into(), "9".into(), serde_json::Value::Object(obj));
    assert_eq!(describe(&rig_message_of(&m)), "result:9:{\"a\":\"x\"}");
}
