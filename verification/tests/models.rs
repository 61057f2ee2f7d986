use amico::models::{ChatMessage, ChatRole, WithSystemPrompt};

#[test]
fn chat_message_constructors_set_role_and_content() {
    let m = ChatMessage::system("be brief");
    assert_eq!(m.role, ChatRole::System);
    assert_eq!(m.content, "be brief");
    let m = ChatMessage::user(String::from("hi"));
    assert_eq!(m.role, ChatRole::User);
    assert_eq!(m.content, "hi");
    let m = ChatMessage::assistant("hello");
    assert_eq!(m.role, ChatRole::Assistant);
    assert_eq!(m.content, "hello");
    let m = ChatMessage::tool("{}");
    assert_eq!(m.role, ChatRole::Tool);
    assert_eq!(m.content, "{}");
}

#[test]
fn with_system_prompt_keeps_model_and_prompt() {
    let w = WithSystemPrompt::new(42u32, "You are helpful.".to_string());
    assert_eq!(*w.model(), 42);
    assert_eq!(w.prompt(), "You are helpful.");
}
