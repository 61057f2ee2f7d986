use amico::interaction::{Chat, ChatMessage, Interaction};

#[test]
fn test_build_chat() {
    let chat = Chat::new()
        .messages(vec![ChatMessage {
            content: "Hello, world!".to_string(),
            role: "user".to_string(),
        }])
        .session_id(1);

    assert_eq!(
        chat.messages,
        vec![ChatMessage {
            content: "Hello, world!".to_string(),
            role: "user".to_string(),
        }]
    );
    assert_eq!(chat.session_id, 1);
}

#[test]
fn chat_builders_keep_the_other_field() {
    let chat = Chat::new().session_id(7).messages(vec![]);
    assert_eq!(chat.session_id, 7);
    assert!(chat.messages.is_empty());
    assert_eq!(Chat::new(), Chat::default());
    let interaction = chat.clone().into_interaction();
    assert_eq!(interaction, Interaction::Chat(chat));
}
