use amico::chat::{end_turn, failure_ends_chat, read_chat_line, AudioFailure, ChatInput, TurnEnd};

#[test]
fn quit_in_any_case_with_white_space_ends_the_chat() {
    for line in ["quit", "QUIT\n", "  Quit \t\r\n", "\u{3000}qUiT"] {
        assert_eq!(read_chat_line(line), ChatInput::Quit);
    }
}

#[test]
fn other_lines_are_sent_trimmed() {
    assert_eq!(read_chat_line("  hello there \n"), ChatInput::Prompt("hello there".to_string()));
    assert_eq!(read_chat_line("quitting\n"), ChatInput::Prompt("quitting".to_string()));
    assert_eq!(read_chat_line("q uit"), ChatInput::Prompt("q uit".to_string()));
    assert_eq!(read_chat_line("qüit"), ChatInput::Prompt("qüit".to_string()));
    assert_eq!(read_chat_line(" \n"), ChatInput::Prompt(String::new()));
    assert_eq!(read_chat_line(""), ChatInput::Prompt(String::new()));
}

#[test]
fn replies_are_shown_and_failures_passed_over() {
    assert_eq!(end_turn(Ok("hi".to_string())), TurnEnd::ShowReply("hi".to_string()));
    assert_eq!(end_turn(Err("down".to_string())), TurnEnd::ReportAndContinue);
}

#[test]
fn only_playback_failures_let_the_audio_chat_go_on() {
    assert!(!failure_ends_chat(AudioFailure::Playback));
    for f in [AudioFailure::Io, AudioFailure::Recording, AudioFailure::SpeechToText, AudioFailure::TextToSpeech] {
        assert!(failure_ends_chat(f));
    }
}
