use std::time::Duration;

use amico::agent_event::{AgentEvent, AgentEventError, EventContent, Timestamp};
use amico::control::Control;
use amico::interaction::Chat;
use chrono::Utc;
use serde_json::Value;

#[test]
fn test_build_event() {
    let expiry = Utc::now() + Duration::from_secs(10);
    let expiry_time = Timestamp {
        secs: expiry.timestamp(),
        nanos: expiry.timestamp_subsec_nanos(),
    };
    let event = AgentEvent::new("test", "TestSource")
        .content(Value::String("test".to_string()))
        .expire_at(expiry_time);

    assert_eq!(event.name, "test");
    assert_eq!(event.source, "TestSource");
    assert_eq!(
        event.content,
        Some(EventContent::Content(Value::String("test".to_string())))
    );
    assert_eq!(event.expiry_time, Some(expiry_time));
}

#[test]
fn test_content_with_type() {
    let event = AgentEvent::new("test", "TestSource")
        .with_content(("test".to_string(), 123u32))
        .unwrap();

    let content = event.parse_content::<(String, u32)>().unwrap();

    assert_eq!(content.0, "test");
    assert_eq!(content.1, 123);
}

#[test]
fn new_event_is_empty() {
    let event = AgentEvent::new("test", "TestSource");
    assert_eq!(event.id, 0);
    assert_eq!(event.content, None);
    assert_eq!(event.expiry_time, None);
}

#[test]
fn later_content_replaces_earlier() {
    let event = AgentEvent::new("test", "TestSource")
        .content(Value::String("test".to_string()))
        .control(Control::Quit);
    assert_eq!(event.content, Some(EventContent::Control(Control::Quit)));

    let event = event.interaction(Chat::new().into_interaction());
    assert_eq!(event.get_interaction(), Some(&Chat::new().into_interaction()));

    let event = AgentEvent::new("test", "TestSource").control(Control::Quit);
    assert_eq!(event.get_interaction(), None);
}

#[test]
fn parse_content_errors() {
    let event = AgentEvent::new("test", "TestSource");
    match event.parse_content::<u32>() {
        Err(AgentEventError::ContentError(m)) => assert_eq!(m, "Content is None"),
        _ => panic!("expected a content error"),
    }
    let event = event.control(Control::Quit);
    match event.parse_content::<u32>() {
        Err(AgentEventError::ContentError(m)) => assert_eq!(m, "Content is an AgentInstruction"),
        _ => panic!("expected a content error"),
    }
    let event = event.content(Value::String("not a number".to_string()));
    assert!(matches!(event.parse_content::<u32>(), Err(AgentEventError::SerdeJson(_))));
}

#[test]
fn with_content_value_reports_conversion_errors() {
    let bad = serde_json::from_str::<Value>("{").unwrap_err();
    let result = AgentEvent::new("test", "TestSource").with_content_value(Err(bad));
    assert!(matches!(result, Err(AgentEventError::SerdeJson(_))));
}

#[test]
fn lifetime_sets_an_expiry_time() {
    let before = Utc::now().timestamp();
    let event = AgentEvent::new("test", "TestSource").lifetime(Duration::from_secs(10));
    let expiry = event.expiry_time.unwrap();
    assert!(expiry.secs >= before + 10 && expiry.secs <= before + 12);
    assert!(expiry.nanos < 1_000_000_000);

    let event = AgentEvent::new("test", "TestSource").lifetime_within_range(Duration::from_secs(u64::MAX));
    assert_eq!(event.expiry_time, None);
    let event = AgentEvent::new("test", "TestSource").lifetime_within_range(Duration::from_secs(60));
    assert!(event.expiry_time.is_some());
}

#[test]
fn lifetime_from_adds_and_carries_nanoseconds() {
    let now = Timestamp { secs: 100, nanos: 700_000_000 };
    let event = AgentEvent::new("test", "TestSource").lifetime_from(now, Duration::new(5, 400_000_000));
    assert_eq!(event.expiry_time, Some(Timestamp { secs: 106, nanos: 100_000_000 }));
    let event = AgentEvent::new("test", "TestSource").lifetime_from(now, Duration::new(5, 200_000_000));
    assert_eq!(event.expiry_time, Some(Timestamp { secs: 105, nanos: 900_000_000 }));
    // A later lifetime replaces an earlier expiry time.
    let event = event.lifetime_from(Timestamp { secs: 0, nanos: 0 }, Duration::from_secs(1));
    assert_eq!(event.expiry_time, Some(Timestamp { secs: 1, nanos: 0 }));
}

#[test]
fn lifetimes_up_to_chronos_longest_span_are_taken() {
    let now = Timestamp { secs: 0, nanos: 0 };
    let big = Duration::new(9_223_372_036_854_775, 807_000_000);
    let event = AgentEvent::new("test", "TestSource").lifetime_from(now, big);
    assert_eq!(event.expiry_time, Some(Timestamp { secs: 9_223_372_036_854_775, nanos: 807_000_000 }));
    let too_long = Duration::new(9_223_372_036_854_775, 808_000_000);
    let event = AgentEvent::new("test", "TestSource").lifetime_within_range(too_long);
    assert_eq!(event.expiry_time, None);
    let event = AgentEvent::new("test", "TestSource").lifetime_within_range(Duration::from_secs(9_000_000_000_000));
    assert!(event.expiry_time.is_some());
}
