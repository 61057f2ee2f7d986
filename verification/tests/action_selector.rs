use amico::action_selector::{choose_action, choose_action_checked, selection_prompt, ActionSelectorError};
use amico::action_selector::selector_system_prompt;

#[test]
fn system_prompt_matches_the_selector_format() {
    let prompt = r#"You are an Action Selector to select actions to execute in an agent.
            You will be provided with information of the environment, the state of the current agent
             and the events that are received. Make the best decision based on these information.
              Don't output the reason of choosing the action. Just output the
            name, the parameters of the action you choose and the event ids you solved."#;
    let example_output = r#"{
            "name": "clean",
            "parameters": {
                "room": "kitchen"
            },
            "event_ids": [1, 2, 3]
        }"#;
    let actions = "clean: Clean the current room";
    let expected = format!(
        "{}\n\
            Here is an example of the output:{}\n\
            Here are the available actions:{}",
        prompt.trim(),
        example_output,
        actions
    );
    assert_eq!(selector_system_prompt(actions), expected);
}


fn actions() -> Vec<String> {
    vec!["clean".to_string(), "cook".to_string()]
}

fn failure(r: Result<amico::action_selector::SelectedAction, ActionSelectorError>) -> String {
    match r {
        Err(ActionSelectorError::SelectingActionFailed(m)) => m,
        Ok(_) => panic!("an action was selected"),
    }
}

#[test]
fn selection_prompt_lists_context_and_events() {
    let p = selection_prompt("a kitchen", "[{\"id\":1}]");
    assert_eq!(
        p,
        "Instruction - Return the correct action for the current state and return the id of the events that is going to be solved.\nContext - a kitchen\nReceived Events - [{\"id\":1}]"
    );
}

#[test]
fn reply_selects_named_action_with_ids() {
    let reply = r#"{"name": "clean", "parameters": {"room": "kitchen"}, "event_ids": [1, 2, 3]}"#;
    let a = choose_action(Ok(reply.to_string()), &actions()).ok().unwrap();
    assert_eq!(a.name, "clean");
    assert_eq!(a.event_ids, vec![1u32, 2, 3]);
    assert_eq!(a.parameters["room"], serde_json::Value::String("kitchen".to_string()));
}

#[test]
fn event_ids_are_cut_to_32_bits() {
    let reply = r#"{"name": "cook", "parameters": {}, "event_ids": [4294967297]}"#;
    let a = choose_action(Ok(reply.to_string()), &actions()).ok().unwrap();
    assert_eq!(a.event_ids, vec![1u32]);
}

#[test]
fn failed_generation_is_reported() {
    let m = failure(choose_action(Err("timeout".to_string()), &actions()));
    assert_eq!(m, "Failed to generate text: timeout");
}

#[test]
fn reply_that_is_not_json_is_reported() {
    let m = failure(choose_action(Ok("not json".to_string()), &actions()));
    let serde_message = serde_json::from_str::<serde_json::Value>("not json").unwrap_err().to_string();
    assert_eq!(m, format!("Failed to parse the response as JSON: {serde_message}"));
}

#[test]
fn reply_without_an_action_is_refused() {
    let cases = [
        r#"{"name": "fly", "parameters": {}, "event_ids": []}"#,
        r#"{"name": "clean", "parameters": [], "event_ids": []}"#,
        r#"{"name": "clean", "parameters": {}}"#,
        r#"{"parameters": {}, "event_ids": [1]}"#,
        r#"{"name": "fly", "parameters": {}, "event_ids": ["1"]}"#,
        r#"[1, 2]"#,
    ];
    for reply in cases {
        let m = failure(choose_action(Ok(reply.to_string()), &actions()));
        assert_eq!(m, "Failed to select an action from the response");
    }
}

#[test]
fn event_id_that_is_not_an_unsigned_integer_breaks_the_selector() {
    for reply in [
        r#"{"name": "clean", "parameters": {}, "event_ids": [-1]}"#,
        r#"{"name": "clean", "parameters": {}, "event_ids": [1, "2"]}"#,
        r#"{"name": "clean", "parameters": {}, "event_ids": [1.5]}"#,
    ] {
        assert!(choose_action_checked(Ok(reply.to_string()), &actions()).is_none());
    }
    let ok = r#"{"name": "clean", "parameters": {"a": 1}, "event_ids": [2]}"#;
    let a = choose_action_checked(Ok(ok.to_string()), &actions()).unwrap().ok().unwrap();
    assert_eq!(a.parameters, serde_json::from_str::<serde_json::Value>(r#"{"a": 1}"#).unwrap());
}
