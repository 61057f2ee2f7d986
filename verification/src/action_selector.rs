//! The standard action selector: its system prompt, the prompt it sends with
//! the received events, and how it reads the action out of the model's reply.

use vstd::prelude::*;
use vstd::string::*;

use serde_json::Value;

use crate::json::{
    as_array, as_str, as_u64, is_object, json_is_object, json_items, json_member, json_parse, json_str,
    json_u64, member, parse_json,
};

verus! {

/// The instruction that opens the action selector's system prompt (trimmed of
/// surrounding whitespace).
pub open spec fn selector_instruction() -> Seq<char> {
    "You are an Action Selector to select actions to execute in an agent.\n            You will be provided with information of the environment, the state of the current agent\n             and the events that are received. Make the best decision based on these information.\n              Don't output the reason of choosing the action. Just output the\n            name, the parameters of the action you choose and the event ids you solved."@
}

/// The example output shown in the action selector's system prompt.
pub open spec fn selector_example_output() -> Seq<char> {
    "{\n            \"name\": \"clean\",\n            \"parameters\": {\n                \"room\": \"kitchen\"\n            },\n            \"event_ids\": [1, 2, 3]\n        }"@
}

/// The system prompt of the action selector, given the description of the
/// available actions: the instruction, the example output, then the actions.
pub fn selector_system_prompt(actions_description: &str) -> (r: String)
    ensures
        r@ == selector_instruction() + "\nHere is an example of the output:"@
            + selector_example_output() + "\nHere are the available actions:"@
            + actions_description@,
{
    let mut r = String::from_str("You are an Action Selector to select actions to execute in an agent.\n            You will be provided with information of the environment, the state of the current agent\n             and the events that are received. Make the best decision based on these information.\n              Don't output the reason of choosing the action. Just output the\n            name, the parameters of the action you choose and the event ids you solved.");
    r.append("\nHere is an example of the output:");
    r.append("{\n            \"name\": \"clean\",\n            \"parameters\": {\n                \"room\": \"kitchen\"\n            },\n            \"event_ids\": [1, 2, 3]\n        }");
    r.append("\nHere are the available actions:");
    r.append(actions_description);
    r
}

/// The prompt that asks the model to select an action: the instruction, the
/// description of the environment, and the received events as JSON text.
pub fn selection_prompt(environment: &str, events_json: &str) -> (r: String)
    ensures
        r@ == "Instruction - Return the correct action for the current state and return the id of the events that is going to be solved.\nContext - "@
            + environment@ + "\nReceived Events - "@ + events_json@,
{
    let mut r = String::from_str("Instruction - Return the correct action for the current state and return the id of the events that is going to be solved.\nContext - ");
    r.append(environment);
    r.append("\nReceived Events - ");
    r.append(events_json);
    r
}

/// An error of the action selector.
#[derive(Debug, Clone, PartialEq, Eq)]
pub enum ActionSelectorError {
    /// No action could be selected, for the reason given.
    SelectingActionFailed(String),
}

/// An action selected from the model's reply: its name, its parameters, and
/// the ids of the events it solves.
pub struct SelectedAction {
    pub name: String,
    pub parameters: Value,
    pub event_ids: Vec<u32>,
}

/// The `name` of a reply, when it is a string.
pub open spec fn reply_name(j: Value) -> Option<Seq<char>> {
    match json_member(j, "name"@) {
        Some(v) => json_str(v),
        None => None,
    }
}

/// The `parameters` of a reply, when they are an object.
pub open spec fn reply_parameters(j: Value) -> Option<Value> {
    match json_member(j, "parameters"@) {
        Some(v) => if json_is_object(v) {
            Some(v)
        } else {
            None
        },
        None => None,
    }
}

/// The items of the `event_ids` of a reply, when they are an array.
pub open spec fn reply_ids(j: Value) -> Option<Seq<Value>> {
    match json_member(j, "event_ids"@) {
        Some(v) => json_items(v),
        None => None,
    }
}

/// Whether the reply names an available action, with an object of parameters
/// and an array of event ids.
pub open spec fn names_action(j: Value, actions: Seq<Seq<char>>) -> bool {
    &&& reply_name(j) is Some
    &&& reply_parameters(j) is Some
    &&& reply_ids(j) is Some
    &&& actions.contains(reply_name(j)->0)
}

/// Whether every item is an unsigned 64-bit integer.
pub open spec fn all_u64(ids: Seq<Value>) -> bool {
    forall|i: int| 0 <= i < ids.len() ==> (#[trigger] json_u64(ids[i])) is Some
}

/// The event ids as the selector returns them: each cut to 32 bits.
pub open spec fn event_ids_of(ids: Seq<Value>) -> Seq<u32> {
    ids.map_values(|x: Value| (json_u64(x)->0) as u32)
}

/// Whether the reply text makes the selector panic: it names an available
/// action, and one of its event ids is not an unsigned integer.
pub open spec fn reply_breaks_selector(text: Seq<char>, actions: Seq<Seq<char>>) -> bool {
    json_parse(text) matches Ok(j) && names_action(j, actions) && !all_u64(reply_ids(j)->0)
}

/// The names of the available actions.
pub open spec fn names_of(actions: Seq<String>) -> Seq<Seq<char>> {
    actions.map_values(|s: String| s@)
}

/// The message of an error of the selector.
pub open spec fn failure_message(e: ActionSelectorError) -> Seq<char> {
    match e {
        ActionSelectorError::SelectingActionFailed(m) => m@,
    }
}

/// The error when the reply selects no action.
pub open spec fn no_action_message() -> Seq<char> {
    "Failed to select an action from the response"@
}

/// What the selector makes of a reply, for every reply (see `choose_action`).
pub open spec fn selection_of(
    response: Result<String, String>,
    actions: Seq<Seq<char>>,
    r: Result<SelectedAction, ActionSelectorError>,
) -> bool {
    match response {
        Err(e) => r matches Err(err) && failure_message(err) == "Failed to generate text: "@ + e@,
        Ok(text) => match json_parse(text@) {
            Err(m) => r matches Err(err) && failure_message(err)
                == "Failed to parse the response as JSON: "@ + m,
            Ok(j) => if names_action(j, actions) {
                r matches Ok(a) && a.name@ == reply_name(j)->0 && a.parameters == reply_parameters(
                    j,
                )->0 && a.event_ids@ == event_ids_of(reply_ids(j)->0)
            } else {
                r matches Err(err) && failure_message(err) == no_action_message()
            },
        },
    }
}

/// Whether an action of the given name is available.
fn has_action(actions: &Vec<String>, name: &String) -> (r: bool)
    ensures
        r == names_of(actions@).contains(name@),
{
    let mut i: usize = 0;
    while i < actions.len()
        invariant
            i <= actions@.len(),
            forall|j: int| 0 <= j < i ==> actions@[j]@ != name@,
        decreases actions@.len() - i,
    {
        if actions[i] == *name {
            proof {
                assert(names_of(actions@)[i as int] == name@);
            }
            return true;
        }
        i = i + 1;
    }
    proof {
        if names_of(actions@).contains(name@) {
            let j = choose|j: int| 0 <= j < names_of(actions@).len() && names_of(actions@)[j] == name@;
            assert(actions@[j]@ == name@);
        }
    }
    false
}

/// The event ids cut to 32 bits, or `None` when one of them is not an unsigned
/// integer.
fn collect_event_ids(ids: &Vec<Value>) -> (r: Option<Vec<u32>>)
    ensures
        match r {
            Some(v) => all_u64(ids@) && v@ == event_ids_of(ids@),
            None => !all_u64(ids@),
        },
{
    let mut out: Vec<u32> = Vec::new();
    let mut i: usize = 0;
    while i < ids.len()
        invariant
            i <= ids@.len(),
            out@.len() == i,
            forall|j: int|
                0 <= j < i ==> (#[trigger] json_u64(ids@[j])) is Some && out@[j] == (json_u64(
                    ids@[j],
                )->0) as u32,
        decreases ids@.len() - i,
    {
        match as_u64(&ids[i]) {
            Some(x) => {
                out.push(x as u32);
            },
            None => {
                return None;
            },
        }
        i = i + 1;
    }
    proof {
        assert(out@ =~= event_ids_of(ids@));
    }
    Some(out)
}

/// The reply's name, parameters and event ids, when it names an available
/// action with an object of parameters and an array of ids.
fn action_fields(j: &Value, actions: &Vec<String>) -> (r: Option<(String, Value, Vec<Value>)>)
    ensures
        match r {
            Some((n, p, ids)) => names_action(*j, names_of(actions@)) && n@ == reply_name(*j)->0
                && p == reply_parameters(*j)->0 && ids@ == reply_ids(*j)->0,
            None => !names_action(*j, names_of(actions@)),
        },
{
    let name = match member(j, "name") {
        Some(v) => match as_str(&v) {
            Some(n) => n,
            None => {
                return None;
            },
        },
        None => {
            return None;
        },
    };
    let parameters = match member(j, "parameters") {
        Some(v) => {
            if !is_object(&v) {
                return None;
            }
            v
        },
        None => {
            return None;
        },
    };
    let ids = match member(j, "event_ids") {
        Some(v) => match as_array(&v) {
            Some(items) => items,
            None => {
                return None;
            },
        },
        None => {
            return None;
        },
    };
    if !has_action(actions, &name) {
        return None;
    }
    Some((name, parameters, ids))
}

/// What the selector makes of a reply; `None` where an event id of a reply
/// that names an available action is not an unsigned integer.
fn select(response: Result<String, String>, actions: &Vec<String>) -> (r: Option<
    Result<SelectedAction, ActionSelectorError>,
>)
    ensures
        match r {
            Some(res) => !(response matches Ok(t) && reply_breaks_selector(t@, names_of(actions@)))
                && selection_of(response, names_of(actions@), res),
            None => response matches Ok(t) && reply_breaks_selector(t@, names_of(actions@)),
        },
{
    let text = match response {
        Ok(text) => text,
        Err(e) => {
            let mut m = String::from_str("Failed to generate text: ");
            m.append(e.as_str());
            return Some(Err(ActionSelectorError::SelectingActionFailed(m)));
        },
    };
    let j = match parse_json(text.as_str()) {
        Ok(j) => j,
        Err(e) => {
            let mut m = String::from_str("Failed to parse the response as JSON: ");
            m.append(e.as_str());
            return Some(Err(ActionSelectorError::SelectingActionFailed(m)));
        },
    };
    match action_fields(&j, actions) {
        Some((name, parameters, ids)) => match collect_event_ids(&ids) {
            Some(event_ids) => Some(Ok(SelectedAction { name, parameters, event_ids })),
            None => None,
        },
        None => Some(
            Err(
                ActionSelectorError::SelectingActionFailed(
                    String::from_str("Failed to select an action from the response"),
                ),
            ),
        ),
    }
}

/// Reads the action out of the model's reply to `selection_prompt`, given the
/// names of the available actions (see `selection_of`):
///
/// - a failed reply gives `Failed to generate text: ` and its error;
/// - a reply that is not JSON gives `Failed to parse the response as JSON: `
///   and serde's message;
/// - a reply whose `name` is an available action, whose `parameters` is an
///   object and whose `event_ids` is an array of unsigned integers selects that
///   action with those parameters and those ids, in order, each cut to 32
///   bits;
/// - any other reply gives `Failed to select an action from the response`.
///
/// A reply that names an available action with an event id that is not an
/// unsigned integer makes the selector panic; the `requires` leaves it out
/// (`choose_action_checked` takes every reply).
pub fn choose_action(response: Result<String, String>, actions: &Vec<String>) -> (r: Result<
    SelectedAction,
    ActionSelectorError,
>)
    requires
        !(response matches Ok(t) && reply_breaks_selector(t@, names_of(actions@))),
    ensures
        selection_of(response, names_of(actions@), r),
{
    match select(response, actions) {
        Some(r) => r,
        None => {
            proof {
                assert(false);
            }
            Err(
                ActionSelectorError::SelectingActionFailed(
                    String::from_str("Failed to select an action from the response"),
                ),
            )
        },
    }
}

/// `choose_action` for every reply: `None` exactly for a reply that names an
/// available action with an event id that is not an unsigned integer, on
/// which the selector panics.
pub fn choose_action_checked(response: Result<String, String>, actions: &Vec<String>) -> (r: Option<
    Result<SelectedAction, ActionSelectorError>,
>)
    ensures
        r is None == (response matches Ok(t) && reply_breaks_selector(t@, names_of(actions@))),
        r matches Some(res) ==> selection_of(response, names_of(actions@), res),
{
    select(response, actions)
}

} // verus!
