//! The decisions of an in-memory completion service: it keeps the chat
//! history, asks the completion model, runs the tools the model calls, and
//! gives the model each tool's result until the model answers with text.
//!
//! The service itself (the model, the tools, the awaiting) is the caller's
//! part: a `Conversation` says at each step what to do next (`Step`), and is
//! told what came of it.

use vstd::prelude::*;
use vstd::string::*;

use serde_json::Value;

verus! {

/// The JSON string with the given text (`Value::String`).
pub uninterp spec fn json_string_of(s: Seq<char>) -> Value;

/// The JSON object with the given entries, in order (`Value::Object` of the
/// entries collected into a map).
pub uninterp spec fn json_object_of(entries: Seq<(Seq<char>, Value)>) -> Value;

/// `serde_json::Value::String`: the JSON string with the given text.
///
/// Claimed: the result is `json_string_of` the text.
#[verifier::external_body]
fn json_string(s: String) -> (r: Value)
    ensures
        r == json_string_of(s@),
{
    Value::String(s)
}

/// `serde_json::Value::Object`: the JSON object with the given entries.
///
/// Claimed: the result is `json_object_of` the entries, each key taken as its
/// text.
#[verifier::external_body]
fn json_object(entries: Vec<(String, Value)>) -> (r: Value)
    ensures
        r == json_object_of(entries@.map_values(|e: (String, Value)| (e.0@, e.1))),
{
    Value::Object(entries.into_iter().collect())
}

/// A message of the chat history.
#[derive(Debug, Clone, PartialEq)]
pub enum Message {
    /// A text from the assistant (the model).
    Assistant(String),
    /// A text from the user.
    User(String),
    /// A call of a tool by the model: tool name, call id, parameters.
    ToolCall(String, String, Value),
    /// The result of a tool call: tool name, call id, result.
    ToolResult(String, String, Value),
}

impl Message {
    /// A user message.
    pub fn user(text: String) -> (r: Self)
        ensures
            r == Message::User(text),
    {
        Message::User(text)
    }

    /// An assistant message.
    pub fn assistant(text: String) -> (r: Self)
        ensures
            r == Message::Assistant(text),
    {
        Message::Assistant(text)
    }

    /// A tool call message.
    pub fn tool_call(name: String, id: String, params: Value) -> (r: Self)
        ensures
            r == Message::ToolCall(name, id, params),
    {
        Message::ToolCall(name, id, params)
    }

    /// A tool result message.
    pub fn tool_result(name: String, id: String, result: Value) -> (r: Self)
        ensures
            r == Message::ToolResult(name, id, result),
    {
        Message::ToolResult(name, id, result)
    }
}

/// What a completion model chose to answer.
#[derive(Debug, Clone, PartialEq)]
pub enum ModelChoice {
    /// A text message.
    Message(String),
    /// A call of a tool: tool name, call id, parameters.
    ToolCall(String, String, Value),
}

/// An error of a completion model.
#[derive(Debug, Clone, PartialEq, Eq)]
pub enum CompletionModelError {
    /// The provider of the model reported an error, with this text.
    ProviderError(String),
}

/// An error of the completion service.
#[derive(Debug, Clone, PartialEq, Eq)]
pub enum ServiceError {
    /// The completion model failed.
    CompletionModelError(CompletionModelError),
}

/// What came of running a tool.
pub enum ToolOutcome {
    /// The tool ran and returned this result.
    Returned(Value),
    /// The tool ran and failed with an error of this text.
    Failed(String),
    /// No tool of the requested name exists.
    Missing,
}

/// What the service does next.
pub enum Step {
    /// Ask the completion model, with the history as it stands.
    Complete,
    /// Run a tool: tool name, call id, parameters.
    CallTool(String, String, Value),
    /// Generation is over: the reply is this text.
    Reply(String),
    /// Generation failed.
    Fail(ServiceError),
}

/// Where a conversation stands.
#[derive(Debug, Clone, Copy, PartialEq, Eq, Structural)]
pub enum Phase {
    /// No generation is running.
    Idle,
    /// The completion model has been asked and its answer is awaited.
    AwaitingCompletion,
    /// A tool has been called and its outcome is awaited.
    AwaitingTool,
}

/// The error object given to the model for a failed or missing tool:
/// `{"result": "error", "message": <message>}`.
pub open spec fn error_object(message: Seq<char>) -> Value {
    json_object_of(
        seq![("result"@, json_string_of("error"@)), ("message"@, json_string_of(message))],
    )
}

/// The result given to the model for a tool outcome: the returned value, or the
/// error object with the failure's text, or for a missing tool `name` the error
/// object saying it was not found.
pub open spec fn outcome_result(outcome: ToolOutcome, name: Seq<char>) -> Value {
    match outcome {
        ToolOutcome::Returned(v) => v,
        ToolOutcome::Failed(m) => error_object(m@),
        ToolOutcome::Missing => error_object(missing_tool_message(name)),
    }
}

/// The text of the error result given to the model when the tool `name` does
/// not exist.
pub open spec fn missing_tool_message(name: Seq<char>) -> Seq<char> {
    "Tool "@ + name + " not found."@
}

/// Whether `m` is a tool result for the call `name`, `id`.
pub open spec fn answers(m: Message, name: String, id: String) -> bool {
    m matches Message::ToolResult(n, i, _) && n == name && i == id
}

/// Whether every tool call of the history is followed at once by a result of
/// that call; `open_call` allows the last message to be a call still awaiting
/// its result.
pub open spec fn calls_answered(h: Seq<Message>, open_call: bool) -> bool {
    forall|i: int|
        0 <= i < h.len() ==> match #[trigger] h[i] {
            Message::ToolCall(name, id, _) => if i + 1 < h.len() {
                answers(h[i + 1], name, id)
            } else {
                open_call
            },
            _ => true,
        }
}

/// The chat history of a completion service and where its generation stands.
pub struct Conversation {
    history: Vec<Message>,
    phase: Phase,
}

impl Conversation {
    /// The messages of the history.
    pub closed spec fn history(&self) -> Seq<Message> {
        self.history@
    }

    /// Where the generation stands.
    pub closed spec fn phase(&self) -> Phase {
        self.phase
    }

    /// The tool call awaiting its outcome (meaningful when awaiting a tool).
    pub open spec fn awaited_call(&self) -> Message {
        self.history().last()
    }

    /// The invariant: while a tool runs, the last message is its call.
    pub open spec fn wf(&self) -> bool {
        self.phase() == Phase::AwaitingTool ==> self.history().len() > 0
            && self.awaited_call() is ToolCall
    }

    /// Whether every tool call of the history is answered at once, but for the
    /// call whose tool is running. Every step keeps it.
    pub open spec fn answered(&self) -> bool {
        calls_answered(self.history(), self.phase() == Phase::AwaitingTool)
    }

    /// An idle conversation with an empty history.
    pub fn new() -> (r: Self)
        ensures
            r.wf(),
            r.answered(),
            r.history() == Seq::<Message>::empty(),
            r.phase() == Phase::Idle,
    {
        Conversation { history: Vec::new(), phase: Phase::Idle }
    }

    /// An idle conversation that continues the given history.
    pub fn from_history(history: Vec<Message>) -> (r: Self)
        ensures
            r.wf(),
            r.answered() == calls_answered(history@, false),
            r.history() == history@,
            r.phase() == Phase::Idle,
    {
        Conversation { history, phase: Phase::Idle }
    }

    /// The messages of the history.
    pub fn messages(&self) -> (r: &Vec<Message>)
        ensures
            r@ == self.history(),
    {
        &self.history
    }

    /// Where the generation stands.
    pub fn current_phase(&self) -> (r: Phase)
        ensures
            r == self.phase(),
    {
        self.phase
    }

    /// Starts generating a reply to `prompt`: appends the prompt as a user
    /// message and asks the model.
    pub fn start(&mut self, prompt: String) -> (r: Step)
        requires
            old(self).wf(),
            old(self).phase() == Phase::Idle,
        ensures
            final(self).wf(),
            old(self).answered() ==> final(self).answered(),
            final(self).history() == old(self).history().push(Message::User(prompt)),
            final(self).phase() == Phase::AwaitingCompletion,
            r is Complete,
    {
        let ghost m = Message::User(prompt);
        self.history.push(Message::user(prompt));
        proof {
            if old(self).answered() {
                lemma_push_not_call(old(self).history(), m, false);
            }
        }
        self.phase = Phase::AwaitingCompletion;
        Step::Complete
    }

    /// Takes the model's answer: a text message is appended to the history and
    /// is the reply; a tool call is appended and the tool is to be run; an
    /// error ends the generation with that error, the history unchanged.
    pub fn on_completion(&mut self, answer: Result<ModelChoice, CompletionModelError>) -> (r: Step)
        requires
            old(self).wf(),
            old(self).phase() == Phase::AwaitingCompletion,
        ensures
            final(self).wf(),
            old(self).answered() ==> final(self).answered(),
            match answer {
                Ok(ModelChoice::Message(msg)) => {
                    &&& final(self).history() == old(self).history().push(Message::Assistant(msg))
                    &&& final(self).phase() == Phase::Idle
                    &&& r == Step::Reply(msg)
                },
                Ok(ModelChoice::ToolCall(name, id, params)) => {
                    &&& final(self).history() == old(self).history().push(
                        Message::ToolCall(name, id, params),
                    )
                    &&& final(self).phase() == Phase::AwaitingTool
                    &&& r == Step::CallTool(name, id, params)
                },
                Err(e) => {
                    &&& final(self).history() == old(self).history()
                    &&& final(self).phase() == Phase::Idle
                    &&& r == Step::Fail(ServiceError::CompletionModelError(e))
                },
            },
    {
        match answer {
            Ok(ModelChoice::Message(msg)) => {
                let ghost m = Message::Assistant(msg);
                self.history.push(Message::assistant(msg.clone()));
                proof {
                    if old(self).answered() {
                        lemma_push_not_call(old(self).history(), m, false);
                    }
                }
                self.phase = Phase::Idle;
                Step::Reply(msg)
            },
            Ok(ModelChoice::ToolCall(name, id, params)) => {
                let ghost m = Message::ToolCall(name, id, params);
                self.history.push(
                    Message::tool_call(name.clone(), id.clone(), clone_value(&params)),
                );
                proof {
                    if old(self).answered() {
                        lemma_push_call(old(self).history(), m);
                    }
                }
                self.phase = Phase::AwaitingTool;
                Step::CallTool(name, id, params)
            },
            Err(e) => {
                self.phase = Phase::Idle;
                Step::Fail(ServiceError::CompletionModelError(e))
            },
        }
    }

    /// Takes the outcome of the awaited tool call: appends its result (the
    /// returned value, or an error object for a failed or missing tool, see
    /// `outcome_result`) and asks the model again.
    pub fn on_tool_outcome(&mut self, outcome: ToolOutcome) -> (r: Step)
        requires
            old(self).wf(),
            old(self).phase() == Phase::AwaitingTool,
        ensures
            final(self).wf(),
            final(self).phase() == Phase::AwaitingCompletion,
            r is Complete,
            final(self).history().len() == old(self).history().len() + 1,
            final(self).history().drop_last() == old(self).history(),
            answers(
                final(self).history().last(),
                old(self).awaited_call()->ToolCall_0,
                old(self).awaited_call()->ToolCall_1,
            ),
            final(self).history().last()->ToolResult_2 == outcome_result(
                outcome,
                old(self).awaited_call()->ToolCall_0@,
            ),
            old(self).answered() ==> final(self).answered(),
    {
        let n = self.history.len();
        let (name, id) = match &self.history[n - 1] {
            Message::ToolCall(name, id, _) => (name.clone(), id.clone()),
            _ => {
                proof {
                    assert(false);
                }
                (String::new(), String::new())
            },
        };
        let result = match outcome {
            ToolOutcome::Returned(v) => v,
            ToolOutcome::Failed(message) => error_result_value(message),
            ToolOutcome::Missing => error_result_value(missing_tool_text(name.as_str())),
        };
        let ghost m = Message::ToolResult(name, id, result);
        self.history.push(Message::tool_result(name, id, result));
        proof {
            if old(self).answered() {
                lemma_push_result(old(self).history(), m);
            }
            assert(self.history@.drop_last() =~= old(self).history());
        }
        self.phase = Phase::AwaitingCompletion;
        Step::Complete
    }
}

/// `Value::clone`, which `serde_json` derives (specified in `agent_event`).
fn clone_value(v: &Value) -> (r: Value)
    ensures
        r == *v,
{
    v.clone()
}

/// The text of the error result for a missing tool (see `missing_tool_message`).
pub fn missing_tool_text(name: &str) -> (r: String)
    ensures
        r@ == missing_tool_message(name@),
{
    let mut r = String::from_str("Tool ");
    r.append(name);
    r.append(" not found.");
    r
}

/// The error object given to the model for a failed or missing tool (see
/// `error_object`).
pub fn error_result_value(message: String) -> (r: Value)
    ensures
        r == error_object(message@),
{
    let ghost m = message@;
    let mut entries: Vec<(String, Value)> = Vec::new();
    entries.push((String::from_str("result"), json_string(String::from_str("error"))));
    entries.push((String::from_str("message"), json_string(message)));
    proof {
        assert(entries@.map_values(|e: (String, Value)| (e.0@, e.1)) =~= seq![
            ("result"@, json_string_of("error"@)),
            ("message"@, json_string_of(m)),
        ]);
    }
    json_object(entries)
}

proof fn lemma_push_not_call(h: Seq<Message>, m: Message, open_call: bool)
    requires
        calls_answered(h, false),
        !(m is ToolCall),
    ensures
        calls_answered(h.push(m), open_call),
{
    let h2 = h.push(m);
    assert forall|i: int| 0 <= i < h2.len() implies match #[trigger] h2[i] {
        Message::ToolCall(name, id, _) => if i + 1 < h2.len() {
            answers(h2[i + 1], name, id)
        } else {
            open_call
        },
        _ => true,
    } by {
        if i < h.len() {
            assert(h2[i] == h[i]);
            if i + 1 < h.len() {
                assert(h2[i + 1] == h[i + 1]);
            }
        }
    }
}

proof fn lemma_push_call(h: Seq<Message>, m: Message)
    requires
        calls_answered(h, false),
        m is ToolCall,
    ensures
        calls_answered(h.push(m), true),
{
    let h2 = h.push(m);
    assert forall|i: int| 0 <= i < h2.len() implies match #[trigger] h2[i] {
        Message::ToolCall(name, id, _) => if i + 1 < h2.len() {
            answers(h2[i + 1], name, id)
        } else {
            true
        },
        _ => true,
    } by {
        if i < h.len() {
            assert(h2[i] == h[i]);
            if i + 1 < h.len() {
                assert(h2[i + 1] == h[i + 1]);
            }
        }
    }
}

proof fn lemma_push_result(h: Seq<Message>, m: Message)
    requires
        calls_answered(h, true),
        h.len() > 0,
        h.last() matches Message::ToolCall(name, id, _) && answers(m, name, id),
    ensures
        calls_answered(h.push(m), false),
{
    let h2 = h.push(m);
    assert forall|i: int| 0 <= i < h2.len() implies match #[trigger] h2[i] {
        Message::ToolCall(name, id, _) => if i + 1 < h2.len() {
            answers(h2[i + 1], name, id)
        } else {
            false
        },
        _ => true,
    } by {
        if i < h.len() {
            assert(h2[i] == h[i]);
            if i + 1 < h.len() {
                assert(h2[i + 1] == h[i + 1]);
            }
        }
    }
}

/// A generation answered with text at once adds the prompt and the reply to a
/// history whose tool calls are all answered, and they stay all answered.
pub proof fn law_text_exchange(h: Seq<Message>, prompt: String, reply: String)
    requires
        calls_answered(h, false),
    ensures
        calls_answered(h.push(Message::User(prompt)).push(Message::Assistant(reply)), false),
{
    lemma_push_not_call(h, Message::User(prompt), false);
    lemma_push_not_call(h.push(Message::User(prompt)), Message::Assistant(reply), false);
}

/// A tool call followed by its result keeps every tool call of the history
/// answered.
pub proof fn law_tool_exchange(
    h: Seq<Message>,
    name: String,
    id: String,
    params: Value,
    result: Value,
)
    requires
        calls_answered(h, false),
    ensures
        calls_answered(
            h.push(Message::ToolCall(name, id, params)).push(Message::ToolResult(name, id, result)),
            false,
        ),
{
    lemma_push_call(h, Message::ToolCall(name, id, params));
    lemma_push_result(h.push(Message::ToolCall(name, id, params)), Message::ToolResult(name, id, result));
}

} // verus!
