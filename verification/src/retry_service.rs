//! The decisions of the plugin's in-memory service: the prompt is kept out of
//! the history while the model is asked; each answered tool call is recorded
//! with the prompt, and the prompt is then asked again; a text answer is
//! recorded with the prompt and is the reply.

use vstd::prelude::*;

use serde_json::Value;

use crate::service::{
    calls_answered, error_object, error_result_value, law_text_exchange, law_tool_exchange, Message,
    ModelChoice,
};

verus! {

/// What came of running a tool.
pub enum ToolRun {
    /// The tool ran and returned this result.
    Returned(Value),
    /// The tool ran and failed with an error of this text.
    Failed(String),
}

/// An error of the plugin's completion service.
#[derive(Debug, Clone, PartialEq, Eq)]
pub enum RetryServiceError {
    /// The model called a tool that does not exist.
    ToolUnavailable(String),
    /// The provider of the model failed.
    ProviderError,
}

/// What the plugin's service does next.
pub enum RetryStep {
    /// Ask the model with this prompt after the history as it stands.
    Complete(String),
    /// Run a tool: tool name, call id, parameters.
    CallTool(String, String, Value),
    /// Generation is over: the reply is this text.
    Reply(String),
    /// Generation failed.
    Fail(RetryServiceError),
}

/// Where the generation of the plugin's service stands.
pub enum RetryPhase {
    /// No generation is running.
    Idle,
    /// The model has been asked with this prompt.
    AwaitingCompletion(String),
    /// A tool is running for this prompt and call: prompt, tool name, call id,
    /// parameters.
    AwaitingTool(String, String, String, Value),
}

/// The chat history of the plugin's service and where its generation stands.
pub struct RetryingConversation {
    history: Vec<Message>,
    phase: RetryPhase,
}

impl RetryingConversation {
    /// The messages of the history.
    pub closed spec fn history(&self) -> Seq<Message> {
        self.history@
    }

    /// Where the generation stands.
    pub closed spec fn phase(&self) -> RetryPhase {
        self.phase
    }

    /// An idle conversation with an empty history.
    pub fn new() -> (r: Self)
        ensures
            r.history() == Seq::<Message>::empty(),
            r.phase() is Idle,
    {
        RetryingConversation { history: Vec::new(), phase: RetryPhase::Idle }
    }

    /// The messages of the history.
    pub fn messages(&self) -> (r: &Vec<Message>)
        ensures
            r@ == self.history(),
    {
        &self.history
    }

    /// Where the generation stands.
    pub fn current_phase(&self) -> (r: &RetryPhase)
        ensures
            *r == self.phase(),
    {
        &self.phase
    }

    /// Starts generating a reply to `prompt`: the model is asked with it; the
    /// history is unchanged.
    pub fn start(&mut self, prompt: String) -> (r: RetryStep)
        requires
            old(self).phase() is Idle,
        ensures
            final(self).history() == old(self).history(),
            final(self).phase() == RetryPhase::AwaitingCompletion(prompt),
            r == RetryStep::Complete(prompt),
    {
        self.phase = RetryPhase::AwaitingCompletion(prompt.clone());
        RetryStep::Complete(prompt)
    }

    /// Takes the model's answer to the awaited prompt. A text is recorded after
    /// the prompt and is the reply. A tool call is run when `tool_exists`, else
    /// the generation fails with `ToolUnavailable`. A model error ends the
    /// generation with `ProviderError`.
    pub fn on_completion(
        &mut self,
        answer: Result<ModelChoice, String>,
        tool_exists: bool,
    ) -> (r: RetryStep)
        requires
            old(self).phase() is AwaitingCompletion,
        ensures
            calls_answered(old(self).history(), false) ==> calls_answered(
                final(self).history(),
                false,
            ),
            ({
                let prompt = old(self).phase()->AwaitingCompletion_0;
                match answer {
                    Ok(ModelChoice::Message(msg)) => {
                        &&& final(self).history() == old(self).history().push(
                            Message::User(prompt),
                        ).push(Message::Assistant(msg))
                        &&& final(self).phase() is Idle
                        &&& r == RetryStep::Reply(msg)
                    },
                    Ok(ModelChoice::ToolCall(name, id, params)) => {
                        &&& final(self).history() == old(self).history()
                        &&& tool_exists ==> {
                            &&& final(self).phase() == RetryPhase::AwaitingTool(
                                prompt,
                                name,
                                id,
                                params,
                            )
                            &&& r == RetryStep::CallTool(name, id, params)
                        }
                        &&& !tool_exists ==> {
                            &&& final(self).phase() is Idle
                            &&& r == RetryStep::Fail(RetryServiceError::ToolUnavailable(name))
                        }
                    },
                    Err(_) => {
                        &&& final(self).history() == old(self).history()
                        &&& final(self).phase() is Idle
                        &&& r == RetryStep::Fail(RetryServiceError::ProviderError)
                    },
                }
            }),
    {
        let prompt = match &self.phase {
            RetryPhase::AwaitingCompletion(p) => p.clone(),
            _ => String::new(),
        };
        match answer {
            Ok(ModelChoice::Message(msg)) => {
                proof {
                    if calls_answered(self.history@, false) {
                        law_text_exchange(self.history@, prompt, msg);
                    }
                }
                self.history.push(Message::user(prompt));
                self.history.push(Message::assistant(msg.clone()));
                self.phase = RetryPhase::Idle;
                RetryStep::Reply(msg)
            },
            Ok(ModelChoice::ToolCall(name, id, params)) => {
                if tool_exists {
                    self.phase = RetryPhase::AwaitingTool(
                        prompt,
                        name.clone(),
                        id.clone(),
                        params.clone(),
                    );
                    RetryStep::CallTool(name, id, params)
                } else {
                    self.phase = RetryPhase::Idle;
                    RetryStep::Fail(RetryServiceError::ToolUnavailable(name))
                }
            },
            Err(_) => {
                self.phase = RetryPhase::Idle;
                RetryStep::Fail(RetryServiceError::ProviderError)
            },
        }
    }

    /// Takes the outcome of the running tool: records the prompt, the call and
    /// its result (the returned value, or an error object for a failure), and
    /// asks the model with the prompt again.
    pub fn on_tool_run(&mut self, run: ToolRun) -> (r: RetryStep)
        requires
            old(self).phase() is AwaitingTool,
        ensures
            calls_answered(old(self).history(), false) ==> calls_answered(
                final(self).history(),
                false,
            ),
            ({
                let prompt = old(self).phase()->AwaitingTool_0;
                let name = old(self).phase()->AwaitingTool_1;
                let id = old(self).phase()->AwaitingTool_2;
                let params = old(self).phase()->AwaitingTool_3;
                &&& final(self).history().len() == old(self).history().len() + 3
                &&& final(self).history().subrange(0, old(self).history().len() + 2int)
                    == old(self).history().push(Message::User(prompt)).push(
                    Message::ToolCall(name, id, params),
                )
                &&& final(self).history().last() == Message::ToolResult(
                    name,
                    id,
                    match run {
                        ToolRun::Returned(w) => w,
                        ToolRun::Failed(m) => error_object(m@),
                    },
                )
                &&& final(self).phase() == RetryPhase::AwaitingCompletion(prompt)
                &&& r == RetryStep::Complete(prompt)
            }),
    {
        let mut phase = RetryPhase::Idle;
        std::mem::swap(&mut phase, &mut self.phase);
        match phase {
            RetryPhase::AwaitingTool(prompt, name, id, params) => {
                let result = match run {
                    ToolRun::Returned(v) => v,
                    ToolRun::Failed(message) => error_result_value(message),
                };
                let ghost pre = self.history@;
                self.history.push(Message::user(prompt.clone()));
                self.history.push(Message::tool_call(name.clone(), id.clone(), params));
                self.history.push(Message::tool_result(name, id, result));
                proof {
                    assert(self.history@.subrange(0, pre.len() + 2int) =~= self.history@.drop_last());
                    if calls_answered(pre, false) {
                        lemma_user_then_tool_exchange(pre, prompt, name, id, params, result);
                    }
                }
                self.phase = RetryPhase::AwaitingCompletion(prompt.clone());
                RetryStep::Complete(prompt)
            },
            _ => RetryStep::Complete(String::new()),
        }
    }
}

proof fn lemma_user_then_tool_exchange(
    h: Seq<Message>,
    prompt: String,
    name: String,
    id: String,
    params: Value,
    result: Value,
)
    requires
        calls_answered(h, false),
    ensures
        calls_answered(
            h.push(Message::User(prompt)).push(Message::ToolCall(name, id, params)).push(
                Message::ToolResult(name, id, result),
            ),
            false,
        ),
{
    let h1 = h.push(Message::User(prompt));
    assert(calls_answered(h1, false)) by {
        assert forall|i: int| 0 <= i < h1.len() implies match #[trigger] h1[i] {
            Message::ToolCall(n, d, _) => if i + 1 < h1.len() {
                crate::service::answers(h1[i + 1], n, d)
            } else {
                false
            },
            _ => true,
        } by {
            if i < h.len() {
                assert(h1[i] == h[i]);
                if i + 1 < h.len() {
                    assert(h1[i + 1] == h[i + 1]);
                }
            }
        }
    }
    law_tool_exchange(h1, name, id, params, result);
}

} // verus!
