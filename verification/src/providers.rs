//! Model providers built on `rig-core`: a uniform wrapper of rig's clients,
//! the messages they are sent, and an OpenAI provider that knows which models
//! it serves.

use vstd::prelude::*;
use vstd::string::*;

use rig::providers as rp;
use serde_json::Value;

use crate::json::{json_text, json_text_of};
use crate::service::Message;

verus! {

/// A client of Anthropic's API (rig-core).
#[verifier::external_type_specification]
#[verifier::external_body]
pub struct ExAnthropicClient(rig::providers::anthropic::Client);

/// A client of DeepSeek's API (rig-core).
#[verifier::external_type_specification]
#[verifier::external_body]
pub struct ExDeepseekClient(rig::providers::deepseek::Client);

/// A client of Google Gemini's API (rig-core).
#[verifier::external_type_specification]
#[verifier::external_body]
pub struct ExGeminiClient(rig::providers::gemini::Client);

/// A client of OpenAI's API (rig-core).
#[verifier::external_type_specification]
#[verifier::external_body]
pub struct ExOpenaiClient(rig::providers::openai::Client);

/// A completion provider backed by one of rig's clients.
pub enum RigProvider {
    Anthropic(rp::anthropic::Client),
    Deepseek(rp::deepseek::Client),
    Gemini(rp::gemini::Client),
    Openai(rp::openai::Client),
}

/// The name by which a provider shows itself in debug output.
pub open spec fn provider_debug_name(p: RigProvider) -> Seq<char> {
    match p {
        RigProvider::Anthropic(_) => "RigProvider::Anthropic"@,
        RigProvider::Deepseek(_) => "RigProvider::Deepseek"@,
        RigProvider::Gemini(_) => "RigProvider::Gemini"@,
        RigProvider::Openai(_) => "RigProvider::Openai"@,
    }
}

impl RigProvider {
    /// A provider backed by an Anthropic client.
    pub fn anthropic(client: rp::anthropic::Client) -> (r: Self)
        ensures
            r == RigProvider::Anthropic(client),
    {
        RigProvider::Anthropic(client)
    }

    /// A provider backed by a DeepSeek client.
    pub fn deepseek(client: rp::deepseek::Client) -> (r: Self)
        ensures
            r == RigProvider::Deepseek(client),
    {
        RigProvider::Deepseek(client)
    }

    /// A provider backed by a Gemini client.
    pub fn gemini(client: rp::gemini::Client) -> (r: Self)
        ensures
            r == RigProvider::Gemini(client),
    {
        RigProvider::Gemini(client)
    }

    /// A provider backed by an OpenAI client.
    pub fn openai(client: rp::openai::Client) -> (r: Self)
        ensures
            r == RigProvider::Openai(client),
    {
        RigProvider::Openai(client)
    }

    /// The name by which the provider shows itself in debug output, such as
    /// `RigProvider::Openai`.
    pub fn debug_name(&self) -> (r: &'static str)
        ensures
            r@ == provider_debug_name(*self),
    {
        match self {
            RigProvider::Anthropic(_) => "RigProvider::Anthropic",
            RigProvider::Deepseek(_) => "RigProvider::Deepseek",
            RigProvider::Gemini(_) => "RigProvider::Gemini",
            RigProvider::Openai(_) => "RigProvider::Openai",
        }
    }
}

/// An error of creating a provider. Creating the OpenAI provider never fails,
/// so no function of this library returns this error.
#[derive(Debug)]
pub struct CreationError;

/// Whether a character can stand in an HTTP header value (as `http` checks it:
/// a tab, or any character from the space on other than DEL).
pub open spec fn is_header_char(c: char) -> bool {
    c == '\t' || (c >= ' ' && c != '\x7f')
}

/// `rig::providers::openai::Client::from_url`.
///
/// The client is carried through unread, so nothing is claimed of it. rig
/// panics when `Bearer <api_key>` is not a valid header value, which the
/// `requires` rules out, and when reqwest cannot build its client (its TLS
/// backend cannot start), which no argument controls.
#[verifier::external_body]
fn openai_client_from_url(api_key: &str, base_url: &str) -> (r: rp::openai::Client)
    requires
        forall|i: int| 0 <= i < api_key@.len() ==> is_header_char(#[trigger] api_key@[i]),
{
    rp::openai::Client::from_url(api_key, base_url)
}

/// The model names of `rig::providers::openai` that the OpenAI provider serves:
/// `GPT_4`, `GPT_4O`, `GPT_4O_MINI`, `GPT_4_TURBO` and `GPT_35_TURBO`.
///
/// Claimed: those constants read `gpt-4`, `gpt-4o`, `gpt-4o-mini`,
/// `gpt-4-turbo` and `gpt-3.5-turbo`.
#[verifier::external_body]
fn rig_openai_model_names() -> (r: Vec<&'static str>)
    ensures
        r@.map_values(|s: &str| s@) == openai_models(),
{
    vec![
        rp::openai::GPT_4,
        rp::openai::GPT_4O,
        rp::openai::GPT_4O_MINI,
        rp::openai::GPT_4_TURBO,
        rp::openai::GPT_35_TURBO,
    ]
}

/// The models that the OpenAI provider serves.
pub open spec fn openai_models() -> Seq<Seq<char>> {
    seq!["gpt-4"@, "gpt-4o"@, "gpt-4o-mini"@, "gpt-4-turbo"@, "gpt-3.5-turbo"@]
}

/// The names of the models that the OpenAI provider serves.
pub fn openai_model_names() -> (r: Vec<&'static str>)
    ensures
        r@.map_values(|s: &str| s@) == openai_models(),
{
    rig_openai_model_names()
}

/// An OpenAI provider using rig-core: the client, with the address and key it
/// was made with.
pub struct OpenAI {
    client: rp::openai::Client,
    base_url: String,
    api_key: String,
}

impl OpenAI {
    /// The address of the OpenAI API that the provider talks to.
    pub closed spec fn base_url(&self) -> Seq<char> {
        self.base_url@
    }

    /// The API key that the provider sends.
    pub closed spec fn api_key(&self) -> Seq<char> {
        self.api_key@
    }

    /// A provider that talks to the OpenAI API at `base_url` with `api_key`.
    /// Never fails.
    pub fn new(base_url: &str, api_key: &str) -> (r: Result<Self, CreationError>)
        requires
            forall|i: int| 0 <= i < api_key@.len() ==> is_header_char(#[trigger] api_key@[i]),
        ensures
            match r {
                Ok(p) => p.base_url() == base_url@ && p.api_key() == api_key@,
                Err(_) => false,
            },
    {
        let client = openai_client_from_url(api_key, base_url);
        Ok(OpenAI { client, base_url: String::from_str(base_url), api_key: String::from_str(api_key) })
    }

    /// The client that the provider talks through.
    pub fn client(&self) -> &rp::openai::Client {
        &self.client
    }

    /// Whether the provider serves the model named `model`.
    pub fn model_available(&self, model: &str) -> (r: bool)
        ensures
            r == openai_models().contains(model@),
    {
        let names = openai_model_names();
        let wanted = String::from_str(model);
        let mut i: usize = 0;
        while i < names.len()
            invariant
                names@.map_values(|s: &str| s@) == openai_models(),
                wanted@ == model@,
                i <= names@.len(),
                forall|j: int| 0 <= j < i ==> openai_models()[j] != model@,
            decreases names@.len() - i,
        {
            let name = String::from_str(names[i]);
            if name == wanted {
                proof {
                    assert(openai_models()[i as int] == model@);
                }
                return true;
            }
            i = i + 1;
        }
        false
    }
}

/// A message as rig's completion request carries it: a text of the assistant
/// or of the user, a tool call of the assistant, or a tool result given by the
/// user as the JSON text of the result.
pub enum RigMessage {
    AssistantText(String),
    UserText(String),
    AssistantToolCall { id: String, name: String, arguments: Value },
    UserToolResult { id: String, content: String },
}

/// A rig message with its texts as character sequences.
pub enum RigMessageView {
    AssistantText(Seq<char>),
    UserText(Seq<char>),
    AssistantToolCall { id: Seq<char>, name: Seq<char>, arguments: Value },
    UserToolResult { id: Seq<char>, content: Seq<char> },
}

impl View for RigMessage {
    type V = RigMessageView;

    open spec fn view(&self) -> RigMessageView {
        match self {
            RigMessage::AssistantText(t) => RigMessageView::AssistantText(t@),
            RigMessage::UserText(t) => RigMessageView::UserText(t@),
            RigMessage::AssistantToolCall { id, name, arguments } => RigMessageView::AssistantToolCall {
                id: id@,
                name: name@,
                arguments: *arguments,
            },
            RigMessage::UserToolResult { id, content } => RigMessageView::UserToolResult {
                id: id@,
                content: content@,
            },
        }
    }
}

/// The rig message of a chat message: assistant and user texts stay texts; a
/// tool call becomes the assistant's call of that tool, with its id and
/// parameters; a tool result becomes the user's result for that call id, the
/// result written as JSON text (the tool's name is not sent).
pub open spec fn rig_message_spec(m: Message) -> RigMessageView {
    match m {
        Message::Assistant(t) => RigMessageView::AssistantText(t@),
        Message::User(t) => RigMessageView::UserText(t@),
        Message::ToolCall(name, id, params) => RigMessageView::AssistantToolCall {
            id: id@,
            name: name@,
            arguments: params,
        },
        Message::ToolResult(_, id, result) => RigMessageView::UserToolResult {
            id: id@,
            content: json_text_of(result),
        },
    }
}

/// The rig message of a chat message (see `rig_message_spec`).
pub fn rig_message_of(m: &Message) -> (r: RigMessage)
    ensures
        r@ == rig_message_spec(*m),
{
    match m {
        Message::Assistant(t) => RigMessage::AssistantText(t.clone()),
        Message::User(t) => RigMessage::UserText(t.clone()),
        Message::ToolCall(name, id, params) => RigMessage::AssistantToolCall {
            id: id.clone(),
            name: name.clone(),
            arguments: params.clone(),
        },
        Message::ToolResult(_, id, result) => RigMessage::UserToolResult {
            id: id.clone(),
            content: json_text(result),
        },
    }
}

/// The messages of a completion request: the chat history, each message as
/// rig carries it, then the prompt as the user's text, always last.
pub fn rig_history(history: &Vec<Message>, prompt: String) -> (r: Vec<RigMessage>)
    ensures
        r@.map_values(|x: RigMessage| x@) == history@.map_values(|m: Message| rig_message_spec(m)).push(
            RigMessageView::UserText(prompt@),
        ),
{
    let mut out: Vec<RigMessage> = Vec::new();
    let mut i: usize = 0;
    while i < history.len()
        invariant
            i <= history@.len(),
            out@.len() == i,
            forall|j: int| 0 <= j < i ==> (#[trigger] out@[j])@ == rig_message_spec(history@[j]),
        decreases history@.len() - i,
    {
        out.push(rig_message_of(&history[i]));
        i = i + 1;
    }
    out.push(RigMessage::UserText(prompt));
    proof {
        assert(out@.map_values(|x: RigMessage| x@) =~= history@.map_values(|m: Message| rig_message_spec(m)).push(
            RigMessageView::UserText(prompt@),
        ));
    }
    out
}

} // verus!
