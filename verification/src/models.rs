//! Data types of the model layer: chat messages, outputs of language models,
//! and the inputs and outputs of image, video, speech and embedding models.

use vstd::prelude::*;

verus! {

/// Role of a participant in a chat conversation.
#[derive(Debug, Clone, Copy, PartialEq, Eq, Structural)]
pub enum ChatRole {
    /// System instructions.
    System,
    /// User messages.
    User,
    /// Assistant (model) responses.
    Assistant,
    /// Tool call results.
    Tool,
}

/// A single message in a chat conversation.
#[derive(Debug, Clone)]
pub struct ChatMessage {
    pub role: ChatRole,
    pub content: String,
}

impl ChatMessage {
    /// A message with the given role and content.
    fn with_role<S: Into<String>>(role: ChatRole, content: S) -> (r: Self)
        ensures
            r.role == role,
            call_ensures(<S as Into<String>>::into, (content,), r.content),
    {
        ChatMessage { role, content: content.into() }
    }

    /// A system message.
    pub fn system<S: Into<String>>(content: S) -> (r: Self)
        ensures
            r.role == ChatRole::System,
            call_ensures(<S as Into<String>>::into, (content,), r.content),
    {
        Self::with_role(ChatRole::System, content)
    }

    /// A user message.
    pub fn user<S: Into<String>>(content: S) -> (r: Self)
        ensures
            r.role == ChatRole::User,
            call_ensures(<S as Into<String>>::into, (content,), r.content),
    {
        Self::with_role(ChatRole::User, content)
    }

    /// An assistant message.
    pub fn assistant<S: Into<String>>(content: S) -> (r: Self)
        ensures
            r.role == ChatRole::Assistant,
            call_ensures(<S as Into<String>>::into, (content,), r.content),
    {
        Self::with_role(ChatRole::Assistant, content)
    }

    /// A tool message.
    pub fn tool<S: Into<String>>(content: S) -> (r: Self)
        ensures
            r.role == ChatRole::Tool,
            call_ensures(<S as Into<String>>::into, (content,), r.content),
    {
        Self::with_role(ChatRole::Tool, content)
    }
}

/// A single chunk of a streaming model response.
#[derive(Debug, Clone)]
pub struct StreamChunk {
    /// The text delta in this chunk.
    pub delta: String,
    /// Whether this is the final chunk.
    pub done: bool,
}

/// The output of a language model.
#[derive(Debug, Clone)]
pub struct LanguageOutput {
    pub text: String,
    pub finish_reason: FinishReason,
    pub usage: TokenUsage,
}

/// Why a model stopped generating.
#[derive(Debug, Clone, Copy, PartialEq, Eq, Structural)]
pub enum FinishReason {
    Stop,
    Length,
    ContentFilter,
    ToolCalls,
}

/// Token usage information.
#[derive(Debug, Clone, Copy)]
pub struct TokenUsage {
    pub prompt_tokens: usize,
    pub completion_tokens: usize,
    pub total_tokens: usize,
}

/// A language model with a system prompt that is set on every input it runs on.
pub struct WithSystemPrompt<M> {
    inner: M,
    system_prompt: String,
}

impl<M> WithSystemPrompt<M> {
    /// Wraps `inner` so that it runs with `system_prompt`.
    pub fn new(inner: M, system_prompt: String) -> (r: Self)
        ensures
            r.inner() == inner,
            r.system_prompt()@ == system_prompt@,
    {
        WithSystemPrompt { inner, system_prompt }
    }

    /// The wrapped model.
    pub closed spec fn inner(&self) -> M {
        self.inner
    }

    /// The system prompt.
    pub closed spec fn system_prompt(&self) -> String {
        self.system_prompt
    }

    /// The wrapped model.
    pub fn model(&self) -> (r: &M)
        ensures
            *r == self.inner(),
    {
        &self.inner
    }

    /// A copy of the system prompt, to set on an input.
    pub fn prompt(&self) -> (r: String)
        ensures
            r@ == self.system_prompt()@,
    {
        self.system_prompt.clone()
    }
}

/// An image generation prompt.
#[derive(Debug, Clone)]
pub struct ImagePrompt {
    pub prompt: String,
    pub negative_prompt: Option<String>,
    pub width: Option<u32>,
    pub height: Option<u32>,
    pub steps: Option<u32>,
}

/// A generated image.
#[derive(Debug, Clone)]
pub struct Image {
    pub data: Vec<u8>,
    pub format: ImageFormat,
    pub width: u32,
    pub height: u32,
}

/// An image format.
#[derive(Debug, Clone, Copy, PartialEq, Eq, Structural)]
pub enum ImageFormat {
    Png,
    Jpeg,
    WebP,
}

/// A video format.
#[derive(Debug, Clone, Copy, PartialEq, Eq, Structural)]
pub enum VideoFormat {
    Mp4,
    WebM,
}

/// The input of a speech model.
#[derive(Debug, Clone)]
pub enum AudioInput {
    /// Text to synthesise into speech.
    TextToSpeech { text: String, voice: Option<String> },
    /// Audio to transcribe into text.
    SpeechToText { audio: Vec<u8> },
}

/// The output of a speech model.
#[derive(Debug, Clone)]
pub enum AudioOutput {
    /// Synthesised speech audio.
    Audio { data: Vec<u8>, format: AudioFormat },
    /// Transcribed text.
    Text { text: String },
}

/// An audio format.
#[derive(Debug, Clone, Copy, PartialEq, Eq, Structural)]
pub enum AudioFormat {
    Wav,
    Mp3,
    Ogg,
}

/// The input of an embedding model.
#[derive(Debug, Clone)]
pub struct EmbeddingInput {
    pub text: String,
}

} // verus!
