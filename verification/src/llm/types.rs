//! Messages exchanged with the language model.

use vstd::prelude::*;

verus! {

/// Who wrote a chat message.
#[derive(Debug, Clone, Copy, PartialEq, Eq)]
pub enum ChatRole {
    System,
    User,
    Assistant,
}

/// One message of a chat with the model.
#[derive(Debug, Clone, PartialEq, Eq)]
pub struct ChatMessage {
    pub role: ChatRole,
    pub content: String,
}

/// A tool invocation the model asked for.
#[derive(Debug)]
pub struct ToolCallResult {
    pub call_id: String,
    pub fn_name: String,
    pub fn_arguments: serde_json::Value,
}

/// What a completion returned.
#[derive(Debug)]
pub struct CompletionResponse {
    pub content: String,
    pub model: String,
    pub input_tokens: u32,
    pub output_tokens: u32,
    pub latency_ms: u64,
    pub tool_calls: Vec<ToolCallResult>,
}

} // verus!
