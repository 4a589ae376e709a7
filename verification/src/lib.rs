//! An OpenAI-compatible API client whose request building, configuration,
//! stream-line decoding and retry policy are verified with Verus.

pub mod text;
pub mod json;
pub mod error;
pub mod config;
pub mod retry;
pub mod client;
pub mod chat;
pub mod prompt;
pub mod streaming;
pub mod completions;
pub mod embeddings;
pub mod images;
pub mod moderations;
pub mod responses;
pub mod fine_tuning;
pub mod models;
pub mod files;
pub mod audio;
pub mod agents;
pub mod structured;
pub mod tools;
pub mod prelude;

pub use agents::{AgentChainRun, AgentRun, AgentSpec, Agents};
pub use chat::{
    ChatChoice, ChatCompletionRequest, ChatCompletionResponse, ChatContent, ChatContentPart,
    ChatMessage, ChatRequestBuilder, ChatRole, ChatStreamChoice, ChatStreamDelta, ChatStreamEvent,
    ChatStreamToolCall, ChatStreamToolCallFunction, FunctionTool, ImageUrl, ResponseFormat, Tool,
    ToolCall, ToolCallFunction, Usage,
};
pub use client::{ApiClient, AttemptOutcome, RetryStep};
pub use config::{Config, Provider, RetryConfig};
pub use embeddings::{EmbeddingInput, EmbeddingUsage, EmbeddingsRequest, EmbeddingsRequestBuilder};
pub use error::{ApiError, ClientError, Result};
pub use prompt::PromptBuilder;
pub use responses::{
    ResponseContentPart, ResponseInput, ResponseInputMessage, ResponseOutputContent,
    ResponseOutputItem, ResponseRequestBuilder, ResponseTextFormat, ResponsesRequest,
    ResponsesResponse,
};
pub use tools::{ToolExecution, ToolNames, ToolSlots};
pub use streaming::{
    JsonLinesDecoder, LenientSseDecoder, LineBuffer, OpenAiSseDecoder, StreamDecoder, StreamReader,
};
