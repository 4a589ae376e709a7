//! The items that most programs need, for a single `use`.

pub use crate::{
    ApiClient, ChatMessage, ClientError, Config, PromptBuilder, Provider, ResponseInput, Result, Tool,
};
