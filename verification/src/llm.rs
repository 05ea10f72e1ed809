//! What is said to the language model and what it says back.

pub mod json;
pub mod message;
pub mod openai;

pub use json::JsonKind;
pub use message::{ChatResponse, Conversation, Message, ToolCall};
pub use openai::{ChatRequest, Choice, OpenAi, OpenAiOption, ResponseFormat, ToolDecl};
