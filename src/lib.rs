//! A group-chat persona: conversation tracking, the decision whether to
//! speak, and the framing of language-model requests and responses.
pub mod dialog_message;
pub mod dialog_state;
pub mod openai_client;
pub mod text;
pub mod dialog_handler;
