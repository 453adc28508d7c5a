//! The outgoing request: a value object built once per call from a
//! template plus the assembled message list, immutable afterwards.
//!
//! Free-text JSON attachments (a bias table, tool parameter schemas)
//! are carried as JSON text; unverified callers that serialize the
//! request turn them into structured values.

use vstd::prelude::*;
use crate::error::{CompletionError, PreconditionViolation};
use crate::message::Message;

verus! {

/// The requested shape of the completion's answer.
#[derive(Debug, Clone, PartialEq, Eq)]
pub struct ResponseFormat {
    pub response_type: String,
}

/// A stop condition: one token or a list of tokens.
#[derive(Debug, Clone, PartialEq, Eq)]
pub enum StopEnum {
    Token(String),
    Tokens(Vec<String>),
}

/// A function a tool exposes; its parameter schema is JSON text.
#[derive(Debug, Clone, PartialEq, Eq)]
pub struct Function {
    pub description: Option<String>,
    pub name: Option<String>,
    pub parameters: Option<String>,
}

/// A tool declaration offered to the model.
#[derive(Debug, Clone, PartialEq, Eq)]
pub struct Tool {
    pub tool_type: String,
    pub function: Function,
}

/// How the model may pick a tool.
#[derive(Debug, Clone, PartialEq, Eq)]
pub enum ToolChoiceEnum {
    Str(String),
    Tool(Tool),
}

/// One outgoing completion request. The streaming flag is the only
/// field the transport selector reads; the rest is payload handed to
/// the remote service unchanged.
#[derive(Debug, Clone, PartialEq)]
pub struct Request {
    /// A token bias table, as JSON text.
    pub logit_bias: Option<String>,
    pub logprobs: bool,
    pub max_tokens: Option<u32>,
    pub messages: Vec<Message>,
    pub model: String,
    pub n: u32,
    pub response_format: ResponseFormat,
    pub seed: Option<i32>,
    pub stop: Option<StopEnum>,
    pub stream: bool,
    pub tool_choice: Option<ToolChoiceEnum>,
    pub tools: Option<Vec<Tool>>,
    pub top_logprobs: Option<u8>,
    pub user: Option<String>,
}

impl Request {
    /// A template for the given model: no messages yet, the plain-text
    /// answer shape, a single choice, and the streaming flag off.
    pub fn new(model: String) -> (r: Request)
        ensures
            r.logit_bias == Option::<String>::None,
            r.logprobs == false,
            r.max_tokens == Option::<u32>::None,
            r.messages@ == Seq::<Message>::empty(),
            r.model == model,
            r.n == 1u32,
            r.response_format.response_type@ == "text"@,
            r.seed == Option::<i32>::None,
            r.stop == Option::<StopEnum>::None,
            r.stream == false,
            r.tool_choice == Option::<ToolChoiceEnum>::None,
            r.tools == Option::<Vec<Tool>>::None,
            r.top_logprobs == Option::<u8>::None,
            r.user == Option::<String>::None,
    {
        Request {
            logit_bias: None,
            logprobs: false,
            max_tokens: None,
            messages: Vec::new(),
            model,
            n: 1,
            response_format: ResponseFormat { response_type: "text".to_owned() },
            seed: None,
            stop: None,
            stream: false,
            tool_choice: None,
            tools: None,
            top_logprobs: None,
            user: None,
        }
    }

    /// The same request with the streaming flag set as given.
    pub fn with_stream(self, stream: bool) -> (r: Request)
        ensures
            r == (Request { stream, ..self }),
    {
        Request { stream, ..self }
    }

    /// The same request carrying the given message list; a list without
    /// a single message is refused.
    pub fn with_messages(self, msgs: Vec<Message>) -> (r: Result<Request, CompletionError>)
        ensures
            msgs@.len() == 0 ==> r == Err::<Request, CompletionError>(
                CompletionError::Precondition(PreconditionViolation::EmptyMessages),
            ),
            msgs@.len() != 0 ==> r == Ok::<Request, CompletionError>(
                (Request { messages: msgs, ..self }),
            ),
    {
        if msgs.is_empty() {
            Err(CompletionError::Precondition(PreconditionViolation::EmptyMessages))
        } else {
            Ok(Request { messages: msgs, ..self })
        }
    }

    /// Reads the streaming flag, the transport selector's dispatch key.
    pub fn is_stream(&self) -> (b: bool)
        ensures
            b == self.stream,
    {
        self.stream
    }
}

} // verus!
