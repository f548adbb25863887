//! The chat-completion wire data: requests, responses and stream chunks,
//! and the rule that extracts an assistant reply from a response.
//!
//! Sampling parameters travel as thousandths (a temperature of 0.7 is 700),
//! so the core stays in integers; the host converts at the wire.  Serializing
//! to and from JSON is the host's work too: the core only fixes what the
//! values mean.

use vstd::prelude::*;

verus! {

/// One role/content pair of a conversation.
#[derive(Debug, Clone)]
pub struct Message {
    pub role: String,
    pub content: String,
}

/// A partial role/content pair carried by one stream chunk; either part may
/// be absent.
#[derive(Debug, Clone)]
pub struct DeltaMessage {
    pub role: Option<String>,
    pub content: Option<String>,
}

/// A chat-completion request: the model, the conversation so far, optional
/// sampling parameters (in thousandths where the wire uses fractions), and
/// the streaming flag.
#[derive(Debug, Clone)]
pub struct ChatRequest {
    pub model: String,
    pub messages: Vec<Message>,
    pub temperature_milli: Option<u32>,
    pub max_tokens: Option<u32>,
    pub top_p_milli: Option<u32>,
    pub frequency_penalty_milli: Option<i32>,
    pub presence_penalty_milli: Option<i32>,
    pub stream: Option<bool>,
}

impl ChatRequest {
    /// A request with the given model and messages and no sampling
    /// parameters set.
    pub fn new(model: String, messages: Vec<Message>) -> (r: ChatRequest)
        ensures
            r.model == model,
            r.messages == messages,
            r.temperature_milli is None,
            r.max_tokens is None,
            r.top_p_milli is None,
            r.frequency_penalty_milli is None,
            r.presence_penalty_milli is None,
            r.stream is None,
    {
        ChatRequest {
            model,
            messages,
            temperature_milli: None,
            max_tokens: None,
            top_p_milli: None,
            frequency_penalty_milli: None,
            presence_penalty_milli: None,
            stream: None,
        }
    }
}

/// An error the service embeds in an otherwise well-formed response body.
/// Its presence means a logical failure even when the transport succeeded.
#[derive(Debug, Clone)]
pub struct ApiError {
    pub message: String,
    pub kind: Option<String>,
    pub code: Option<String>,
    pub status: Option<u32>,
}

/// One choice of a non-streaming response.
#[derive(Debug, Clone)]
pub struct Choice {
    pub index: u32,
    pub message: Message,
    pub finish_reason: Option<String>,
}

/// Token usage counters of a response.
#[derive(Debug, Clone, Copy, PartialEq, Eq, Structural)]
pub struct Usage {
    pub prompt_tokens: u32,
    pub completion_tokens: u32,
    pub total_tokens: u32,
}

/// A non-streaming chat-completion response.
#[derive(Debug, Clone)]
pub struct ChatResponse {
    pub id: Option<String>,
    pub object: Option<String>,
    pub created: Option<u64>,
    pub model: Option<String>,
    pub choices: Option<Vec<Choice>>,
    pub usage: Option<Usage>,
    pub error: Option<ApiError>,
}

/// One choice of a stream chunk.
#[derive(Debug, Clone)]
pub struct StreamChoice {
    pub index: u32,
    pub delta: DeltaMessage,
    pub finish_reason: Option<String>,
}

/// One server-sent event's decoded payload.
#[derive(Debug, Clone)]
pub struct StreamChunk {
    pub id: Option<String>,
    pub object: Option<String>,
    pub created: Option<u64>,
    pub model: Option<String>,
    pub choices: Vec<StreamChoice>,
}

/// A copy of an optional string.
fn clone_opt_string(o: &Option<String>) -> (r: Option<String>)
    ensures
        r == *o,
{
    match o {
        Some(s) => Some(s.clone()),
        None => None,
    }
}

/// Why a transport-successful response carries no usable reply.
#[derive(Debug, Clone)]
pub enum ResponseError {
    /// The body embedded an error: a logical failure of the service.
    Api(ApiError),
    /// The body carried no choices at all.
    EmptyChoices,
}

impl ChatResponse {
    /// The assistant reply of a response.  An embedded error takes
    /// precedence over everything else; a response without choices (or with
    /// an empty list of them) carries no reply; otherwise the reply is the
    /// content of the first choice.
    pub fn extract_content(&self) -> (r: Result<String, ResponseError>)
        ensures
            self.error matches Some(e) ==> (r matches Err(re) && re matches ResponseError::Api(ae)
                && ae == e),
            self.error is None && (self.choices is None || self.choices->Some_0@.len() == 0) ==> (
            r matches Err(re) && re is EmptyChoices),
            self.error is None && self.choices is Some && self.choices->Some_0@.len() > 0 ==> (
            r matches Ok(content) && content == self.choices->Some_0@[0].message.content),
    {
        if let Some(e) = &self.error {
            return Err(
                ResponseError::Api(
                    ApiError {
                        message: e.message.clone(),
                        kind: clone_opt_string(&e.kind),
                        code: clone_opt_string(&e.code),
                        status: e.status,
                    },
                ),
            );
        }
        match &self.choices {
            Some(cs) if cs.len() > 0 => {
                let first = &cs[0];
                Ok(first.message.content.clone())
            },
            _ => Err(ResponseError::EmptyChoices),
        }
    }
}

/// The authorization header value for a bearer credential.
pub fn bearer_header(api_key: &str) -> (r: String)
    ensures
        r@ == "Bearer "@ + api_key@,
{
    let prefix = String::from_str("Bearer ");
    prefix.concat(api_key)
}

} // verus!
