//! Asking a chat model for a report on the tasks: what is sent, and what is
//! made of the answer.

use crate::http::{bearer, bearer_header, body_or_unknown, reported_body};
use vstd::prelude::*;
use vstd::string::*;

verus! {

/// Where the request is sent.
pub const COMPLETIONS_URL: &'static str = "https://api.openai.com/v1/chat/completions";

/// The value of the `Content-Type` header.
pub const CONTENT_TYPE_JSON: &'static str = "application/json";

/// The role of the message that instructs the model.
pub const SYSTEM_ROLE: &'static str = "system";

/// The role of the message that carries the caller's prompt.
pub const USER_ROLE: &'static str = "user";

/// The instruction that precedes every prompt.
pub const SYSTEM_PROMPT: &'static str =
    "你是一位专业的工作分析助手，擅长总结工作内容并提供改进建议。";

pub const MISSING_KEY_MESSAGE: &'static str = "API密钥不能为空";

pub const REJECTED_PREFIX: &'static str = "API调用失败: ";

pub const EMPTY_REPLY_MESSAGE: &'static str = "API返回结果为空";

/// One message of a conversation with the model.
#[derive(Debug, Clone, PartialEq, Eq)]
pub struct ChatMessage {
    pub role: String,
    pub content: String,
}

/// The mathematical value of a [`ChatMessage`].
pub struct ChatMessageView {
    pub role: Seq<char>,
    pub content: Seq<char>,
}

impl View for ChatMessage {
    type V = ChatMessageView;

    open spec fn view(&self) -> ChatMessageView {
        ChatMessageView { role: self.role@, content: self.content@ }
    }
}

impl DeepView for ChatMessage {
    type V = ChatMessageView;

    open spec fn deep_view(&self) -> ChatMessageView {
        self@
    }
}

/// What is sent to the model, but for the sampling temperature, which the
/// sender adds.
#[derive(Debug, Clone, PartialEq, Eq)]
pub struct ReportRequest {
    pub url: &'static str,
    /// The value of the `Content-Type` header.
    pub content_type: &'static str,
    /// The value of the `Authorization` header.
    pub authorization: String,
    pub model: String,
    pub messages: Vec<ChatMessage>,
}

/// Why no report was made.
#[derive(Debug, Clone, PartialEq, Eq)]
pub enum ReportError {
    /// The API key is empty.
    MissingApiKey,
    /// The server answered with a failure; the text is the body of its answer.
    Rejected(String),
    /// The server answered without a reply.
    EmptyReply,
    /// The request could not be sent or its answer not read, in the words of
    /// the transport.
    Transport(String),
}

/// The mathematical value of a [`ReportError`].
pub enum ReportFault {
    MissingApiKey,
    Rejected(Seq<char>),
    EmptyReply,
    Transport(Seq<char>),
}

impl View for ReportError {
    type V = ReportFault;

    open spec fn view(&self) -> ReportFault {
        match self {
            ReportError::MissingApiKey => ReportFault::MissingApiKey,
            ReportError::Rejected(body) => ReportFault::Rejected(body@),
            ReportError::EmptyReply => ReportFault::EmptyReply,
            ReportError::Transport(text) => ReportFault::Transport(text@),
        }
    }
}

impl ReportFault {
    /// The fault as the user reads it.
    pub open spec fn message(self) -> Seq<char> {
        match self {
            ReportFault::MissingApiKey => MISSING_KEY_MESSAGE@,
            ReportFault::Rejected(body) => REJECTED_PREFIX@ + body,
            ReportFault::EmptyReply => EMPTY_REPLY_MESSAGE@,
            ReportFault::Transport(text) => text,
        }
    }
}

impl ReportError {
    /// The error as the user reads it.
    pub fn message(&self) -> (text: String)
        ensures
            text@ == self@.message(),
    {
        match self {
            ReportError::MissingApiKey => String::from_str(MISSING_KEY_MESSAGE),
            ReportError::Rejected(body) => String::from_str(REJECTED_PREFIX).concat(body.as_str()),
            ReportError::EmptyReply => String::from_str(EMPTY_REPLY_MESSAGE),
            ReportError::Transport(text) => text.clone(),
        }
    }

    /// The error for an answer that reports a failure. `body` is the text of
    /// the answer, or `None` where it could not be read.
    pub fn rejected(body: Option<String>) -> (error: ReportError)
        ensures
            error@ == ReportFault::Rejected(reported_body(body.deep_view())),
    {
        ReportError::Rejected(body_or_unknown(body))
    }
}

/// The conversation that asks for a report: the fixed instruction, then the
/// caller's prompt.
pub open spec fn conversation(prompt: Seq<char>) -> Seq<ChatMessageView> {
    seq![
        ChatMessageView { role: SYSTEM_ROLE@, content: SYSTEM_PROMPT@ },
        ChatMessageView { role: USER_ROLE@, content: prompt },
    ]
}

/// Prepares the request for a report. An empty API key is refused.
pub fn report_request(api_key: &str, model: String, prompt: String) -> (request: Result<
    ReportRequest,
    ReportError,
>)
    ensures
        match request {
            Ok(r) => {
                &&& api_key@.len() > 0
                &&& r.url@ == COMPLETIONS_URL@
                &&& r.content_type@ == CONTENT_TYPE_JSON@
                &&& r.authorization@ == bearer(api_key@)
                &&& r.model@ == model@
                &&& r.messages.deep_view() == conversation(prompt@)
            },
            Err(e) => api_key@.len() == 0 && e@ == ReportFault::MissingApiKey,
        },
{
    if api_key.is_empty() {
        return Err(ReportError::MissingApiKey);
    }
    let mut messages: Vec<ChatMessage> = Vec::new();
    messages.push(
        ChatMessage {
            role: String::from_str(SYSTEM_ROLE),
            content: String::from_str(SYSTEM_PROMPT),
        },
    );
    messages.push(ChatMessage { role: String::from_str(USER_ROLE), content: prompt });
    assert(messages.deep_view() =~= conversation(prompt@));
    Ok(
        ReportRequest {
            url: COMPLETIONS_URL,
            content_type: CONTENT_TYPE_JSON,
            authorization: bearer_header(api_key),
            model,
            messages,
        },
    )
}

/// The report in an answer: the first of the replies it holds. An answer
/// without a reply is an error.
pub fn first_reply(replies: Vec<String>) -> (report: Result<String, ReportError>)
    ensures
        match report {
            Ok(text) => replies.len() > 0 && text@ == replies[0]@,
            Err(e) => replies.len() == 0 && e@ == ReportFault::EmptyReply,
        },
{
    if replies.len() == 0 {
        Err(ReportError::EmptyReply)
    } else {
        Ok(replies[0].clone())
    }
}

} // verus!
