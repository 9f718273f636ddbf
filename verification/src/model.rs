//! The data model of the exchange: one turn of conversation, the outbound
//! request body, and the parsed response with its token accounting.

use vstd::prelude::*;

verus! {

/// One role-tagged utterance in a conversation with the remote API.
#[derive(Debug, Clone, PartialEq, Eq)]
pub struct ChatMessage {
    pub role: String,
    pub content: String,
}

/// The mathematical value of a [`ChatMessage`].
pub struct ChatMessageV {
    pub role: Seq<char>,
    pub content: Seq<char>,
}

impl View for ChatMessage {
    type V = ChatMessageV;

    open spec fn view(&self) -> ChatMessageV {
        ChatMessageV { role: self.role@, content: self.content@ }
    }
}

impl DeepView for ChatMessage {
    type V = ChatMessageV;

    open spec fn deep_view(&self) -> ChatMessageV {
        self.view()
    }
}

impl ChatMessage {
    /// A message carrying the user's question.
    pub fn user(content: String) -> (r: ChatMessage)
        ensures
            r@.role == "user"@,
            r@.content == content@,
    {
        ChatMessage { role: String::from_str("user"), content }
    }
}

/// The outbound payload: a model identifier and an ordered, non-empty
/// sequence of messages.
#[derive(Debug, Clone, PartialEq, Eq)]
pub struct RequestBody {
    pub model: String,
    pub messages: Vec<ChatMessage>,
}

/// The mathematical value of a [`RequestBody`].
pub struct RequestBodyV {
    pub model: Seq<char>,
    pub messages: Seq<ChatMessageV>,
}

impl View for RequestBody {
    type V = RequestBodyV;

    open spec fn view(&self) -> RequestBodyV {
        RequestBodyV { model: self.model@, messages: self.messages.deep_view() }
    }
}

impl RequestBodyV {
    /// Every request carries at least the current question.
    pub open spec fn wf(&self) -> bool {
        self.messages.len() > 0
    }
}

/// Token accounting for one call, as reported by the remote API.
#[derive(Debug, Clone, Copy, PartialEq, Eq, Structural)]
pub struct UsageStats {
    pub prompt_tokens: u32,
    pub completion_tokens: u32,
    pub total_tokens: u32,
}

impl UsageStats {
    /// The reported total must actually be the sum of its parts; a response
    /// that breaks this is rejected rather than trusted.
    pub open spec fn consistent(&self) -> bool {
        self.total_tokens == self.prompt_tokens + self.completion_tokens
    }
}

/// One candidate completion returned by the remote API.
#[derive(Debug, Clone, PartialEq, Eq)]
pub struct ChoiceResult {
    pub message: ChatMessage,
    pub finish_reason: String,
    pub index: u32,
}

/// The mathematical value of a [`ChoiceResult`].
pub struct ChoiceResultV {
    pub message: ChatMessageV,
    pub finish_reason: Seq<char>,
    pub index: u32,
}

impl View for ChoiceResult {
    type V = ChoiceResultV;

    open spec fn view(&self) -> ChoiceResultV {
        ChoiceResultV {
            message: self.message@,
            finish_reason: self.finish_reason@,
            index: self.index,
        }
    }
}

impl DeepView for ChoiceResult {
    type V = ChoiceResultV;

    open spec fn deep_view(&self) -> ChoiceResultV {
        self.view()
    }
}

/// The fully parsed response to one call.
#[derive(Debug, Clone, PartialEq, Eq)]
pub struct ApiResponse {
    pub id: String,
    pub object: String,
    pub model: String,
    pub usage: UsageStats,
    pub choices: Vec<ChoiceResult>,
}

/// The mathematical value of an [`ApiResponse`].
pub struct ApiResponseV {
    pub id: Seq<char>,
    pub object: Seq<char>,
    pub model: Seq<char>,
    pub usage: UsageStats,
    pub choices: Seq<ChoiceResultV>,
}

impl View for ApiResponse {
    type V = ApiResponseV;

    open spec fn view(&self) -> ApiResponseV {
        ApiResponseV {
            id: self.id@,
            object: self.object@,
            model: self.model@,
            usage: self.usage,
            choices: self.choices.deep_view(),
        }
    }
}

impl ApiResponseV {
    /// What the parser guarantees of every response it accepts.
    pub open spec fn wf(&self) -> bool {
        self.usage.consistent()
    }
}

impl ApiResponse {
    /// The content of the first returned choice, which the console loop
    /// prints on success; `None` when the response carries no choice.
    pub fn first_choice_content(&self) -> (r: Option<&String>)
        ensures
            match r {
                Some(s) => self@.choices.len() > 0 && s@ == self@.choices[0].message.content,
                None => self@.choices.len() == 0,
            },
    {
        if self.choices.len() > 0 {
            Some(&self.choices[0].message.content)
        } else {
            None
        }
    }
}

} // verus!
