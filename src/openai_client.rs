use vstd::prelude::*;

use crate::dialog_message::opt_string_view;
use crate::text::{concat, trim, trim_of};

verus! {

/// The content of one prompt entry.
pub enum PromptView {
    System { text: Seq<char> },
    User { name: Seq<char>, text: Seq<char> },
    Assistant { text: Seq<char> },
}

/// One entry of a prompt for the language model.
#[derive(Debug, Clone)]
pub enum OpenAiChatMessage {
    System { text: String },
    User { name: String, text: String },
    Assistant { text: String },
}

impl View for OpenAiChatMessage {
    type V = PromptView;

    open spec fn view(&self) -> PromptView {
        match self {
            OpenAiChatMessage::System { text } => PromptView::System { text: text@ },
            OpenAiChatMessage::User { name, text } => PromptView::User { name: name@, text: text@ },
            OpenAiChatMessage::Assistant { text } => PromptView::Assistant { text: text@ },
        }
    }
}

/// The content of a whole prompt.
pub open spec fn prompt_view(p: Seq<OpenAiChatMessage>) -> Seq<PromptView> {
    p.map_values(|m: OpenAiChatMessage| m@)
}

/// The JSON pointer of the completion text in a response body.
pub const CONTENT_POINTER: &'static str = "/choices/0/message/content";

/// The model that every request names.
pub const MODEL: &'static str = "gpt-4";

/// Whether `body` is a JSON document.
pub uninterp spec fn json_parses(body: Seq<char>) -> bool;

/// The string at `pointer` in the JSON document `body`, if a string stands
/// there.
pub uninterp spec fn json_string_at(body: Seq<char>, pointer: Seq<char>) -> Option<Seq<char>>;

#[verifier::external_type_specification]
#[verifier::external_body]
pub struct ExJsonError(serde_json::Error);

/// Relies on serde_json::from_str into a Value, then Value::pointer and
/// Value::as_str: an error where the body is not JSON, else the string that
/// the pointer reaches, if any.
#[verifier::external_body]
fn string_at_pointer(body: &str, pointer: &str) -> (r: Result<Option<String>, serde_json::Error>)
    ensures
        r is Ok <==> json_parses(body@),
        r matches Ok(c) ==> opt_string_view(c) == json_string_at(body@, pointer@),
{
    let v = serde_json::from_str::<serde_json::Value>(body)?;
    Ok(v.pointer(pointer).and_then(serde_json::Value::as_str).map(str::to_owned))
}

#[verifier::external_type_specification]
#[verifier::external_body]
pub struct ExClient(reqwest::Client);

/// An HTTP status in the success class.
pub open spec fn is_success(status: u16) -> bool {
    200 <= status < 300
}

/// Why a completion was not had.
#[derive(Debug, Clone, PartialEq, Eq)]
pub enum ChatError {
    /// The request could not be made or its body not read.
    Transport { detail: String },
    /// The service answered with a status outside the success class.
    Api { status: u16 },
    /// The response held no completion text.
    Parse,
}

/// The content of one message of a request: its role, its text and, for a
/// user, the author's name.
pub struct RequestMessageView {
    pub role: Seq<char>,
    pub content: Seq<char>,
    pub name: Option<Seq<char>>,
}

/// How a prompt entry is sent.
pub open spec fn request_of(p: PromptView) -> RequestMessageView {
    match p {
        PromptView::System { text } => RequestMessageView { role: "system"@, content: text, name: None },
        PromptView::User { name, text } => RequestMessageView { role: "user"@, content: text, name: Some(name) },
        PromptView::Assistant { text } => RequestMessageView { role: "assistant"@, content: text, name: None },
    }
}

/// One message of a request, as the service receives it.
pub struct RequestMessage {
    pub role: String,
    pub content: String,
    pub name: Option<String>,
}

impl View for RequestMessage {
    type V = RequestMessageView;

    open spec fn view(&self) -> RequestMessageView {
        RequestMessageView {
            role: self.role@,
            content: self.content@,
            name: match self.name {
                Some(n) => Some(n@),
                None => None,
            },
        }
    }
}

/// The messages of a request for a prompt, in its order.
pub fn request_messages(dialog: &[OpenAiChatMessage]) -> (r: Vec<RequestMessage>)
    ensures
        r@.len() == dialog@.len(),
        forall|i: int| 0 <= i < dialog@.len() ==> (#[trigger] r@[i])@ == request_of(dialog@[i]@),
{
    let mut r: Vec<RequestMessage> = Vec::new();
    let mut i: usize = 0;
    while i < dialog.len()
        invariant
            i <= dialog@.len(),
            r@.len() == i,
            forall|j: int| 0 <= j < i ==> (#[trigger] r@[j])@ == request_of(dialog@[j]@),
        decreases dialog@.len() - i,
    {
        let m = match &dialog[i] {
            OpenAiChatMessage::System { text } => RequestMessage {
                role: "system".to_owned(),
                content: text.clone(),
                name: None,
            },
            OpenAiChatMessage::User { name, text } => RequestMessage {
                role: "user".to_owned(),
                content: text.clone(),
                name: Some(name.clone()),
            },
            OpenAiChatMessage::Assistant { text } => RequestMessage {
                role: "assistant".to_owned(),
                content: text.clone(),
                name: None,
            },
        };
        r.push(m);
        i += 1;
    }
    r
}

/// The result of a request, from its status and, where the status is a
/// success, what reading its body gave: an error where the body could not be
/// decoded, else the trimmed completion text, if the body held one.
pub fn completion_outcome(status: u16, content: Result<Option<String>, String>) -> (r: Result<String, ChatError>)
    ensures
        r == (if !is_success(status) {
            Err(ChatError::Api { status })
        } else {
            match content {
                Err(detail) => Err(ChatError::Transport { detail }),
                Ok(Some(t)) => Ok(t),
                Ok(None) => Err(ChatError::Parse),
            }
        }),
{
    if !(200 <= status && status < 300) {
        Err(ChatError::Api { status })
    } else {
        match content {
            Err(detail) => Err(ChatError::Transport { detail }),
            Ok(Some(t)) => Ok(t),
            Ok(None) => Err(ChatError::Parse),
        }
    }
}

/// The completion text of a response: the string at the content pointer,
/// trimmed, where the status is a success. A body that is not JSON is a
/// transport failure; a JSON body without that string is a parse failure.
pub fn completion_from_response(status: u16, body: &str) -> (r: Result<String, ChatError>)
    ensures
        !is_success(status) ==> r == Err::<String, ChatError>(ChatError::Api { status }),
        is_success(status) && !json_parses(body@) ==> r matches Err(ChatError::Transport { .. }),
        is_success(status) && json_parses(body@) ==> match json_string_at(body@, CONTENT_POINTER@) {
            Some(c) => r matches Ok(t) && t@ == trim_of(c),
            None => r == Err::<String, ChatError>(ChatError::Parse),
        },
{
    if !(200 <= status && status < 300) {
        return completion_outcome(status, Ok(None));
    }
    let content = match string_at_pointer(body, CONTENT_POINTER) {
        Ok(Some(c)) => Ok(Some(trim(c.as_str()))),
        Ok(None) => Ok(None),
        Err(e) => Err(e.to_string()),
    };
    completion_outcome(status, content)
}

/// A client of the chat-completion service.
pub struct OpenAiClient {
    http: reqwest::Client,
    api_key: String,
    base_url: String,
}

impl OpenAiClient {
    pub closed spec fn spec_http(&self) -> reqwest::Client {
        self.http
    }

    pub closed spec fn spec_api_key(&self) -> Seq<char> {
        self.api_key@
    }

    pub closed spec fn spec_base_url(&self) -> Seq<char> {
        self.base_url@
    }

    pub fn new(http: reqwest::Client, api_key: String) -> (r: Self)
        ensures
            r.spec_http() == http,
            r.spec_api_key() == api_key@,
            r.spec_base_url() == "https://api.openai.com"@,
    {
        OpenAiClient { http, api_key, base_url: "https://api.openai.com".to_owned() }
    }

    /// The HTTP transport that requests go through.
    pub fn http(&self) -> (r: &reqwest::Client)
        ensures
            *r == self.spec_http(),
    {
        &self.http
    }

    /// Where completion requests are posted.
    pub fn completions_url(&self) -> (r: String)
        ensures
            r@ == self.spec_base_url() + "/v1/chat/completions"@,
    {
        concat(self.base_url.as_str(), "/v1/chat/completions")
    }

    /// The value of the authorization header.
    pub fn authorization(&self) -> (r: String)
        ensures
            r@ == "Bearer "@ + self.spec_api_key(),
    {
        concat("Bearer ", self.api_key.as_str())
    }
}

} // verus!
