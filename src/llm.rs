use vstd::prelude::*;
use vstd::string::StringExecFns;
use vstd::utf8::encode_utf8;

use reqwest::header::{HeaderValue, InvalidHeaderValue};

verus! {

/// The provider's chat-completion endpoint.
pub const CHAT_COMPLETIONS_URL: &'static str = "https://api.openai.com/v1/chat/completions";

/// The header that carries the organization identifier.
pub const ORGANIZATION_HEADER: &'static str = "OpenAI-Organization";

/// The model every request asks for.
pub const MODEL: &'static str = "gpt-4-turbo";

/// The sampling temperature of every request, in tenths: low, so that replies
/// vary little and parse reliably.
pub const TEMPERATURE_TENTHS: u8 = 1;

/// One role-tagged turn of a chat exchange.
#[derive(Debug)]
pub struct Message {
    pub role: String,
    pub content: String,
}

impl Message {
    /// A message with the same role and content.
    pub fn duplicate(&self) -> (r: Message)
        ensures
            r == *self,
    {
        Message { role: self.role.clone(), content: self.content.clone() }
    }
}

/// The body of one chat-completion request.
#[derive(Debug)]
pub struct ChatCompletion {
    pub model: String,
    pub messages: Vec<Message>,
    pub temperature_tenths: u8,
}

impl ChatCompletion {
    /// The request that sends `messages`, in order, with the fixed model and
    /// temperature.
    pub fn new(messages: Vec<Message>) -> (r: ChatCompletion)
        ensures
            r.model@ == MODEL@,
            r.messages@ == messages@,
            r.temperature_tenths == TEMPERATURE_TENTHS,
    {
        ChatCompletion { model: String::from_str(MODEL), messages, temperature_tenths: TEMPERATURE_TENTHS }
    }
}

/// One choice of a chat-completion reply.
#[derive(Debug)]
pub struct APIChoice {
    pub message: Message,
}

/// A chat-completion reply: its choices, in the order the provider gave them.
#[derive(Debug)]
pub struct APIResponse {
    pub choices: Vec<APIChoice>,
}

/// Why a call to the model gave no text.
#[derive(Debug)]
pub enum LlmError {
    /// The request could not be built or sent, the status was not a success,
    /// or the body was not a reply; the cause, in words.
    Transport(String),
    /// The reply held no choice.
    EmptyChoices,
    /// The credential or the organization identifier cannot stand in a header.
    InvalidHeader,
    /// The endpoint answered with this status, which is not a success.
    Status(u16),
}

/// Whether the endpoint's answer, with status `status`, may carry a reply: only
/// a success (2xx) does.
pub fn check_status(status: u16) -> (r: Result<(), LlmError>)
    ensures
        r is Ok <==> 200 <= status < 300,
        r is Err ==> r->Err_0 == LlmError::Status(status),
{
    if 200 <= status && status < 300 {
        Ok(())
    } else {
        Err(LlmError::Status(status))
    }
}

impl APIResponse {
    /// The text of the first choice; an error where there is none. Further
    /// choices are ignored.
    pub fn first_content(&self) -> (r: Result<String, LlmError>)
        ensures
            self.choices@.len() > 0 <==> r is Ok,
            r is Ok ==> r->Ok_0 == self.choices@[0].message.content,
            r is Err ==> r->Err_0 is EmptyChoices,
    {
        if self.choices.len() == 0 {
            Err(LlmError::EmptyChoices)
        } else {
            Ok(self.choices[0].message.content.clone())
        }
    }
}

/// The value of the `Authorization` header for `api_key`.
pub fn bearer_value(api_key: &str) -> (r: String)
    ensures
        r@ == "Bearer "@ + api_key@,
{
    let mut r = String::from_str("Bearer ");
    r.append(api_key);
    r
}

#[verifier::external_type_specification]
#[verifier::external_body]
pub struct ExHeaderValue(HeaderValue);

#[verifier::external_type_specification]
#[verifier::external_body]
pub struct ExInvalidHeaderValue(InvalidHeaderValue);

/// A byte that a header value may hold: a tab, or any byte from the space on
/// but DEL.
pub open spec fn is_header_value_byte(b: u8) -> bool {
    (b >= 32 && b != 127) || b == 9
}

/// Every byte of `bytes` may stand in a header value.
pub open spec fn is_header_value(bytes: Seq<u8>) -> bool {
    forall|i: int| 0 <= i < bytes.len() ==> is_header_value_byte(#[trigger] bytes[i])
}

/// Relies on HeaderValue::from_str: it accepts the text exactly when each byte
/// of its UTF-8 encoding is a tab, or at least a space and not DEL.
#[verifier::external_body]
fn header_value(s: &str) -> (r: Result<HeaderValue, InvalidHeaderValue>)
    ensures
        r is Ok <==> is_header_value(encode_utf8(s@)),
{
    HeaderValue::from_str(s)
}

/// The two headers that authenticate a request.
pub struct AuthHeaders {
    /// `Bearer` and the credential.
    pub authorization: HeaderValue,
    /// The organization identifier.
    pub organization: HeaderValue,
}

/// The authentication headers for `api_key` and `api_org`; an error where
/// either cannot stand in a header.
pub fn auth_headers(api_key: &str, api_org: &str) -> (r: Result<AuthHeaders, LlmError>)
    ensures
        r is Ok <==> is_header_value(encode_utf8("Bearer "@ + api_key@)) && is_header_value(
            encode_utf8(api_org@),
        ),
        r is Err ==> r->Err_0 is InvalidHeader,
{
    let bearer = bearer_value(api_key);
    let authorization = match header_value(bearer.as_str()) {
        Ok(v) => v,
        Err(_) => {
            return Err(LlmError::InvalidHeader);
        },
    };
    let organization = match header_value(api_org) {
        Ok(v) => v,
        Err(_) => {
            return Err(LlmError::InvalidHeader);
        },
    };
    Ok(AuthHeaders { authorization, organization })
}

} // verus!
