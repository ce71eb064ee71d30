//! The envelope `{status, message, ...}` that wraps every reply of the API.
//!
//! The JSON itself stays a `serde_json::Value`; the library reads it only
//! through that crate's accessors.

use vstd::prelude::*;
use vstd::string::StringExecFns;
use serde_json::Value;
use crate::challenge::{ChallengeView, IronShieldChallenge, IronShieldChallengeResponse,
    IronShieldToken, ResponseView, TokenView};
use crate::error::{ErrorHandler, ErrorView};
use crate::http::{is_success_status, HttpOutcome, HttpOutcomeView};
use crate::text::{decimal_digits, decimal_text, join2};

verus! {

/// `serde_json::Value`, carried as it is. What it holds is read through
/// [`json_members`] only.
#[verifier::external_type_specification]
#[verifier::external_body]
pub struct ExJsonValue(Value);

/// What the client reads of one member of a JSON object: the member as each
/// of the accessors sees it.
pub struct JsonMember {
    /// The number, for an integer that fits 64 unsigned bits (`as_u64`).
    pub number: Option<u64>,
    /// The text, for a string (`as_str`).
    pub text: Option<Seq<char>>,
    /// The challenge that `serde_json::from_value` reads from the member,
    /// if it reads one.
    pub challenge: Option<ChallengeView>,
    /// The token that `serde_json::from_value` reads from the member, if
    /// it reads one.
    pub token: Option<TokenView>,
}

/// The members of a JSON value by key, as `Value::get` finds them. A value
/// that is no object has none.
pub type JsonMembers = Map<Seq<char>, JsonMember>;

/// What a `serde_json::Value` holds: its members by key.
pub uninterp spec fn json_members(value: Value) -> JsonMembers;

/// The members of the JSON value that `serde_json::from_str` reads from
/// `text`, or the message of its error.
pub uninterp spec fn json_parse(text: Seq<char>) -> Result<JsonMembers, Seq<char>>;

/// The JSON text that `serde_json::to_string` writes for a challenge
/// request, or the message of its error.
pub uninterp spec fn request_json(endpoint: Seq<char>, timestamp: int) -> Result<
    Seq<char>,
    Seq<char>,
>;

/// The JSON text that `serde_json::to_string` writes for a challenge
/// response, or the message of its error.
pub uninterp spec fn response_json(response: ResponseView) -> Result<Seq<char>, Seq<char>>;

/// The member of `members` under `key`, if there is one.
pub open spec fn member_of(members: JsonMembers, key: Seq<char>) -> Option<JsonMember> {
    if members.contains_key(key) {
        Some(members[key])
    } else {
        None
    }
}

/// Calls `serde_json::from_str` for a `Value`. An error comes out as its
/// message. The contract names the result.
#[verifier::external_body]
fn parse_json(text: &str) -> (parsed: Result<Value, String>)
    ensures
        match parsed {
            Ok(value) => json_parse(text@) == Ok::<JsonMembers, Seq<char>>(json_members(value)),
            Err(message) => json_parse(text@) == Err::<JsonMembers, Seq<char>>(message@),
        },
{
    serde_json::from_str::<Value>(text).map_err(|error| error.to_string())
}

/// Calls `Value::get` with the key and `Value::as_u64` on what it finds:
/// the number under `key`, where `value` is an object that has the key and
/// the member is an integer that fits 64 unsigned bits.
#[verifier::external_body]
fn member_u64(value: &Value, key: &str) -> (number: Option<u64>)
    ensures
        number == match member_of(json_members(*value), key@) {
            Some(member) => member.number,
            None => None,
        },
{
    value.get(key).and_then(|member| member.as_u64())
}

/// Calls `Value::get` with the key and `Value::as_str` on what it finds:
/// the text under `key`, where `value` is an object that has the key and
/// the member is a string.
#[verifier::external_body]
fn member_text(value: &Value, key: &str) -> (text: Option<String>)
    ensures
        match text {
            Some(inner) => member_of(json_members(*value), key@) matches Some(member)
                && member.text == Some(inner@),
            None => member_of(json_members(*value), key@) matches Some(member)
                ==> member.text is None,
        },
{
    value.get(key).and_then(|member| member.as_str()).map(|text| text.to_string())
}

/// Calls `Value::get` with the key and `serde_json::from_value` for an
/// `ironshield_types` challenge on a copy of what it finds, and hands out
/// the challenge's fields one for one. Why a member is refused is not
/// kept.
#[verifier::external_body]
fn member_challenge(value: &Value, key: &str) -> (decoded: Option<IronShieldChallenge>)
    ensures
        match decoded {
            Some(challenge) => member_of(json_members(*value), key@) matches Some(member)
                && member.challenge == Some(challenge@),
            None => member_of(json_members(*value), key@) matches Some(member)
                ==> member.challenge is None,
        },
{
    let member = value.get(key)?.clone();
    serde_json::from_value::<ironshield_types::IronShieldChallenge>(member).ok().map(
        |c| IronShieldChallenge {
            random_nonce: c.random_nonce,
            created_time: c.created_time,
            expiration_time: c.expiration_time,
            website_id: c.website_id,
            challenge_param: c.challenge_param,
            recommended_attempts: c.recommended_attempts,
            public_key: c.public_key,
            challenge_signature: c.challenge_signature,
        },
    )
}

/// Calls `Value::get` with the key and `serde_json::from_value` for an
/// `ironshield_types` token on a copy of what it finds, and hands out the
/// token's fields one for one. Why a member is refused is not kept.
#[verifier::external_body]
fn member_token(value: &Value, key: &str) -> (decoded: Option<IronShieldToken>)
    ensures
        match decoded {
            Some(token) => member_of(json_members(*value), key@) matches Some(member)
                && member.token == Some(token@),
            None => member_of(json_members(*value), key@) matches Some(member)
                ==> member.token is None,
        },
{
    let member = value.get(key)?.clone();
    serde_json::from_value::<ironshield_types::IronShieldToken>(member).ok().map(
        |t| IronShieldToken {
            challenge_signature: t.challenge_signature,
            valid_for: t.valid_for,
            public_key: t.public_key,
            auth_signature: t.auth_signature,
        },
    )
}

/// Calls `serde_json::to_string` on an `ironshield_types` request made of
/// `endpoint` and `timestamp`. An error comes out as its message. The
/// contract names the result.
#[verifier::external_body]
fn encode_request(endpoint: &str, timestamp: i64) -> (encoded: Result<String, String>)
    ensures
        match encoded {
            Ok(text) => request_json(endpoint@, timestamp as int) == Ok::<Seq<char>, Seq<char>>(
                text@,
            ),
            Err(message) => request_json(endpoint@, timestamp as int) == Err::<
                Seq<char>,
                Seq<char>,
            >(message@),
        },
{
    let request = ironshield_types::IronShieldRequest::new(endpoint.to_string(), timestamp);
    serde_json::to_string(&request).map_err(|error| error.to_string())
}

/// Calls `serde_json::to_string` on the `ironshield_types` response with
/// the fields of `response`. An error comes out as its message. The
/// contract names the result.
#[verifier::external_body]
fn encode_response(response: &IronShieldChallengeResponse) -> (encoded: Result<String, String>)
    ensures
        match encoded {
            Ok(text) => response_json(response@) == Ok::<Seq<char>, Seq<char>>(text@),
            Err(message) => response_json(response@) == Err::<Seq<char>, Seq<char>>(message@),
        },
{
    let challenge = &response.solved_challenge;
    let outside = ironshield_types::IronShieldChallengeResponse {
        solved_challenge: ironshield_types::IronShieldChallenge {
            random_nonce: challenge.random_nonce.clone(),
            created_time: challenge.created_time,
            expiration_time: challenge.expiration_time,
            website_id: challenge.website_id.clone(),
            challenge_param: challenge.challenge_param,
            recommended_attempts: challenge.recommended_attempts,
            public_key: challenge.public_key,
            challenge_signature: challenge.challenge_signature,
        },
        solution: response.solution,
    };
    serde_json::to_string(&outside).map_err(|error| error.to_string())
}

/// The body of the request for a challenge for `endpoint`, stamped with
/// `timestamp`. A failure to encode is a serialization error.
pub fn request_body(endpoint: &str, timestamp: i64) -> (body: Result<String, ErrorHandler>)
    ensures
        match body {
            Ok(text) => request_json(endpoint@, timestamp as int) == Ok::<Seq<char>, Seq<char>>(
                text@,
            ),
            Err(error) => request_json(endpoint@, timestamp as int) matches Err(message)
                && error@ == ErrorView::SerializationError(message),
        },
{
    match encode_request(endpoint, timestamp) {
        Ok(text) => Ok(text),
        Err(message) => Err(ErrorHandler::SerializationError(message)),
    }
}

/// The body of the request that submits `response`. A failure to encode is
/// a serialization error.
pub fn response_body(response: &IronShieldChallengeResponse) -> (body: Result<String, ErrorHandler>)
    ensures
        match body {
            Ok(text) => response_json(response@) == Ok::<Seq<char>, Seq<char>>(text@),
            Err(error) => response_json(response@) matches Err(message) && error@
                == ErrorView::SerializationError(message),
        },
{
    match encode_response(response) {
        Ok(text) => Ok(text),
        Err(message) => Err(ErrorHandler::SerializationError(message)),
    }
}

/// The message for a reply with the error status `status`.
pub open spec fn status_failure_text(status: u16) -> Seq<char> {
    "API request failed with status: "@ + decimal_digits(status as nat)
}

/// What a reply means, where `parsed` is what the JSON parser made of a
/// response's body: no response is a network error, a status outside 200 to
/// 299 a processing error that carries the status, a body that is no JSON a
/// network error, and anything else the body's JSON.
pub open spec fn reply_result(
    outcome: HttpOutcomeView,
    parsed: Result<JsonMembers, Seq<char>>,
) -> Result<JsonMembers, ErrorView> {
    match outcome {
        HttpOutcomeView::Failed(message) => Err(ErrorView::NetworkError(message)),
        HttpOutcomeView::Response { status, body } => if !is_success_status(status) {
            Err(ErrorView::ProcessingError(status_failure_text(status)))
        } else {
            match parsed {
                Ok(value) => Ok(value),
                Err(message) => Err(ErrorView::NetworkError(message)),
            }
        },
    }
}

/// The body of `outcome`, or the empty text where it has none.
pub open spec fn body_of(outcome: HttpOutcomeView) -> Seq<char> {
    match outcome {
        HttpOutcomeView::Failed(_) => Seq::empty(),
        HttpOutcomeView::Response { status, body } => body,
    }
}

/// Reads the JSON of a reply, as [`reply_result`] says.
pub fn read_reply(outcome: HttpOutcome) -> (result: Result<Value, ErrorHandler>)
    ensures
        match result {
            Ok(value) => reply_result(outcome@, json_parse(body_of(outcome@))) == Ok::<
                JsonMembers,
                ErrorView,
            >(json_members(value)),
            Err(error) => reply_result(outcome@, json_parse(body_of(outcome@))) == Err::<
                JsonMembers,
                ErrorView,
            >(error@),
        },
{
    match outcome {
        HttpOutcome::Failed(message) => Err(ErrorHandler::from_network_error(message)),
        HttpOutcome::Response { status, body } => {
            if status < 200 || status > 299 {
                let code: String = decimal_text(status as u64);
                return Err(
                    ErrorHandler::ProcessingError(
                        join2("API request failed with status: ", code.as_str()),
                    ),
                );
            }
            match parse_json(body.as_str()) {
                Ok(value) => Ok(value),
                Err(message) => Err(ErrorHandler::from_network_error(message)),
            }
        },
    }
}

/// The status of an envelope with the members `members`: its `status`
/// member where that is an integer that fits 16 unsigned bits, and 0
/// otherwise.
pub open spec fn envelope_status(members: JsonMembers) -> u16 {
    match member_of(members, "status"@) {
        Some(member) => match member.number {
            Some(number) => if number <= u16::MAX {
                number as u16
            } else {
                0
            },
            None => 0,
        },
        None => 0,
    }
}

/// The message of an envelope with the members `members`: its `message`
/// member where that is a string, and `No message` otherwise.
pub open spec fn envelope_message(members: JsonMembers) -> Seq<char> {
    match member_of(members, "message"@) {
        Some(member) => match member.text {
            Some(text) => text,
            None => "No message"@,
        },
        None => "No message"@,
    }
}

/// A reply of the API, with the two fields of its envelope read out.
pub struct ApiResponse {
    /// The envelope's status; 200 means success.
    pub status: u16,
    /// The envelope's message.
    pub message: String,
    /// The whole reply.
    pub data: Value,
}

/// The challenge under the key `challenge`, if there is such a member and
/// it reads as a challenge.
pub open spec fn challenge_in(members: JsonMembers) -> Option<ChallengeView> {
    match member_of(members, "challenge"@) {
        Some(member) => member.challenge,
        None => None,
    }
}

/// The token under the key `token`, if there is such a member and it reads
/// as a token.
pub open spec fn token_in(members: JsonMembers) -> Option<TokenView> {
    match member_of(members, "token"@) {
        Some(member) => member.token,
        None => None,
    }
}

impl ApiResponse {
    /// Reads the envelope of `response`. This never fails: a missing or
    /// ill-typed status counts as 0, a missing or ill-typed message as
    /// `No message`.
    pub fn from_json(response: Value) -> (result: Result<Self, ErrorHandler>)
        ensures
            result matches Ok(envelope),
            result->Ok_0.status == envelope_status(json_members(response)),
            result->Ok_0.message@ == envelope_message(json_members(response)),
            result->Ok_0.data == response,
    {
        let status: u16 = match member_u64(&response, "status") {
            Some(number) => if number <= u16::MAX as u64 {
                number as u16
            } else {
                0
            },
            None => 0,
        };
        let message: String = match member_text(&response, "message") {
            Some(text) => text,
            None => String::from_str("No message"),
        };
        Ok(ApiResponse { status, message, data: response })
    }

    /// Whether the envelope reports success.
    pub fn is_success(&self) -> (success: bool)
        ensures
            success == (self.status == 200),
    {
        self.status == 200
    }

    /// The challenge of a successful reply. The call succeeds exactly when
    /// the status is 200 and the member `challenge` is there and reads as a
    /// challenge; every other reply is a processing error that carries the
    /// envelope's message.
    pub fn extract_challenge(&self) -> (result: Result<IronShieldChallenge, ErrorHandler>)
        ensures
            match result {
                Ok(challenge) => self.status == 200 && challenge_in(json_members(self.data)) == Some(challenge@),
                Err(error) => {
                    &&& self.status != 200 || challenge_in(json_members(self.data)) is None
                    &&& error@ == ErrorView::ProcessingError(self.message@)
                },
            },
    {
        if !self.is_success() {
            return Err(ErrorHandler::ProcessingError(self.message.clone()));
        }
        match member_challenge(&self.data, "challenge") {
            Some(challenge) => Ok(challenge),
            None => Err(ErrorHandler::ProcessingError(self.message.clone())),
        }
    }

    /// The token of a successful reply. The call succeeds exactly when the
    /// status is 200 and the member `token` is there and reads as a token;
    /// every other reply is a processing error that carries the envelope's
    /// message.
    pub fn extract_token(&self) -> (result: Result<IronShieldToken, ErrorHandler>)
        ensures
            match result {
                Ok(token) => self.status == 200 && token_in(json_members(self.data)) == Some(token@),
                Err(error) => {
                    &&& self.status != 200 || token_in(json_members(self.data)) is None
                    &&& error@ == ErrorView::ProcessingError(self.message@)
                },
            },
    {
        if !self.is_success() {
            return Err(ErrorHandler::ProcessingError(self.message.clone()));
        }
        match member_token(&self.data, "token") {
            Some(token) => Ok(token),
            None => Err(ErrorHandler::ProcessingError(self.message.clone())),
        }
    }
}

} // verus!
