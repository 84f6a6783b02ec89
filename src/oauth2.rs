use vstd::prelude::*;
use crate::codec::STATUS_OK;
use crate::json::{Json, member, int_in};
use crate::model::{FromJson, text_member};
use crate::text::same_text;
use crate::token::{ExternalToken, Token, later};

verus! {

/// The error codes of RFC 6749, section 5.2.
#[derive(PartialEq, Eq, Structural, Clone, Copy, Debug)]
pub enum Oauth2ErrorMessage {
    InvalidRequest,
    InvalidClient,
    InvalidGrant,
    UnauthorizedClient,
    UnsupportedGrantType,
    InvalidScope,
}

/// The error code written as `text`, in snake case.
pub open spec fn error_code_named(text: Seq<char>) -> Option<Oauth2ErrorMessage> {
    if text == "invalid_request"@ {
        Some(Oauth2ErrorMessage::InvalidRequest)
    } else if text == "invalid_client"@ {
        Some(Oauth2ErrorMessage::InvalidClient)
    } else if text == "invalid_grant"@ {
        Some(Oauth2ErrorMessage::InvalidGrant)
    } else if text == "unauthorized_client"@ {
        Some(Oauth2ErrorMessage::UnauthorizedClient)
    } else if text == "unsupported_grant_type"@ {
        Some(Oauth2ErrorMessage::UnsupportedGrantType)
    } else if text == "invalid_scope"@ {
        Some(Oauth2ErrorMessage::InvalidScope)
    } else {
        None
    }
}

impl Oauth2ErrorMessage {
    /// Reads an error code.
    pub fn parse(text: &str) -> (r: Option<Oauth2ErrorMessage>)
        ensures
            r == error_code_named(text@),
    {
        if same_text(text, "invalid_request") {
            Some(Oauth2ErrorMessage::InvalidRequest)
        } else if same_text(text, "invalid_client") {
            Some(Oauth2ErrorMessage::InvalidClient)
        } else if same_text(text, "invalid_grant") {
            Some(Oauth2ErrorMessage::InvalidGrant)
        } else if same_text(text, "unauthorized_client") {
            Some(Oauth2ErrorMessage::UnauthorizedClient)
        } else if same_text(text, "unsupported_grant_type") {
            Some(Oauth2ErrorMessage::UnsupportedGrantType)
        } else if same_text(text, "invalid_scope") {
            Some(Oauth2ErrorMessage::InvalidScope)
        } else {
            None
        }
    }
}

/// The error answer of a token endpoint.
#[derive(Debug)]
pub struct Oauth2Error {
    pub error: Oauth2ErrorMessage,
    pub error_description: Option<String>,
    pub error_uri: Option<String>,
}

/// Why a token exchange failed.
#[derive(Debug)]
pub enum Error {
    /// The endpoint could not be reached or its answer could not be read.
    CommunicationError(String),
    /// The endpoint refused the grant.
    Oauth2Error(Oauth2Error),
}

/// A kind of grant that can be exchanged for a token.
pub trait Grant {
}

/// The authorization-code grant.
#[derive(Debug)]
pub struct AuthorizationCode {
    pub code: String,
}

impl Grant for AuthorizationCode {
}

impl AuthorizationCode {
    /// The form body that presents this grant to the token endpoint.
    pub fn form_body(&self) -> (r: String)
        ensures
            r@ == "grant_type=authorization_code&code="@ + self.code@,
    {
        let mut body = String::from_str("grant_type=authorization_code&code=");
        body.append(self.code.as_str());
        body
    }
}

/// An optional text member: absent or null reads as `None`.
pub open spec fn optional_text(o: Option<Json>, t: Option<String>) -> bool {
    match o {
        None => t is None,
        Some(Json::Null) => t is None,
        Some(Json::Str(s)) => t is Some && t->0@ == s@,
        _ => false,
    }
}

/// The member a lookup found.
pub open spec fn found(o: Option<&Json>) -> Option<Json> {
    match o {
        Some(j) => Some(*j),
        None => None,
    }
}

fn read_optional_text(o: Option<&Json>) -> (r: Option<Option<String>>)
    ensures
        match r {
            Some(t) => optional_text(found(o), t),
            None => forall|t: Option<String>| !#[trigger] optional_text(found(o), t),
        },
{
    match o {
        None => Some(None),
        Some(Json::Null) => Some(None),
        Some(Json::Str(s)) => Some(Some(s.clone())),
        Some(_) => None,
    }
}

impl FromJson for Oauth2Error {
    open spec fn decodes_to(j: Json, v: Oauth2Error) -> bool {
        &&& text_member(j, "error"@) is Some
        &&& error_code_named(text_member(j, "error"@)->0) == Some(v.error)
        &&& optional_text(member(j, "error_description"@), v.error_description)
        &&& optional_text(member(j, "error_uri"@), v.error_uri)
    }

    fn from_json(j: &Json) -> (r: Option<Oauth2Error>) {
        let error = match j.get("error") {
            Some(Json::Str(s)) => Oauth2ErrorMessage::parse(s.as_str()),
            _ => None,
        };
        let error_description = read_optional_text(j.get("error_description"));
        let error_uri = read_optional_text(j.get("error_uri"));
        match (error, error_description, error_uri) {
            (Some(error), Some(error_description), Some(error_uri)) => Some(
                Oauth2Error { error, error_description, error_uri },
            ),
            _ => None,
        }
    }
}

impl FromJson for ExternalToken {
    open spec fn decodes_to(j: Json, v: ExternalToken) -> bool {
        &&& text_member(j, "access_token"@) == Some(v.access_token@)
        &&& text_member(j, "refresh_token"@) == Some(v.refresh_token@)
        &&& text_member(j, "token_type"@) == Some(v.token_type@)
        &&& member(j, "expires_in"@) is Some
        &&& int_in(member(j, "expires_in"@)->0, 0, u64::MAX as int) == Some(v.expires_in as int)
    }

    fn from_json(j: &Json) -> (r: Option<ExternalToken>) {
        let access_token = match j.get("access_token") {
            Some(v) => v.as_text(),
            None => None,
        };
        let refresh_token = match j.get("refresh_token") {
            Some(v) => v.as_text(),
            None => None,
        };
        let token_type = match j.get("token_type") {
            Some(v) => v.as_text(),
            None => None,
        };
        let expires_in = match j.get("expires_in") {
            Some(v) => v.as_u64(),
            None => None,
        };
        match (access_token, refresh_token, token_type, expires_in) {
            (Some(access_token), Some(refresh_token), Some(token_type), Some(expires_in)) => Some(
                ExternalToken { access_token, refresh_token, token_type, expires_in },
            ),
            _ => None,
        }
    }
}

/// What a shape mismatch in a token answer is reported with.
pub open spec fn unreadable(e: Error) -> bool {
    e is CommunicationError && e->CommunicationError_0@ == "error parsing response: unexpected shape"@
}

fn unreadable_answer() -> (r: Error)
    ensures
        unreadable(r),
{
    Error::CommunicationError(String::from_str("error parsing response: unexpected shape"))
}

/// Reads the token endpoint's answer, received at `now`: under status 200 the
/// granted credential, else the endpoint's refusal; an answer of the wrong
/// shape is a communication error.
pub fn exchange_outcome(status: u16, body: &Json, now: u64) -> (r: Result<Token, Error>)
    ensures
        status == STATUS_OK ==> match r {
            Ok(t) => exists|x: ExternalToken|
                #[trigger] ExternalToken::decodes_to(*body, x) && t.access_token == x.access_token
                    && t.refresh_token == Some(x.refresh_token) && t.expires_at == Some(later(now, x.expires_in)),
            Err(e) => unreadable(e) && forall|x: ExternalToken| !#[trigger] ExternalToken::decodes_to(*body, x),
        },
        status != STATUS_OK ==> match r {
            Ok(_) => false,
            Err(Error::Oauth2Error(e)) => Oauth2Error::decodes_to(*body, e),
            Err(e) => unreadable(e) && forall|x: Oauth2Error| !#[trigger] Oauth2Error::decodes_to(*body, x),
        },
{
    if status == STATUS_OK {
        match ExternalToken::from_json(body) {
            Some(x) => Ok(Token::new(x, now)),
            None => Err(unreadable_answer()),
        }
    } else {
        match Oauth2Error::from_json(body) {
            Some(e) => Err(Error::Oauth2Error(e)),
            None => Err(unreadable_answer()),
        }
    }
}

} // verus!
