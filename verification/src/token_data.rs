use vstd::prelude::*;
use vstd::string::StringSliceAdditionalSpecFns;

use crate::crypto::{b64url_decode, b64url_decode_of};
use crate::errors::TokenError;
use crate::jsonval::{
    json_is_valid, json_parse_ok, json_str_field, json_str_field2, json_str_field2_of,
    json_str_field_of,
};
use crate::strutil::{bytes_range, find_byte_from, find_from, lemma_find_from, str_eq};

verus! {

/// Which kind of credential is active.
#[derive(Clone, Debug, PartialEq, Eq, Structural, Copy)]
pub enum AuthMode {
    ApiKey,
    ChatGPT,
}

/// A full OAuth token set.
#[derive(Debug, PartialEq, Eq)]
pub struct TokenData {
    /// Claims parsed from the identity token.
    pub id_token: IdTokenInfo,
    /// The bearer token sent on API calls.
    pub access_token: String,
    /// The token that obtains new access tokens without re-authentication.
    pub refresh_token: String,
    pub account_id: Option<String>,
}

/// Flat subset of the useful claims of an identity token.
#[derive(Debug, PartialEq, Eq)]
pub struct IdTokenInfo {
    pub email: Option<String>,
    /// The subscription plan claim, kept verbatim when unrecognised.
    pub chatgpt_plan_type: Option<PlanType>,
    /// The original compact token, retained for re-serialization.
    pub raw_jwt: String,
}

/// A subscription plan: one of the closed set of known plans, or an
/// opaque string kept verbatim to tolerate provider additions.
#[derive(Debug, PartialEq, Eq)]
pub enum PlanType {
    Known(KnownPlan),
    Unknown(String),
}

impl Clone for PlanType {
    fn clone(&self) -> (r: Self)
        ensures
            r == *self,
    {
        match self {
            PlanType::Known(k) => PlanType::Known(*k),
            PlanType::Unknown(s) => PlanType::Unknown(s.clone()),
        }
    }
}

#[derive(Debug, Clone, Copy, PartialEq, Eq, Structural)]
pub enum KnownPlan {
    Free,
    Plus,
    Pro,
    Business,
    Enterprise,
    Edu,
}

impl PlanType {
    /// Plans billed through a metered API key rather than a session.
    pub open spec fn spec_should_use_api_key(self) -> bool {
        self == PlanType::Known(KnownPlan::Enterprise)
    }

    /// True for plans that should use the traditional metered billing
    /// via an API key.
    pub fn is_plan_that_should_use_api_key(&self) -> (r: bool)
        ensures
            r == self.spec_should_use_api_key(),
    {
        match self {
            PlanType::Known(KnownPlan::Enterprise) => true,
            _ => false,
        }
    }
}

impl Clone for TokenData {
    fn clone(&self) -> (r: Self)
        ensures
            r == *self,
    {
        TokenData {
            id_token: self.id_token.clone(),
            access_token: self.access_token.clone(),
            refresh_token: self.refresh_token.clone(),
            account_id: match &self.account_id {
                Some(a) => Some(a.clone()),
                None => None,
            },
        }
    }
}

impl Clone for IdTokenInfo {
    fn clone(&self) -> (r: Self)
        ensures
            r == *self,
    {
        IdTokenInfo {
            email: match &self.email {
                Some(e) => Some(e.clone()),
                None => None,
            },
            chatgpt_plan_type: match &self.chatgpt_plan_type {
                Some(p) => Some(p.clone()),
                None => None,
            },
            raw_jwt: self.raw_jwt.clone(),
        }
    }
}

impl TokenData {
    /// An absent plan claim, or a metered plan, prefers API-key mode.
    pub open spec fn spec_should_use_api_key(self) -> bool {
        match self.id_token.chatgpt_plan_type {
            None => true,
            Some(plan) => plan.spec_should_use_api_key(),
        }
    }

    /// True if this token set belongs to a plan that should use the
    /// traditional metered billing via an API key.
    pub fn is_plan_that_should_use_api_key(&self) -> (r: bool)
        ensures
            r == self.spec_should_use_api_key(),
    {
        match &self.id_token.chatgpt_plan_type {
            None => true,
            Some(plan) => plan.is_plan_that_should_use_api_key(),
        }
    }
}

/// The display label of a plan: the name of a known plan, or the
/// unknown string verbatim.
pub open spec fn spec_plan_label(p: PlanType) -> Seq<char> {
    match p {
        PlanType::Known(KnownPlan::Free) => "Free"@,
        PlanType::Known(KnownPlan::Plus) => "Plus"@,
        PlanType::Known(KnownPlan::Pro) => "Pro"@,
        PlanType::Known(KnownPlan::Business) => "Business"@,
        PlanType::Known(KnownPlan::Enterprise) => "Enterprise"@,
        PlanType::Known(KnownPlan::Edu) => "Edu"@,
        PlanType::Unknown(s) => s@,
    }
}

impl IdTokenInfo {
    /// The plan claim as a display label, when one is present.
    pub fn get_chatgpt_plan_type(&self) -> (r: Option<String>)
        ensures
            match self.chatgpt_plan_type {
                None => r is None,
                Some(plan) => r matches Some(label) && label@ == spec_plan_label(plan),
            },
    {
        match &self.chatgpt_plan_type {
            None => None,
            Some(PlanType::Known(KnownPlan::Free)) => Some("Free".to_owned()),
            Some(PlanType::Known(KnownPlan::Plus)) => Some("Plus".to_owned()),
            Some(PlanType::Known(KnownPlan::Pro)) => Some("Pro".to_owned()),
            Some(PlanType::Known(KnownPlan::Business)) => Some("Business".to_owned()),
            Some(PlanType::Known(KnownPlan::Enterprise)) => Some("Enterprise".to_owned()),
            Some(PlanType::Known(KnownPlan::Edu)) => Some("Edu".to_owned()),
            Some(PlanType::Unknown(s)) => Some(s.as_str().to_owned()),
        }
    }
}

/// The known plan a claim string names, or `None` for a string outside
/// the closed set.
pub open spec fn spec_known_plan_of(s: Seq<char>) -> Option<KnownPlan> {
    if s == "free"@ {
        Some(KnownPlan::Free)
    } else if s == "plus"@ {
        Some(KnownPlan::Plus)
    } else if s == "pro"@ {
        Some(KnownPlan::Pro)
    } else if s == "business"@ {
        Some(KnownPlan::Business)
    } else if s == "enterprise"@ {
        Some(KnownPlan::Enterprise)
    } else if s == "edu"@ {
        Some(KnownPlan::Edu)
    } else {
        None
    }
}

/// The plan named by a claim string: one of the closed set, or kept
/// verbatim as unknown.
pub fn plan_type_from_str(s: &str) -> (p: PlanType)
    ensures
        match spec_known_plan_of(s@) {
            Some(k) => p == PlanType::Known(k),
            None => p matches PlanType::Unknown(u) && u@ == s@,
        },
{
    if str_eq(s, "free") {
        PlanType::Known(KnownPlan::Free)
    } else if str_eq(s, "plus") {
        PlanType::Known(KnownPlan::Plus)
    } else if str_eq(s, "pro") {
        PlanType::Known(KnownPlan::Pro)
    } else if str_eq(s, "business") {
        PlanType::Known(KnownPlan::Business)
    } else if str_eq(s, "enterprise") {
        PlanType::Known(KnownPlan::Enterprise)
    } else if str_eq(s, "edu") {
        PlanType::Known(KnownPlan::Edu)
    } else {
        PlanType::Unknown(s.to_owned())
    }
}

/// Index of the first dot of a compact token's bytes, or the length.
pub open spec fn id_token_first_dot(s: Seq<u8>) -> int {
    find_from(s, 46u8, 0)
}

/// Index of the second dot of a compact token's bytes, or the length.
pub open spec fn id_token_second_dot(s: Seq<u8>) -> int {
    find_from(s, 46u8, id_token_first_dot(s) + 1)
}

/// Whether the bytes consist of exactly three dot-separated segments.
pub open spec fn id_token_has_three_segments(s: Seq<u8>) -> bool {
    &&& id_token_first_dot(s) < s.len()
    &&& id_token_second_dot(s) < s.len()
    &&& find_from(s, 46u8, id_token_second_dot(s) + 1) == s.len()
}

/// The middle segment of a three-segment compact token.
pub open spec fn id_token_payload(s: Seq<u8>) -> Seq<u8>
    recommends
        id_token_has_three_segments(s),
{
    s.subrange(id_token_first_dot(s) + 1, id_token_second_dot(s))
}

/// How parsing a compact token's bytes fails, or `None` when it
/// succeeds: a segment count other than three, then invalid base64 of
/// the middle segment, then invalid JSON of the decoded payload.
pub open spec fn id_token_parse_err(s: Seq<u8>) -> Option<TokenError> {
    if !id_token_has_three_segments(s) {
        Some(TokenError::InvalidJwt)
    } else {
        match b64url_decode_of(id_token_payload(s)) {
            None => Some(TokenError::Base64Error),
            Some(decoded) => if !json_parse_ok(decoded) {
                Some(TokenError::JsonError)
            } else {
                None
            },
        }
    }
}

/// Whether a plan value is what the claim string `s` names: the known
/// plan of the closed set, or the string kept verbatim as unknown.
pub open spec fn spec_plan_claim_matches(p: PlanType, s: Seq<char>) -> bool {
    match spec_known_plan_of(s) {
        Some(k) => p == PlanType::Known(k),
        None => (p matches PlanType::Unknown(u) && u@ == s),
    }
}

/// Whether the parsed claims are exactly what the decoded JSON payload
/// holds: the email is the payload's `email` string field, if and only
/// if one is there, and the plan is named by the `chatgpt_plan_type`
/// string inside the provider's claim object, if and only if one is
/// there.
pub open spec fn spec_id_claims_ok(info: IdTokenInfo, payload: Seq<u8>) -> bool {
    &&& (match info.email {
        Some(e) => json_str_field_of(payload, "email"@) == Some(e@),
        None => json_str_field_of(payload, "email"@) is None,
    })
    &&& (match info.chatgpt_plan_type {
        Some(p) => (json_str_field2_of(
            payload,
            "https://api.openai.com/auth"@,
            "chatgpt_plan_type"@,
        ) matches Some(s) && spec_plan_claim_matches(p, s)),
        None => json_str_field2_of(
            payload,
            "https://api.openai.com/auth"@,
            "chatgpt_plan_type"@,
        ) is None,
    })
}

/// Parses a compact identity token: requires exactly three dot-separated
/// segments, base64url-decodes the middle segment and reads the `email`
/// and nested `chatgpt_plan_type` claims from its JSON payload. Never
/// yields a partial result: each malformed input fails with the distinct
/// error that `id_token_parse_err` assigns to it, and a successful parse
/// carries exactly the payload's claims.
pub fn parse_id_token(jwt: &str) -> (r: Result<IdTokenInfo, TokenError>)
    ensures
        r is Err <==> id_token_parse_err(jwt.spec_bytes()) is Some,
        r matches Err(e) ==> id_token_parse_err(jwt.spec_bytes()) == Some(e),
        r matches Ok(info) ==> info.raw_jwt@ == jwt@ && (b64url_decode_of(
            id_token_payload(jwt.spec_bytes()),
        ) matches Some(p) && spec_id_claims_ok(info, p)),
{
    let bytes = jwt.as_bytes();
    let n = bytes.len();
    proof {
        lemma_find_from(bytes@, 46u8, 0);
    }
    let d1 = find_byte_from(bytes, 46u8, 0);
    if d1 == n {
        return Err(TokenError::InvalidJwt);
    }
    proof {
        lemma_find_from(bytes@, 46u8, d1 + 1);
    }
    let d2 = find_byte_from(bytes, 46u8, d1 + 1);
    if d2 == n {
        return Err(TokenError::InvalidJwt);
    }
    let d3 = find_byte_from(bytes, 46u8, d2 + 1);
    if d3 != n {
        return Err(TokenError::InvalidJwt);
    }
    let payload_b64 = bytes_range(bytes, d1 + 1, d2);
    let payload = match b64url_decode(payload_b64.as_slice()) {
        Some(p) => p,
        None => {
            return Err(TokenError::Base64Error);
        },
    };
    if !json_is_valid(payload.as_slice()) {
        return Err(TokenError::JsonError);
    }
    let email = json_str_field(payload.as_slice(), "email");
    let chatgpt_plan_type = match json_str_field2(
        payload.as_slice(),
        "https://api.openai.com/auth",
        "chatgpt_plan_type",
    ) {
        Some(s) => Some(plan_type_from_str(s.as_str())),
        None => None,
    };
    Ok(IdTokenInfo { email, chatgpt_plan_type, raw_jwt: jwt.to_owned() })
}

} // verus!
