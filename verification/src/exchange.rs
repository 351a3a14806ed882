//! The token exchange: credentials go to the federation endpoint as a
//! session descriptor, and its answer is read for the sign-in token. The
//! request is described here and its answer is judged here; sending it is the
//! caller's part.

use vstd::prelude::*;
use vstd::string::StringExecFns;

use crate::credentials::Credentials;
use crate::credentials::CredentialsView;
use crate::error::outcome;
use crate::error::Error;
use crate::error::ErrorView;
use crate::json::members_view;
use crate::json::parse_document;
use crate::json::parse_view;
use crate::json::parsed_document;
use crate::json::pretty_object;
use crate::json::write_pretty_object;
use crate::json::Document;
use crate::json::DocumentView;
use crate::json::Member;
use crate::json::MemberView;
use crate::text::pairs_view;
use crate::text::text_view;

verus! {

/// The name under which the federation protocol takes the access key id.
pub const SESSION_ID: &'static str = "sessionId";

/// The name under which the federation protocol takes the secret access key.
pub const SESSION_KEY: &'static str = "sessionKey";

/// The name under which the federation protocol takes the session token.
pub const SESSION_TOKEN: &'static str = "sessionToken";

/// The member of the endpoint's answer that holds the sign-in token.
pub const SIGNIN_TOKEN: &'static str = "signin_token";

/// The other name under which the endpoint may send the sign-in token.
pub const SIGNIN_TOKEN_ALIAS: &'static str = "SigninToken";

/// A GET request to the federation endpoint: the address, and the query
/// parameters in the order in which they are sent.
#[derive(Debug, PartialEq, Eq)]
pub struct SigninRequest {
    pub url: String,
    pub query: Vec<(String, String)>,
}

/// A [`SigninRequest`] with its texts as sequences of characters.
pub struct SigninRequestView {
    pub url: Seq<char>,
    pub query: Seq<(Seq<char>, Seq<char>)>,
}

impl View for SigninRequest {
    type V = SigninRequestView;

    open spec fn view(&self) -> SigninRequestView {
        SigninRequestView { url: self.url@, query: pairs_view(self.query@) }
    }
}

/// The session descriptor of the federation protocol: the three credential
/// values under the protocol's own names.
pub open spec fn session_descriptor(credentials: CredentialsView) -> Seq<(Seq<char>, Seq<char>)> {
    seq![
        (SESSION_ID@, credentials.access_key_id),
        (SESSION_KEY@, credentials.secret_access_key),
        (SESSION_TOKEN@, credentials.session_token),
    ]
}

/// The address of the federation endpoint of a region.
pub open spec fn federation_url(region: Seq<char>) -> Seq<char> {
    "https://"@ + region + ".signin.aws.amazon.com/federation"@
}

/// The request that asks for a sign-in token, given the serialized session
/// descriptor; a descriptor that could not be serialized fails the exchange.
pub open spec fn request_for(session: Result<Seq<char>, Seq<char>>, region: Seq<char>) -> Result<
    SigninRequestView,
    ErrorView,
> {
    match session {
        Ok(session) => Ok(
            SigninRequestView {
                url: federation_url(region),
                query: seq![("Action"@, "getSigninToken"@), ("Session"@, session)],
            },
        ),
        Err(cause) => Err(ErrorView::ExchangeFailed { cause }),
    }
}

/// A status is a success when it is one of the 2xx codes.
pub open spec fn is_success(status: u16) -> bool {
    200 <= status < 300
}

/// Whether a member's name is one of the two under which the token is sent.
pub open spec fn is_token_name(name: Seq<char>) -> bool {
    name == SIGNIN_TOKEN@ || name == SIGNIN_TOKEN_ALIAS@
}

/// Whether the member at position `i` is named as the token.
pub open spec fn names_token(members: Seq<MemberView>, i: int) -> bool {
    0 <= i < members.len() && is_token_name(members[i].name)
}

/// The sign-in token that an object's members hold: the text of the one
/// member named as the token. No such member, more than one, or one whose
/// value is not a string make the answer malformed.
pub open spec fn token_among(members: Seq<MemberView>) -> Result<Seq<char>, ErrorView> {
    if !exists|i: int| names_token(members, i) {
        Err(ErrorView::MalformedResponse { cause: "the answer holds no sign-in token"@ })
    } else if exists|i: int, j: int| i != j && names_token(members, i) && names_token(members, j) {
        Err(ErrorView::MalformedResponse { cause: "the answer holds more than one sign-in token"@ })
    } else {
        match members[choose|i: int| names_token(members, i)].text {
            Some(token) => Ok(token),
            None => Err(ErrorView::MalformedResponse { cause: "the sign-in token is not a string"@ }),
        }
    }
}

/// The sign-in token in the body of a successful answer, given what the body
/// parsed to.
pub open spec fn token_in(document: Result<DocumentView, Seq<char>>) -> Result<
    Seq<char>,
    ErrorView,
> {
    match document {
        Err(cause) => Err(ErrorView::MalformedResponse { cause }),
        Ok(DocumentView::Other) => Err(
            ErrorView::MalformedResponse { cause: "the answer is not a JSON object"@ },
        ),
        Ok(DocumentView::Object(members)) => token_among(members),
    }
}

/// The outcome of the exchange, given the endpoint's status and what its body
/// parses to: a status that is no success fails the exchange whatever the
/// body holds.
pub open spec fn exchanged(status: u16, document: Result<DocumentView, Seq<char>>) -> Result<
    Seq<char>,
    ErrorView,
> {
    if is_success(status) {
        token_in(document)
    } else {
        Err(ErrorView::ExchangeFailed { cause: "the endpoint refused the request"@ })
    }
}

/// Maps the credentials to the session descriptor, name by name.
pub fn describe_session(credentials: &Credentials) -> (members: Vec<(String, String)>)
    ensures
        pairs_view(members@) == session_descriptor(credentials@),
{
    let mut members: Vec<(String, String)> = Vec::new();
    members.push((String::from_str(SESSION_ID), credentials.access_key_id.clone()));
    members.push((String::from_str(SESSION_KEY), credentials.secret_access_key.clone()));
    members.push((String::from_str(SESSION_TOKEN), credentials.session_token.clone()));
    assert(pairs_view(members@) =~= session_descriptor(credentials@));
    members
}

/// Builds the request for a sign-in token from the serialized session
/// descriptor, or fails the exchange where there is none.
pub fn request_with_session(session: Result<String, String>, region: &str) -> (result: Result<
    SigninRequest,
    Error,
>)
    ensures
        outcome(result) == request_for(text_view(session), region@),
{
    match session {
        Ok(session) => {
            let mut url = String::from_str("https://");
            url.append(region);
            url.append(".signin.aws.amazon.com/federation");
            let mut query: Vec<(String, String)> = Vec::new();
            query.push((String::from_str("Action"), String::from_str("getSigninToken")));
            query.push((String::from_str("Session"), session));
            assert(pairs_view(query@) =~= seq![
                ("Action"@, "getSigninToken"@),
                ("Session"@, session@),
            ]);
            Ok(SigninRequest { url, query })
        },
        Err(cause) => Err(Error::ExchangeFailed { cause }),
    }
}

/// Describes the request that exchanges the credentials for a sign-in token
/// in the given region: a GET to the region's federation endpoint with the
/// action and the session descriptor, serialized as JSON, as its query.
pub fn signin_request(credentials: &Credentials, region: &str) -> (result: Result<
    SigninRequest,
    Error,
>)
    ensures
        outcome(result) == request_for(
            pretty_object(session_descriptor(credentials@)),
            region@,
        ),
{
    let members = describe_session(credentials);
    request_with_session(write_pretty_object(&members), region)
}

/// Tells whether a status code reports success.
pub fn status_is_success(status: u16) -> (success: bool)
    ensures
        success == is_success(status),
{
    200 <= status && status < 300
}

fn member_names_token(member: &Member) -> (named: bool)
    ensures
        named == is_token_name(member.name@),
{
    member.name == String::from_str(SIGNIN_TOKEN) || member.name == String::from_str(
        SIGNIN_TOKEN_ALIAS,
    )
}

/// Finds the sign-in token among the members of the answer.
pub fn signin_token_among(members: &Vec<Member>) -> (result: Result<String, Error>)
    ensures
        outcome(result) == token_among(members_view(members@)),
{
    let ghost viewed = members_view(members@);
    let mut found: Option<usize> = None;
    let mut i: usize = 0;
    while i < members.len()
        invariant
            i <= members.len(),
            viewed == members_view(members@),
            found matches Some(at) ==> at < i && names_token(viewed, at as int),
            forall|j: int|
                0 <= j < i && names_token(viewed, j) ==> found == Some(j as usize),
        decreases members.len() - i,
    {
        if member_names_token(&members[i]) {
            assert(names_token(viewed, i as int));
            if found.is_some() {
                return Err(
                    Error::MalformedResponse {
                        cause: String::from_str("the answer holds more than one sign-in token"),
                    },
                );
            }
            found = Some(i);
        }
        i += 1;
    }
    match found {
        None => Err(
            Error::MalformedResponse {
                cause: String::from_str("the answer holds no sign-in token"),
            },
        ),
        Some(at) => {
            assert(names_token(viewed, at as int));
            match &members[at].text {
                Some(token) => Ok(token.clone()),
                None => Err(
                    Error::MalformedResponse {
                        cause: String::from_str("the sign-in token is not a string"),
                    },
                ),
            }
        },
    }
}

/// Reads the sign-in token from what the body of a successful answer parsed
/// to.
pub fn signin_token_in(document: Result<Document, String>) -> (result: Result<String, Error>)
    ensures
        outcome(result) == token_in(parse_view(document)),
{
    match document {
        Err(cause) => Err(Error::MalformedResponse { cause }),
        Ok(Document::Other) => Err(
            Error::MalformedResponse { cause: String::from_str("the answer is not a JSON object") },
        ),
        Ok(Document::Object(members)) => signin_token_among(&members),
    }
}

/// Judges the endpoint's answer: a status that is no success fails the
/// exchange; the body of a successful answer is parsed as JSON and must hold
/// the sign-in token.
pub fn signin_token_from_response(status: u16, body: &[u8]) -> (result: Result<String, Error>)
    ensures
        outcome(result) == exchanged(status, parsed_document(body@)),
{
    if status_is_success(status) {
        signin_token_in(parse_document(body))
    } else {
        Err(Error::ExchangeFailed { cause: String::from_str("the endpoint refused the request") })
    }
}

} // verus!
