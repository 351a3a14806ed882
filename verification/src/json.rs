//! JSON text, as far as the token exchange writes and reads it. The text is
//! written and parsed by `serde_json`; what this module states of it is
//! believed, not proved.

use vstd::prelude::*;

use crate::text::pairs_view;
use crate::text::text_view;

verus! {

/// One member of a JSON object: its name, and its value if that is a string.
#[derive(Debug, PartialEq, Eq)]
pub struct Member {
    pub name: String,
    /// `None` for a value that is not a string.
    pub text: Option<String>,
}

/// A [`Member`] with its texts as sequences of characters.
pub struct MemberView {
    pub name: Seq<char>,
    pub text: Option<Seq<char>>,
}

impl View for Member {
    type V = MemberView;

    open spec fn view(&self) -> MemberView {
        MemberView {
            name: self.name@,
            text: match self.text {
                Some(text) => Some(text@),
                None => None,
            },
        }
    }
}

/// A parsed JSON document: an object with its members, or any other value.
#[derive(Debug, PartialEq, Eq)]
pub enum Document {
    Object(Vec<Member>),
    Other,
}

/// A [`Document`] with its members viewed.
pub enum DocumentView {
    Object(Seq<MemberView>),
    Other,
}

impl View for Document {
    type V = DocumentView;

    open spec fn view(&self) -> DocumentView {
        match *self {
            Document::Object(members) => DocumentView::Object(members_view(members@)),
            Document::Other => DocumentView::Other,
        }
    }
}

/// The members of an object, each viewed.
pub open spec fn members_view(members: Seq<Member>) -> Seq<MemberView> {
    Seq::new(members.len(), |i: int| members[i]@)
}

/// A parsed document or a failure message, viewed.
pub open spec fn parse_view(document: Result<Document, String>) -> Result<
    DocumentView,
    Seq<char>,
> {
    match document {
        Ok(document) => Ok(document@),
        Err(message) => Err(message@),
    }
}

/// The pretty-printed JSON object whose members are the given names, each
/// with a string value; or the serializer's message where it fails.
pub uninterp spec fn pretty_object(members: Seq<(Seq<char>, Seq<char>)>) -> Result<
    Seq<char>,
    Seq<char>,
>;

/// What the given bytes hold when read as one JSON document; or the parser's
/// message where they are not one.
pub uninterp spec fn parsed_document(text: Seq<u8>) -> Result<DocumentView, Seq<char>>;

/// `serde_json::to_string_pretty`, applied to a `serde_json::Map` that holds
/// each given name with its value as a JSON string. The contract only names
/// the outcome, [`pretty_object`]: the same members give the same text or the
/// same message.
#[verifier::external_body]
pub(crate) fn write_pretty_object(members: &Vec<(String, String)>) -> (text: Result<
    String,
    String,
>)
    ensures
        text_view(text) == pretty_object(pairs_view(members@)),
{
    let object: serde_json::Map<String, serde_json::Value> = members.iter().map(
        |(name, value)| (name.clone(), serde_json::Value::String(value.clone())),
    ).collect();
    match serde_json::to_string_pretty(&object) {
        Ok(text) => Ok(text),
        Err(error) => Err(error.to_string()),
    }
}

/// `serde_json::from_slice`, reading the bytes as a `serde_json::Value`. An
/// object comes back with its members, a string value as its text and any
/// other value as `None`; any other document as [`Document::Other`]. The
/// contract only names the outcome, [`parsed_document`]: the same bytes give
/// the same document or the same message.
#[verifier::external_body]
pub(crate) fn parse_document(text: &[u8]) -> (document: Result<Document, String>)
    ensures
        parse_view(document) == parsed_document(text@),
{
    let value = match serde_json::from_slice::<serde_json::Value>(text) {
        Ok(value) => value,
        Err(error) => return Err(error.to_string()),
    };
    let serde_json::Value::Object(members) = value else { return Ok(Document::Other) };
    let text_of = |value: serde_json::Value| match value {
        serde_json::Value::String(text) => Some(text),
        _ => None,
    };
    let members = members.into_iter().map(|(name, value)| Member { name, text: text_of(value) });
    Ok(Document::Object(members.collect()))
}

} // verus!
