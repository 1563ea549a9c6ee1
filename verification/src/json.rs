//! Reading the service's answers, which are JSON documents.
//!
//! Parsing is `serde_json`'s work. A parsed document is carried as an opaque
//! value. The protocol reads only members of the top-level object that hold a
//! boolean or a string, so these are what a document is taken to be: the spec
//! functions [`flags`] and [`texts`] name them, and the three functions that
//! call `serde_json` are tied to those names on trust.

use vstd::prelude::*;
use crate::error::DownloadError;
use crate::error::DownloadErrorView;
use crate::text::owned;
use crate::text::text_view;

verus! {

/// A parsed JSON value of `serde_json`.
#[verifier::external_type_specification]
#[verifier::external_body]
pub struct ExValue(serde_json::Value);

/// The error with which `serde_json` refuses a text.
#[verifier::external_type_specification]
#[verifier::external_body]
pub struct ExError(serde_json::Error);

/// What the protocol can read in a document.
pub struct Members {
    /// The members that hold a boolean, by key.
    pub flags: Map<Seq<char>, bool>,
    /// The members that hold a string, by key.
    pub texts: Map<Seq<char>, Seq<char>>,
}

/// The members of the top-level object `document` that hold a boolean, by
/// key. Empty where `document` is no object.
pub uninterp spec fn flags(document: serde_json::Value) -> Map<Seq<char>, bool>;

/// The members of the top-level object `document` that hold a string, by
/// key. Empty where `document` is no object.
pub uninterp spec fn texts(document: serde_json::Value) -> Map<Seq<char>, Seq<char>>;

/// What `serde_json::from_slice` reads from `body`: the members of the
/// document, or `None` where it refuses the bytes.
pub uninterp spec fn parsed(body: Seq<u8>) -> Option<Members>;

/// What the protocol can read in `document`.
pub open spec fn members(document: serde_json::Value) -> Members {
    Members { flags: flags(document), texts: texts(document) }
}

/// What `entries` holds under `key`, if anything.
pub open spec fn member<V>(entries: Map<Seq<char>, V>, key: Seq<char>) -> Option<V> {
    if entries.contains_key(key) {
        Some(entries[key])
    } else {
        None
    }
}

impl Members {
    /// The boolean under `key`, if the member is there and holds one.
    pub open spec fn flag(self, key: Seq<char>) -> Option<bool> {
        member(self.flags, key)
    }

    /// The string under `key`, if the member is there and holds one.
    pub open spec fn text(self, key: Seq<char>) -> Option<Seq<char>> {
        member(self.texts, key)
    }
}

/// Calls `serde_json::from_slice` at the type `serde_json::Value`. Trusted:
/// whether the bytes are read as a document, and what that document holds,
/// depends on the bytes alone.
#[verifier::external_body]
pub(crate) fn parse(body: &[u8]) -> (outcome: Result<serde_json::Value, serde_json::Error>)
    ensures
        outcome is Ok <==> parsed(body@) is Some,
        outcome matches Ok(document) ==> parsed(body@) == Some(
            (Members { flags: flags(document), texts: texts(document) }),
        ),
{
    serde_json::from_slice::<serde_json::Value>(body)
}

/// Indexes a `serde_json::Value` with a string key and calls `as_bool` on
/// what is found. Trusted: the index operator returns for every value and
/// key, with the `null` value where `document` is no object or has no such
/// member, and `as_bool` gives the boolean of a boolean value and `None` of
/// any other.
#[verifier::external_body]
pub(crate) fn flag_at(document: &serde_json::Value, key: &str) -> (flag: Option<bool>)
    ensures
        flag == member(flags(*document), key@),
{
    document[key].as_bool()
}

/// Indexes a `serde_json::Value` with a string key and calls `as_str` on
/// what is found. Trusted: the index operator returns for every value and
/// key, with the `null` value where `document` is no object or has no such
/// member, and `as_str` gives the string of a string value and `None` of any
/// other.
#[verifier::external_body]
pub(crate) fn text_at<'a>(document: &'a serde_json::Value, key: &str) -> (text: Option<&'a str>)
    ensures
        text_view(text) == member(texts(*document), key@),
{
    document[key].as_str()
}

/// The error for an answer that is no JSON document.
pub open spec fn spec_undecodable() -> DownloadErrorView {
    DownloadErrorView::MalformedResponse("Response body is not valid JSON"@)
}

/// The error for an answer that is no JSON document.
pub fn undecodable() -> (error: DownloadError)
    ensures
        error@ == spec_undecodable(),
{
    DownloadError::MalformedResponse("Response body is not valid JSON".to_owned())
}

/// An owned copy of the string under `key`.
pub(crate) fn string_at(document: &serde_json::Value, key: &str) -> (text: Option<String>)
    ensures
        text.deep_view() == members(*document).text(key@),
{
    owned(text_at(document, key))
}

} // verus!
