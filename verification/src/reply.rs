//! Reading the player's replies.
//!
//! The player answers a request with one line of JSON. The answer to a
//! request for a property carries the property's value in the member `data`.

use vstd::prelude::*;
use crate::json::{json_member, json_parse, json_string, json_text};
use crate::json::{member, parse_document, string_of, text_of};
use crate::text::text_of_option;

verus! {

/// What a reply line holds, as far as the front-end looks at it.
#[derive(Debug, PartialEq, Eq)]
pub enum Reading {
    /// The line is not JSON.
    Malformed,
    /// The line is JSON without a member `data`.
    Empty,
    /// `data` is a JSON string; this is its content.
    Text(String),
    /// `data` is some other JSON value; this is its JSON text.
    Json(String),
}

/// A `Reading` with its strings as texts.
pub enum ReadingView {
    Malformed,
    Empty,
    Text(Seq<char>),
    Json(Seq<char>),
}

impl View for Reading {
    type V = ReadingView;

    open spec fn view(&self) -> ReadingView {
        match self {
            Reading::Malformed => ReadingView::Malformed,
            Reading::Empty => ReadingView::Empty,
            Reading::Text(content) => ReadingView::Text(content@),
            Reading::Json(json) => ReadingView::Json(json@),
        }
    }
}

/// What a parsed reply holds: the content of `data` where it is a JSON
/// string, the JSON text of `data` where it is anything else.
pub open spec fn document_reading(doc: serde_json::Value) -> ReadingView {
    match json_member(doc, "data"@) {
        Some(data) => match json_string(data) {
            Some(content) => ReadingView::Text(content),
            None => ReadingView::Json(json_text(data)),
        },
        None => ReadingView::Empty,
    }
}

/// What a reply line holds.
pub open spec fn line_reading(line: Seq<char>) -> ReadingView {
    match json_parse(line) {
        Some(doc) => document_reading(doc),
        None => ReadingView::Malformed,
    }
}

/// The value a reply carries, as text: a string by its content, without
/// quotes, any other value by its JSON text, and nothing where there is no
/// `data`.
pub open spec fn value_text(reading: ReadingView) -> Option<Seq<char>> {
    match reading {
        ReadingView::Text(content) => Some(content),
        ReadingView::Json(json) => Some(json),
        ReadingView::Malformed => None,
        ReadingView::Empty => None,
    }
}

impl Reading {
    /// The value the reply carries, as text.
    pub fn into_value(self) -> (value: Option<String>)
        ensures
            text_of_option(value) == value_text(self@),
    {
        match self {
            Reading::Text(content) => Some(content),
            Reading::Json(json) => Some(json),
            Reading::Malformed => None,
            Reading::Empty => None,
        }
    }
}

/// Looks at a parsed reply.
pub fn read_document(doc: &serde_json::Value) -> (reading: Reading)
    ensures
        reading@ == document_reading(*doc),
{
    match member(doc, "data") {
        Some(data) => match string_of(data) {
            Some(content) => Reading::Text(content.to_owned()),
            None => Reading::Json(text_of(data)),
        },
        None => Reading::Empty,
    }
}

/// Parses a reply line and looks at it.
pub fn read_reply(line: &str) -> (reading: Reading)
    ensures
        reading@ == line_reading(line@),
{
    match parse_document(line) {
        Ok(doc) => read_document(&doc),
        Err(_) => Reading::Malformed,
    }
}

/// Reads one reply line and returns the value it carries. A line that is
/// not JSON carries nothing, as does a reply without `data`.
pub fn parse_reply(line: &str) -> (value: Option<String>)
    ensures
        text_of_option(value) == value_text(line_reading(line@)),
{
    read_reply(line).into_value()
}

} // verus!
