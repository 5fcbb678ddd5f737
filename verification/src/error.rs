//! The single error taxonomy of every parse entry point.

use vstd::prelude::*;
use crate::text::{joined, owned};

verus! {

/// Why a document could not be turned into a collection.
#[derive(Clone, Debug, PartialEq, Eq)]
pub enum ParseError {
    /// A source could not be opened or read.
    IoFailure,
    /// A compressed stream was corrupt or cut short.
    DecompressionFailure,
    /// The decoded bytes are not well-formed markup or key-mapping text.
    MalformedTree,
    /// A mandatory attribute is absent: its name, then the element it belongs to.
    MissingAttribute(String, String),
    /// A mandatory child element or key is absent.
    MissingTag(String),
    /// A field is present but carries no usable value.
    MissingValue(String),
    /// A value is outside what its field accepts: the value, the field, the context.
    InvalidValue(String, String, String),
    /// A resolved address is not an absolute URL.
    UrlParseFailure,
}

/// The mathematical value of a [`ParseError`].
pub enum ParseFault {
    IoFailure,
    DecompressionFailure,
    MalformedTree,
    MissingAttribute(Seq<char>, Seq<char>),
    MissingTag(Seq<char>),
    MissingValue(Seq<char>),
    InvalidValue(Seq<char>, Seq<char>, Seq<char>),
    UrlParseFailure,
}

impl DeepView for ParseError {
    type V = ParseFault;

    open spec fn deep_view(&self) -> ParseFault {
        match self {
            ParseError::IoFailure => ParseFault::IoFailure,
            ParseError::DecompressionFailure => ParseFault::DecompressionFailure,
            ParseError::MalformedTree => ParseFault::MalformedTree,
            ParseError::MissingAttribute(n, c) => ParseFault::MissingAttribute(n@, c@),
            ParseError::MissingTag(n) => ParseFault::MissingTag(n@),
            ParseError::MissingValue(f) => ParseFault::MissingValue(f@),
            ParseError::InvalidValue(v, f, c) => ParseFault::InvalidValue(v@, f@, c@),
            ParseError::UrlParseFailure => ParseFault::UrlParseFailure,
        }
    }
}

impl ParseFault {
    /// The failure in words.
    pub open spec fn message(self) -> Seq<char> {
        match self {
            ParseFault::IoFailure => "the source could not be read"@,
            ParseFault::DecompressionFailure => "the compressed stream is corrupt or truncated"@,
            ParseFault::MalformedTree => "the document is not well-formed"@,
            ParseFault::MissingAttribute(n, c) => "missing attribute "@ + n + " in "@ + c,
            ParseFault::MissingTag(n) => "missing tag "@ + n,
            ParseFault::MissingValue(f) => "missing value for "@ + f,
            ParseFault::InvalidValue(v, f, c) => "invalid value "@ + v + " for "@ + f + " in "@
                + c,
            ParseFault::UrlParseFailure => "the address is not an absolute URL"@,
        }
    }
}

impl ParseError {
    /// The failure in words.
    pub fn message(&self) -> (r: String)
        ensures
            r@ == self.deep_view().message(),
    {
        match self {
            ParseError::IoFailure => owned("the source could not be read"),
            ParseError::DecompressionFailure => owned(
                "the compressed stream is corrupt or truncated",
            ),
            ParseError::MalformedTree => owned("the document is not well-formed"),
            ParseError::MissingAttribute(n, c) => {
                let start = joined("missing attribute ", n.as_str());
                let middle = joined(start.as_str(), " in ");
                joined(middle.as_str(), c.as_str())
            },
            ParseError::MissingTag(n) => joined("missing tag ", n.as_str()),
            ParseError::MissingValue(f) => joined("missing value for ", f.as_str()),
            ParseError::InvalidValue(v, f, c) => {
                let start = joined("invalid value ", v.as_str());
                let second = joined(start.as_str(), " for ");
                let third = joined(second.as_str(), f.as_str());
                let fourth = joined(third.as_str(), " in ");
                joined(fourth.as_str(), c.as_str())
            },
            ParseError::UrlParseFailure => owned("the address is not an absolute URL"),
        }
    }

    /// A mandatory attribute `name` is absent from `context`.
    pub fn missing_attribute(name: &str, context: &str) -> (e: ParseError)
        ensures
            e.deep_view() == ParseFault::MissingAttribute(name@, context@),
    {
        ParseError::MissingAttribute(owned(name), owned(context))
    }

    /// A mandatory child element or key `name` is absent.
    pub fn missing_tag(name: &str) -> (e: ParseError)
        ensures
            e.deep_view() == ParseFault::MissingTag(name@),
    {
        ParseError::MissingTag(owned(name))
    }

    /// The field `field` carries no usable value.
    pub fn missing_value(field: &str) -> (e: ParseError)
        ensures
            e.deep_view() == ParseFault::MissingValue(field@),
    {
        ParseError::MissingValue(owned(field))
    }

    /// `value` is not accepted by `field` of `context`.
    pub fn invalid_value(value: &str, field: &str, context: &str) -> (e: ParseError)
        ensures
            e.deep_view() == ParseFault::InvalidValue(value@, field@, context@),
    {
        ParseError::InvalidValue(owned(value), owned(field), owned(context))
    }
}

} // verus!
