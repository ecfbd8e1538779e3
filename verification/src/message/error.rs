//! Failures of decoding a document received from the device.

use vstd::prelude::*;
use vstd::string::StringExecFns;

verus! {

/// Why a document could not be decoded.
#[derive(Debug, PartialEq, Eq)]
pub enum ParseError {
    /// The document cannot be used. `missing` is `None` when the bytes are
    /// not well-formed XML or may nest deeper than the parser can follow, and
    /// names the element when a required element is absent or holds no text.
    MalformedDocument { missing: Option<String> },
    /// The element `name` holds `value`, which is none of the values
    /// that the protocol defines for it.
    UnknownEnumValue { name: String, value: String },
}

/// The mathematical content of a [`ParseError`].
pub enum ParseErrorView {
    MalformedDocument { missing: Option<Seq<char>> },
    UnknownEnumValue { name: Seq<char>, value: Seq<char> },
}

impl View for ParseError {
    type V = ParseErrorView;

    open spec fn view(&self) -> ParseErrorView {
        match *self {
            ParseError::MalformedDocument { missing } => ParseErrorView::MalformedDocument {
                missing: match missing {
                    Some(name) => Some(name@),
                    None => None,
                },
            },
            ParseError::UnknownEnumValue { name, value } => ParseErrorView::UnknownEnumValue {
                name: name@,
                value: value@,
            },
        }
    }
}

/// A decoding result with its error replaced by the error's view.
pub open spec fn parsed<T>(r: Result<T, ParseError>) -> Result<T, ParseErrorView> {
    match r {
        Ok(v) => Ok(v),
        Err(e) => Err(e@),
    }
}

impl ParseError {
    /// The words in which a decoding failure is reported: they name the
    /// element and, for an unknown value, the value as it was received.
    pub open spec fn spec_to_string(e: ParseErrorView) -> Seq<char> {
        match e {
            ParseErrorView::MalformedDocument { missing: None } => "malformed document"@,
            ParseErrorView::MalformedDocument { missing: Some(name) } => "missing element "@
                + name,
            ParseErrorView::UnknownEnumValue { name, value } => "unknown value "@ + value
                + " for "@ + name,
        }
    }

    pub fn to_string(&self) -> (text: String)
        ensures
            text@ == Self::spec_to_string(self@),
    {
        match self {
            ParseError::MalformedDocument { missing: None } => String::from_str(
                "malformed document",
            ),
            ParseError::MalformedDocument { missing: Some(name) } => {
                let mut text = String::from_str("missing element ");
                text.append(name.as_str());
                text
            },
            ParseError::UnknownEnumValue { name, value } => {
                let mut text = String::from_str("unknown value ");
                text.append(value.as_str());
                text.append(" for ");
                text.append(name.as_str());
                text
            },
        }
    }

    /// The bytes are not a well-formed XML document.
    pub fn not_well_formed() -> (e: ParseError)
        ensures
            e@ == (ParseErrorView::MalformedDocument { missing: None }),
    {
        ParseError::MalformedDocument { missing: None }
    }

    /// The element `name` is absent or empty.
    pub fn missing_element(name: &str) -> (e: ParseError)
        ensures
            e@ == (ParseErrorView::MalformedDocument { missing: Some(name@) }),
    {
        ParseError::MalformedDocument { missing: Some(String::from_str(name)) }
    }

    /// The element `name` holds the unknown value `value`.
    pub fn unknown_enum_value(name: &str, value: &str) -> (e: ParseError)
        ensures
            e@ == (ParseErrorView::UnknownEnumValue { name: name@, value: value@ }),
    {
        ParseError::UnknownEnumValue {
            name: String::from_str(name),
            value: String::from_str(value),
        }
    }
}

} // verus!
