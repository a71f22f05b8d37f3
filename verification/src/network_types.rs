//! The response envelope and the one error type every failure is surfaced
//! as: service-reported errors pass through verbatim, while transport and
//! decode failures are mapped onto the same shape with a synthetic code.

use vstd::prelude::*;
use vstd::string::StringExecFns;
use crate::structs::Card;

verus! {

/// A structured API error: the service's own error envelope, or a
/// synthetic one standing for a transport or decode failure.
#[derive(Debug, Clone, PartialEq, Eq, Hash)]
pub struct ScryfallError {
    pub status: u16,
    pub code: String,
    pub details: String,
    pub type_: Option<String>,
    pub warnings: Option<Vec<String>>,
}

impl ScryfallError {
    /// The synthetic error standing for a connection-level failure.
    pub fn transport_error(details: String) -> (r: ScryfallError)
        ensures
            r.status == 500,
            r.code@ == "transport_error"@,
            r.details == details,
            r.type_ is None,
            r.warnings is None,
    {
        ScryfallError {
            status: 500,
            code: String::from_str("transport_error"),
            details,
            type_: None,
            warnings: None,
        }
    }

    /// The synthetic error standing for a response body that matched
    /// neither expected shape.
    pub fn parse_error(details: String) -> (r: ScryfallError)
        ensures
            r.status == 500,
            r.code@ == "parse_error"@,
            r.details == details,
            r.type_ is None,
            r.warnings is None,
    {
        ScryfallError {
            status: 500,
            code: String::from_str("parse_error"),
            details,
            type_: None,
            warnings: None,
        }
    }

    /// The rendered form of the error.
    pub open spec fn spec_display(self) -> Seq<char> {
        "Scryfall Error: "@ + self.code@ + " - "@ + self.details@
    }

    /// Renders the error for display.
    pub fn display_text(&self) -> (r: String)
        ensures
            r@ == self.spec_display(),
    {
        let mut out = String::from_str("Scryfall Error: ");
        out.append(self.code.as_str());
        out.append(" - ");
        out.append(self.details.as_str());
        out
    }
}

/// Anything the client can turn into the library's error shape.
pub trait ToScryfallError {
    fn to_scryfall_error(&self) -> ScryfallError;
}

/// The decoded shape of one response body: a card, or a structured error.
#[derive(Debug, Clone, PartialEq)]
pub enum ScryfallResponse {
    Card(Box<Card>),
    Error(ScryfallError),
}

impl ScryfallResponse {
    /// The card, or the error, as a result.
    pub fn into_result(self) -> (r: Result<Card, ScryfallError>)
        ensures
            match self {
                ScryfallResponse::Card(c) => r == Ok::<Card, ScryfallError>(*c),
                ScryfallResponse::Error(e) => r == Err::<Card, ScryfallError>(e),
            },
    {
        match self {
            ScryfallResponse::Card(c) => Ok(*c),
            ScryfallResponse::Error(e) => Err(e),
        }
    }
}

} // verus!
