//! Destination resolution: validating the caller-supplied location string.
//!
//! The mapping from a validated destination to a live backend client is the
//! surrounding program's business; the library only decides validity and
//! carries the parsed location through.

use vstd::prelude::*;

use crate::error::{SaveError, Span};

verus! {

/// The parsed location type of the `url` crate, opaque to the verifier.
#[verifier::external_type_specification]
#[verifier::external_body]
pub struct ExUrl(url::Url);

/// Whether a destination string is a well-formed location identifier,
/// exactly as the `url` crate's parser decides it.
pub uninterp spec fn location_well_formed(s: Seq<char>) -> bool;

/// The location the `url` crate parses a well-formed destination string
/// into; parsing is a function of the string alone.
pub uninterp spec fn parsed_location_of(s: Seq<char>) -> url::Url;

/// Relies on `url::Url::parse`: returns the parse of the string exactly
/// when it is a well-formed location identifier, and the parser's message
/// otherwise. The outcome depends on the string alone.
#[verifier::external_body]
fn parse_location(s: &str) -> (r: Result<url::Url, String>)
    ensures
        r is Ok <==> location_well_formed(s@),
        r matches Ok(u) ==> u == parsed_location_of(s@),
{
    match url::Url::parse(s) {
        Ok(u) => Ok(u),
        Err(e) => Err(format!("{e}")),
    }
}

/// A validated destination: the location string as given, its parsed form,
/// and the span of the argument it came from. Immutable once parsed.
pub struct Destination {
    pub text: String,
    pub url: url::Url,
    pub span: Span,
}

/// Validate a destination string, with the span of the argument and of the
/// call for error attribution.
///
/// Returns a destination exactly when the string is a well-formed location
/// identifier; otherwise fails with `InvalidLocation` carrying the parse
/// failure and the offending span, before any backend interaction.
pub fn resolve_destination(text: String, span: Span, call_span: Span) -> (r: Result<
    Destination,
    SaveError,
>)
    ensures
        r is Ok <==> location_well_formed(text@),
        r matches Ok(d) ==> (d.text == text && d.url == parsed_location_of(text@) && d.span
            == span),
        r matches Err(e) ==> (e matches SaveError::InvalidLocation { span: sp, call_span: cs, .. }
            && sp == span && cs == call_span),
{
    match parse_location(text.as_str()) {
        Ok(u) => Ok(Destination { text, url: u, span }),
        Err(msg) => Err(
            SaveError::InvalidLocation {
                msg: String::from_str("Invalid Url: ").concat(msg.as_str()),
                span,
                call_span,
            },
        ),
    }
}

} // verus!
