//! Errors raised while decoding wire text.

use vstd::prelude::*;

verus! {

/// Why a piece of wire text could not be decoded.
#[derive(PartialEq, Eq, Structural, Clone, Copy, Debug)]
pub enum ParseError {
    /// The start line does not have the expected tokens.
    MalformedStartLine,
    /// A header line of a message has no `:`.
    MalformedHeaderLine,
    /// A header name is not one of the known names.
    UnknownHeaderName,
    /// A method is not one of the known methods.
    UnknownMethod,
    /// A version is not of the form `<name>/<version>`.
    UnknownVersionFormat,
    /// A status code is not one of the known codes.
    UnknownStatusCode,
}

} // verus!
