//! The rules of the HTTP interface: which failure gets which status and
//! message, and how a removal request names its atom.

use vstd::prelude::*;

use crate::types::AtomId;

verus! {

/// The value of a hexadecimal digit (either case), or `None` for any other
/// character.
pub open spec fn hex_digit_value(c: char) -> Option<nat> {
    let n = c as int;
    if 48 <= n <= 57 {
        Some((n - 48) as nat)
    } else if 97 <= n <= 102 {
        Some((n - 87) as nat)
    } else if 65 <= n <= 70 {
        Some((n - 55) as nat)
    } else {
        None
    }
}

/// The number a run of hexadecimal digits spells, most significant first, or
/// `None` where a character is not a hexadecimal digit.
pub open spec fn hex_number(s: Seq<char>) -> Option<nat>
    decreases s.len(),
{
    if s.len() == 0 {
        Some(0)
    } else {
        match (hex_number(s.drop_last()), hex_digit_value(s.last())) {
            (Some(h), Some(d)) => Some(h * 16 + d),
            _ => None,
        }
    }
}

/// The 32 digit characters of a hyphenated UUID text (groups of 8, 4, 4, 4
/// and 12 separated by hyphens), or `None` where the text is not so shaped.
pub open spec fn hyphenated_digits(s: Seq<char>) -> Option<Seq<char>> {
    if s.len() == 36 && s[8] == '-' && s[13] == '-' && s[18] == '-' && s[23] == '-' {
        Some(
            s.subrange(0, 8) + s.subrange(9, 13) + s.subrange(14, 18) + s.subrange(19, 23)
                + s.subrange(24, 36),
        )
    } else {
        None
    }
}

/// An ASCII upper-case letter made lower case; any other character as it is.
pub open spec fn ascii_lower(c: char) -> char {
    if 65 <= (c as int) <= 90 {
        ((c as int) + 32) as char
    } else {
        c
    }
}

/// `urn:uuid:`, with the letters in either case.
pub open spec fn is_urn_prefix(s: Seq<char>) -> bool {
    let urn = seq!['u', 'r', 'n', ':', 'u', 'u', 'i', 'd', ':'];
    &&& s.len() == 9
    &&& forall|i: int| 0 <= i < 9 ==> ascii_lower(#[trigger] s[i]) == urn[i]
}

/// The 32 digit characters of a UUID text in one of the four forms the uuid
/// parser accepts: simple (32 digits), hyphenated, braced (`{...}` around the
/// hyphenated form) and URN (`urn:uuid:` before it).
pub open spec fn uuid_digits(t: Seq<char>) -> Option<Seq<char>> {
    if t.len() == 32 {
        Some(t)
    } else if t.len() == 36 {
        hyphenated_digits(t)
    } else if t.len() == 38 && t[0] == '{' && t[37] == '}' {
        hyphenated_digits(t.subrange(1, 37))
    } else if t.len() == 45 && is_urn_prefix(t.subrange(0, 9)) {
        hyphenated_digits(t.subrange(9, 45))
    } else {
        None
    }
}

/// The 128-bit value that `uuid::Uuid::parse_str` reads from a text, the
/// digits taken as one big-endian hexadecimal number, or `None` where it
/// reports an error.
pub open spec fn parsed_uuid(text: Seq<char>) -> Option<u128> {
    match uuid_digits(text) {
        Some(digits) => match hex_number(digits) {
            Some(v) => Some(v as u128),
            None => None,
        },
        None => None,
    }
}

/// Reads a UUID from its text with `uuid::Uuid::parse_str`, giving its
/// big-endian 128-bit value (`Uuid::as_u128`), or `None` where the parser
/// reports an error. The parser takes the text by its length in bytes: 32
/// hexadecimal digits; 36 in the hyphenated shape; 38 with braces around
/// that; 45 with `urn:uuid:` (letters in either case) before it; digits in
/// either case, decoded into the 16 bytes in order. Any other byte makes it
/// fail, so every accepted text is ASCII, where bytes and characters agree:
/// that is what [`parsed_uuid`] states.
#[verifier::external_body]
fn parse_uuid_text(text: &str) -> (r: Option<u128>)
    ensures
        r == parsed_uuid(text@),
{
    match uuid::Uuid::parse_str(text) {
        Ok(u) => Some(u.as_u128()),
        Err(_) => None,
    }
}

/// The request bodies the interface reads.
#[derive(Debug, Clone, Copy, PartialEq, Eq, Structural)]
pub enum RequestBody {
    Atom,
    RemoveRequest,
    QueryPattern,
    MettaExpression,
    InferenceRequest,
}

/// Why a request could not be served.
#[derive(Debug)]
pub enum ApiFailure {
    /// The request body could not be read as the value it should hold.
    InvalidBody { body: RequestBody, detail: String },
    /// A removal request without an `atom_id` text.
    MissingAtomId,
    /// A removal request whose `atom_id` is not a UUID.
    InvalidAtomId,
    /// The AtomSpace has not been set up.
    AtomSpaceUnavailable { detail: String },
    /// The operation itself failed.
    OperationFailed { detail: String },
}

/// The HTTP status of a failure: 400 for a bad request, 503 while the
/// AtomSpace is not set up, 500 when the operation fails.
pub open spec fn failure_status(f: ApiFailure) -> u16 {
    match f {
        ApiFailure::InvalidBody { .. } => 400,
        ApiFailure::MissingAtomId => 400,
        ApiFailure::InvalidAtomId => 400,
        ApiFailure::AtomSpaceUnavailable { .. } => 503,
        ApiFailure::OperationFailed { .. } => 500,
    }
}

/// How the interface names a body it could not read.
pub open spec fn body_label(b: RequestBody) -> Seq<char> {
    match b {
        RequestBody::Atom => "Invalid atom format: "@,
        RequestBody::RemoveRequest => "Invalid request format: "@,
        RequestBody::QueryPattern => "Invalid query pattern: "@,
        RequestBody::MettaExpression => "Invalid MeTTa expression: "@,
        RequestBody::InferenceRequest => "Invalid inference request: "@,
    }
}

/// The error text the interface answers a failure with.
pub open spec fn failure_text(f: ApiFailure) -> Seq<char> {
    match f {
        ApiFailure::InvalidBody { body, detail } => body_label(body) + detail@,
        ApiFailure::MissingAtomId => "Missing atom_id field"@,
        ApiFailure::InvalidAtomId => "Invalid atom_id format"@,
        ApiFailure::AtomSpaceUnavailable { detail } => "AtomSpace not initialized: "@ + detail@,
        ApiFailure::OperationFailed { detail } => detail@,
    }
}

impl RequestBody {
    fn label(&self) -> (s: &'static str)
        ensures
            s@ == body_label(*self),
    {
        match self {
            RequestBody::Atom => "Invalid atom format: ",
            RequestBody::RemoveRequest => "Invalid request format: ",
            RequestBody::QueryPattern => "Invalid query pattern: ",
            RequestBody::MettaExpression => "Invalid MeTTa expression: ",
            RequestBody::InferenceRequest => "Invalid inference request: ",
        }
    }
}

impl ApiFailure {
    /// The HTTP status of this failure.
    pub fn status(&self) -> (code: u16)
        ensures
            code == failure_status(*self),
    {
        match self {
            ApiFailure::InvalidBody { .. } => 400,
            ApiFailure::MissingAtomId => 400,
            ApiFailure::InvalidAtomId => 400,
            ApiFailure::AtomSpaceUnavailable { .. } => 503,
            ApiFailure::OperationFailed { .. } => 500,
        }
    }

    /// The error text of this failure.
    pub fn message(&self) -> (s: String)
        ensures
            s@ == failure_text(*self),
    {
        match self {
            ApiFailure::InvalidBody { body, detail } => {
                let mut s = String::from_str(body.label());
                s.append(detail.as_str());
                s
            },
            ApiFailure::MissingAtomId => String::from_str("Missing atom_id field"),
            ApiFailure::InvalidAtomId => String::from_str("Invalid atom_id format"),
            ApiFailure::AtomSpaceUnavailable { detail } => {
                let mut s = String::from_str("AtomSpace not initialized: ");
                s.append(detail.as_str());
                s
            },
            ApiFailure::OperationFailed { detail } => detail.clone(),
        }
    }
}

/// The atom named by the value that the UUID parser read from a removal
/// request's `atom_id`, or the failure when it read none.
pub fn atom_id_from_parsed(parsed: Option<u128>) -> (r: Result<AtomId, ApiFailure>)
    ensures
        match parsed {
            Some(v) => r matches Ok(id) && id == AtomId(v),
            None => r matches Err(ApiFailure::InvalidAtomId),
        },
{
    match parsed {
        Some(v) => Ok(AtomId(v)),
        None => Err(ApiFailure::InvalidAtomId),
    }
}

/// The atom a removal request names by the text of its `atom_id` field:
/// a missing text and a text that is not a UUID are refused.
pub fn atom_id_from_field(field: Option<&str>) -> (r: Result<AtomId, ApiFailure>)
    ensures
        match field {
            None => r matches Err(ApiFailure::MissingAtomId),
            Some(text) => match parsed_uuid(text@) {
                Some(v) => r matches Ok(id) && id == AtomId(v),
                None => r matches Err(ApiFailure::InvalidAtomId),
            },
        },
{
    match field {
        None => Err(ApiFailure::MissingAtomId),
        Some(text) => atom_id_from_parsed(parse_uuid_text(text)),
    }
}

/// The answer of the expression endpoint: the expression, echoed.
pub fn evaluation_echo(expression: &str) -> (s: String)
    ensures
        s@ == "Evaluated: "@ + expression@,
{
    let mut s = String::from_str("Evaluated: ");
    s.append(expression);
    s
}

} // verus!
