use vstd::prelude::*;
use crate::model::{error_text, WifiError};

verus! {

#[verifier::external_type_specification]
#[verifier::external_body]
pub struct ExUuid(uuid::Uuid);

#[verifier::external_type_specification]
#[verifier::external_body]
pub struct ExUuidError(uuid::Error);

pub open spec fn is_hex_digit(c: char) -> bool {
    ('0' <= c && c <= '9') || ('a' <= c && c <= 'f') || ('A' <= c && c <= 'F')
}

/// The hyphenated form: 36 characters, hyphens at positions 8, 13, 18 and
/// 23, hexadecimal digits everywhere else.
pub open spec fn is_hyphenated_uuid(s: Seq<char>) -> bool {
    &&& s.len() == 36
    &&& forall|i: int|
        0 <= i < 36 ==> if i == 8 || i == 13 || i == 18 || i == 23 {
            #[trigger] s[i] == '-'
        } else {
            is_hex_digit(s[i])
        }
}

/// The simple form: 32 hexadecimal digits.
pub open spec fn is_simple_uuid(s: Seq<char>) -> bool {
    s.len() == 32 && forall|i: int| 0 <= i < 32 ==> is_hex_digit(#[trigger] s[i])
}

/// The braced form: the hyphenated form between `{` and `}`.
pub open spec fn is_braced_uuid(s: Seq<char>) -> bool {
    s.len() == 38 && s[0] == '{' && s[37] == '}' && is_hyphenated_uuid(s.subrange(1, 37))
}

pub open spec fn ascii_lower(c: char) -> char {
    if 'A' <= c && c <= 'Z' {
        ((c as u32) + 32) as char
    } else {
        c
    }
}

/// The URN form: `urn:uuid:`, in any letter case, then the hyphenated form.
pub open spec fn is_urn_uuid(s: Seq<char>) -> bool {
    &&& s.len() == 45
    &&& forall|i: int| 0 <= i < 9 ==> ascii_lower(#[trigger] s[i]) == "urn:uuid:"@[i]
    &&& is_hyphenated_uuid(s.subrange(9, 45))
}

/// The forms in which a UUID can be written.
pub open spec fn is_uuid_form(s: Seq<char>) -> bool {
    is_simple_uuid(s) || is_hyphenated_uuid(s) || is_braced_uuid(s) || is_urn_uuid(s)
}

/// Relies on uuid::Uuid::parse_str: it accepts exactly the simple,
/// hyphenated, braced and URN forms.
#[verifier::external_body]
fn parse_uuid_text(s: &str) -> (r: Result<uuid::Uuid, uuid::Error>)
    ensures
        r is Ok <==> is_uuid_form(s@),
{
    uuid::Uuid::parse_str(s)
}

/// Relies on uuid::Error's Display impl for the description of a parse error.
#[verifier::external_body]
fn uuid_error_text(e: &uuid::Error) -> String {
    e.to_string()
}

/// Turns the error of a result into the text that describes it.
pub trait ToErrString<T>: Sized {
    /// The value held on success.
    spec fn value(&self) -> Option<T>;

    /// Whether `text` describes the error held on failure.
    spec fn describes(&self, text: Seq<char>) -> bool;

    fn or_err_str(self) -> (r: Result<T, String>)
        ensures
            match r {
                Ok(v) => self.value() == Some(v),
                Err(text) => self.value() is None && self.describes(text@),
            },
    ;
}

impl<T> ToErrString<T> for Result<T, WifiError> {
    open spec fn value(&self) -> Option<T> {
        match self {
            Ok(v) => Some(*v),
            Err(_) => None,
        }
    }

    /// The text is the error's message.
    open spec fn describes(&self, text: Seq<char>) -> bool {
        match self {
            Ok(_) => false,
            Err(e) => text == error_text(*e),
        }
    }

    fn or_err_str(self) -> (r: Result<T, String>) {
        match self {
            Ok(v) => Ok(v),
            Err(e) => Err(e.message()),
        }
    }
}

impl<T> ToErrString<T> for Result<T, uuid::Error> {
    open spec fn value(&self) -> Option<T> {
        match self {
            Ok(v) => Some(*v),
            Err(_) => None,
        }
    }

    /// The text is the parse error's display form, which is not modelled.
    open spec fn describes(&self, text: Seq<char>) -> bool {
        self is Err
    }

    fn or_err_str(self) -> (r: Result<T, String>) {
        match self {
            Ok(v) => Ok(v),
            Err(e) => Err(uuid_error_text(&e)),
        }
    }
}

/// Parses a UUID written in any of its usual forms.
pub fn parse_uuid(uuid: &str) -> (r: Result<uuid::Uuid, String>)
    ensures
        r is Ok <==> is_uuid_form(uuid@),
{
    parse_uuid_text(uuid).or_err_str()
}

} // verus!
