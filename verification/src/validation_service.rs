//! Field-level validation: the required-field rule and the formatting of
//! validation errors into per-field messages.

use vstd::prelude::*;
use vstd::string::StrSliceExecFns;
use vstd::string::StringExecFns;
use vstd::string::StringSliceAdditionalSpecFns;
use crate::crypto::push_char;

verus! {

/// One validation failure: a rule code and an optional message.
#[derive(Debug)]
pub struct ValidationError {
    pub code: String,
    pub message: Option<String>,
}

impl ValidationError {
    /// A failure of the named rule, with no message yet.
    pub fn new(code: &str) -> (e: ValidationError)
        ensures
            e.code@ == code@,
            e.message is None,
    {
        ValidationError { code: code.to_owned(), message: None }
    }
}

/// The validation failures collected for a request, each recorded under the
/// field it concerns.
#[derive(Debug)]
pub struct ValidationErrors {
    pub entries: Vec<(String, ValidationError)>,
}

impl ValidationErrors {
    /// No failures yet.
    pub fn new() -> (e: ValidationErrors)
        ensures
            e.entries@.len() == 0,
    {
        ValidationErrors { entries: Vec::new() }
    }

    /// Record a failure for a field.
    pub fn add(&mut self, field: &str, error: ValidationError)
        ensures
            final(self).entries@.len() == old(self).entries@.len() + 1,
            final(self).entries@.last().1 == error,
            final(self).entries@.last().0@ == field@,
            final(self).entries@.drop_last() == old(self).entries@,
    {
        self.entries.push((field.to_owned(), error));
        proof {
            assert(self.entries@.drop_last() =~= old(self).entries@);
        }
    }

    /// Whether any failure was recorded.
    pub fn is_empty(&self) -> (b: bool)
        ensures
            b == (self.entries@.len() == 0),
    {
        self.entries.is_empty()
    }
}

/// Whether the byte is one of the white-space characters the required rule
/// ignores.
pub open spec fn is_space_byte(b: u8) -> bool {
    b == 32 || b == 9 || b == 10 || b == 13 || b == 11 || b == 12
}

/// Whether the text is blank: every byte is white space.
pub open spec fn is_blank(bytes: Seq<u8>) -> bool {
    forall|i: int| 0 <= i < bytes.len() ==> is_space_byte(#[trigger] bytes[i])
}

/// The character with an ASCII lower-case letter raised to upper case, and
/// any other character unchanged.
pub open spec fn upper_char(c: char) -> char {
    if 97 <= c as u32 && c as u32 <= 122 {
        (((c as u32) - 32) as u8) as char
    } else {
        c
    }
}

/// The text with its first character raised to upper case.
pub open spec fn capitalized(s: Seq<char>) -> Seq<char> {
    if s.len() == 0 {
        s
    } else {
        Seq::<char>::empty().push(upper_char(s[0])) + s.subrange(1, s.len() as int)
    }
}

/// The message reported for one recorded failure: the required rule names
/// the field; any other rule reports its own message, or a generic one.
pub open spec fn formatted_message(field: Seq<char>, e: ValidationError) -> Seq<char> {
    if e.code@ == "required"@ {
        capitalized(field) + " is required"@
    } else {
        match e.message {
            Some(m) => m@,
            None => "Invalid value"@,
        }
    }
}

/// The required rule: a value that is empty or all white space is a
/// validation failure, anything else passes.
pub fn required(value: &str) -> (r: Result<(), ValidationError>)
    ensures
        r is Err <==> is_blank(value.spec_bytes()),
        r matches Err(e) ==> e.code@ == "required"@
            && (e.message matches Some(m) && m@ == "Ini field is required"@),
{
    let bytes = value.as_bytes();
    let n = bytes.len();
    let mut i: usize = 0;
    while i < n
        invariant
            n as int == value.spec_bytes().len(),
            bytes@ == value.spec_bytes(),
            i <= n,
            forall|j: int| 0 <= j < i ==> is_space_byte(#[trigger] value.spec_bytes()[j]),
        decreases n - i,
    {
        let b = bytes[i];
        if !(b == 32 || b == 9 || b == 10 || b == 13 || b == 11 || b == 12) {
            return Ok(());
        }
        i = i + 1;
    }
    let mut error = ValidationError::new("required");
    error.message = Some("Ini field is required".to_owned());
    Err(error)
}

/// Raise the text's first character to upper case (ASCII letters only; any
/// other first character stays as it is).
pub fn capitalize(s: &str) -> (r: String)
    ensures
        r@ == capitalized(s@),
{
    let len = s.unicode_len();
    if len == 0 {
        return String::new();
    }
    let c = s.get_char(0);
    let u = c as u32;
    let first: char = if 97 <= u && u <= 122 {
        ((u - 32) as u8) as char
    } else {
        c
    };
    let mut out = String::new();
    push_char(&mut out, first);
    let rest = s.substring_char(1, len);
    out.append(rest);
    proof {
        assert(out@ =~= capitalized(s@));
    }
    out
}

/// Format recorded failures into per-field messages, one per failure and in
/// the order they were recorded.
pub fn format_validation_errors(errors: &ValidationErrors) -> (r: Vec<(String, String)>)
    ensures
        r@.len() == errors.entries@.len(),
        forall|i: int| 0 <= i < r@.len() ==> (#[trigger] r@[i]).0@ == errors.entries@[i].0@
            && r@[i].1@ == formatted_message(errors.entries@[i].0@, errors.entries@[i].1),
{
    let required_code: String = "required".to_owned();
    let mut out: Vec<(String, String)> = Vec::new();
    let n = errors.entries.len();
    let mut i: usize = 0;
    while i < n
        invariant
            n as int == errors.entries@.len(),
            required_code@ == "required"@,
            i <= n,
            out@.len() == i as int,
            forall|j: int| 0 <= j < i ==> (#[trigger] out@[j]).0@ == errors.entries@[j].0@
                && out@[j].1@ == formatted_message(errors.entries@[j].0@, errors.entries@[j].1),
        decreases n - i,
    {
        let entry = &errors.entries[i];
        let message: String = if entry.1.code == required_code {
            let mut m = capitalize(entry.0.as_str());
            m.append(" is required");
            m
        } else {
            match &entry.1.message {
                Some(m) => m.clone(),
                None => "Invalid value".to_owned(),
            }
        };
        out.push((entry.0.clone(), message));
        i = i + 1;
    }
    out
}

} // verus!
