//! Validation of client-supplied names and message text.
//!
//! Validation is purely a gate: an accepted string is returned unchanged,
//! never trimmed or otherwise normalized.

use vstd::prelude::*;
use vstd::std_specs::iter::IteratorSpec;

verus! {

/// Longest accepted display name, in characters.
pub const MAX_NAME_LEN: usize = 100;

/// Longest accepted message body, in characters.
pub const MAX_MESSAGE_LEN: usize = 1000;

/// Why a client-supplied string was rejected.
#[derive(Clone, Copy, Debug, PartialEq, Eq, Structural)]
pub enum ValidationError {
    /// The string has zero length.
    Empty,
    /// The string exceeds the applicable length limit.
    TooLong,
    /// The string contains a line-break character (names only).
    ContainsNewline,
}

/// The verdict of name validation: the first failing check, in the order
/// empty, too long, contains a newline; `Ok` when all pass.
pub open spec fn name_validity(s: Seq<char>) -> Result<(), ValidationError> {
    if s.len() == 0 {
        Err(ValidationError::Empty)
    } else if s.len() > MAX_NAME_LEN {
        Err(ValidationError::TooLong)
    } else if s.contains('\n') {
        Err(ValidationError::ContainsNewline)
    } else {
        Ok(())
    }
}

/// The verdict of message validation: empty, then too long; `Ok` otherwise.
pub open spec fn message_validity(s: Seq<char>) -> Result<(), ValidationError> {
    if s.len() == 0 {
        Err(ValidationError::Empty)
    } else if s.len() > MAX_MESSAGE_LEN {
        Err(ValidationError::TooLong)
    } else {
        Ok(())
    }
}

/// An acceptable display name.
pub open spec fn valid_name(s: Seq<char>) -> bool {
    name_validity(s) is Ok
}

/// An acceptable message body.
pub open spec fn valid_message(s: Seq<char>) -> bool {
    message_validity(s) is Ok
}

impl ValidationError {
    /// The failure text shown to a caller whose name was rejected.
    pub fn name_text(&self) -> (r: String)
        ensures
            match *self {
                ValidationError::Empty => r@ == "Name cannot be empty"@,
                ValidationError::TooLong => r@ == "Name is too long"@,
                ValidationError::ContainsNewline => r@ == "Name cannot contain newlines"@,
            },
    {
        match *self {
            ValidationError::Empty => "Name cannot be empty".to_owned(),
            ValidationError::TooLong => "Name is too long".to_owned(),
            ValidationError::ContainsNewline => "Name cannot contain newlines".to_owned(),
        }
    }

    /// The failure text shown to a caller whose message was rejected.
    pub fn message_text(&self) -> (r: String)
        ensures
            match *self {
                ValidationError::Empty => r@ == "Message cannot be empty"@,
                ValidationError::TooLong => r@ == "Message is too long"@,
                ValidationError::ContainsNewline => r@ == "Message cannot contain newlines"@,
            },
    {
        match *self {
            ValidationError::Empty => "Message cannot be empty".to_owned(),
            ValidationError::TooLong => "Message is too long".to_owned(),
            ValidationError::ContainsNewline => "Message cannot contain newlines".to_owned(),
        }
    }
}

/// Scans at most `limit + 1` characters of `s` and reports whether `s` has
/// more than `limit` characters, and otherwise whether it contains `needle`.
fn scan(s: &str, limit: usize, needle: char) -> (r: (bool, bool))
    ensures
        r.0 <==> s@.len() > limit,
        !r.0 ==> (r.1 <==> s@.contains(needle)),
{
    broadcast use vstd::string::group_string_axioms;

    let mut chars = s.chars();
    let mut count: usize = 0;
    let mut found = false;
    loop
        invariant
            count <= limit,
            chars.remaining() =~= s@.skip(count as int),
            count <= s@.len(),
            found <==> exists|j: int| 0 <= j < count && s@[j] == needle,
        decreases s@.len() - count,
    {
        match chars.next() {
            None => {
                return (false, found);
            },
            Some(c) => {
                if count == limit {
                    return (true, found);
                }
                if c == needle {
                    found = true;
                }
                count = count + 1;
                assert(chars.remaining() =~= s@.skip(count as int));
            },
        }
    }
}

/// Checks whether a string is acceptable as a user's display name: it must
/// be non-empty, at most `MAX_NAME_LEN` characters, and contain no newline.
/// An accepted name is returned unchanged.
pub fn validate_name(name: String) -> (r: Result<String, ValidationError>)
    ensures
        match r {
            Ok(accepted) => accepted == name && valid_name(name@),
            Err(e) => name_validity(name@) == Err::<(), ValidationError>(e),
        },
{
    if name.as_str().is_empty() {
        Err(ValidationError::Empty)
    } else {
        let (too_long, has_newline) = scan(name.as_str(), MAX_NAME_LEN, '\n');
        if too_long {
            Err(ValidationError::TooLong)
        } else if has_newline {
            Err(ValidationError::ContainsNewline)
        } else {
            Ok(name)
        }
    }
}

/// Checks whether a string is acceptable as a message body: it must be
/// non-empty and at most `MAX_MESSAGE_LEN` characters. An accepted body is
/// returned unchanged.
pub fn validate_message(text: String) -> (r: Result<String, ValidationError>)
    ensures
        match r {
            Ok(accepted) => accepted == text && valid_message(text@),
            Err(e) => message_validity(text@) == Err::<(), ValidationError>(e),
        },
{
    if text.as_str().is_empty() {
        Err(ValidationError::Empty)
    } else {
        let (too_long, _) = scan(text.as_str(), MAX_MESSAGE_LEN, '\n');
        if too_long {
            Err(ValidationError::TooLong)
        } else {
            Ok(text)
        }
    }
}

} // verus!
