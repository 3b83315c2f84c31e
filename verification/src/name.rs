//! Validated identifier names: the `owner` and `repository` halves of a
//! repository path.

use vstd::prelude::*;

verus! {

/// Characters a name may contain: ASCII letters, digits, `-` and `_`.
pub open spec fn name_char_ok(c: char) -> bool {
    ('a' <= c && c <= 'z') || ('A' <= c && c <= 'Z') || ('0' <= c && c <= '9') || c == '-' || c
        == '_'
}

/// A valid name: non-empty, at most 32 characters, every character drawn
/// from [`name_char_ok`].
pub open spec fn valid_name(s: Seq<char>) -> bool {
    1 <= s.len() <= 32 && forall|i: int| 0 <= i < s.len() ==> name_char_ok(#[trigger] s[i])
}

/// Why a string is not a valid name.
#[derive(Clone, Copy, Debug, PartialEq, Eq)]
pub enum NameError {
    /// The input was empty.
    Empty,

    /// The input has more than 32 characters.
    TooLong,

    /// The input holds a character outside letters, digits, `-` and `_`.
    InvalidCharacter,
}

/// The error an invalid name reports: emptiness first, then length, then
/// the character set.
pub open spec fn spec_name_error(s: Seq<char>) -> NameError {
    if s.len() == 0 {
        NameError::Empty
    } else if s.len() > 32 {
        NameError::TooLong
    } else {
        NameError::InvalidCharacter
    }
}

/// An identifier that passed validation.
#[derive(Clone, Debug, PartialEq, Eq, PartialOrd, Ord, Hash)]
pub struct Name {
    value: String,
}

impl View for Name {
    type V = Seq<char>;

    closed spec fn view(&self) -> Seq<char> {
        self.value@
    }
}

impl Name {
    /// Validates a string as a name.
    pub fn parse(s: &str) -> (r: Result<Name, NameError>)
        ensures
            match r {
                Ok(name) => valid_name(s@) && name@ == s@,
                Err(e) => !valid_name(s@) && e == spec_name_error(s@),
            },
    {
        let n = s.unicode_len();
        if n == 0 {
            return Err(NameError::Empty);
        }
        if n > 32 {
            return Err(NameError::TooLong);
        }
        let mut i: usize = 0;
        while i < n
            invariant
                i <= n,
                n == s@.len(),
                1 <= n <= 32,
                forall|j: int| 0 <= j < i ==> name_char_ok(#[trigger] s@[j]),
            decreases n - i,
        {
            let c = s.get_char(i);
            if !(('a' <= c && c <= 'z') || ('A' <= c && c <= 'Z') || ('0' <= c && c <= '9') || c
                == '-' || c == '_') {
                return Err(NameError::InvalidCharacter);
            }
            i += 1;
        }
        Ok(Name { value: s.to_owned() })
    }

    pub fn as_str(&self) -> (r: &str)
        ensures
            r@ == self@,
    {
        self.value.as_str()
    }
}

} // verus!
