//! The idempotency key: an opaque, validated token that a caller attaches to
//! a mutating request.

use vstd::prelude::*;

verus! {

/// The longest key accepted, in characters.
pub const MAX_KEY_LEN: usize = 50;

/// Characters a key may hold: ASCII letters, ASCII digits and the hyphen.
pub open spec fn is_key_char(c: char) -> bool {
    ('a' <= c && c <= 'z') || ('A' <= c && c <= 'Z') || ('0' <= c && c <= '9') || c == '-'
}

pub open spec fn all_key_chars(s: Seq<char>) -> bool {
    forall|i: int| 0 <= i < s.len() ==> is_key_char(#[trigger] s[i])
}

/// Why a raw string is not a key.
#[derive(Debug, Clone, Copy, PartialEq, Eq, Structural)]
pub enum KeyError {
    Empty,
    TooLong,
    InvalidCharacter,
}

/// The verdict on a raw string: `None` when it is a key, otherwise the first
/// rule it breaks, checked in the order empty, too long, bad character.
pub open spec fn key_verdict(s: Seq<char>) -> Option<KeyError> {
    if s.len() == 0 {
        Some(KeyError::Empty)
    } else if s.len() > MAX_KEY_LEN {
        Some(KeyError::TooLong)
    } else if !all_key_chars(s) {
        Some(KeyError::InvalidCharacter)
    } else {
        None
    }
}

pub open spec fn is_valid_key(s: Seq<char>) -> bool {
    key_verdict(s) is None
}

impl KeyError {
    /// A human-readable description of the error.
    pub fn message(&self) -> (r: String)
        ensures
            r@ == (match self {
                KeyError::Empty => "The idempotency key cannot be empty"@,
                KeyError::TooLong => "The idempotency key must be at most 50 characters long"@,
                KeyError::InvalidCharacter =>
                    "The idempotency key may only hold ASCII letters, digits and hyphens"@,
            }),
    {
        match self {
            KeyError::Empty => "The idempotency key cannot be empty".to_string(),
            KeyError::TooLong => "The idempotency key must be at most 50 characters long".to_string(),
            KeyError::InvalidCharacter => {
                "The idempotency key may only hold ASCII letters, digits and hyphens".to_string()
            },
        }
    }
}

/// A validated idempotency key. Equality is exact string equality.
#[derive(Debug)]
pub struct IdempotencyKey {
    value: String,
}

impl View for IdempotencyKey {
    type V = Seq<char>;

    closed spec fn view(&self) -> Seq<char> {
        self.value@
    }
}

impl IdempotencyKey {
    #[verifier::type_invariant]
    closed spec fn inv(&self) -> bool {
        is_valid_key(self.value@)
    }

    /// Validates `raw` as a key. No other state is read or touched.
    pub fn parse(raw: String) -> (r: Result<IdempotencyKey, KeyError>)
        ensures
            match r {
                Ok(k) => is_valid_key(raw@) && k@ == raw@,
                Err(e) => key_verdict(raw@) == Some(e),
            },
    {
        let n = raw.as_str().unicode_len();
        if n == 0 {
            return Err(KeyError::Empty);
        }
        if n > MAX_KEY_LEN {
            return Err(KeyError::TooLong);
        }
        let mut i: usize = 0;
        while i < n
            invariant
                n == raw@.len(),
                0 < n <= MAX_KEY_LEN,
                i <= n,
                forall|j: int| 0 <= j < i ==> is_key_char(#[trigger] raw@[j]),
            decreases n - i,
        {
            let c = raw.as_str().get_char(i);
            let ok = ('a' <= c && c <= 'z') || ('A' <= c && c <= 'Z') || ('0' <= c && c <= '9')
                || c == '-';
            if !ok {
                assert(!is_key_char(raw@[i as int]));
                return Err(KeyError::InvalidCharacter);
            }
            i = i + 1;
        }
        Ok(IdempotencyKey { value: raw })
    }

    /// Whether `other` is exactly this key.
    pub fn matches(&self, other: &String) -> (r: bool)
        ensures
            r == (self@ == other@),
    {
        self.value == *other
    }

    /// A copy of the key's text.
    pub fn to_text(&self) -> (r: String)
        ensures
            r@ == self@,
    {
        self.value.clone()
    }

    /// The key as text; it is always a valid key.
    pub fn as_str(&self) -> (r: &str)
        ensures
            r@ == self@,
            is_valid_key(r@),
    {
        proof {
            use_type_invariant(self);
        }
        self.value.as_str()
    }
}

} // verus!
