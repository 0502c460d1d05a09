//! Passwords: long enough and drawn from several character classes.

use vstd::prelude::*;

verus! {

use vstd::string::{StrSliceExecFns, StringExecFns};

/// Whether a character is an upper-case letter. What Unicode counts as
/// upper case fills tables; the name stands for that answer.
pub uninterp spec fn uppercase_char(c: char) -> bool;

/// Whether a character is a lower-case letter, by the same tables.
pub uninterp spec fn lowercase_char(c: char) -> bool;

/// Relies on char::is_uppercase: whether the character is upper case by
/// Unicode, a function of the character alone.
#[verifier::external_body]
fn char_is_uppercase(c: char) -> (r: bool)
    ensures
        r == uppercase_char(c),
{
    c.is_uppercase()
}

/// Relies on char::is_lowercase: whether the character is lower case by
/// Unicode, a function of the character alone.
#[verifier::external_body]
fn char_is_lowercase(c: char) -> (r: bool)
    ensures
        r == lowercase_char(c),
{
    c.is_lowercase()
}

/// Whether a character is a decimal digit.
pub open spec fn digit_char(c: char) -> bool {
    '0' as int <= c as int && c as int <= '9' as int
}

/// Whether a character is ASCII punctuation: one of the four symbol runs
/// between the digits, letters and control characters.
pub open spec fn symbol_char(c: char) -> bool {
    ||| '!' as int <= c as int && c as int <= '/' as int
    ||| ':' as int <= c as int && c as int <= '@' as int
    ||| '[' as int <= c as int && c as int <= '`' as int
    ||| '{' as int <= c as int && c as int <= '~' as int
}

/// Whether a character sequence is a safe password: fifteen characters
/// or more, with a digit, an upper-case letter, a lower-case letter and
/// a symbol.
pub open spec fn password_safe(s: Seq<char>) -> bool {
    &&& s.len() >= 15
    &&& exists|i: int| 0 <= i < s.len() && digit_char(s[i])
    &&& exists|i: int| 0 <= i < s.len() && uppercase_char(s[i])
    &&& exists|i: int| 0 <= i < s.len() && lowercase_char(s[i])
    &&& exists|i: int| 0 <= i < s.len() && symbol_char(s[i])
}

/// A validated password.
#[derive(Debug, Clone)]
pub struct Password(pub String);

impl Password {
    /// Accepts a password exactly when it is safe.
    pub fn new(password: String) -> (r: Result<Self, String>)
        ensures
            match r {
                Ok(p) => password_safe(password@) && p.0 == password,
                Err(e) => {
                    &&& !password_safe(password@)
                    &&& e@ == "It must be 15+ characters with a digit, uppercase, lowercase, and symbol"@
                },
            },
    {
        if Self::is_safe(password.as_str()) {
            Ok(Password(password))
        } else {
            Err(String::from_str(
                "It must be 15+ characters with a digit, uppercase, lowercase, and symbol",
            ))
        }
    }

    /// Whether a candidate meets every rule.
    fn is_safe(password: &str) -> (r: bool)
        ensures
            r == password_safe(password@),
    {
        password.unicode_len() >= 15
            && Self::has_digit(password)
            && Self::has_uppercase(password)
            && Self::has_lowercase(password)
            && Self::has_symbol(password)
    }

    /// Whether some character is a decimal digit.
    fn has_digit(password: &str) -> (r: bool)
        ensures
            r == exists|i: int| 0 <= i < password@.len() && digit_char(password@[i]),
    {
        let n = password.unicode_len();
        let mut i: usize = 0;
        while i < n
            invariant
                n == password@.len(),
                i <= n,
                forall|j: int| 0 <= j < i ==> !digit_char(password@[j]),
            decreases n - i,
        {
            let u = password.get_char(i) as u32;
            if 48 <= u && u <= 57 {
                return true;
            }
            i = i + 1;
        }
        false
    }

    /// Whether some character is an upper-case letter.
    fn has_uppercase(password: &str) -> (r: bool)
        ensures
            r == exists|i: int| 0 <= i < password@.len() && uppercase_char(password@[i]),
    {
        let n = password.unicode_len();
        let mut i: usize = 0;
        while i < n
            invariant
                n == password@.len(),
                i <= n,
                forall|j: int| 0 <= j < i ==> !uppercase_char(password@[j]),
            decreases n - i,
        {
            if char_is_uppercase(password.get_char(i)) {
                return true;
            }
            i = i + 1;
        }
        false
    }

    /// Whether some character is a lower-case letter.
    fn has_lowercase(password: &str) -> (r: bool)
        ensures
            r == exists|i: int| 0 <= i < password@.len() && lowercase_char(password@[i]),
    {
        let n = password.unicode_len();
        let mut i: usize = 0;
        while i < n
            invariant
                n == password@.len(),
                i <= n,
                forall|j: int| 0 <= j < i ==> !lowercase_char(password@[j]),
            decreases n - i,
        {
            if char_is_lowercase(password.get_char(i)) {
                return true;
            }
            i = i + 1;
        }
        false
    }

    /// Whether some character is ASCII punctuation.
    fn has_symbol(password: &str) -> (r: bool)
        ensures
            r == exists|i: int| 0 <= i < password@.len() && symbol_char(password@[i]),
    {
        let n = password.unicode_len();
        let mut i: usize = 0;
        while i < n
            invariant
                n == password@.len(),
                i <= n,
                forall|j: int| 0 <= j < i ==> !symbol_char(password@[j]),
            decreases n - i,
        {
            let u = password.get_char(i) as u32;
            if (33 <= u && u <= 47) || (58 <= u && u <= 64) || (91 <= u && u <= 96)
                || (123 <= u && u <= 126) {
                return true;
            }
            i = i + 1;
        }
        false
    }

    /// The password itself.
    pub fn expose_password(&self) -> (r: &str)
        ensures
            r@ == self.0@,
    {
        self.0.as_str()
    }
}

} // verus!
