//! Email addresses, validated by the HTML5 address rules.

use vstd::prelude::*;

verus! {

use vstd::string::StringExecFns;

/// Whether a character sequence is a valid email address by the HTML5
/// rules the validator applies; stating those rules would copy the
/// validator, so the name stands for its answer. An empty sequence is
/// never valid.
pub uninterp spec fn email_ok(s: Seq<char>) -> bool;

/// Relies on validator's ValidateEmail::validate_email: a deterministic
/// check of the characters alone, false on the empty string.
#[verifier::external_body]
fn validate_email(s: &String) -> (r: bool)
    ensures
        r == email_ok(s@),
        s@.len() == 0 ==> !r,
{
    validator::ValidateEmail::validate_email(s)
}

/// A validated email address.
#[derive(Debug, Clone, PartialEq)]
pub struct Email(pub String);

impl Email {
    /// Accepts an address exactly when the validator does.
    pub fn new(email: String) -> (r: Result<Self, String>)
        ensures
            match r {
                Ok(u) => email_ok(email@) && u.0 == email,
                Err(e) => !email_ok(email@) && e@ == "Invalid email"@,
            },
    {
        if validate_email(&email) {
            Ok(Email(email))
        } else {
            Err(String::from_str("Invalid email"))
        }
    }

    /// The address itself.
    pub fn as_str(&self) -> (r: &str)
        ensures
            r@ == self.0@,
    {
        self.0.as_str()
    }
}

} // verus!
