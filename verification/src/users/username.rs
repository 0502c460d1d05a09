//! User names: at least five characters, no spaces.

use vstd::prelude::*;

verus! {

use vstd::string::{StrSliceExecFns, StringExecFns};

/// Whether a character sequence is an acceptable user name.
pub open spec fn username_ok(s: Seq<char>) -> bool {
    s.len() >= 5 && !(exists|i: int| 0 <= i < s.len() && s[i] == ' ')
}

/// A validated user name.
#[derive(Debug, Clone, PartialEq)]
pub struct Username(pub String);

impl Username {
    /// Accepts a name exactly when it has at least five characters and
    /// no space; rejected names get a message naming the rule broken.
    pub fn new(username: String) -> (r: Result<Self, String>)
        ensures
            match r {
                Ok(u) => username_ok(username@) && u.0 == username,
                Err(e) => {
                    &&& !username_ok(username@)
                    &&& e@ == if username@.len() < 5 {
                        "Username must have at least 5 characters"@
                    } else {
                        "Username must not contain spaces"@
                    }
                },
            },
    {
        let n = username.as_str().unicode_len();
        if n < 5 {
            return Err(String::from_str("Username must have at least 5 characters"));
        }
        let mut i: usize = 0;
        while i < n
            invariant
                n == username@.len(),
                5 <= n,
                i <= n,
                forall|j: int| 0 <= j < i ==> username@[j] != ' ',
            decreases n - i,
        {
            if username.as_str().get_char(i) == ' ' {
                proof {
                    assert(username@[i as int] == ' ');
                }
                return Err(String::from_str("Username must not contain spaces"));
            }
            i = i + 1;
        }
        Ok(Username(username))
    }

    /// The name itself.
    pub fn as_str(&self) -> (r: &str)
        ensures
            r@ == self.0@,
    {
        self.0.as_str()
    }
}

} // verus!
