//! The runtime environment a configuration is loaded for.

use vstd::prelude::*;

verus! {

use vstd::string::{StrSliceExecFns, StringExecFns};

/// Whether two characters are equal up to ASCII case.
pub open spec fn chars_eq_nocase(a: char, b: char) -> bool {
    ||| a == b
    ||| ('A' as int <= a as int && a as int <= 'Z' as int && b as int == a as int + 32)
    ||| ('A' as int <= b as int && b as int <= 'Z' as int && a as int == b as int + 32)
}

/// Whether two character sequences are equal up to ASCII case.
pub open spec fn seq_eq_nocase(a: Seq<char>, b: Seq<char>) -> bool {
    a.len() == b.len() && forall|i: int| 0 <= i < a.len() ==> chars_eq_nocase(a[i], b[i])
}

/// Compares two strings up to ASCII case.
pub fn str_eq_nocase(a: &str, b: &str) -> (r: bool)
    ensures
        r == seq_eq_nocase(a@, b@),
{
    let n = a.unicode_len();
    if n != b.unicode_len() {
        return false;
    }
    let mut i: usize = 0;
    while i < n
        invariant
            n == a@.len(),
            n == b@.len(),
            i <= n,
            forall|j: int| 0 <= j < i ==> chars_eq_nocase(a@[j], b@[j]),
        decreases n - i,
    {
        let x = a.get_char(i) as u32;
        let y = b.get_char(i) as u32;
        let same = x == y
            || (65 <= x && x <= 90 && y == x + 32)
            || (65 <= y && y <= 90 && x == y + 32);
        if !same {
            return false;
        }
        i = i + 1;
    }
    true
}

/// The environment a deployment runs in.
#[derive(Debug, Clone, Copy, PartialEq, Eq, Structural)]
pub enum Environment {
    Development,
    Testing,
    Production,
}

/// Whether a name selects the development environment: "local",
/// "development" or "testing", in any ASCII case.
pub open spec fn names_development(s: Seq<char>) -> bool {
    ||| seq_eq_nocase(s, "local"@)
    ||| seq_eq_nocase(s, "development"@)
    ||| seq_eq_nocase(s, "testing"@)
}

/// Whether a name selects the production environment.
pub open spec fn names_production(s: Seq<char>) -> bool {
    seq_eq_nocase(s, "production"@)
}

impl Environment {
    /// The lower-case name of the environment.
    pub fn as_str(&self) -> (r: &'static str)
        ensures
            r@ == match *self {
                Environment::Development => "development"@,
                Environment::Testing => "testing"@,
                Environment::Production => "production"@,
            },
    {
        match self {
            Environment::Development => "development",
            Environment::Testing => "testing",
            Environment::Production => "production",
        }
    }

    /// Reads an environment from its name, ignoring ASCII case:
    /// "local", "development" and "testing" select development,
    /// "production" selects production, anything else is rejected with a
    /// message carrying the name as given.
    pub fn parse(value: String) -> (r: Result<Self, String>)
        ensures
            match r {
                Ok(env) => match env {
                    Environment::Development => names_development(value@),
                    Environment::Production => names_production(value@),
                    Environment::Testing => false,
                },
                Err(e) => {
                    &&& !names_development(value@)
                    &&& !names_production(value@)
                    &&& e@ == value@ + " is not a supported environment"@
                },
            },
    {
        if str_eq_nocase(value.as_str(), "local")
            || str_eq_nocase(value.as_str(), "development")
            || str_eq_nocase(value.as_str(), "testing") {
            Ok(Environment::Development)
        } else if str_eq_nocase(value.as_str(), "production") {
            Ok(Environment::Production)
        } else {
            Err(value.concat(" is not a supported environment"))
        }
    }
}

impl Default for Environment {
    /// Development, the environment assumed when none is named.
    fn default() -> (r: Self)
        ensures
            r == Environment::Development,
    {
        Environment::Development
    }
}

} // verus!
