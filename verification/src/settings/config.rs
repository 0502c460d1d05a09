//! The typed configuration the settings loader produces, and the little
//! parsers its scalar values need.

use vstd::prelude::*;

verus! {

use vstd::string::{StrSliceExecFns, StringExecFns};

/// Whether a character is a decimal digit.
pub open spec fn dec_digit(c: char) -> bool {
    '0' as int <= c as int && c as int <= '9' as int
}

/// Whether a character sequence is one or more decimal digits.
pub open spec fn dec_digits(s: Seq<char>) -> bool {
    s.len() > 0 && forall|i: int| 0 <= i < s.len() ==> dec_digit(#[trigger] s[i])
}

/// The number a sequence of decimal digits denotes, most significant
/// first.
pub open spec fn dec_val(s: Seq<char>) -> int
    decreases s.len(),
{
    if s.len() == 0 {
        0
    } else {
        dec_val(s.drop_last()) * 10 + (s.last() as int - '0' as int)
    }
}

/// Appending one digit multiplies the value by ten and adds the digit.
proof fn lemma_dec_val_push(x: Seq<char>, c: char)
    ensures
        dec_val(x.push(c)) == dec_val(x) * 10 + (c as int - '0' as int),
{
    assert(x.push(c).drop_last() =~= x);
    assert(x.push(c).last() == c);
}

/// A digit string denotes nothing negative.
proof fn lemma_dec_val_nonneg(s: Seq<char>)
    requires
        forall|i: int| 0 <= i < s.len() ==> dec_digit(#[trigger] s[i]),
    ensures
        dec_val(s) >= 0,
    decreases s.len(),
{
    if s.len() > 0 {
        assert(s.drop_last() =~= s.subrange(0, s.len() - 1));
        lemma_dec_val_nonneg(s.drop_last());
    }
}

/// Reads a port number: succeeds exactly on all-digit strings whose
/// value fits sixteen bits.
pub fn parse_u16(s: &str) -> (r: Option<u16>)
    ensures
        match r {
            Some(v) => dec_digits(s@) && dec_val(s@) == v,
            None => !(dec_digits(s@) && dec_val(s@) <= u16::MAX),
        },
{
    let n = s.unicode_len();
    if n == 0 {
        return None;
    }
    let mut acc: u32 = 0;
    let mut i: usize = 0;
    proof {
        assert(s@.subrange(0, 0) =~= Seq::<char>::empty());
    }
    while i < n
        invariant
            n == s@.len(),
            0 < n,
            i <= n,
            forall|j: int| 0 <= j < i ==> dec_digit(#[trigger] s@[j]),
            dec_val(s@.subrange(0, i as int)) <= u16::MAX ==> acc == dec_val(s@.subrange(0, i as int)),
            dec_val(s@.subrange(0, i as int)) > u16::MAX ==> acc == 70000,
            acc <= 70000,
        decreases n - i,
    {
        let u = s.get_char(i) as u32;
        if !(48 <= u && u <= 57) {
            proof {
                assert(!dec_digit(s@[i as int]));
            }
            return None;
        }
        let ghost prefix = s@.subrange(0, i as int);
        proof {
            lemma_dec_val_push(prefix, s@[i as int]);
            lemma_dec_val_nonneg(prefix);
            assert(prefix.push(s@[i as int]) =~= s@.subrange(0, i + 1));
        }
        let d = u - 48;
        if acc > 65535 || acc * 10 + d > 65535 {
            acc = 70000;
        } else {
            acc = acc * 10 + d;
        }
        i = i + 1;
    }
    proof {
        assert(s@.subrange(0, n as int) =~= s@);
    }
    if acc <= 65535 {
        Some(acc as u16)
    } else {
        None
    }
}

/// Reads a truth value: "true" or "false", nothing else.
pub fn parse_bool(s: &str) -> (r: Option<bool>)
    ensures
        match r {
            Some(true) => s@ == "true"@,
            Some(false) => s@ != "true"@ && s@ == "false"@,
            None => s@ != "true"@ && s@ != "false"@,
        },
{
    let value = String::from_str(s);
    if value == String::from_str("true") {
        Some(true)
    } else if value == String::from_str("false") {
        Some(false)
    } else {
        None
    }
}

/// What the application section of a configuration holds.
#[derive(Debug, Clone)]
pub struct ApplicationConfig {
    pub port: u16,
    pub host: String,
    pub base_url: String,
    pub environment: String,
    pub version: String,
    pub name: String,
}

/// What the database section of a configuration holds.
#[derive(Debug, Clone)]
pub struct DatabaseConfig {
    pub username: String,
    pub password: String,
    pub port: u16,
    pub host: String,
    pub db_name: String,
    pub require_ssl: bool,
}

impl DatabaseConfig {
    /// The user the connection authenticates as.
    pub fn username(&self) -> (r: &str)
        ensures
            r@ == self.username@,
    {
        self.username.as_str()
    }

    /// The password the connection authenticates with.
    pub fn password(&self) -> (r: &str)
        ensures
            r@ == self.password@,
    {
        self.password.as_str()
    }

    /// The port the database listens on.
    pub fn port(&self) -> (r: u16)
        ensures
            r == self.port,
    {
        self.port
    }

    /// The host the database runs on.
    pub fn host(&self) -> (r: &str)
        ensures
            r@ == self.host@,
    {
        self.host.as_str()
    }

    /// The name of the database.
    pub fn db_name(&self) -> (r: &str)
        ensures
            r@ == self.db_name@,
    {
        self.db_name.as_str()
    }

    /// Whether the connection must use TLS.
    pub fn require_ssl(&self) -> (r: bool)
        ensures
            r == self.require_ssl,
    {
        self.require_ssl
    }
}

/// A whole configuration: the database section and the application
/// section.
#[derive(Debug, Clone)]
pub struct Config {
    pub database: DatabaseConfig,
    pub application: ApplicationConfig,
}

} // verus!
