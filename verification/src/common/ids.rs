//! Unique identifiers for persisted entities.
//!
//! An identifier is a 128-bit value, shown to the outside world in the usual
//! hyphenated hexadecimal form (eight, four, four, four and twelve digits,
//! separated by hyphens). Formatting and parsing are verified against a
//! character-level description of that form.

use vstd::prelude::*;

verus! {

use vstd::string::{StrSliceExecFns, StringExecFns};

/// A 128-bit unique identifier, held as two 64-bit halves,
/// most significant half first.
#[derive(Clone, Copy, PartialEq, Eq, Structural, Hash, Debug)]
pub struct UniqueId {
    pub hi: u64,
    pub lo: u64,
}

/// Whether a character is a hexadecimal digit, in either case.
pub open spec fn is_hex_char(c: char) -> bool {
    ('0' as int <= c as int && c as int <= '9' as int)
    || ('a' as int <= c as int && c as int <= 'f' as int)
    || ('A' as int <= c as int && c as int <= 'F' as int)
}

/// The numeric value of a hexadecimal digit character.
pub open spec fn hex_char_val(c: char) -> u64 {
    if '0' as int <= c as int && c as int <= '9' as int {
        (c as int - '0' as int) as u64
    } else if 'a' as int <= c as int && c as int <= 'f' as int {
        (10 + c as int - 'a' as int) as u64
    } else {
        (10 + c as int - 'A' as int) as u64
    }
}

/// The lower-case digit character for a nibble value.
pub open spec fn hex_char_of(n: u64) -> char {
    if n == 0 { '0' } else if n == 1 { '1' } else if n == 2 { '2' }
    else if n == 3 { '3' } else if n == 4 { '4' } else if n == 5 { '5' }
    else if n == 6 { '6' } else if n == 7 { '7' } else if n == 8 { '8' }
    else if n == 9 { '9' } else if n == 10 { 'a' } else if n == 11 { 'b' }
    else if n == 12 { 'c' } else if n == 13 { 'd' } else if n == 14 { 'e' }
    else { 'f' }
}

/// Positions of the four hyphens in the 36-character form.
pub open spec fn is_uuid_sep(j: int) -> bool {
    j == 8 || j == 13 || j == 18 || j == 23
}

/// For a non-hyphen position in the 36-character form, the index of its
/// nibble among the 32 hexadecimal digits.
pub open spec fn uuid_nibble_index(j: int) -> int {
    if j < 8 { j } else if j < 13 { j - 1 } else if j < 18 { j - 2 }
    else if j < 23 { j - 3 } else { j - 4 }
}

/// Nibble `k` (0 = most significant of `hi`, 31 = least significant of `lo`).
pub open spec fn uuid_nibble(hi: u64, lo: u64, k: int) -> u64 {
    if k < 16 {
        (hi >> (((15 - k) * 4) as u64)) & 0xf
    } else {
        (lo >> (((31 - k) * 4) as u64)) & 0xf
    }
}

/// The character at position `j` of the 36-character form of an identifier.
pub open spec fn uuid_char_at(hi: u64, lo: u64, j: int) -> char {
    if is_uuid_sep(j) {
        '-'
    } else {
        hex_char_of(uuid_nibble(hi, lo, uuid_nibble_index(j)))
    }
}

/// The 36-character hyphenated form of an identifier.
pub open spec fn uuid_seq(hi: u64, lo: u64) -> Seq<char> {
    Seq::new(36, |j: int| uuid_char_at(hi, lo, j))
}

/// The 32 hexadecimal digits of a 36-character candidate, hyphens removed.
pub open spec fn uuid_hex_chars(s: Seq<char>) -> Seq<char> {
    s.subrange(0, 8) + s.subrange(9, 13) + s.subrange(14, 18)
        + s.subrange(19, 23) + s.subrange(24, 36)
}

/// Whether a character sequence is a well-formed hyphenated identifier:
/// 36 characters, hyphens at positions 8, 13, 18 and 23, hexadecimal
/// digits (either case) everywhere else.
pub open spec fn valid_uuid_chars(s: Seq<char>) -> bool {
    &&& s.len() == 36
    &&& forall|j: int| 0 <= j < 36 ==> #[trigger] uuid_pos_ok(s, j)
}

/// Whether position `j` of a candidate holds the kind of character the
/// hyphenated form asks for there.
pub open spec fn uuid_pos_ok(s: Seq<char>, j: int) -> bool {
    if is_uuid_sep(j) { s[j] == '-' } else { is_hex_char(s[j]) }
}

/// The value of a sequence of hexadecimal digit characters, read most
/// significant first, folded nibble by nibble into a 64-bit word.
pub open spec fn nibbles_val(s: Seq<char>) -> u64
    decreases s.len(),
{
    if s.len() == 0 {
        0
    } else {
        (nibbles_val(s.drop_last()) << 4) | hex_char_val(s.last())
    }
}

/// The `hi` half encoded by a well-formed 36-character sequence.
pub open spec fn uuid_hi_val(s: Seq<char>) -> u64 {
    nibbles_val(uuid_hex_chars(s).subrange(0, 16))
}

/// The `lo` half encoded by a well-formed 36-character sequence.
pub open spec fn uuid_lo_val(s: Seq<char>) -> u64 {
    nibbles_val(uuid_hex_chars(s).subrange(16, 32))
}

/// The lower-case digit character for a nibble value, as a one-character
/// string slice.
fn hex_str(n: u64) -> (r: &'static str)
    requires
        n < 16,
    ensures
        r@.len() == 1,
        r@[0] == hex_char_of(n),
{
    proof {
        reveal_strlit("0"); reveal_strlit("1"); reveal_strlit("2");
        reveal_strlit("3"); reveal_strlit("4"); reveal_strlit("5");
        reveal_strlit("6"); reveal_strlit("7"); reveal_strlit("8");
        reveal_strlit("9"); reveal_strlit("a"); reveal_strlit("b");
        reveal_strlit("c"); reveal_strlit("d"); reveal_strlit("e");
        reveal_strlit("f");
    }
    if n == 0 { "0" } else if n == 1 { "1" } else if n == 2 { "2" }
    else if n == 3 { "3" } else if n == 4 { "4" } else if n == 5 { "5" }
    else if n == 6 { "6" } else if n == 7 { "7" } else if n == 8 { "8" }
    else if n == 9 { "9" } else if n == 10 { "a" } else if n == 11 { "b" }
    else if n == 12 { "c" } else if n == 13 { "d" } else if n == 14 { "e" }
    else { "f" }
}

impl UniqueId {
    /// The all-zero (nil) identifier.
    pub open spec fn is_nil(self) -> bool {
        self.hi == 0 && self.lo == 0
    }

    /// Builds an identifier from its two halves.
    pub fn new(hi: u64, lo: u64) -> (r: Self)
        ensures
            r.hi == hi,
            r.lo == lo,
    {
        UniqueId { hi, lo }
    }

    /// Renders the identifier in its 36-character hyphenated form,
    /// lower case.
    pub fn to_uuid_string(&self) -> (r: String)
        ensures
            r@ == uuid_seq(self.hi, self.lo),
    {
        let mut r = String::new();
        let mut j: usize = 0;
        while j < 36
            invariant
                j <= 36,
                r@ =~= uuid_seq(self.hi, self.lo).subrange(0, j as int),
            decreases 36 - j,
        {
            if j == 8 || j == 13 || j == 18 || j == 23 {
                proof { reveal_strlit("-"); }
                r.append("-");
            } else {
                let k: usize = if j < 8 { j } else if j < 13 { j - 1 }
                    else if j < 18 { j - 2 } else if j < 23 { j - 3 }
                    else { j - 4 };
                let x: u64 = if k < 16 { self.hi } else { self.lo };
                let sh: u64 = if k < 16 { (15 - k as u64) * 4 } else { (31 - k as u64) * 4 };
                let n: u64 = (x >> sh) & 0xf;
                proof {
                    assert((x >> sh) & 0xf < 16) by (bit_vector);
                }
                r.append(hex_str(n));
            }
            j = j + 1;
            proof {
                assert(r@ =~= uuid_seq(self.hi, self.lo).subrange(0, j as int));
            }
        }
        proof {
            assert(uuid_seq(self.hi, self.lo).subrange(0, 36) =~= uuid_seq(self.hi, self.lo));
        }
        r
    }

    /// Reads an identifier from text, in any of the shapes identifiers
    /// are written in: the 36-character hyphenated form, the 32-digit
    /// simple form, the hyphenated form in braces, and the hyphenated
    /// form behind a "urn:uuid:" prefix of any ASCII case. Hexadecimal
    /// digits are accepted in either case. Returns `None` exactly on
    /// text of none of these shapes.
    pub fn parse(s: &str) -> (r: Option<UniqueId>)
        ensures
            match r {
                Some(id) => valid_uuid_text(s@)
                    && id.hi == uuid_text_hi(s@)
                    && id.lo == uuid_text_lo(s@),
                None => !valid_uuid_text(s@),
            },
    {
        let n = s.unicode_len();
        if n == 36 {
            Self::parse_hyphenated(s)
        } else if n == 32 {
            Self::parse_simple(s)
        } else if n == 38 {
            if s.get_char(0) != '{' || s.get_char(37) != '}' {
                return None;
            }
            Self::parse_hyphenated(s.substring_char(1, 37))
        } else if n == 45 {
            if !read_urn_prefix(s) {
                return None;
            }
            Self::parse_hyphenated(s.substring_char(9, 45))
        } else {
            None
        }
    }

    /// Reads the 36-character hyphenated form.
    fn parse_hyphenated(s: &str) -> (r: Option<UniqueId>)
        ensures
            match r {
                Some(id) => valid_uuid_chars(s@)
                    && id.hi == uuid_hi_val(s@)
                    && id.lo == uuid_lo_val(s@),
                None => !valid_uuid_chars(s@),
            },
    {
        if s.unicode_len() != 36 {
            return None;
        }
        let mut hi: u64 = 0;
        let mut lo: u64 = 0;
        let mut j: usize = 0;
        while j < 36
            invariant
                j <= 36,
                s@.len() == 36,
                forall|i: int| 0 <= i < j ==> #[trigger] uuid_pos_ok(s@, i),
                hi == nibbles_val(uuid_hex_chars(s@).subrange(0, hex_count_hi(j as int))),
                lo == nibbles_val(uuid_hex_chars(s@).subrange(16, hex_count_lo(j as int))),
            decreases 36 - j,
        {
            let c = s.get_char(j);
            if j == 8 || j == 13 || j == 18 || j == 23 {
                if c != '-' {
                    proof { assert(!uuid_pos_ok(s@, j as int)); }
                    return None;
                }
            } else {
                let u = c as u32;
                let v: u64 = if 48 <= u && u <= 57 {
                    (u - 48) as u64
                } else if 97 <= u && u <= 102 {
                    (u - 87) as u64
                } else if 65 <= u && u <= 70 {
                    (u - 55) as u64
                } else {
                    proof { assert(!uuid_pos_ok(s@, j as int)); }
                    return None;
                };
                proof {
                    assert(v == hex_char_val(s@[j as int]));
                    lemma_hex_chars_index(s@, j as int);
                }
                if j < 19 {
                    hi = (hi << 4) | v;
                } else {
                    lo = (lo << 4) | v;
                }
            }
            j = j + 1;
            proof {
                lemma_hex_prefix_step(s@, j as int);
                let p = j as int - 1;
                if !is_uuid_sep(p) {
                    if p < 19 {
                        lemma_nibbles_val_push(
                            uuid_hex_chars(s@).subrange(0, hex_count_hi(p)),
                            s@[p],
                        );
                    } else {
                        lemma_nibbles_val_push(
                            uuid_hex_chars(s@).subrange(16, hex_count_lo(p)),
                            s@[p],
                        );
                    }
                }
            }
        }
        proof {
            assert(hex_count_hi(36) == 16);
            assert(hex_count_lo(36) == 32);
        }
        Some(UniqueId { hi, lo })
    }

    /// Reads the 32-digit simple form.
    fn parse_simple(s: &str) -> (r: Option<UniqueId>)
        ensures
            match r {
                Some(id) => valid_simple_chars(s@)
                    && id.hi == nibbles_val(s@.subrange(0, 16))
                    && id.lo == nibbles_val(s@.subrange(16, 32)),
                None => !valid_simple_chars(s@),
            },
    {
        if s.unicode_len() != 32 {
            return None;
        }
        let mut hi: u64 = 0;
        let mut lo: u64 = 0;
        let mut j: usize = 0;
        proof {
            assert(s@.subrange(0, 0) =~= Seq::<char>::empty());
            assert(s@.subrange(16, 16) =~= Seq::<char>::empty());
        }
        while j < 32
            invariant
                j <= 32,
                s@.len() == 32,
                forall|i: int| 0 <= i < j ==> is_hex_char(#[trigger] s@[i]),
                hi == nibbles_val(s@.subrange(0, if j <= 16 { j as int } else { 16 })),
                lo == nibbles_val(s@.subrange(16, if j >= 16 { j as int } else { 16 })),
            decreases 32 - j,
        {
            let u = s.get_char(j) as u32;
            let v: u64 = if 48 <= u && u <= 57 {
                (u - 48) as u64
            } else if 97 <= u && u <= 102 {
                (u - 87) as u64
            } else if 65 <= u && u <= 70 {
                (u - 55) as u64
            } else {
                proof {
                    assert(!is_hex_char(s@[j as int]));
                }
                return None;
            };
            proof {
                assert(v == hex_char_val(s@[j as int]));
                if j < 16 {
                    lemma_nibbles_val_push(s@.subrange(0, j as int), s@[j as int]);
                    assert(s@.subrange(0, j as int).push(s@[j as int]) =~= s@.subrange(0, j + 1));
                } else {
                    lemma_nibbles_val_push(s@.subrange(16, j as int), s@[j as int]);
                    assert(s@.subrange(16, j as int).push(s@[j as int]) =~= s@.subrange(16, j + 1));
                }
            }
            if j < 16 {
                hi = (hi << 4) | v;
            } else {
                lo = (lo << 4) | v;
            }
            j = j + 1;
        }
        Some(UniqueId { hi, lo })
    }
}

/// Whether a character sequence is the 32-digit simple form: nothing but
/// hexadecimal digits, in either case.
pub open spec fn valid_simple_chars(s: Seq<char>) -> bool {
    s.len() == 32 && forall|i: int| 0 <= i < 32 ==> is_hex_char(#[trigger] s[i])
}

/// Whether the text begins with "urn:uuid:", letters in any ASCII case.
pub open spec fn is_urn_prefix(s: Seq<char>) -> bool {
    &&& s.len() >= 9
    &&& (s[0] == 'u' || s[0] == 'U')
    &&& (s[1] == 'r' || s[1] == 'R')
    &&& (s[2] == 'n' || s[2] == 'N')
    &&& s[3] == ':'
    &&& (s[4] == 'u' || s[4] == 'U')
    &&& (s[5] == 'u' || s[5] == 'U')
    &&& (s[6] == 'i' || s[6] == 'I')
    &&& (s[7] == 'd' || s[7] == 'D')
    &&& s[8] == ':'
}

/// The 36 characters that carry the value: the text itself, the inside
/// of the braces, or what follows the urn prefix.
pub open spec fn uuid_text_core(s: Seq<char>) -> Seq<char> {
    if s.len() == 38 {
        s.subrange(1, 37)
    } else if s.len() == 45 {
        s.subrange(9, 45)
    } else {
        s
    }
}

/// Whether text denotes an identifier: the hyphenated form, the simple
/// form, the hyphenated form in braces, or the hyphenated form behind a
/// "urn:uuid:" prefix.
pub open spec fn valid_uuid_text(s: Seq<char>) -> bool {
    if s.len() == 32 {
        valid_simple_chars(s)
    } else if s.len() == 36 {
        valid_uuid_chars(s)
    } else if s.len() == 38 {
        s[0] == '{' && s[37] == '}' && valid_uuid_chars(uuid_text_core(s))
    } else if s.len() == 45 {
        is_urn_prefix(s) && valid_uuid_chars(uuid_text_core(s))
    } else {
        false
    }
}

/// The `hi` half the text denotes.
pub open spec fn uuid_text_hi(s: Seq<char>) -> u64 {
    if s.len() == 32 {
        nibbles_val(s.subrange(0, 16))
    } else {
        uuid_hi_val(uuid_text_core(s))
    }
}

/// The `lo` half the text denotes.
pub open spec fn uuid_text_lo(s: Seq<char>) -> u64 {
    if s.len() == 32 {
        nibbles_val(s.subrange(16, 32))
    } else {
        uuid_lo_val(uuid_text_core(s))
    }
}

/// Checks for the "urn:uuid:" prefix, letters in any ASCII case.
fn read_urn_prefix(s: &str) -> (r: bool)
    requires
        s@.len() >= 9,
    ensures
        r == is_urn_prefix(s@),
{
    let c0 = s.get_char(0);
    let c1 = s.get_char(1);
    let c2 = s.get_char(2);
    let c3 = s.get_char(3);
    let c4 = s.get_char(4);
    let c5 = s.get_char(5);
    let c6 = s.get_char(6);
    let c7 = s.get_char(7);
    let c8 = s.get_char(8);
    (c0 == 'u' || c0 == 'U') && (c1 == 'r' || c1 == 'R') && (c2 == 'n' || c2 == 'N')
        && c3 == ':' && (c4 == 'u' || c4 == 'U') && (c5 == 'u' || c5 == 'U')
        && (c6 == 'i' || c6 == 'I') && (c7 == 'd' || c7 == 'D') && c8 == ':'
}

/// How many of the first `j` positions of the 36-character form are
/// hexadecimal digits.
pub open spec fn hex_count(j: int) -> int {
    if j <= 8 { j } else if j <= 13 { j - 1 } else if j <= 18 { j - 2 }
    else if j <= 23 { j - 3 } else { j - 4 }
}

/// `hex_count(j)`, capped at 16: how many digits of the `hi` half have
/// been scanned after `j` positions.
pub open spec fn hex_count_hi(j: int) -> int {
    if hex_count(j) <= 16 { hex_count(j) } else { 16 }
}

/// How far into the 32 digits the scan has come once past the `hi` half;
/// never below 16, so that it bounds the `lo` digits scanned.
pub open spec fn hex_count_lo(j: int) -> int {
    if hex_count(j) >= 16 { hex_count(j) } else { 16 }
}

/// Appending one digit multiplies the accumulated value by sixteen and
/// adds the digit, in shift-or form.
proof fn lemma_nibbles_val_push(x: Seq<char>, c: char)
    ensures
        nibbles_val(x.push(c)) == (nibbles_val(x) << 4) | hex_char_val(c),
{
    assert(x.push(c).drop_last() =~= x);
    assert(x.push(c).last() == c);
}

/// Relates a non-hyphen position of the candidate to its place among the
/// 32 hexadecimal digits.
proof fn lemma_hex_chars_index(s: Seq<char>, j: int)
    requires
        s.len() == 36,
        0 <= j < 36,
        !is_uuid_sep(j),
    ensures
        uuid_hex_chars(s)[uuid_nibble_index(j)] == s[j],
        uuid_nibble_index(j) == hex_count(j),
{
    let h = uuid_hex_chars(s);
    assert(h.len() == 32);
    let k = uuid_nibble_index(j);
    if j < 8 {
        assert(h[k] == s.subrange(0, 8)[k]);
    } else if j < 13 {
        assert(h[k] == s.subrange(9, 13)[k - 8]);
    } else if j < 18 {
        assert(h[k] == s.subrange(14, 18)[k - 12]);
    } else if j < 23 {
        assert(h[k] == s.subrange(19, 23)[k - 16]);
    } else {
        assert(h[k] == s.subrange(24, 36)[k - 20]);
    }
}

/// One step of the parsing loop: extending the scanned prefix by one
/// position extends the accumulated nibble sequences as the accumulator does.
proof fn lemma_hex_prefix_step(s: Seq<char>, j: int)
    requires
        s.len() == 36,
        1 <= j <= 36,
    ensures
        is_uuid_sep(j - 1) ==> hex_count_hi(j) == hex_count_hi(j - 1)
            && hex_count_lo(j) == hex_count_lo(j - 1),
        !is_uuid_sep(j - 1) && j - 1 < 19 ==> {
            &&& hex_count_hi(j) == hex_count_hi(j - 1) + 1
            &&& hex_count_lo(j) == hex_count_lo(j - 1)
            &&& uuid_hex_chars(s).subrange(0, hex_count_hi(j))
                =~= uuid_hex_chars(s).subrange(0, hex_count_hi(j - 1)).push(s[j - 1])
        },
        !is_uuid_sep(j - 1) && j - 1 >= 19 ==> {
            &&& hex_count_hi(j) == hex_count_hi(j - 1)
            &&& hex_count_lo(j) == hex_count_lo(j - 1) + 1
            &&& uuid_hex_chars(s).subrange(16, hex_count_lo(j))
                =~= uuid_hex_chars(s).subrange(16, hex_count_lo(j - 1)).push(s[j - 1])
        },
{
    if !is_uuid_sep(j - 1) {
        lemma_hex_chars_index(s, j - 1);
    }
}

} // verus!
