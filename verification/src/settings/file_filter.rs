//! Telling configuration files apart from everything else a directory
//! holds.

use vstd::prelude::*;

verus! {

use vstd::string::{StrSliceExecFns, StringExecFns};

/// Whether the needle occurs in the haystack starting at position `k`.
pub open spec fn contains_at(h: Seq<char>, n: Seq<char>, k: int) -> bool {
    0 <= k && k + n.len() <= h.len() && h.subrange(k, k + n.len()) == n
}

/// Whether the needle occurs anywhere in the haystack.
pub open spec fn seq_contains(h: Seq<char>, n: Seq<char>) -> bool {
    exists|k: int| contains_at(h, n, k)
}

/// Where the final path segment starts: just after the last slash, or at
/// the start when there is none.
pub open spec fn basename_start(s: Seq<char>) -> int
    decreases s.len(),
{
    if s.len() == 0 {
        0
    } else if s.last() == '/' {
        s.len() as int
    } else {
        basename_start(s.drop_last())
    }
}

/// The final path segment.
pub open spec fn basename(s: Seq<char>) -> Seq<char> {
    s.subrange(basename_start(s), s.len() as int)
}

/// The scan for the last slash may skip a slash-free suffix.
proof fn lemma_basename_start_skip(s: Seq<char>, i: int)
    requires
        0 <= i <= s.len(),
        forall|j: int| i <= j < s.len() ==> s[j] != '/',
    ensures
        basename_start(s) == basename_start(s.subrange(0, i)),
    decreases s.len() - i,
{
    if i == s.len() {
        assert(s.subrange(0, i) =~= s);
    } else {
        assert(s.drop_last() =~= s.subrange(0, s.len() - 1));
        lemma_basename_start_skip(s.subrange(0, s.len() - 1), i);
        assert(s.subrange(0, s.len() - 1).subrange(0, i) =~= s.subrange(0, i));
    }
}

/// The start of the final segment never lies outside the path.
proof fn lemma_basename_start_bounds(s: Seq<char>)
    ensures
        0 <= basename_start(s) <= s.len(),
    decreases s.len(),
{
    if s.len() > 0 && s.last() != '/' {
        lemma_basename_start_bounds(s.drop_last());
    }
}

/// Finds where the final path segment starts.
fn find_basename_start(path: &str) -> (r: usize)
    ensures
        r == basename_start(path@),
{
    let n = path.unicode_len();
    let mut i: usize = n;
    while i > 0
        invariant
            n == path@.len(),
            i <= n,
            forall|j: int| i <= j < n ==> path@[j] != '/',
        decreases i,
    {
        if path.get_char(i - 1) == '/' {
            proof {
                lemma_basename_start_skip(path@, i as int);
                assert(path@.subrange(0, i as int).last() == '/');
            }
            return i;
        }
        i = i - 1;
    }
    proof {
        lemma_basename_start_skip(path@, 0);
        assert(path@.subrange(0, 0) =~= Seq::<char>::empty());
    }
    0
}

/// Whether the needle occurs in the haystack, scanning left to right.
fn str_contains_from(path: &str, from: usize, needle: &str) -> (r: bool)
    requires
        from <= path@.len(),
    ensures
        r == seq_contains(path@.subrange(from as int, path@.len() as int), needle@),
{
    let ghost h = path@.subrange(from as int, path@.len() as int);
    let n = path.unicode_len();
    let m = needle.unicode_len();
    if m > n - from {
        proof {
            assert forall|k: int| !contains_at(h, needle@, k) by {}
        }
        return false;
    }
    if m == 0 {
        proof {
            assert(h.subrange(0, 0) =~= needle@);
            assert(contains_at(h, needle@, 0));
        }
        return true;
    }
    let mut k: usize = from;
    while k <= n - m
        invariant
            h == path@.subrange(from as int, path@.len() as int),
            n == path@.len(),
            m == needle@.len(),
            1 <= m <= n,
            from <= k,
            k <= n - m + 1,
            forall|k0: int| 0 <= k0 < k - from ==> !contains_at(h, needle@, k0),
        decreases n - k,
    {
        let mut j: usize = 0;
        let mut hit = true;
        while j < m
            invariant
                h == path@.subrange(from as int, path@.len() as int),
                n == path@.len(),
                m == needle@.len(),
                from <= k,
                k + m <= n,
                j <= m,
                hit ==> forall|j0: int| 0 <= j0 < j ==> h[k - from + j0] == needle@[j0],
                !hit ==> !contains_at(h, needle@, k - from),
            decreases m - j,
        {
            if path.get_char(k + j) != needle.get_char(j) {
                proof {
                    assert(h[k - from + j] == path@[k + j]);
                    if contains_at(h, needle@, k - from) {
                        assert(h.subrange(k - from, k - from + m as int)[j as int]
                            == needle@[j as int]);
                    }
                }
                hit = false;
                j = m;
            } else {
                j = j + 1;
            }
        }
        if hit {
            proof {
                assert(h.subrange(k - from, k - from + m as int) =~= needle@);
                assert(contains_at(h, needle@, k - from));
            }
            return true;
        }
        k = k + 1;
    }
    proof {
        assert forall|k0: int| !contains_at(h, needle@, k0) by {
            if 0 <= k0 && k0 + needle@.len() <= h.len() {
                assert(k0 < k - from);
            }
        }
    }
    false
}

/// A component that tells configuration files apart by their path.
pub trait SettingsFileFilter: Sized {
    /// Whether a path names a configuration file, as a function of its
    /// characters.
    spec fn is_config_spec(&self, path: Seq<char>) -> bool;

    /// Whether the given path names a configuration file.
    fn is_config_file(&self, path: &String) -> (r: bool)
        ensures
            r == self.is_config_spec(path@),
    ;

    /// Keeps exactly the configuration files, in order.
    fn filter_config_files(&self, entries: Vec<String>) -> (r: Vec<String>)
        ensures
            r.deep_view() == entries.deep_view().filter(|p: Seq<char>| self.is_config_spec(p)),
    {
        let ghost pred = |p: Seq<char>| self.is_config_spec(p);
        let mut r: Vec<String> = Vec::new();
        let mut i: usize = 0;
        proof {
            reveal(Seq::filter);
            assert(entries.deep_view().subrange(0, 0) =~= Seq::<Seq<char>>::empty());
        }
        while i < entries.len()
            invariant
                i <= entries@.len(),
                entries.deep_view().len() == entries@.len(),
                r.deep_view() == entries.deep_view().subrange(0, i as int).filter(pred),
                pred == (|p: Seq<char>| self.is_config_spec(p)),
            decreases entries@.len() - i,
        {
            let ghost prefix = entries.deep_view().subrange(0, i as int);
            let ghost next = entries.deep_view().subrange(0, i + 1);
            proof {
                assert(next.drop_last() =~= prefix);
                assert(next.last() == entries.deep_view()[i as int]);
                reveal(Seq::filter);
            }
            if self.is_config_file(&entries[i]) {
                r.push(entries[i].clone());
            }
            i = i + 1;
        }
        proof {
            assert(entries.deep_view().subrange(0, entries@.len() as int) =~= entries.deep_view());
        }
        r
    }
}

/// The stock filter: a configuration file is whatever carries
/// ".config.toml" in its final path segment.
#[derive(Debug, Clone)]
pub struct TomlSettingsFileFilter;

impl TomlSettingsFileFilter {
    /// Builds the filter; it carries no state.
    pub fn new() -> (r: Self)
        ensures
            r == TomlSettingsFileFilter,
    {
        TomlSettingsFileFilter
    }
}

impl SettingsFileFilter for TomlSettingsFileFilter {
    /// ".config.toml" occurs in the final path segment.
    open spec fn is_config_spec(&self, path: Seq<char>) -> bool {
        seq_contains(basename(path), ".config.toml"@)
    }

    fn is_config_file(&self, path: &String) -> (r: bool) {
        let start = find_basename_start(path.as_str());
        proof {
            lemma_basename_start_bounds(path@);
        }
        str_contains_from(path.as_str(), start, ".config.toml")
    }
}

} // verus!
