//! The port a settings loader reads directory listings through.

use vstd::prelude::*;

verus! {

use vstd::string::StringExecFns;

/// The outcome of listing a directory, mathematically: the entries'
/// paths, or a failure message.
pub type ListingV = Result<Seq<Seq<char>>, Seq<char>>;

/// A component able to list the files of a directory.
pub trait DirectoryReader: Sized {
    /// What listing a directory returns, as a function of the reader
    /// state and the path.
    spec fn entries_spec(&self, directory: Seq<char>) -> ListingV;

    /// Lists the files of the directory.
    fn read_directory(&self, directory: &String) -> (r: Result<Vec<String>, String>)
        ensures
            match r {
                Ok(entries) => self.entries_spec(directory@) matches Ok(v)
                    && entries.deep_view() == v,
                Err(e) => self.entries_spec(directory@) matches Err(f) && e@ == f,
            },
    ;
}

/// The first listing held for the directory, if any.
pub open spec fn listing_lookup(
    listings: Seq<(Seq<char>, Seq<Seq<char>>)>,
    directory: Seq<char>,
) -> Option<Seq<Seq<char>>>
    decreases listings.len(),
{
    if listings.len() == 0 {
        None
    } else if listings.first().0 == directory {
        Some(listings.first().1)
    } else {
        listing_lookup(listings.drop_first(), directory)
    }
}

/// A directory reader over listings held in memory: each directory path
/// with the file paths it holds. It stands in for a filesystem-backed
/// reader wherever a test needs one.
#[derive(Debug, Clone)]
pub struct StaticDirectoryReader {
    pub listings: Vec<(String, Vec<String>)>,
}

impl StaticDirectoryReader {
    /// A reader holding the given listings.
    pub fn new(listings: Vec<(String, Vec<String>)>) -> (r: Self)
        ensures
            r.listings == listings,
    {
        StaticDirectoryReader { listings }
    }
}

/// Copies a list of paths.
fn clone_entries(src: &Vec<String>) -> (r: Vec<String>)
    ensures
        r.deep_view() == src.deep_view(),
{
    let mut r: Vec<String> = Vec::new();
    let mut j: usize = 0;
    while j < src.len()
        invariant
            j <= src@.len(),
            r@.len() == j,
            forall|i0: int| 0 <= i0 < j ==> r@[i0]@ == src@[i0]@,
        decreases src@.len() - j,
    {
        r.push(src[j].clone());
        j = j + 1;
    }
    proof {
        assert(r.deep_view() =~= src.deep_view());
    }
    r
}

/// The scan for a directory may skip a prefix without it.
proof fn lemma_listing_lookup_skip(
    listings: Seq<(Seq<char>, Seq<Seq<char>>)>,
    directory: Seq<char>,
    i: int,
)
    requires
        0 <= i <= listings.len(),
        forall|j: int| 0 <= j < i ==> (#[trigger] listings[j]).0 != directory,
    ensures
        listing_lookup(listings, directory)
            == listing_lookup(listings.subrange(i, listings.len() as int), directory),
    decreases i,
{
    if i > 0 {
        assert(listings[0].0 != directory);
        let rest = listings.drop_first();
        assert(rest =~= listings.subrange(1, listings.len() as int));
        assert forall|j: int| 0 <= j < i - 1 implies (#[trigger] rest[j]).0 != directory by {
            assert(rest[j] == listings[j + 1]);
        }
        lemma_listing_lookup_skip(rest, directory, i - 1);
        assert(rest.subrange(i - 1, rest.len() as int)
            =~= listings.subrange(i, listings.len() as int));
    } else {
        assert(listings.subrange(0, listings.len() as int) =~= listings);
    }
}

impl DirectoryReader for StaticDirectoryReader {
    /// The first held listing for the directory; reading an unknown
    /// directory fails.
    open spec fn entries_spec(&self, directory: Seq<char>) -> ListingV {
        match listing_lookup(self.listings.deep_view(), directory) {
            Some(entries) => Ok(entries),
            None => Err("no listing for the directory"@),
        }
    }

    fn read_directory(&self, directory: &String) -> (r: Result<Vec<String>, String>) {
        let ghost all = self.listings.deep_view();
        let mut i: usize = 0;
        while i < self.listings.len()
            invariant
                all == self.listings.deep_view(),
                all.len() == self.listings@.len(),
                i <= self.listings@.len(),
                forall|j: int| 0 <= j < i ==> (#[trigger] all[j]).0 != directory@,
            decreases self.listings@.len() - i,
        {
            let held = &self.listings[i];
            if held.0 == *directory {
                proof {
                    lemma_listing_lookup_skip(all, directory@, i as int);
                    assert(all.subrange(i as int, all.len() as int).first() == all[i as int]);
                }
                return Ok(clone_entries(&held.1));
            }
            i = i + 1;
        }
        proof {
            lemma_listing_lookup_skip(all, directory@, all.len() as int);
            assert(all.subrange(all.len() as int, all.len() as int) =~= Seq::empty());
        }
        Err(String::from_str("no listing for the directory"))
    }
}

} // verus!
