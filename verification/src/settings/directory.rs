//! The directory configuration files are read from.

use vstd::prelude::*;

verus! {

use vstd::string::{StrSliceExecFns, StringExecFns};

/// A configuration directory, held as its path. Whether the path exists
/// is the concern of whichever directory reader is plugged in.
#[derive(Debug, Clone, PartialEq)]
pub struct SettingsDirectory(pub String);

impl SettingsDirectory {
    /// Wraps a path.
    pub fn new(dir: String) -> (r: Self)
        ensures
            r.0 == dir,
    {
        SettingsDirectory(dir)
    }

    /// The path itself.
    pub fn as_str(&self) -> (r: &str)
        ensures
            r@ == self.0@,
    {
        self.0.as_str()
    }

    /// The path extended by one segment, separated by a slash.
    pub fn join(&self, segment: &str) -> (r: String)
        ensures
            r@ == self.0@ + "/"@ + segment@,
    {
        let mut r = self.0.clone();
        r.append("/");
        r.append(segment);
        r
    }
}

} // verus!
