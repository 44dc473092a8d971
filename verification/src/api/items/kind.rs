//! Item kind: folder or file.

use vstd::prelude::*;

verus! {

/// Item kind.
#[derive(Debug, Clone, PartialEq, Eq, PartialOrd, Ord)]
pub enum Kind {
    /// A folder.
    Folder,
    /// A file.
    File,
}

impl Kind {
    /// Whether the item is a folder.
    pub fn is_folder(&self) -> (r: bool)
        ensures
            r == (self matches Kind::Folder),
    {
        match self {
            Kind::Folder => true,
            _ => false,
        }
    }

    /// Whether the item is a file.
    pub fn is_file(&self) -> (r: bool)
        ensures
            r == (self matches Kind::File),
    {
        match self {
            Kind::File => true,
            _ => false,
        }
    }
}

} // verus!
