//! Places in the file system, as values: a root and the names below it.
//!
//! The library never touches the file system. It says where a file lies, and
//! the host turns that into a path of its platform by starting at the root
//! and descending one name at a time.

use vstd::prelude::*;

verus! {

/// A place in the file system: the directory `root`, given as the host got
/// it, and the names of the entries to descend through from there.
#[derive(Debug, PartialEq, Eq)]
pub struct FilePath {
    pub root: String,
    pub names: Vec<String>,
}

/// What a `FilePath` holds, as text.
pub ghost struct FilePathView {
    pub root: Seq<char>,
    pub names: Seq<Seq<char>>,
}

impl FilePathView {
    /// The directory `root` itself.
    pub open spec fn at(root: Seq<char>) -> FilePathView {
        FilePathView { root, names: Seq::empty() }
    }

    /// The entry `name` of this place.
    pub open spec fn join(self, name: Seq<char>) -> FilePathView {
        FilePathView { root: self.root, names: self.names.push(name) }
    }
}

impl View for FilePath {
    type V = FilePathView;

    open spec fn view(&self) -> FilePathView {
        FilePathView { root: self.root@, names: self.names.deep_view() }
    }
}

impl DeepView for FilePath {
    type V = FilePathView;

    open spec fn deep_view(&self) -> FilePathView {
        self@
    }
}

impl Clone for FilePath {
    fn clone(&self) -> (copy: Self)
        ensures
            copy@ == self@,
    {
        FilePath { root: self.root.clone(), names: self.names.clone() }
    }
}

impl FilePath {
    /// The directory `root` itself.
    pub fn at(root: String) -> (path: Self)
        ensures
            path@ == FilePathView::at(root@),
    {
        let path = FilePath { root, names: Vec::new() };
        assert(path.names.deep_view() =~= Seq::<Seq<char>>::empty());
        path
    }

    /// The entry `name` of this place.
    pub fn join(self, name: &str) -> (path: Self)
        ensures
            path@ == self@.join(name@),
    {
        let mut path = self;
        path.names.push(String::from_str(name));
        assert(path.names.deep_view() =~= self.names.deep_view().push(name@));
        path
    }
}

} // verus!
