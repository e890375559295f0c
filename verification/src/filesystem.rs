//! An in-memory filesystem for tests, keyed by path strings, and the unit
//! type that stands for the real filesystem.

use vstd::prelude::*;
use crate::string_map::{lies_under, without_under, KeyedMap, StringMap};
use crate::text::{byte_len, owned, utf8_len};

verus! {

/// The real filesystem; its operations are performed by the program around
/// this library.
pub struct RealFileSystem;

impl RealFileSystem {
    /// The real filesystem.
    pub fn new() -> (r: Self) {
        RealFileSystem
    }
}

/// Why a filesystem operation failed.
#[derive(Debug, Clone, PartialEq)]
pub enum FsError {
    /// A failure set up with `with_failure`; its message.
    Simulated(String),
    /// The file does not exist.
    FileNotFound(String),
    /// The file to copy does not exist.
    SourceFileNotFound(String),
    /// Neither a file nor a directory exists at the source path.
    SourceNotFound(String),
    /// The directory does not exist.
    DirectoryNotFound(String),
}

/// An in-memory filesystem: files with their contents, directories with
/// their entry names, and paths on which every operation fails.
pub struct MockFileSystem {
    files: StringMap,
    directories: KeyedMap<Vec<String>>,
    should_fail: StringMap,
}

impl MockFileSystem {
    /// File contents by path.
    pub closed spec fn files(&self) -> Map<Seq<char>, Seq<char>> {
        self.files@
    }

    /// Directory entry names by path.
    pub closed spec fn directories(&self) -> Map<Seq<char>, Seq<String>> {
        self.directories@
    }

    /// Failure messages by path.
    pub closed spec fn failures(&self) -> Map<Seq<char>, Seq<char>> {
        self.should_fail@
    }

    /// The error an operation on `path` fails with, if one was set up.
    pub open spec fn failure_at(&self, path: Seq<char>) -> Option<Seq<char>> {
        if self.failures().contains_key(path) {
            Some(self.failures()[path])
        } else {
            None
        }
    }

    /// An empty filesystem.
    pub fn new() -> (r: Self)
        ensures
            r.files() == Map::<Seq<char>, Seq<char>>::empty(),
            r.directories() == Map::<Seq<char>, Seq<String>>::empty(),
            r.failures() == Map::<Seq<char>, Seq<char>>::empty(),
    {
        MockFileSystem {
            files: StringMap::new(),
            directories: KeyedMap::new(),
            should_fail: StringMap::new(),
        }
    }

    /// Adds a file with the given content.
    pub fn with_file(self, path: &str, content: &str) -> (r: Self)
        ensures
            r.files() == self.files().insert(path@, content@),
            r.directories() == self.directories(),
            r.failures() == self.failures(),
    {
        let mut s = self;
        s.files.insert(owned(path), owned(content));
        s
    }

    /// Adds an empty directory.
    pub fn with_directory(self, path: &str) -> (r: Self)
        ensures
            r.directories() == self.directories().insert(path@, Seq::<String>::empty()),
            r.files() == self.files(),
            r.failures() == self.failures(),
    {
        let mut s = self;
        s.directories.insert(owned(path), Vec::new());
        s
    }

    /// Adds a directory with the given entry names.
    pub fn with_directory_contents(self, path: &str, files: Vec<&str>) -> (r: Self)
        ensures
            r.directories().contains_key(path@),
            r.directories()[path@].len() == files@.len(),
            forall|i: int|
                0 <= i < files@.len() ==> (#[trigger] r.directories()[path@][i])@ == files@[i]@,
            forall|p: Seq<char>|
                p != path@ ==> (#[trigger] r.directories().contains_key(p)
                    == self.directories().contains_key(p) && (r.directories().contains_key(p)
                    ==> r.directories()[p] == self.directories()[p])),
            r.files() == self.files(),
            r.failures() == self.failures(),
    {
        let mut entries: Vec<String> = Vec::new();
        let mut i: usize = 0;
        while i < files.len()
            invariant
                i <= files.len(),
                entries@.len() == i,
                forall|j: int| 0 <= j < i ==> (#[trigger] entries@[j])@ == files@[j]@,
            decreases files.len() - i,
        {
            entries.push(owned(files[i]));
            i = i + 1;
        }
        let mut s = self;
        s.directories.insert(owned(path), entries);
        s
    }

    /// Makes every operation on `path` fail with `error`.
    pub fn with_failure(self, path: &str, error: &str) -> (r: Self)
        ensures
            r.failures() == self.failures().insert(path@, error@),
            r.files() == self.files(),
            r.directories() == self.directories(),
    {
        let mut s = self;
        s.should_fail.insert(owned(path), owned(error));
        s
    }

    fn check_failure(&self, path: &str) -> (r: Result<(), FsError>)
        ensures
            r is Ok <==> self.failure_at(path@) is None,
            r matches Err(e) ==> e matches FsError::Simulated(m) && Some(m@) == self.failure_at(
                path@,
            ),
    {
        match self.should_fail.get(path) {
            Some(m) => Err(FsError::Simulated(m.clone())),
            None => Ok(()),
        }
    }

    /// Records an empty directory at `path`.
    pub fn create_dir_all(&mut self, path: &str) -> (r: Result<(), FsError>)
        ensures
            r is Ok <==> old(self).failure_at(path@) is None,
            r is Ok ==> final(self).directories() == old(self).directories().insert(
                path@,
                Seq::<String>::empty(),
            ),
            r is Err ==> final(self).directories() == old(self).directories(),
            final(self).files() == old(self).files(),
            final(self).failures() == old(self).failures(),
    {
        self.check_failure(path)?;
        self.directories.insert(owned(path), Vec::new());
        Ok(())
    }

    /// Removes the file at `path`.
    pub fn remove_file(&mut self, path: &str) -> (r: Result<(), FsError>)
        ensures
            r is Ok <==> old(self).failure_at(path@) is None && old(self).files().contains_key(
                path@,
            ),
            old(self).failure_at(path@) is None && !old(self).files().contains_key(path@) ==> (r
                matches Err(e) && e matches FsError::FileNotFound(p) && p@ == path@),
            r is Ok ==> final(self).files() == old(self).files().remove(path@),
            r is Err ==> final(self).files() == old(self).files(),
            final(self).directories() == old(self).directories(),
            final(self).failures() == old(self).failures(),
    {
        self.check_failure(path)?;
        if self.files.contains_key(path) {
            self.files.remove(path);
            Ok(())
        } else {
            Err(FsError::FileNotFound(owned(path)))
        }
    }

    /// Removes the directory `path` and every file and directory under it.
    pub fn remove_dir_all(&mut self, path: &str) -> (r: Result<(), FsError>)
        ensures
            r is Ok <==> old(self).failure_at(path@) is None,
            r is Ok ==> final(self).files() == without_under(old(self).files(), path@)
                && final(self).directories() == without_under(old(self).directories(), path@),
            r is Err ==> final(self).files() == old(self).files() && final(self).directories()
                == old(self).directories(),
            final(self).failures() == old(self).failures(),
    {
        self.check_failure(path)?;
        self.directories.remove_under(path);
        self.files.remove_under(path);
        Ok(())
    }

    /// The content of the file at `path`.
    pub fn read_to_string(&self, path: &str) -> (r: Result<String, FsError>)
        ensures
            r is Ok <==> self.failure_at(path@) is None && self.files().contains_key(path@),
            r matches Ok(c) ==> c@ == self.files()[path@],
            self.failure_at(path@) is None && !self.files().contains_key(path@) ==> (r matches Err(
                e,
            ) && e matches FsError::FileNotFound(p) && p@ == path@),
    {
        self.check_failure(path)?;
        match self.files.get(path) {
            Some(c) => Ok(c.clone()),
            None => Err(FsError::FileNotFound(owned(path))),
        }
    }

    /// Writes `contents` to the file at `path`, creating or replacing it.
    pub fn write(&mut self, path: &str, contents: &str) -> (r: Result<(), FsError>)
        ensures
            r is Ok <==> old(self).failure_at(path@) is None,
            r is Ok ==> final(self).files() == old(self).files().insert(path@, contents@),
            r is Err ==> final(self).files() == old(self).files(),
            final(self).directories() == old(self).directories(),
            final(self).failures() == old(self).failures(),
    {
        self.check_failure(path)?;
        self.files.insert(owned(path), owned(contents));
        Ok(())
    }

    /// Copies the file `from` to `to` and returns the number of bytes
    /// copied.
    pub fn copy(&mut self, from: &str, to: &str) -> (r: Result<u64, FsError>)
        ensures
            r is Ok <==> old(self).failure_at(from@) is None && old(self).failure_at(to@) is None
                && old(self).files().contains_key(from@),
            r matches Ok(n) ==> n == utf8_len(old(self).files()[from@]) && final(self).files()
                == old(self).files().insert(to@, old(self).files()[from@]),
            r is Err ==> final(self).files() == old(self).files(),
            final(self).directories() == old(self).directories(),
            final(self).failures() == old(self).failures(),
    {
        self.check_failure(from)?;
        self.check_failure(to)?;
        let content = match self.files.get(from) {
            Some(c) => c.clone(),
            None => {
                return Err(FsError::SourceFileNotFound(owned(from)));
            },
        };
        let n = byte_len(content.as_str());
        self.files.insert(owned(to), content);
        Ok(n as u64)
    }

    /// Moves the file, or else the directory, at `from` to `to`.
    pub fn rename(&mut self, from: &str, to: &str) -> (r: Result<(), FsError>)
        ensures
            r is Ok <==> old(self).failure_at(from@) is None && old(self).failure_at(to@) is None
                && (old(self).files().contains_key(from@) || old(self).directories().contains_key(
                from@,
            )),
            r is Ok && old(self).files().contains_key(from@) ==> final(self).files() == old(self).files().remove(from@).insert(to@, old(self).files()[from@]) && final(self).directories()
                == old(self).directories(),
            r is Ok && !old(self).files().contains_key(from@) ==> final(self).directories() == old(self).directories().remove(from@).insert(to@, old(self).directories()[from@])
                && final(self).files() == old(self).files(),
            r is Err ==> final(self).files() == old(self).files() && final(self).directories()
                == old(self).directories(),
            final(self).failures() == old(self).failures(),
    {
        self.check_failure(from)?;
        self.check_failure(to)?;
        let file = match self.files.get(from) {
            Some(c) => Some(c.clone()),
            None => None,
        };
        match file {
            Some(c) => {
                self.files.remove(from);
                self.files.insert(owned(to), c);
                return Ok(());
            },
            None => {},
        }
        let dir = match self.directories.get(from) {
            Some(d) => Some(crate::string_map::Duplicate::duplicate(d)),
            None => None,
        };
        match dir {
            Some(d) => {
                self.directories.remove(from);
                self.directories.insert(owned(to), d);
                Ok(())
            },
            None => Err(FsError::SourceNotFound(owned(from))),
        }
    }

    /// The entries of the directory at `path`; the in-memory filesystem
    /// lists none.
    pub fn read_dir(&self, path: &str) -> (r: Result<Vec<String>, FsError>)
        ensures
            r is Ok <==> self.failure_at(path@) is None && self.directories().contains_key(path@),
            r matches Ok(v) ==> v@.len() == 0,
            self.failure_at(path@) is None && !self.directories().contains_key(path@) ==> (r
                matches Err(e) && e matches FsError::DirectoryNotFound(p) && p@ == path@),
    {
        self.check_failure(path)?;
        if self.directories.contains_key(path) {
            Ok(Vec::new())
        } else {
            Err(FsError::DirectoryNotFound(owned(path)))
        }
    }

    /// Whether a file or directory exists at `path`.
    pub fn path_exists(&self, path: &str) -> (r: bool)
        ensures
            r == (self.files().contains_key(path@) || self.directories().contains_key(path@)),
    {
        self.files.contains_key(path) || self.directories.contains_key(path)
    }

    /// Whether a file exists at `path`.
    pub fn is_file(&self, path: &str) -> (r: bool)
        ensures
            r == self.files().contains_key(path@),
    {
        self.files.contains_key(path)
    }

    /// Whether a directory exists at `path`.
    pub fn is_dir(&self, path: &str) -> (r: bool)
        ensures
            r == self.directories().contains_key(path@),
    {
        self.directories.contains_key(path)
    }
}

/// What a successful write puts at a path is what a read of that path
/// then gives, and other paths keep their contents.
pub proof fn law_read_after_write(
    before: MockFileSystem,
    after: MockFileSystem,
    path: Seq<char>,
    contents: Seq<char>,
    other: Seq<char>,
)
    requires
        before.failure_at(path) is None,
        after.files() == before.files().insert(path, contents),
        after.failures() == before.failures(),
    ensures
        after.failure_at(path) is None,
        after.files().contains_key(path),
        after.files()[path] == contents,
        other != path ==> after.files().contains_key(other) == before.files().contains_key(other)
            && (before.files().contains_key(other) ==> after.files()[other] == before.files()[other]),
{
}

/// After a successful removal the path is gone; removing a directory
/// removes every file and directory beneath it, and keeps every other path
/// (one that merely shares a text prefix included).
pub proof fn law_removed_paths_are_gone(
    before: MockFileSystem,
    after_file: MockFileSystem,
    after_dir: MockFileSystem,
    path: Seq<char>,
    below: Seq<char>,
    other: Seq<char>,
)
    requires
        lies_under(path, below),
        !lies_under(path, other),
        after_file.files() == before.files().remove(path),
        after_dir.files() == without_under(before.files(), path),
        after_dir.directories() == without_under(before.directories(), path),
    ensures
        !after_file.files().contains_key(path),
        !after_dir.files().contains_key(below),
        !after_dir.directories().contains_key(below),
        before.files().contains_key(other) ==> after_dir.files().contains_key(other),
        before.directories().contains_key(other) ==> after_dir.directories().contains_key(other),
{
}

} // verus!
