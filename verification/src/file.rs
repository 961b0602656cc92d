//! A descriptive record for a file: a name, its bytes, and whether it
//! is open.  It carries no behaviour of its own; it exists so a caller
//! can describe a file and read those facts back.

use vstd::prelude::*;
use vstd::string::StringExecFns;

verus! {

/// Whether a file counts as open or closed.
#[derive(Clone, Copy, Debug, PartialEq, Eq, Structural)]
pub enum FileState {
    Open,
    Closed,
}

/// Ghost image of a [`File`].
#[verifier::ext_equal]
pub ghost struct FileView {
    pub name: Seq<char>,
    pub data: Seq<u8>,
    pub state: FileState,
}

/// Represents a file, which probably lives on a file system.
pub struct File {
    name: String,
    data: Vec<u8>,
    state: FileState,
}

impl View for File {
    type V = FileView;

    closed spec fn view(&self) -> FileView {
        FileView { name: self.name@, data: self.data@, state: self.state }
    }
}

impl File {
    /// New files are empty and closed, but a name is required.
    pub fn new(name: &str) -> (file: File)
        ensures
            file@.name == name@,
            file@.data.len() == 0,
            file@.state == FileState::Closed,
    {
        File { name: String::from_str(name), data: Vec::new(), state: FileState::Closed }
    }

    /// The file's length in bytes.
    pub fn len(&self) -> (n: usize)
        ensures
            n == self@.data.len(),
    {
        self.data.len()
    }

    /// The file's name.
    pub fn name(&self) -> (name: String)
        ensures
            name@ == self@.name,
    {
        self.name.clone()
    }

    /// Whether the file is open or closed.
    pub fn state(&self) -> (state: FileState)
        ensures
            state == self@.state,
    {
        self.state
    }
}

} // verus!
