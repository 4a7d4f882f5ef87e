//! An in-memory file: a name together with its content bytes.
//!
//! Reading a file from disk is I/O and therefore lives outside this library;
//! callers load the bytes themselves and hand them over.

use vstd::prelude::*;

verus! {

/// What a file is to the specifications: its name and its bytes.
pub struct FileView {
    pub name: Seq<char>,
    pub content: Seq<u8>,
}

/// A named file held in memory, attached to requests as a multipart part.
#[derive(Clone, Debug, PartialEq, Eq)]
pub struct File {
    pub name: String,
    pub content: Vec<u8>,
}

impl View for File {
    type V = FileView;

    open spec fn view(&self) -> FileView {
        FileView { name: self.name@, content: self.content@ }
    }
}

impl File {
    /// Creates a file from its content and a name.
    pub fn from_content_with_name(content: &[u8], name: &str) -> (r: Self)
        ensures
            r@.name == name@,
            r@.content == content@,
    {
        File { name: name.to_string(), content: copy_byte_slice(content) }
    }

    /// The file's name.
    pub fn name(&self) -> (r: &str)
        ensures
            r@ == self@.name,
    {
        self.name.as_str()
    }

    /// The file's content.
    pub fn content(&self) -> (r: &[u8])
        ensures
            r@ == self@.content,
    {
        self.content.as_slice()
    }

    /// Returns a copy of the file with the same name and content.
    pub fn duplicate(&self) -> (r: Self)
        ensures
            r@ == self@,
    {
        File { name: self.name.clone(), content: clone_bytes(&self.content) }
    }
}

/// Collects the bytes of a slice into an owned vector.
fn copy_byte_slice(bytes: &[u8]) -> (r: Vec<u8>)
    ensures
        r@ == bytes@,
{
    let mut r: Vec<u8> = Vec::new();
    let mut i: usize = 0;
    while i < bytes.len()
        invariant
            i <= bytes@.len(),
            r@ == bytes@.subrange(0, i as int),
        decreases bytes@.len() - i,
    {
        r.push(bytes[i]);
        i = i + 1;
        proof {
            assert(r@ =~= bytes@.subrange(0, i as int));
        }
    }
    proof {
        assert(r@ =~= bytes@);
    }
    r
}

/// Copies a byte vector; unlike a bare `clone`, the contract states that the
/// copy holds the same bytes.
fn clone_bytes(bytes: &Vec<u8>) -> (r: Vec<u8>)
    ensures
        r@ == bytes@,
{
    let r = bytes.clone();
    proof {
        assert forall|i: int| 0 <= i < bytes@.len() implies r@[i] == bytes@[i] by {
            assert(cloned::<u8>(bytes[i], r[i]));
        }
        assert(r@ =~= bytes@);
    }
    r
}

} // verus!
