//! A named byte buffer: the raw contents of one input file.

use vstd::prelude::*;

verus! {

/// An input file as handed to the decoder: a name and its raw bytes.
/// Immutable after construction.
pub struct File {
    pub name: String,
    pub contents: Vec<u8>,
}

impl File {
    pub fn new(name: String, contents: Vec<u8>) -> (r: Self)
        ensures
            r.name@ == name@,
            r.contents@ == contents@,
    {
        Self { name, contents }
    }
}

} // verus!
