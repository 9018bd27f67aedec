use vstd::prelude::*;

verus! {

/// What a command-line user asks for: the path of the file to read.
#[derive(Debug, Clone, PartialEq, Eq)]
pub struct Options {
    pub input: String,
}

} // verus!
